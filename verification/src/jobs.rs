//! The callback registry of the async dispatcher: pending completion
//! callbacks keyed by job identifier. Identifiers start at 1 and grow by
//! one per submission; each entry is removed exactly once, by whichever
//! worker completes the job, immediately before the callback fires.
//!
//! The registry stores the callbacks as opaque values: the boundary
//! layer decides what a callback is and runs the workers; the
//! bookkeeping here is what keeps delivery at-most-once.

use std::collections::HashMap;

use vstd::prelude::*;

verus! {

broadcast use vstd::std_specs::hash::group_hash_axioms;

/// Pending jobs: identifier to stored callback, plus the next free
/// identifier.
#[verifier::reject_recursive_types(C)]
pub struct JobRegistry<C> {
    jobs: HashMap<i64, C>,
    next_id: i64,
}

impl<C> JobRegistry<C> {
    /// The pending jobs as a map.
    pub closed spec fn jobs_map(self) -> Map<i64, C> {
        self.jobs@
    }

    /// The identifier the next submission will get.
    pub closed spec fn next(self) -> int {
        self.next_id as int
    }

    /// Every pending identifier was issued before the next one: they lie
    /// in `[1, next)`.
    pub open spec fn wf(self) -> bool {
        &&& 1 <= self.next()
        &&& forall|k: i64| self.jobs_map().contains_key(k) ==> 1 <= k < self.next()
    }

    /// An empty registry; the first job will be number 1.
    pub fn new() -> (r: JobRegistry<C>)
        ensures
            r.wf(),
            r.jobs_map() == Map::<i64, C>::empty(),
            r.next() == 1,
    {
        JobRegistry { jobs: HashMap::new(), next_id: 1 }
    }

    /// Allocates a fresh job identifier, stores the callback under it,
    /// and returns the identifier at once — never an identifier already
    /// pending.
    pub fn submit(&mut self, callback: C) -> (id: i64)
        requires
            old(self).wf(),
            old(self).next() < i64::MAX,
        ensures
            final(self).wf(),
            id == old(self).next(),
            !old(self).jobs_map().contains_key(id),
            final(self).jobs_map() == old(self).jobs_map().insert(id, callback),
            final(self).next() == old(self).next() + 1,
    {
        let id = self.next_id;
        self.next_id = self.next_id + 1;
        self.jobs.insert(id, callback);
        proof {
            assert forall|k: i64| self.jobs@.contains_key(k) implies 1 <= k < self.next_id as int by {
                if k != id {
                    assert(old(self).jobs_map().contains_key(k));
                }
            }
        }
        id
    }

    /// Removes and returns the callback stored under `id`. At most one
    /// caller can ever receive it: after this call the entry is gone,
    /// and a second call for the same identifier returns nothing.
    pub fn complete(&mut self, id: i64) -> (cb: Option<C>)
        ensures
            final(self).jobs_map() == old(self).jobs_map().remove(id),
            final(self).next() == old(self).next(),
            cb matches Some(c) ==> old(self).jobs_map().contains_key(id) && c == old(
                self,
            ).jobs_map()[id],
            cb is None ==> !old(self).jobs_map().contains_key(id),
            old(self).wf() ==> final(self).wf(),
    {
        self.jobs.remove(&id)
    }

    /// The identifier the next submission will receive.
    pub fn next_job_id(&self) -> (id: i64)
        ensures
            id == self.next(),
    {
        self.next_id
    }

    /// How many jobs are pending.
    pub fn pending(&self) -> (n: usize)
        ensures
            n == self.jobs_map().len(),
    {
        self.jobs.len()
    }
}

} // verus!
