//! The uniform result envelope: exactly one of payload and error text is
//! present, a success flag, and an affected-row count.

use vstd::prelude::*;
use vstd::string::StringExecFns;

use crate::jsontext::JsonCell;
use crate::jsontext::read_payload;
use crate::jsontext::read_payload_text;
use crate::jsontext::write_payload;
use crate::jsontext::write_payload_text;

verus! {

/// One execution outcome. On success `json_data` carries a non-empty
/// JSON payload and `error_message` is absent; on failure `json_data` is
/// absent, `error_message` carries a non-empty text, and `rows_affected`
/// is zero.
#[derive(Debug, Clone, PartialEq, Eq)]
pub struct SQLResult {
    pub json_data: Option<String>,
    pub error_message: Option<String>,
    pub success: bool,
    pub rows_affected: i64,
}

impl SQLResult {
    /// The outcome convention: exactly one of the two text fields is
    /// meaningful, and a failure affects no rows.
    pub open spec fn wf(self) -> bool {
        &&& (self.success ==> {
            &&& self.json_data matches Some(p) && p@.len() > 0
            &&& self.error_message is None
            &&& self.rows_affected >= 0
        })
        &&& (!self.success ==> {
            &&& self.json_data is None
            &&& self.error_message matches Some(e) && e@.len() > 0
            &&& self.rows_affected == 0
        })
    }
}

/// Whether `s` begins with `p`.
pub open spec fn has_prefix(s: Seq<char>, p: Seq<char>) -> bool {
    s.len() >= p.len() && s.subrange(0, p.len() as int) == p
}

/// A failure envelope carrying the given error text.
pub fn failure_result(msg: String) -> (r: SQLResult)
    requires
        msg@.len() > 0,
    ensures
        r.wf(),
        !r.success,
        r.error_message matches Some(e) && e@ == msg@,
        r.rows_affected == 0,
        r.json_data is None,
{
    SQLResult { json_data: None, error_message: Some(msg), success: false, rows_affected: 0 }
}

/// A failure envelope whose text is a fixed prefix followed by the
/// engine's own error description.
pub fn failure_with_detail(prefix: &str, detail: String) -> (r: SQLResult)
    requires
        prefix@.len() > 0,
    ensures
        r.wf(),
        !r.success,
        r.error_message matches Some(e) && e@ == prefix@ + detail@,
        r.error_message matches Some(e) && has_prefix(e@, prefix@),
        r.rows_affected == 0,
        r.json_data is None,
{
    proof {
        assert((prefix@ + detail@).subrange(0, prefix@.len() as int) =~= prefix@);
    }
    let msg = String::from_str(prefix).concat(detail.as_str());
    failure_result(msg)
}

/// The success envelope of a read: the rows payload, and the row count
/// as the affected-row figure.
pub fn read_result(names: &Vec<String>, rows: &Vec<Vec<JsonCell>>) -> (r: SQLResult)
    requires
        forall|i: int| 0 <= i < rows@.len() ==> rows@[i]@.len() == names@.len(),
        rows@.len() <= i64::MAX,
    ensures
        r.wf(),
        r.success,
        r.json_data matches Some(p) && p@ == read_payload(names@, rows@),
        r.rows_affected == rows@.len(),
        r.error_message is None,
{
    let payload = read_payload_text(names, rows);
    proof {
        reveal_strlit("{\"rows\":[");
    }
    SQLResult {
        json_data: Some(payload),
        error_message: None,
        success: true,
        rows_affected: rows.len() as i64,
    }
}

/// The success envelope of a write: the changed-row count and the most
/// recent insert identifier.
pub fn write_result(changed: usize, rowid: i64) -> (r: SQLResult)
    requires
        changed <= i64::MAX,
    ensures
        r.wf(),
        r.success,
        r.json_data matches Some(p) && p@ == write_payload(changed as nat, rowid as int),
        r.rows_affected == changed,
        r.error_message is None,
{
    let payload = write_payload_text(changed, rowid);
    proof {
        reveal_strlit("{\"rows_affected\":");
    }
    SQLResult {
        json_data: Some(payload),
        error_message: None,
        success: true,
        rows_affected: changed as i64,
    }
}

} // verus!
