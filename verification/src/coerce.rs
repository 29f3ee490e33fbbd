//! The value coercion pipeline: one cell is read in a fixed priority
//! order — text, then 64-bit integer, then double, then blob — and falls
//! back to JSON null. The order is a policy choice: it resolves
//! storage/affinity ambiguity the same way on every run.

use vstd::prelude::*;
use vstd::string::StringExecFns;

use crate::jsontext::JsonCell;

verus! {

/// Picks the JSON value of one cell from its attempted readings, in the
/// fixed priority order. `real_token` is doubly optional: the outer level says
/// whether the cell holds a double, the inner level holds its rendered
/// token, absent where the double has no JSON form — that case falls
/// back to the literal `0`.
pub fn coerce_cell(
    text: Option<String>,
    integer: Option<i64>,
    real_token: Option<Option<String>>,
    blob: Option<Vec<u8>>,
) -> (c: JsonCell)
    ensures
        text matches Some(s) ==> c == JsonCell::Text(s),
        text is None ==> (integer matches Some(n) ==> c == JsonCell::Int(n)),
        text is None && integer is None ==> (real_token matches Some(t) ==> (t matches Some(tok) ==> c
            == JsonCell::Real(tok))),
        text is None && integer is None ==> (real_token == Some(Option::<String>::None) ==> (
        c matches JsonCell::Real(z) && z@ == "0"@)),
        text is None && integer is None && real_token is None ==> (blob matches Some(b) ==> c
            == JsonCell::Blob(b)),
        text is None && integer is None && real_token is None && blob is None ==> c == JsonCell::Null,
        c matches JsonCell::Real(z) ==> (real_token == Some(Some(z)) || (real_token == Some(
        Option::<String>::None,
        ) && z@ == "0"@)),
{
    match text {
        Some(s) => JsonCell::Text(s),
        None => match integer {
            Some(n) => JsonCell::Int(n),
            None => match real_token {
                Some(Some(tok)) => JsonCell::Real(tok),
                Some(None) => JsonCell::Real(String::from_str("0")),
                None => match blob {
                    Some(b) => JsonCell::Blob(b),
                    None => JsonCell::Null,
                },
            },
        },
    }
}

} // verus!
