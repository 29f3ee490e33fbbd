//! Trusted declarations for the outside crates the service is built on:
//! the SQLite binding (`rusqlite`), the JSON number renderer
//! (`serde_json`), and the base64 encoder (`base64`).
//!
//! Every function here is `external_body`: its body makes one outside
//! call, and its contract states only what the outside crate's source
//! shows. Results that depend on the database file on disk get no
//! promise beyond their shape; callers must handle every outcome.

use base64::Engine;
use vstd::prelude::*;

verus! {

#[verifier::external_type_specification]
#[verifier::external_body]
pub struct ExConnection(rusqlite::Connection);

#[verifier::external_type_specification]
#[verifier::external_body]
pub struct ExStatement<'a>(rusqlite::Statement<'a>);

#[verifier::external_type_specification]
#[verifier::external_body]
pub struct ExRows<'a>(rusqlite::Rows<'a>);

#[verifier::external_type_specification]
#[verifier::external_body]
pub struct ExRow<'a>(rusqlite::Row<'a>);

#[verifier::external_type_specification]
#[verifier::external_body]
pub struct ExSqliteError(rusqlite::Error);

/// Relies on `rusqlite::Connection::open`: opens (or creates) a database
/// file at `path`. Whether it succeeds depends on the file system, so
/// nothing is promised of the outcome.
#[verifier::external_body]
pub(crate) fn conn_open(path: &str) -> Result<rusqlite::Connection, rusqlite::Error> {
    rusqlite::Connection::open(path)
}

/// Relies on `rusqlite::Connection::pragma_update`: issues
/// `PRAGMA <name> = <value>` against the connection. The outcome depends
/// on the underlying database engine.
#[verifier::external_body]
pub(crate) fn conn_pragma_update(
    conn: &rusqlite::Connection,
    name: &str,
    value: &str,
) -> Result<(), rusqlite::Error> {
    conn.pragma_update(None, name, value)
}

/// Relies on `rusqlite::Connection::execute` with no parameters: runs one
/// statement and, on success, returns the number of rows changed. The
/// outcome depends on the statement and the data on disk.
#[verifier::external_body]
pub(crate) fn conn_execute(
    conn: &rusqlite::Connection,
    sql: &str,
) -> Result<usize, rusqlite::Error> {
    conn.execute(sql, [])
}

/// Relies on `rusqlite::Connection::last_insert_rowid`: the row id of the
/// most recent successful insert on this connection.
#[verifier::external_body]
pub(crate) fn conn_last_insert_rowid(conn: &rusqlite::Connection) -> i64 {
    conn.last_insert_rowid()
}

/// Relies on `rusqlite::Connection::prepare`: compiles one statement.
/// Success depends on the statement text and the schema on disk.
#[verifier::external_body]
pub(crate) fn conn_prepare<'c>(
    conn: &'c rusqlite::Connection,
    sql: &str,
) -> Result<rusqlite::Statement<'c>, rusqlite::Error> {
    conn.prepare(sql)
}

/// Relies on `rusqlite::Statement::column_count`: the number of columns
/// the prepared statement will return.
#[verifier::external_body]
pub(crate) fn stmt_column_count(stmt: &rusqlite::Statement<'_>) -> usize {
    stmt.column_count()
}

/// Relies on `rusqlite::Statement::column_name`: the declared name of one
/// result column, or `None` where the index is out of range. The call
/// converts the name with an `expect` and so panics on a column name
/// that is not valid UTF-8 (a database file written by another program
/// can carry one); no public path of the crate hands the name back
/// without that conversion, catching an unwind is not available to this
/// library, and the panicking input is a property of the file on disk,
/// not of this function's arguments, so it cannot be excluded by a
/// precondition. Every caller of the service inherits that one panic;
/// every other engine failure comes back as a failure envelope.
#[verifier::external_body]
pub(crate) fn stmt_column_name(stmt: &rusqlite::Statement<'_>, i: usize) -> Option<String> {
    match stmt.column_name(i) {
        Ok(s) => Some(s.to_string()),
        Err(_) => None,
    }
}

/// Relies on `rusqlite::Statement::query` with no parameters: starts the
/// statement and hands back its row cursor.
#[verifier::external_body]
pub(crate) fn stmt_query<'a, 'c>(
    stmt: &'a mut rusqlite::Statement<'c>,
) -> Result<rusqlite::Rows<'a>, rusqlite::Error> {
    stmt.query([])
}

/// Relies on `rusqlite::Rows::next`: the next row of the result, `None`
/// when the rows are exhausted, or the engine's error. What comes back
/// depends on the data on disk.
#[verifier::external_body]
pub(crate) fn rows_next<'a, 'c>(
    rows: &'a mut rusqlite::Rows<'c>,
) -> Result<Option<&'a rusqlite::Row<'c>>, rusqlite::Error> {
    rows.next()
}

/// Relies on `rusqlite::Row::get_ref` and `ValueRef::as_str`: the cell
/// at column `i` read as text, or `None` where the cell has no text
/// reading (it holds another type, the text is not valid UTF-8, or the
/// index is out of range). Neither call panics.
#[verifier::external_body]
pub(crate) fn row_get_text(row: &rusqlite::Row<'_>, i: usize) -> Option<String> {
    match row.get_ref(i) {
        Ok(v) => match v.as_str() {
            Ok(s) => Some(s.to_string()),
            Err(_) => None,
        },
        Err(_) => None,
    }
}

/// Relies on `rusqlite::Row::get_ref` and `ValueRef::as_i64`: the cell
/// at column `i` read as a 64-bit integer, or `None` where it has no
/// integer reading. Neither call panics.
#[verifier::external_body]
pub(crate) fn row_get_int(row: &rusqlite::Row<'_>, i: usize) -> Option<i64> {
    match row.get_ref(i) {
        Ok(v) => v.as_i64().ok(),
        Err(_) => None,
    }
}

/// The characters a JSON number token is written with: the digits, the
/// sign characters, the decimal point, and the exponent marker.
pub open spec fn is_json_num_char(c: char) -> bool {
    ||| (48 <= c as u32 && c as u32 <= 57)
    ||| c == '-'
    ||| c == '+'
    ||| c == '.'
    ||| c == 'e'
}

/// Relies on `rusqlite::Row::get_ref` and `serde_json::Number::from_f64`:
/// where the cell at column `i` holds a double, the outer option is
/// `Some`; the inner option then holds the double's JSON number token —
/// non-empty, drawn from the JSON number characters — and is `None`
/// where the double has no JSON representation (an infinity or a
/// not-a-number; `from_f64` accepts exactly the finite doubles, and the
/// finite rendering emits digits, signs, a point, and the exponent
/// marker). The two calls stand in one body because a double may not
/// cross into the verified library. Neither call panics.
#[verifier::external_body]
pub(crate) fn row_get_real_token(row: &rusqlite::Row<'_>, i: usize) -> (r: Option<Option<String>>)
    ensures
        r matches Some(t) ==> (t matches Some(tok) ==> tok@.len() > 0 && (forall|k: int|
            0 <= k < tok@.len() ==> is_json_num_char(tok@[k]))),
{
    match row.get_ref(i) {
        Ok(rusqlite::types::ValueRef::Real(v)) => {
            Some(serde_json::Number::from_f64(v).map(|n| n.to_string()))
        }
        _ => None,
    }
}

/// Relies on `rusqlite::Row::get_ref` and `ValueRef::as_blob`: the cell
/// at column `i` read as a binary blob, or `None` where it has no blob
/// reading. Neither call panics.
#[verifier::external_body]
pub(crate) fn row_get_blob(row: &rusqlite::Row<'_>, i: usize) -> Option<Vec<u8>> {
    match row.get_ref(i) {
        Ok(v) => match v.as_blob() {
            Ok(b) => Some(b.to_vec()),
            Err(_) => None,
        },
        Err(_) => None,
    }
}

/// Relies on `rusqlite::Error`'s `Display` impl: a human-readable
/// description of the engine's error.
#[verifier::external_body]
pub(crate) fn sqlite_error_text(e: &rusqlite::Error) -> String {
    format!("{}", e)
}

/// What the standard base64 alphabet, with padding, makes of a byte
/// sequence. The rendering is a function of the bytes alone.
pub uninterp spec fn b64_of(b: Seq<u8>) -> Seq<char>;

/// The characters base64 output is drawn from: the ASCII letters, the
/// digits, `+`, `/`, and the `=` padding.
pub open spec fn is_b64_char(c: char) -> bool {
    ||| (65 <= c as u32 && c as u32 <= 90)
    ||| (97 <= c as u32 && c as u32 <= 122)
    ||| (48 <= c as u32 && c as u32 <= 57)
    ||| c == '+'
    ||| c == '/'
    ||| c == '='
}

/// Relies on `base64::engine::general_purpose::STANDARD.encode`: the
/// standard-alphabet, padded base64 rendering of the bytes, a function of
/// the bytes alone; an empty input encodes to the empty string, and every
/// output character is drawn from the standard alphabet or the padding.
#[verifier::external_body]
pub(crate) fn b64_encode(b: &[u8]) -> (r: String)
    ensures
        r@ == b64_of(b@),
        b@.len() == 0 ==> r@.len() == 0,
        forall|i: int| 0 <= i < r@.len() ==> is_b64_char(r@[i]),
{
    base64::engine::general_purpose::STANDARD.encode(b)
}

} // verus!
