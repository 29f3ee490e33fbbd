//! The JSON text the service hands back: coerced column values, row
//! objects, and the two success payload shapes (read and write).
//!
//! Every rendering function is verified against a spec-level model of
//! the emitted text, so the payload of an envelope is pinned down
//! character by character.

use vstd::prelude::*;
use vstd::string::StrSliceExecFns;
use vstd::string::StringExecFns;

use crate::ext::b64_encode;
use crate::ext::b64_of;
use crate::ext::is_json_num_char;

verus! {

/// One column value of a result row, after coercion to a
/// JSON-representable value. A `Real` carries the cell's JSON number
/// token, already rendered at the trusted boundary, because a raw double
/// may not enter the library; a `Blob` is rendered as its base64 text.
#[derive(Debug, Clone, PartialEq, Eq)]
pub enum JsonCell {
    Text(String),
    Int(i64),
    Real(String),
    Blob(Vec<u8>),
    Null,
}

/// A well-shaped cell: its JSON text is a string literal, a number
/// token, or `null`. Text, integer, blob and null cells have that shape
/// by construction; a real cell has it when its token is non-empty and
/// drawn from the JSON number characters, as the trusted renderer
/// promises.
pub open spec fn cell_wf(c: JsonCell) -> bool {
    match c {
        JsonCell::Real(t) => t@.len() > 0 && (forall|k: int|
            0 <= k < t@.len() ==> is_json_num_char(t@[k])),
        _ => true,
    }
}

/// The sixteen lowercase hexadecimal digit characters; the first ten
/// double as the decimal digits.
pub open spec fn hex_digit(d: int) -> char {
    if d == 0 {
        '0'
    } else if d == 1 {
        '1'
    } else if d == 2 {
        '2'
    } else if d == 3 {
        '3'
    } else if d == 4 {
        '4'
    } else if d == 5 {
        '5'
    } else if d == 6 {
        '6'
    } else if d == 7 {
        '7'
    } else if d == 8 {
        '8'
    } else if d == 9 {
        '9'
    } else if d == 10 {
        'a'
    } else if d == 11 {
        'b'
    } else if d == 12 {
        'c'
    } else if d == 13 {
        'd'
    } else if d == 14 {
        'e'
    } else {
        'f'
    }
}

/// How one character is written inside a JSON string literal: quote and
/// backslash get a backslash escape, the common control characters get
/// their short escapes, the remaining control characters get the
/// four-digit unicode escape, and everything else stands as itself.
pub open spec fn escape_char(c: char) -> Seq<char> {
    if c == '"' {
        "\\\""@
    } else if c == '\\' {
        "\\\\"@
    } else if c == '\u{8}' {
        "\\b"@
    } else if c == '\u{9}' {
        "\\t"@
    } else if c == '\u{A}' {
        "\\n"@
    } else if c == '\u{C}' {
        "\\f"@
    } else if c == '\u{D}' {
        "\\r"@
    } else if (c as u32) < 32 {
        "\\u00"@ + seq![hex_digit((c as u32) as int / 16), hex_digit((c as u32) as int % 16)]
    } else {
        seq![c]
    }
}

/// A whole character sequence escaped for a JSON string literal.
pub open spec fn escape_seq(s: Seq<char>) -> Seq<char>
    decreases s.len(),
{
    if s.len() == 0 {
        Seq::empty()
    } else {
        escape_seq(s.drop_last()) + escape_char(s.last())
    }
}

/// A JSON string literal: the escaped characters between quotes.
pub open spec fn json_string(s: Seq<char>) -> Seq<char> {
    "\""@ + escape_seq(s) + "\""@
}

/// The decimal digits of a natural number, most significant first.
pub open spec fn dec_digits(n: nat) -> Seq<char>
    decreases n,
{
    if n < 10 {
        seq![hex_digit(n as int)]
    } else {
        dec_digits(n / 10) + seq![hex_digit((n % 10) as int)]
    }
}

/// The decimal token of an integer: a minus sign for negatives, then
/// the digits of the magnitude.
pub open spec fn int_token(n: int) -> Seq<char> {
    if n < 0 {
        "-"@ + dec_digits((-n) as nat)
    } else {
        dec_digits(n as nat)
    }
}

/// The JSON text of one coerced column value.
pub open spec fn json_of_cell(c: JsonCell) -> Seq<char> {
    match c {
        JsonCell::Text(s) => json_string(s@),
        JsonCell::Int(n) => int_token(n as int),
        JsonCell::Real(t) => t@,
        JsonCell::Blob(b) => json_string(b64_of(b@)),
        JsonCell::Null => "null"@,
    }
}

/// Sequence elements joined by commas.
pub open spec fn comma_join(elems: Seq<Seq<char>>) -> Seq<char>
    decreases elems.len(),
{
    if elems.len() == 0 {
        Seq::empty()
    } else if elems.len() == 1 {
        elems[0]
    } else {
        comma_join(elems.drop_last()) + ","@ + elems.last()
    }
}

/// One `"name":value` member of a row object.
pub open spec fn json_member(name: Seq<char>, c: JsonCell) -> Seq<char> {
    json_string(name) + ":"@ + json_of_cell(c)
}

/// The members of one row object, in column order.
pub open spec fn row_members(names: Seq<String>, cells: Seq<JsonCell>) -> Seq<Seq<char>> {
    Seq::new(cells.len(), |i: int| json_member(names[i]@, cells[i]))
}

/// One result row as a JSON object keyed by column name.
pub open spec fn json_of_row(names: Seq<String>, cells: Seq<JsonCell>) -> Seq<char> {
    "{"@ + comma_join(row_members(names, cells)) + "}"@
}

/// The row objects of a result, in reading order.
pub open spec fn row_elems(names: Seq<String>, rows: Seq<Vec<JsonCell>>) -> Seq<Seq<char>> {
    Seq::new(rows.len(), |i: int| json_of_row(names, rows[i]@))
}

/// The payload of a successful read: the rows array, then the row count.
pub open spec fn read_payload(names: Seq<String>, rows: Seq<Vec<JsonCell>>) -> Seq<char> {
    "{\"rows\":["@ + comma_join(row_elems(names, rows)) + "],\"count\":"@ + dec_digits(rows.len())
        + "}"@
}

/// The payload of a successful write: the changed-row count, then the
/// most recent insert identifier.
pub open spec fn write_payload(changed: nat, rowid: int) -> Seq<char> {
    "{\"rows_affected\":"@ + dec_digits(changed) + ",\"last_insert_rowid\":"@ + int_token(rowid)
        + "}"@
}

/// Joining one more element appends a comma (after the first) and the
/// element's text.
proof fn lemma_comma_join_push(elems: Seq<Seq<char>>, i: int)
    requires
        0 <= i < elems.len(),
    ensures
        i == 0 ==> comma_join(elems.take(1)) == elems[0],
        i > 0 ==> comma_join(elems.take(i + 1)) == comma_join(elems.take(i)) + ","@ + elems[i],
{
    assert(elems.take(i + 1).drop_last() =~= elems.take(i));
    assert(elems.take(i + 1).last() == elems[i]);
    if i == 0 {
        assert(comma_join(elems.take(1)) == elems.take(1)[0]);
    }
}

/// One hexadecimal digit as a string slice.
fn hex_digit_str(d: u8) -> (r: &'static str)
    requires
        d < 16,
    ensures
        r@ == seq![hex_digit(d as int)],
{
    proof {
        reveal_strlit("0");
        reveal_strlit("1");
        reveal_strlit("2");
        reveal_strlit("3");
        reveal_strlit("4");
        reveal_strlit("5");
        reveal_strlit("6");
        reveal_strlit("7");
        reveal_strlit("8");
        reveal_strlit("9");
        reveal_strlit("a");
        reveal_strlit("b");
        reveal_strlit("c");
        reveal_strlit("d");
        reveal_strlit("e");
        reveal_strlit("f");
    }
    let r: &'static str = match d {
        0 => "0",
        1 => "1",
        2 => "2",
        3 => "3",
        4 => "4",
        5 => "5",
        6 => "6",
        7 => "7",
        8 => "8",
        9 => "9",
        10 => "a",
        11 => "b",
        12 => "c",
        13 => "d",
        14 => "e",
        _ => "f",
    };
    proof {
        assert(r@ =~= seq![hex_digit(d as int)]);
    }
    r
}

/// Appends the escaped form of `s` to `out`.
pub fn escape_into(out: &mut String, s: &str)
    ensures
        final(out)@ == old(out)@ + escape_seq(s@),
{
    let n = s.unicode_len();
    let mut i: usize = 0;
    while i < n
        invariant
            n == s@.len(),
            i <= n,
            out@ == old(out)@ + escape_seq(s@.take(i as int)),
        decreases n - i,
    {
        let c = s.get_char(i);
        if c == '"' {
            out.append("\\\"");
        } else if c == '\\' {
            out.append("\\\\");
        } else if c == '\u{8}' {
            out.append("\\b");
        } else if c == '\u{9}' {
            out.append("\\t");
        } else if c == '\u{A}' {
            out.append("\\n");
        } else if c == '\u{C}' {
            out.append("\\f");
        } else if c == '\u{D}' {
            out.append("\\r");
        } else {
            let v = c as u32;
            if v < 32 {
                out.append("\\u00");
                out.append(hex_digit_str((v / 16) as u8));
                out.append(hex_digit_str((v % 16) as u8));
            } else {
                out.append(s.substring_char(i, i + 1));
                proof {
                    assert(s@.subrange(i as int, i as int + 1) =~= seq![s@[i as int]]);
                }
            }
        }
        proof {
            assert(s@.take(i as int + 1).drop_last() =~= s@.take(i as int));
            assert(s@.take(i as int + 1).last() == s@[i as int]);
            assert(out@ =~= old(out)@ + escape_seq(s@.take(i as int + 1)));
        }
        i += 1;
    }
    proof {
        assert(s@.take(n as int) =~= s@);
    }
}

/// The decimal rendering of an unsigned machine integer.
pub fn u64_token(n: u64) -> (r: String)
    ensures
        r@ == dec_digits(n as nat),
    decreases n,
{
    if n < 10 {
        String::from_str(hex_digit_str(n as u8))
    } else {
        let mut s = u64_token(n / 10);
        s.append(hex_digit_str((n % 10) as u8));
        s
    }
}

/// The decimal rendering of a signed machine integer.
pub fn i64_token(n: i64) -> (r: String)
    ensures
        r@ == int_token(n as int),
{
    if n >= 0 {
        u64_token(n as u64)
    } else {
        let wide: i128 = n as i128;
        let mag: u64 = (-wide) as u64;
        proof {
            assert(mag as nat == (-(n as int)) as nat);
        }
        let mut s = String::from_str("-");
        let digits = u64_token(mag);
        s.append(digits.as_str());
        s
    }
}

/// The decimal rendering of a length.
pub fn usize_token(n: usize) -> (r: String)
    ensures
        r@ == dec_digits(n as nat),
{
    u64_token(n as u64)
}

/// Appends the JSON text of one coerced column value to `out`.
pub fn cell_into(out: &mut String, c: &JsonCell)
    ensures
        final(out)@ == old(out)@ + json_of_cell(*c),
{
    match c {
        JsonCell::Text(s) => {
            out.append("\"");
            escape_into(out, s.as_str());
            out.append("\"");
        },
        JsonCell::Int(n) => {
            let t = i64_token(*n);
            out.append(t.as_str());
        },
        JsonCell::Real(t) => {
            out.append(t.as_str());
        },
        JsonCell::Blob(b) => {
            let enc = b64_encode(b.as_slice());
            out.append("\"");
            escape_into(out, enc.as_str());
            out.append("\"");
        },
        JsonCell::Null => {
            out.append("null");
        },
    }
}

/// Appends one result row, as a JSON object keyed by column name, to
/// `out`.
pub fn row_into(out: &mut String, names: &Vec<String>, cells: &Vec<JsonCell>)
    requires
        names@.len() == cells@.len(),
    ensures
        final(out)@ == old(out)@ + json_of_row(names@, cells@),
{
    out.append("{");
    let ghost members = row_members(names@, cells@);
    let n = cells.len();
    let mut i: usize = 0;
    while i < n
        invariant
            n == cells@.len(),
            names@.len() == cells@.len(),
            i <= n,
            members == row_members(names@, cells@),
            out@ == old(out)@ + "{"@ + comma_join(members.take(i as int)),
        decreases n - i,
    {
        if i > 0 {
            out.append(",");
        }
        out.append("\"");
        escape_into(out, names[i].as_str());
        out.append("\"");
        out.append(":");
        cell_into(out, &cells[i]);
        proof {
            lemma_comma_join_push(members, i as int);
            assert(members[i as int] == json_member(names@[i as int]@, cells@[i as int]));
            assert(out@ =~= old(out)@ + "{"@ + comma_join(members.take(i as int + 1)));
        }
        i += 1;
    }
    proof {
        assert(members.take(n as int) =~= members);
    }
    out.append("}");
}

/// Builds the payload of a successful read: every row in reading order,
/// then the row count.
pub fn read_payload_text(names: &Vec<String>, rows: &Vec<Vec<JsonCell>>) -> (r: String)
    requires
        forall|i: int| 0 <= i < rows@.len() ==> rows@[i]@.len() == names@.len(),
    ensures
        r@ == read_payload(names@, rows@),
{
    let mut out = String::from_str("{\"rows\":[");
    let ghost elems = row_elems(names@, rows@);
    let ghost prefix = out@;
    let n = rows.len();
    let mut i: usize = 0;
    while i < n
        invariant
            n == rows@.len(),
            forall|j: int| 0 <= j < rows@.len() ==> rows@[j]@.len() == names@.len(),
            i <= n,
            elems == row_elems(names@, rows@),
            prefix == "{\"rows\":["@,
            out@ == prefix + comma_join(elems.take(i as int)),
        decreases n - i,
    {
        if i > 0 {
            out.append(",");
        }
        row_into(&mut out, names, &rows[i]);
        proof {
            lemma_comma_join_push(elems, i as int);
            assert(elems[i as int] == json_of_row(names@, rows@[i as int]@));
            assert(out@ =~= prefix + comma_join(elems.take(i as int + 1)));
        }
        i += 1;
    }
    proof {
        assert(elems.take(n as int) =~= elems);
    }
    out.append("],\"count\":");
    let count = usize_token(rows.len());
    out.append(count.as_str());
    out.append("}");
    out
}

/// Builds the payload of a successful write: the changed-row count and
/// the most recent insert identifier.
pub fn write_payload_text(changed: usize, rowid: i64) -> (r: String)
    ensures
        r@ == write_payload(changed as nat, rowid as int),
{
    let mut out = String::from_str("{\"rows_affected\":");
    let ct = usize_token(changed);
    out.append(ct.as_str());
    out.append(",\"last_insert_rowid\":");
    let rt = i64_token(rowid);
    out.append(rt.as_str());
    out.append("}");
    out
}

} // verus!
