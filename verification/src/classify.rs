//! Statement classification: a read statement begins (after leading
//! whitespace, ignoring ASCII case) with `select`, `with` or `pragma`;
//! everything else is treated as a write. This is a textual heuristic,
//! not a parser: a malformed statement surfaces as an execution-time
//! error, not a classification error.

use vstd::prelude::*;
use vstd::string::StrSliceExecFns;

verus! {

/// The whitespace characters: the ASCII ones and the Unicode
/// whitespace code points.
pub open spec fn is_space(c: char) -> bool {
    ||| c == ' '
    ||| c == '\u{9}'
    ||| c == '\u{A}'
    ||| c == '\u{B}'
    ||| c == '\u{C}'
    ||| c == '\u{D}'
    ||| c == '\u{85}'
    ||| c == '\u{A0}'
    ||| c == '\u{1680}'
    ||| c == '\u{2000}'
    ||| c == '\u{2001}'
    ||| c == '\u{2002}'
    ||| c == '\u{2003}'
    ||| c == '\u{2004}'
    ||| c == '\u{2005}'
    ||| c == '\u{2006}'
    ||| c == '\u{2007}'
    ||| c == '\u{2008}'
    ||| c == '\u{2009}'
    ||| c == '\u{200A}'
    ||| c == '\u{2028}'
    ||| c == '\u{2029}'
    ||| c == '\u{202F}'
    ||| c == '\u{205F}'
    ||| c == '\u{3000}'
}

/// The sequence with its leading whitespace removed.
pub open spec fn trim_start(s: Seq<char>) -> Seq<char>
    decreases s.len(),
{
    if s.len() > 0 && is_space(s[0]) {
        trim_start(s.drop_first())
    } else {
        s
    }
}

/// Whether `a` matches `b` ignoring ASCII case; `b` is expected to be a
/// lowercase ASCII letter.
pub open spec fn eq_ascii_ci(a: char, b: char) -> bool {
    a == b || a as u32 + 32 == b as u32
}

/// Whether `s` begins with the keyword `kw`, ignoring ASCII case.
pub open spec fn starts_with_ci(s: Seq<char>, kw: Seq<char>) -> bool {
    s.len() >= kw.len() && forall|i: int| 0 <= i < kw.len() ==> eq_ascii_ci(s[i], kw[i])
}

/// The classification rule: after leading whitespace, a read statement
/// begins with `select`, `with` or `pragma`, in any ASCII case.
pub open spec fn is_read_stmt(s: Seq<char>) -> bool {
    ||| starts_with_ci(trim_start(s), "select"@)
    ||| starts_with_ci(trim_start(s), "with"@)
    ||| starts_with_ci(trim_start(s), "pragma"@)
}

/// Where the first `i` characters are whitespace and the `i`-th is not,
/// trimming drops exactly those `i` characters.
proof fn lemma_trim_start_at(s: Seq<char>, i: int)
    requires
        0 <= i <= s.len(),
        forall|j: int| 0 <= j < i ==> is_space(s[j]),
        i < s.len() ==> !is_space(s[i]),
    ensures
        trim_start(s) == s.skip(i),
    decreases i,
{
    if i == 0 {
        assert(s.skip(0) =~= s);
    } else {
        lemma_trim_start_at(s.drop_first(), i - 1);
        assert(s.drop_first().skip(i - 1) =~= s.skip(i));
    }
}

/// Whether `c` is a whitespace character.
fn is_space_char(c: char) -> (r: bool)
    ensures
        r == is_space(c),
{
    c == ' ' || c == '\u{9}' || c == '\u{A}' || c == '\u{B}' || c == '\u{C}' || c == '\u{D}'
        || c == '\u{85}' || c == '\u{A0}' || c == '\u{1680}' || c == '\u{2000}' || c == '\u{2001}'
        || c == '\u{2002}' || c == '\u{2003}' || c == '\u{2004}' || c == '\u{2005}' || c
        == '\u{2006}' || c == '\u{2007}' || c == '\u{2008}' || c == '\u{2009}' || c == '\u{200A}'
        || c == '\u{2028}' || c == '\u{2029}' || c == '\u{202F}' || c == '\u{205F}' || c
        == '\u{3000}'
}

/// Whether `s`, from position `start` on, begins with `kw`, ignoring
/// ASCII case.
fn starts_with_ci_at(s: &str, start: usize, kw: &str) -> (r: bool)
    requires
        start <= s@.len(),
    ensures
        r == starts_with_ci(s@.skip(start as int), kw@),
{
    let n = s.unicode_len();
    let m = kw.unicode_len();
    if n - start < m {
        return false;
    }
    let mut j: usize = 0;
    while j < m
        invariant
            n == s@.len(),
            m == kw@.len(),
            start + m <= n,
            j <= m,
            forall|i: int| 0 <= i < j ==> eq_ascii_ci(s@.skip(start as int)[i], kw@[i]),
        decreases m - j,
    {
        let a = s.get_char(start + j);
        let b = kw.get_char(j);
        let hit = a == b || (a as u32) + 32 == (b as u32);
        if !hit {
            assert(!eq_ascii_ci(s@.skip(start as int)[j as int], kw@[j as int]));
            return false;
        }
        j += 1;
    }
    true
}

/// Classifies one statement: true means it is a read statement.
pub fn classify_is_read(sql: &str) -> (r: bool)
    ensures
        r == is_read_stmt(sql@),
{
    let n = sql.unicode_len();
    let mut i: usize = 0;
    while i < n && is_space_char(sql.get_char(i))
        invariant
            n == sql@.len(),
            i <= n,
            forall|j: int| 0 <= j < i ==> is_space(sql@[j]),
        decreases n - i,
    {
        i += 1;
    }
    proof {
        lemma_trim_start_at(sql@, i as int);
    }
    let read = starts_with_ci_at(sql, i, "select") || starts_with_ci_at(sql, i, "with")
        || starts_with_ci_at(sql, i, "pragma");
    read
}

} // verus!
