//! The continue/exit sentinel of the interactive loop.
//!
//! After every turn the user is asked for one more line: the exact literal
//! `"0"`, once surrounding whitespace is trimmed, means "continue"; any other
//! line ends the loop.

use vstd::prelude::*;

verus! {

/// The whitespace characters that trimming removes: the Unicode
/// `White_Space` set, as `str::trim` uses it.
pub open spec fn is_ws_char(c: char) -> bool {
    c == ' ' || c == '\t' || c == '\n' || c == '\r' || c == '\u{000B}' || c == '\u{000C}'
        || c == '\u{0085}' || c == '\u{00A0}' || c == '\u{1680}' || c == '\u{2000}'
        || c == '\u{2001}' || c == '\u{2002}' || c == '\u{2003}' || c == '\u{2004}'
        || c == '\u{2005}' || c == '\u{2006}' || c == '\u{2007}' || c == '\u{2008}'
        || c == '\u{2009}' || c == '\u{200A}' || c == '\u{2028}' || c == '\u{2029}'
        || c == '\u{202F}' || c == '\u{205F}' || c == '\u{3000}'
}

/// `s` with its leading whitespace removed.
pub open spec fn ltrim(s: Seq<char>) -> Seq<char>
    decreases s.len(),
{
    if s.len() > 0 && is_ws_char(s[0]) {
        ltrim(s.subrange(1, s.len() as int))
    } else {
        s
    }
}

/// `s` with its trailing whitespace removed.
pub open spec fn rtrim(s: Seq<char>) -> Seq<char>
    decreases s.len(),
{
    if s.len() > 0 && is_ws_char(s[s.len() - 1]) {
        rtrim(s.subrange(0, s.len() - 1))
    } else {
        s
    }
}

/// `s` with whitespace removed from both ends, as `str::trim` leaves it.
pub open spec fn trimmed(s: Seq<char>) -> Seq<char> {
    rtrim(ltrim(s))
}

/// Whether `c` is one of the whitespace characters that trimming removes.
pub fn is_space(c: char) -> (r: bool)
    ensures
        r == is_ws_char(c),
{
    c == ' ' || c == '\t' || c == '\n' || c == '\r' || c == '\u{000B}' || c == '\u{000C}'
        || c == '\u{0085}' || c == '\u{00A0}' || c == '\u{1680}' || c == '\u{2000}'
        || c == '\u{2001}' || c == '\u{2002}' || c == '\u{2003}' || c == '\u{2004}'
        || c == '\u{2005}' || c == '\u{2006}' || c == '\u{2007}' || c == '\u{2008}'
        || c == '\u{2009}' || c == '\u{200A}' || c == '\u{2028}' || c == '\u{2029}'
        || c == '\u{202F}' || c == '\u{205F}' || c == '\u{3000}'
}

/// If the first `i` characters of `s` are whitespace and the character at `i`
/// (when there is one) is not, then trimming the left end drops exactly those
/// `i` characters.
proof fn lemma_ltrim_prefix(s: Seq<char>, i: int)
    requires
        0 <= i <= s.len(),
        forall|k: int| 0 <= k < i ==> is_ws_char(s[k]),
        i == s.len() || !is_ws_char(s[i]),
    ensures
        ltrim(s) == s.subrange(i, s.len() as int),
    decreases i,
{
    if i == 0 {
        assert(s.subrange(0, s.len() as int) =~= s);
    } else {
        let s1 = s.subrange(1, s.len() as int);
        lemma_ltrim_prefix(s1, i - 1);
        assert(s1.subrange(i - 1, s1.len() as int) =~= s.subrange(i, s.len() as int));
    }
}

/// If every character of `s` from position `j` on is whitespace and the
/// character just before `j` (when there is one) is not, then trimming the
/// right end keeps exactly the first `j` characters.
proof fn lemma_rtrim_suffix(s: Seq<char>, j: int)
    requires
        0 <= j <= s.len(),
        forall|k: int| j <= k < s.len() ==> is_ws_char(s[k]),
        j == 0 || !is_ws_char(s[j - 1]),
    ensures
        rtrim(s) == s.subrange(0, j),
    decreases s.len(),
{
    if j == s.len() {
        assert(s.subrange(0, j) =~= s);
    } else {
        let s1 = s.subrange(0, s.len() - 1);
        lemma_rtrim_suffix(s1, j);
        assert(s1.subrange(0, j) =~= s.subrange(0, j));
    }
}

/// The sentinel check of the interactive loop: `true` exactly when the input,
/// once trimmed of surrounding whitespace, is the literal `"0"`. Trimming
/// happens before the comparison, so `" 0 "` still means "continue", while
/// `"1"`, `""`, `"no"` and every other line mean "stop".
pub fn should_continue(input: &str) -> (r: bool)
    ensures
        r == (trimmed(input@) == seq!['0']),
{
    let n = input.unicode_len();
    let mut lo: usize = 0;
    while lo < n && is_space(input.get_char(lo))
        invariant
            0 <= lo <= n,
            n == input@.len(),
            forall|k: int| 0 <= k < lo ==> is_ws_char(input@[k]),
        decreases n - lo,
    {
        lo = lo + 1;
    }
    let mut hi: usize = n;
    while hi > lo && is_space(input.get_char(hi - 1))
        invariant
            lo <= hi <= n,
            n == input@.len(),
            forall|k: int| hi <= k < n ==> is_ws_char(input@[k]),
        decreases hi,
    {
        hi = hi - 1;
    }
    proof {
        lemma_ltrim_prefix(input@, lo as int);
        let mid = input@.subrange(lo as int, n as int);
        lemma_rtrim_suffix(mid, hi - lo);
        assert(mid.subrange(0, hi - lo) =~= input@.subrange(lo as int, hi as int));
        assert(trimmed(input@) == input@.subrange(lo as int, hi as int));
    }
    if hi - lo == 1 {
        let c = input.get_char(lo);
        proof {
            assert(input@.subrange(lo as int, hi as int) =~= seq![input@[lo as int]]);
        }
        c == '0'
    } else {
        proof {
            assert(input@.subrange(lo as int, hi as int).len() != 1);
            assert(seq!['0'].len() == 1);
        }
        false
    }
}

} // verus!
