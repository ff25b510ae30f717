//! Verified character-level string operations: prefix tests, equality,
//! prefix stripping and single-character replacement, each specified over
//! the `Seq<char>` view of the string.

use vstd::prelude::*;

verus! {

/// `p` is a prefix of `s`.
pub open spec fn starts_with(s: Seq<char>, p: Seq<char>) -> bool {
    p.len() <= s.len() && s.subrange(0, p.len() as int) == p
}

/// `s` with every occurrence of `from` replaced by `to`.
pub open spec fn replace_seq(s: Seq<char>, from: char, to: char) -> Seq<char> {
    s.map_values(|c: char| if c == from { to } else { c })
}

/// Relies on `String::push`: appends the single character `c` at the end
/// of the string.
#[verifier::external_body]
fn push_char(s: &mut String, c: char)
    ensures
        final(s)@ == old(s)@.push(c),
{
    s.push(c);
}

/// True exactly when `p` is a prefix of `s`.
pub fn str_starts_with(s: &str, p: &str) -> (r: bool)
    ensures
        r == starts_with(s@, p@),
{
    let n: usize = p.unicode_len();
    let m: usize = s.unicode_len();
    if n > m {
        return false;
    }
    let mut i: usize = 0;
    while i < n
        invariant
            i <= n,
            n <= m,
            n == p@.len(),
            m == s@.len(),
            forall|j: int| 0 <= j < i ==> s@[j] == p@[j],
        decreases n - i,
    {
        if s.get_char(i) != p.get_char(i) {
            proof {
                assert(s@.subrange(0, n as int)[i as int] != p@[i as int]);
            }
            return false;
        }
        i = i + 1;
    }
    proof {
        assert(s@.subrange(0, n as int) =~= p@);
    }
    true
}

/// True exactly when the two strings hold the same characters.
pub fn str_eq(s: &str, t: &str) -> (r: bool)
    ensures
        r == (s@ == t@),
{
    let n: usize = s.unicode_len();
    let m: usize = t.unicode_len();
    if n != m {
        return false;
    }
    let mut i: usize = 0;
    while i < n
        invariant
            i <= n,
            n == s@.len(),
            n == t@.len(),
            forall|j: int| 0 <= j < i ==> s@[j] == t@[j],
        decreases n - i,
    {
        if s.get_char(i) != t.get_char(i) {
            return false;
        }
        i = i + 1;
    }
    proof {
        assert(s@ =~= t@);
    }
    true
}

/// The characters of `s` after the prefix `p`, or `None` when `p` is not
/// a prefix of `s`.
pub fn strip_prefix_str<'a>(s: &'a str, p: &str) -> (r: Option<&'a str>)
    ensures
        r is Some <==> starts_with(s@, p@),
        r matches Some(rest) ==> rest@ == s@.subrange(p@.len() as int, s@.len() as int),
{
    if str_starts_with(s, p) {
        let n: usize = p.unicode_len();
        let m: usize = s.unicode_len();
        Some(s.substring_char(n, m))
    } else {
        None
    }
}

/// A copy of `s` in which every occurrence of `from` is replaced by `to`.
pub fn replace_chars(s: &str, from: char, to: char) -> (r: String)
    ensures
        r@ == replace_seq(s@, from, to),
{
    let n: usize = s.unicode_len();
    let mut out: String = String::new();
    let mut i: usize = 0;
    while i < n
        invariant
            i <= n,
            n == s@.len(),
            out@.len() == i,
            forall|j: int| 0 <= j < i ==> out@[j] == (if s@[j] == from { to } else { s@[j] }),
        decreases n - i,
    {
        let c = s.get_char(i);
        if c == from {
            push_char(&mut out, to);
        } else {
            push_char(&mut out, c);
        }
        i = i + 1;
    }
    proof {
        assert(out@ =~= replace_seq(s@, from, to));
    }
    out
}

} // verus!
