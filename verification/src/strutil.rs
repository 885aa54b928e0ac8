//! Verified string helpers: equality, prefix tests, prefix stripping and
//! concatenation, all specified over the character-sequence views.

use vstd::prelude::*;

verus! {

/// Whether `p` is a prefix of `s`, at the level of character sequences.
pub open spec fn spec_starts_with(s: Seq<char>, p: Seq<char>) -> bool {
    p.len() <= s.len() && s.take(p.len() as int) == p
}

/// Character-level equality of two string slices.
pub fn str_eq(a: &str, b: &str) -> (r: bool)
    ensures
        r == (a@ == b@),
{
    let sa: String = a.to_owned();
    let sb: String = b.to_owned();
    sa == sb
}

/// Whether `s` starts with the prefix `p`, by characters.
pub fn str_starts_with(s: &str, p: &str) -> (r: bool)
    ensures
        r == spec_starts_with(s@, p@),
{
    let n = p.unicode_len();
    let m = s.unicode_len();
    if n > m {
        return false;
    }
    let head = s.substring_char(0, n);
    let r = str_eq(head, p);
    proof {
        assert(s@.subrange(0, p@.len() as int) == s@.take(p@.len() as int));
    }
    r
}

/// The remainder of `s` after a prefix `p` that it is known to carry.
pub fn str_strip_prefix<'a>(s: &'a str, p: &str) -> (r: &'a str)
    requires
        spec_starts_with(s@, p@),
    ensures
        r@ == s@.skip(p@.len() as int),
        s@ == p@ + r@,
{
    let n = p.unicode_len();
    let m = s.unicode_len();
    let r = s.substring_char(n, m);
    proof {
        assert(s@.subrange(p@.len() as int, s@.len() as int) == s@.skip(p@.len() as int));
        assert(s@ =~= p@ + r@);
    }
    r
}

/// The concatenation of two string slices as a fresh `String`.
pub fn str_concat(a: &str, b: &str) -> (r: String)
    ensures
        r@ == a@ + b@,
{
    let mut s: String = a.to_owned();
    s.append(b);
    s
}

} // verus!
