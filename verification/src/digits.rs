//! A verified reader of unsigned decimal text, with the same acceptance rule
//! as the standard numeric parser for `u64`: an optional leading plus sign,
//! then one or more decimal digits, rejecting anything else and any value
//! above the type's maximum.

use vstd::prelude::*;

verus! {

/// Whether `c` is a decimal digit.
pub open spec fn is_digit(c: char) -> bool {
    '0' <= c && c <= '9'
}

/// The numeric value of a digit; zero for any other character.
pub open spec fn digit_val(c: char) -> nat {
    if is_digit(c) {
        (c as int - '0' as int) as nat
    } else {
        0
    }
}

/// Whether every character of `s` is a decimal digit.
pub open spec fn all_digits(s: Seq<char>) -> bool {
    forall|i: int| 0 <= i < s.len() ==> is_digit(s[i])
}

/// The value of `s` read as a big-endian decimal numeral.
pub open spec fn dec_value(s: Seq<char>) -> nat
    decreases s.len(),
{
    if s.len() == 0 {
        0
    } else {
        dec_value(s.drop_last()) * 10 + digit_val(s.last())
    }
}

/// What the standard numeric parser accepts for `u64`: an optional leading
/// `+`, then at least one digit and nothing else, with the value in range.
pub open spec fn spec_parse_u64(s: Seq<char>) -> Option<u64> {
    let body = if s.len() > 0 && s[0] == '+' {
        s.skip(1)
    } else {
        s
    };
    if body.len() == 0 || !all_digits(body) || dec_value(body) > u64::MAX {
        None
    } else {
        Some(dec_value(body) as u64)
    }
}

/// Appending a character multiplies the numeral's value by ten and adds the
/// digit.
proof fn lemma_dec_value_snoc(s: Seq<char>, c: char)
    ensures
        dec_value(s.push(c)) == dec_value(s) * 10 + digit_val(c),
{
    assert(s.push(c).drop_last() =~= s);
    assert(s.push(c).last() == c);
}

/// A numeral is worth at least any of its prefixes.
proof fn lemma_dec_value_prefix(t: Seq<char>, m: int)
    requires
        0 <= m <= t.len(),
    ensures
        dec_value(t) >= dec_value(t.take(m)),
    decreases t.len() - m,
{
    if m == t.len() {
        assert(t.take(m) =~= t);
    } else {
        assert(t.take(m + 1) =~= t.take(m).push(t[m]));
        lemma_dec_value_snoc(t.take(m), t[m]);
        lemma_dec_value_prefix(t, m + 1);
    }
}

/// Reads `s` as an unsigned decimal number, exactly as the standard parser
/// would: `None` for an empty or malformed numeral or one above `u64::MAX`.
pub fn parse_u64(s: &str) -> (r: Option<u64>)
    ensures
        r == spec_parse_u64(s@),
{
    let n = s.unicode_len();
    let start: usize = if n > 0 && s.get_char(0) == '+' {
        1
    } else {
        0
    };
    let ghost body = s@.skip(start as int);
    proof {
        assert(s@.skip(0) =~= s@);
    }
    if start >= n {
        return None;
    }
    let mut acc: u64 = 0;
    let mut j = start;
    while j < n
        invariant
            start <= j <= n,
            n == s@.len(),
            body == s@.skip(start as int),
            body == (if s@.len() > 0 && s@[0] == '+' {
                s@.skip(1)
            } else {
                s@
            }),
            all_digits(s@.subrange(start as int, j as int)),
            acc == dec_value(s@.subrange(start as int, j as int)),
        decreases n - j,
    {
        let c = s.get_char(j);
        if !('0' <= c && c <= '9') {
            proof {
                assert(body[j - start] == s@[j as int]);
                assert(!all_digits(body));
            }
            return None;
        }
        let d: u64 = ((c as u32) - ('0' as u32)) as u64;
        proof {
            assert(d == digit_val(s@[j as int]));
            assert(s@.subrange(start as int, j + 1) =~= s@.subrange(
                start as int,
                j as int,
            ).push(s@[j as int]));
            lemma_dec_value_snoc(s@.subrange(start as int, j as int), s@[j as int]);
        }
        if acc > (u64::MAX - d) / 10 {
            proof {
                assert(dec_value(s@.subrange(start as int, j + 1)) > u64::MAX);
                assert(body.take(j + 1 - start) =~= s@.subrange(start as int, j + 1));
                lemma_dec_value_prefix(body, j + 1 - start);
                assert(dec_value(body) > u64::MAX);
            }
            return None;
        }
        acc = acc * 10 + d;
        j += 1;
    }
    proof {
        assert(s@.subrange(start as int, n as int) =~= body);
    }
    Some(acc)
}

} // verus!
