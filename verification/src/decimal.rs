//! Reading an unsigned decimal number from text.

use vstd::prelude::*;
use vstd::std_specs::iter::IteratorSpec;

verus! {

/// Whether `c` is one of the ten ASCII digits.
pub open spec fn is_digit(c: char) -> bool {
    '0' <= c && c <= '9'
}

/// What a digit counts for; zero for any other character.
pub open spec fn digit_value(c: char) -> nat {
    if is_digit(c) {
        (c as u32 - '0' as u32) as nat
    } else {
        0
    }
}

/// Whether every character of `s` is a digit.
pub open spec fn all_digits(s: Seq<char>) -> bool {
    forall|i: int| 0 <= i < s.len() ==> is_digit(#[trigger] s[i])
}

/// The number that a run of digits denotes in base ten.
pub open spec fn digits_value(s: Seq<char>) -> nat
    decreases s.len(),
{
    if s.len() == 0 {
        0
    } else {
        10 * digits_value(s.drop_last()) + digit_value(s.last())
    }
}

/// The text without a leading plus sign, if it has one.
pub open spec fn unsigned_part(s: Seq<char>) -> Seq<char> {
    if s.len() > 0 && s[0] == '+' {
        s.drop_first()
    } else {
        s
    }
}

/// The number that `s` denotes: an optional plus sign, then one or more
/// digits and nothing else, with a value that fits in 64 bits. Any other
/// text denotes no number.
pub open spec fn decimal_value(s: Seq<char>) -> Option<u64> {
    let d = unsigned_part(s);
    if d.len() > 0 && all_digits(d) && digits_value(d) <= u64::MAX {
        Some(digits_value(d) as u64)
    } else {
        None
    }
}

/// Appending one character multiplies the value by ten and adds the digit.
pub proof fn lemma_digits_value_push(s: Seq<char>, c: char)
    ensures
        digits_value(s.push(c)) == 10 * digits_value(s) + digit_value(c),
{
    assert(s.push(c).drop_last() =~= s);
}

/// A run of digits is worth at least as much as each of its prefixes.
pub proof fn lemma_digits_value_prefix(s: Seq<char>, n: int)
    requires
        0 <= n <= s.len(),
    ensures
        digits_value(s.take(n)) <= digits_value(s),
    decreases s.len(),
{
    if n == s.len() {
        assert(s.take(n) =~= s);
    } else {
        lemma_digits_value_prefix(s.drop_last(), n);
        assert(s.drop_last().take(n) =~= s.take(n));
    }
}

/// Reads `s` as an unsigned decimal number.
pub fn parse_u64(s: &str) -> (r: Option<u64>)
    ensures
        r == decimal_value(s@),
{
    let mut it = s.chars();
    let ghost d = unsigned_part(s@);
    let ghost mut seen: Seq<char> = Seq::empty();
    let mut acc: u64 = 0;
    let mut any: bool = false;
    match it.next() {
        None => {
            return None;
        },
        Some(c) => {
            if c == '+' {
                assert(it.remaining() =~= d);
            } else if c >= '0' && c <= '9' {
                acc = (c as u32 - '0' as u32) as u64;
                any = true;
                proof {
                    seen = seq![c];
                    lemma_digits_value_push(Seq::empty(), c);
                    assert(Seq::<char>::empty().push(c) =~= seen);
                    assert(d =~= seen + it.remaining());
                }
            } else {
                assert(!is_digit(d[0]));
                return None;
            }
        },
    }
    loop
        invariant
            d == seen + it.remaining(),
            d == unsigned_part(s@),
            all_digits(seen),
            any == (seen.len() > 0),
            acc == digits_value(seen),
            it.decrease() is Some,
        decreases it.decrease()->0,
    {
        match it.next() {
            None => {
                assert(d =~= seen);
                if any {
                    return Some(acc);
                } else {
                    return None;
                }
            },
            Some(c) => {
                if !(c >= '0' && c <= '9') {
                    assert(d[seen.len() as int] == c);
                    return None;
                }
                let dv: u64 = (c as u32 - '0' as u32) as u64;
                proof {
                    lemma_digits_value_push(seen, c);
                    assert(d.take(seen.len() as int + 1) =~= seen.push(c));
                    lemma_digits_value_prefix(d, seen.len() as int + 1);
                }
                if acc > (u64::MAX - dv) / 10 {
                    return None;
                }
                acc = acc * 10 + dv;
                any = true;
                proof {
                    assert(d =~= seen.push(c) + it.remaining());
                    seen = seen.push(c);
                }
            },
        }
    }
}

} // verus!
