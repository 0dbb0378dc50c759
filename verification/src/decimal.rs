//! Unsigned decimal numerals as accepted on the command line.

use vstd::prelude::*;
use vstd::string::*;

verus! {

/// A decimal digit character.
pub open spec fn is_digit(c: char) -> bool {
    '0' <= c && c <= '9'
}

/// The value of one decimal digit character.
pub open spec fn digit_value(c: char) -> nat {
    (c as int - '0' as int) as nat
}

/// Every character is a decimal digit.
pub open spec fn all_digits(s: Seq<char>) -> bool {
    forall|i: int| 0 <= i < s.len() ==> is_digit(#[trigger] s[i])
}

/// The value of a run of digits, most significant first.
pub open spec fn digits_value(s: Seq<char>) -> nat
    decreases s.len(),
{
    if s.len() == 0 {
        0
    } else {
        digits_value(s.drop_last()) * 10 + digit_value(s.last())
    }
}

/// The digit part of a numeral: the text without one leading `+`.
pub open spec fn numeral_digits(s: Seq<char>) -> Seq<char> {
    if s.len() > 0 && s[0] == '+' {
        s.drop_first()
    } else {
        s
    }
}

/// A numeral is an optional `+` followed by at least one decimal digit.
pub open spec fn is_numeral(s: Seq<char>) -> bool {
    numeral_digits(s).len() > 0 && all_digits(numeral_digits(s))
}

/// The value of `s` read as a numeral, if it is one and the value is at most `max`.
pub open spec fn numeral_value(s: Seq<char>, max: nat) -> Option<nat> {
    if is_numeral(s) && digits_value(numeral_digits(s)) <= max {
        Some(digits_value(numeral_digits(s)))
    } else {
        None
    }
}

proof fn lemma_digits_value_monotone(s: Seq<char>, j: int, k: int)
    requires
        all_digits(s),
        0 <= j <= k <= s.len(),
    ensures
        digits_value(s.subrange(0, j)) <= digits_value(s.subrange(0, k)),
    decreases k - j,
{
    if j < k {
        lemma_digits_value_monotone(s, j, k - 1);
        assert(s.subrange(0, k).drop_last() =~= s.subrange(0, k - 1));
    }
}

/// Reads `text` as an unsigned decimal numeral no larger than `max`.
pub fn parse_decimal(text: &str, max: u64) -> (r: Option<u64>)
    ensures
        r == (match numeral_value(text@, max as nat) {
            Some(v) => Some(v as u64),
            None => None::<u64>,
        }),
{
    let n = text.unicode_len();
    let mut start: usize = 0;
    if n > 0 && text.get_char(0) == '+' {
        start = 1;
    }
    let ghost d = numeral_digits(text@);
    assert(d =~= text@.subrange(start as int, n as int));
    if start == n {
        return None;
    }
    let mut value: u64 = 0;
    let mut i: usize = start;
    while i < n
        invariant
            start <= i <= n,
            n == text@.len(),
            start < n,
            d == numeral_digits(text@),
            d =~= text@.subrange(start as int, n as int),
            all_digits(d.subrange(0, i - start)),
            value == digits_value(d.subrange(0, i - start)),
            value <= max,
        decreases n - i,
    {
        let c = text.get_char(i);
        let ghost k: int = i - start;
        if c < '0' || c > '9' {
            assert(!is_digit(d[k]));
            return None;
        }
        let digit = (c as u32 - '0' as u32) as u64;
        assert(d.subrange(0, k + 1).drop_last() =~= d.subrange(0, k));
        assert(all_digits(d.subrange(0, k + 1)));
        assert(digits_value(d.subrange(0, k + 1)) == value * 10 + digit);
        if value > max / 10 || digit > max - value * 10 {
            proof {
                if all_digits(d) {
                    lemma_digits_value_monotone(d, k + 1, d.len() as int);
                    assert(d.subrange(0, d.len() as int) =~= d);
                }
            }
            return None;
        }
        value = value * 10 + digit;
        i = i + 1;
    }
    assert(d.subrange(0, n - start) =~= d);
    Some(value)
}

} // verus!
