//! Whole numbers that are written out in decimal digits, for the values that
//! 64 signed bits do not hold.

use vstd::prelude::*;
use crate::case::chars_of;

verus! {

/// Whether `c` is one of the ten digits.
pub open spec fn is_digit(c: char) -> bool {
    '0' <= c <= '9'
}

/// The number that a run of digits stands for.
pub open spec fn digits_value(s: Seq<char>) -> int
    decreases s.len(),
{
    if s.len() == 0 {
        0
    } else {
        digits_value(s.drop_last()) * 10 + (s.last() as int - '0' as int)
    }
}

/// Whether `s` is a run of one or more digits that does not open with a
/// needless zero.
pub open spec fn is_digits(s: Seq<char>) -> bool {
    &&& s.len() > 0
    &&& forall|i: int| 0 <= i < s.len() ==> is_digit(#[trigger] s[i])
    &&& s.len() > 1 ==> s[0] != '0'
}

/// The whole number that `s` stands for, if it is written as one: digits
/// without a needless zero in front, behind a minus sign where the number is
/// below zero.
pub open spec fn numeral_value(s: Seq<char>) -> Option<int> {
    if s.len() > 0 && s[0] == '-' {
        if is_digits(s.drop_first()) && digits_value(s.drop_first()) != 0 {
            Some(-digits_value(s.drop_first()))
        } else {
            None
        }
    } else if is_digits(s) {
        Some(digits_value(s))
    } else {
        None
    }
}

/// Whether `s` stands for a whole number from `-below` to `above`.
pub open spec fn is_numeral_within(s: Seq<char>, below: int, above: int) -> bool {
    match numeral_value(s) {
        Some(value) => -below <= value <= above,
        None => false,
    }
}

/// A run of digits stands for no less than any of its openings does.
proof fn lemma_digits_grow(s: Seq<char>, k: int)
    requires
        0 <= k <= s.len(),
        forall|i: int| 0 <= i < s.len() ==> is_digit(#[trigger] s[i]),
    ensures
        0 <= digits_value(s.take(k)) <= digits_value(s),
    decreases s.len() - k,
{
    lemma_digits_not_below_zero(s.take(k));
    if k == s.len() {
        assert(s.take(k) == s);
    } else {
        assert(s.take(k + 1).drop_last() == s.take(k));
        assert(is_digit(s[k]));
        lemma_digits_grow(s, k + 1);
    }
}

/// A run of digits stands for no number below zero.
proof fn lemma_digits_not_below_zero(s: Seq<char>)
    requires
        forall|i: int| 0 <= i < s.len() ==> is_digit(#[trigger] s[i]),
    ensures
        0 <= digits_value(s),
    decreases s.len(),
{
    if s.len() > 0 {
        lemma_digits_not_below_zero(s.drop_last());
        assert(is_digit(s[s.len() - 1]));
    }
}

/// Whether `text` stands for a whole number from `-below` to `above`.
pub fn numeral_within(text: &str, below: u128, above: u128) -> (b: bool)
    ensures
        b == is_numeral_within(text@, below as int, above as int),
{
    let chars = chars_of(text);
    let n = chars.len();
    let negative = n > 0 && chars[0] == '-';
    let start: usize = if negative {
        1
    } else {
        0
    };
    let limit = if negative {
        below
    } else {
        above
    };
    let ghost digits = chars@.subrange(start as int, n as int);
    proof {
        if negative {
            assert(digits == text@.drop_first());
        } else {
            assert(digits == text@);
        }
    }
    if start >= n {
        return false;
    }
    if n - start > 1 && chars[start] == '0' {
        return false;
    }
    let mut value: u128 = 0;
    let mut i = start;
    while i < n
        invariant
            start <= i <= n,
            n == chars@.len(),
            chars@ == text@,
            negative == (n > 0 && chars@[0] == '-'),
            digits == chars@.subrange(start as int, n as int),
            digits == if negative {
                text@.drop_first()
            } else {
                text@
            },
            limit == if negative {
                below
            } else {
                above
            },
            forall|j: int| 0 <= j < i - start ==> is_digit(#[trigger] digits[j]),
            value == digits_value(digits.take(i - start)),
            value <= limit,
        decreases n - i,
    {
        let c = chars[i];
        proof {
            assert(digits[i - start] == c);
            assert(digits.take(i - start + 1).drop_last() == digits.take(i - start));
            assert(digits.take(i - start + 1).last() == c);
        }
        if !(c >= '0' && c <= '9') {
            return false;
        }
        let d = (c as u32 - '0' as u32) as u128;
        if value > limit / 10 || (value == limit / 10 && d > limit % 10) {
            proof {
                if forall|j: int| 0 <= j < digits.len() ==> is_digit(#[trigger] digits[j]) {
                    lemma_digits_grow(digits, i - start + 1);
                }
            }
            return false;
        }
        value = value * 10 + d;
        i += 1;
    }
    proof {
        assert(digits.take(n - start) == digits);
    }
    !(negative && value == 0)
}

} // verus!
