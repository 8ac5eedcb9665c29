//! Unsigned decimal numbers as they are written in settings and sensor
//! files: an optional `+`, then one or more digits `0` to `9`.

use vstd::prelude::*;
use vstd::string::*;

verus! {

/// The byte that stands for `+`.
const PLUS: u8 = 43;

/// The byte that stands for `0`.
const ZERO: u8 = 48;

/// The byte that stands for `9`.
const NINE: u8 = 57;

/// `c` is one of the digits `0` to `9`.
pub open spec fn is_digit(c: char) -> bool {
    '0' <= c <= '9'
}

/// The number that the digit `c` stands for.
pub open spec fn digit_value(c: char) -> nat {
    (c as int - '0' as int) as nat
}

/// Every character of `s` is a digit.
pub open spec fn all_digits(s: Seq<char>) -> bool {
    forall|i: int| 0 <= i < s.len() ==> is_digit(#[trigger] s[i])
}

/// The number written by the digits `s`, most significant digit first.
pub open spec fn digits_value(s: Seq<char>) -> nat
    decreases s.len(),
{
    if s.len() == 0 {
        0
    } else {
        digits_value(s.drop_last()) * 10 + digit_value(s.last())
    }
}

/// `s` without the one `+` that may precede the digits.
pub open spec fn unsigned_digits(s: Seq<char>) -> Seq<char> {
    if s.len() > 0 && s[0] == '+' {
        s.drop_first()
    } else {
        s
    }
}

/// The number that `s` writes, if `s` is an optional `+` followed by at
/// least one digit and nothing else, and the number is at most `max`.
pub open spec fn parse_unsigned(s: Seq<char>, max: nat) -> Option<nat> {
    let digits = unsigned_digits(s);
    if digits.len() > 0 && all_digits(digits) && digits_value(digits) <= max {
        Some(digits_value(digits))
    } else {
        None
    }
}

/// A longer run of digits never writes a smaller number than its prefix.
pub proof fn lemma_prefix_value(s: Seq<char>, k: int)
    requires
        0 <= k <= s.len(),
    ensures
        digits_value(s.subrange(0, k)) <= digits_value(s),
    decreases s.len(),
{
    if k == s.len() {
        assert(s.subrange(0, k) =~= s);
    } else {
        lemma_prefix_value(s.drop_last(), k);
        assert(s.drop_last().subrange(0, k) =~= s.subrange(0, k));
    }
}

/// Reads an unsigned decimal number that is at most `max`.
pub fn parse_decimal(text: &str, max: u64) -> (r: Option<u64>)
    ensures
        match r {
            Some(v) => parse_unsigned(text@, max as nat) == Some(v as nat),
            None => parse_unsigned(text@, max as nat) is None,
        },
{
    let ghost digits = unsigned_digits(text@);
    if !text.is_ascii() {
        proof {
            // The character that is not ASCII is among the digits, and is none.
            let i = choose|i: int|
                #![trigger text@[i]]
                0 <= i < text@.len() && !('\0' <= text@[i] <= '\u{7f}');
            if text@[0] == '+' {
                assert(!is_digit(digits[i - 1]));
            } else {
                assert(!is_digit(digits[i]));
            }
        }
        return None;
    }
    proof {
        is_ascii_spec_bytes(text);
    }
    let n: usize = text.as_bytes().len();
    let start: usize = if n > 0 && text.get_ascii(0) == PLUS {
        1
    } else {
        0
    };
    if start == n {
        return None;
    }
    let mut i: usize = start;
    let mut value: u64 = 0;
    while i < n
        invariant
            is_ascii(text),
            n == text@.len(),
            start <= i <= n,
            digits == unsigned_digits(text@),
            digits == text@.subrange(start as int, n as int),
            all_digits(digits.subrange(0, i - start)),
            value == digits_value(digits.subrange(0, i - start)),
            value <= max,
        decreases n - i,
    {
        let byte: u8 = text.get_ascii(i);
        if byte < ZERO || byte > NINE {
            assert(!is_digit(digits[i - start]));
            return None;
        }
        let digit: u64 = (byte - ZERO) as u64;
        proof {
            let longer = digits.subrange(0, i - start + 1);
            assert(longer.drop_last() =~= digits.subrange(0, i - start));
            assert forall|j: int| 0 <= j < longer.len() implies is_digit(#[trigger] longer[j]) by {
                if j < i - start {
                    assert(longer[j] == digits.subrange(0, i - start)[j]);
                }
            }
            lemma_prefix_value(digits, i - start + 1);
        }
        if value > max / 10 || digit > max - value * 10 {
            return None;
        }
        value = value * 10 + digit;
        i = i + 1;
    }
    assert(digits.subrange(0, i - start) =~= digits);
    Some(value)
}

/// Reads an unsigned decimal number that fits in 8 bits.
pub fn parse_u8(text: &str) -> (r: Option<u8>)
    ensures
        match r {
            Some(v) => parse_unsigned(text@, u8::MAX as nat) == Some(v as nat),
            None => parse_unsigned(text@, u8::MAX as nat) is None,
        },
{
    match parse_decimal(text, 255u64) {
        Some(v) => Some(v as u8),
        None => None,
    }
}

/// Reads an unsigned decimal number that fits in 64 bits.
pub fn parse_u64(text: &str) -> (r: Option<u64>)
    ensures
        match r {
            Some(v) => parse_unsigned(text@, u64::MAX as nat) == Some(v as nat),
            None => parse_unsigned(text@, u64::MAX as nat) is None,
        },
{
    parse_decimal(text, u64::MAX)
}

} // verus!
