//! Unsigned decimal numbers as text.
//!
//! Timestamps and prices cross the command boundary as decimal strings, so
//! that no transport narrows them. The grammar read here is an optional `+`
//! followed by one or more of the digits `0` to `9`, with a value that fits
//! in 64 bits; the text written is the shortest such form.

use crate::text::{chars_of, string_of};
use vstd::prelude::*;

verus! {

pub open spec fn is_digit(c: char) -> bool {
    '0' <= c <= '9'
}

pub open spec fn digit_value(c: char) -> nat {
    (c as nat - '0' as nat) as nat
}

/// The digit character for `value`, which is below ten.
pub open spec fn digit_char(value: nat) -> char {
    (value + '0' as nat) as char
}

pub open spec fn all_digits(text: Seq<char>) -> bool {
    forall|i: int| 0 <= i < text.len() ==> is_digit(#[trigger] text[i])
}

/// The number that the digits of `text` denote in base ten.
pub open spec fn digits_value(text: Seq<char>) -> nat
    decreases text.len(),
{
    if text.len() == 0 {
        0
    } else {
        10 * digits_value(text.drop_last()) + digit_value(text.last())
    }
}

/// `text` without the one `+` it may begin with.
pub open spec fn unsigned_part(text: Seq<char>) -> Seq<char> {
    if text.len() > 0 && text[0] == '+' {
        text.drop_first()
    } else {
        text
    }
}

/// The number `text` denotes, if it is a decimal number that fits in 64
/// bits: an optional `+`, then at least one digit and nothing else.
pub open spec fn parse_decimal(text: Seq<char>) -> Option<u64> {
    let digits = unsigned_part(text);
    if digits.len() > 0 && all_digits(digits) && digits_value(digits) <= u64::MAX {
        Some(digits_value(digits) as u64)
    } else {
        None
    }
}

/// The shortest decimal form of `value`.
pub open spec fn decimal_digits(value: nat) -> Seq<char>
    decreases value,
{
    if value < 10 {
        seq![digit_char(value)]
    } else {
        decimal_digits(value / 10).push(digit_char(value % 10))
    }
}

/// A number is never smaller than the number its leading digits denote.
pub proof fn lemma_prefix_value_is_smaller(text: Seq<char>, len: int)
    requires
        0 <= len <= text.len(),
    ensures
        digits_value(text.take(len)) <= digits_value(text),
    decreases text.len(),
{
    if len == text.len() {
        assert(text.take(len) == text);
    } else {
        lemma_prefix_value_is_smaller(text.drop_last(), len);
        assert(text.drop_last().take(len) == text.take(len));
    }
}

/// Reads a decimal number.
pub fn parse_u64(text: &str) -> (value: Option<u64>)
    ensures
        value == parse_decimal(text@),
{
    let chars = chars_of(text);
    let start: usize = if chars.len() > 0 && chars[0] == '+' {
        1
    } else {
        0
    };
    if start == chars.len() {
        return None;
    }
    let ghost digits = unsigned_part(chars@);
    let mut value: u64 = 0;
    let mut index: usize = start;
    while index < chars.len()
        invariant
            start <= index <= chars.len(),
            chars@ == text@,
            digits == unsigned_part(chars@),
            digits == chars@.skip(start as int),
            all_digits(digits.take(index - start)),
            value == digits_value(digits.take(index - start)),
        decreases chars.len() - index,
    {
        let c = chars[index];
        let ghost seen = digits.take(index - start);
        let ghost next = digits.take(index - start + 1);
        proof {
            assert(next.drop_last() == seen);
        }
        if c < '0' || c > '9' {
            assert(!is_digit(digits[index - start]));
            return None;
        }
        let digit: u64 = (c as u32 - '0' as u32) as u64;
        if value > (u64::MAX - digit) / 10 {
            proof {
                lemma_prefix_value_is_smaller(digits, index - start + 1);
            }
            return None;
        }
        value = value * 10 + digit;
        index = index + 1;
    }
    assert(digits.take(index - start) == digits);
    Some(value)
}

/// Appends the decimal form of `value` to `out`.
fn push_decimal(value: u64, out: &mut Vec<char>)
    ensures
        final(out)@ == old(out)@ + decimal_digits(value as nat),
    decreases value,
{
    if value >= 10 {
        push_decimal(value / 10, out);
    }
    let digit: u8 = (value % 10) as u8;
    let c: char = (digit + 48u8) as char;
    out.push(c);
}

/// Writes `value` in its shortest decimal form.
pub fn format_u64(value: u64) -> (text: String)
    ensures
        text@ == decimal_digits(value as nat),
        parse_decimal(text@) == Some(value),
{
    let mut chars: Vec<char> = Vec::new();
    push_decimal(value, &mut chars);
    proof {
        lemma_decimal_round_trip(value as nat);
    }
    string_of(&chars)
}

/// What is written can be read back: the shortest decimal form of a number
/// consists of digits alone and denotes that number.
pub proof fn lemma_decimal_round_trip(value: nat)
    ensures
        decimal_digits(value).len() > 0,
        all_digits(decimal_digits(value)),
        digits_value(decimal_digits(value)) == value,
        value <= u64::MAX ==> parse_decimal(decimal_digits(value)) == Some(value as u64),
    decreases value,
{
    let text = decimal_digits(value);
    if value < 10 {
        assert(digits_value(text.drop_last()) == 0);
    } else {
        lemma_decimal_round_trip(value / 10);
        let front = decimal_digits(value / 10);
        assert(text.drop_last() == front);
    }
}

} // verus!
