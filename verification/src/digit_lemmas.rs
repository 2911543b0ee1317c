//! Facts about decimal digits, their value and their text.

use crate::digits::{
    byte_text, char_digit, decimal_digits, digit_char, digits_text, digits_value, is_decimal_text,
    is_digit_char, is_digits, pow10, text_digits,
};
use vstd::arithmetic::div_mod::lemma_div_denominator;
use vstd::prelude::*;

verus! {

/// A power of ten is positive.
pub proof fn lemma_pow10_positive(width: nat)
    ensures
        pow10(width) > 0,
    decreases width,
{
    if width > 0 {
        lemma_pow10_positive((width - 1) as nat);
    }
}

/// A larger exponent gives a power of ten that is no smaller.
pub proof fn lemma_pow10_monotonic(low: nat, high: nat)
    requires
        low <= high,
    ensures
        pow10(low) <= pow10(high),
    decreases high,
{
    if low < high {
        lemma_pow10_monotonic(low, (high - 1) as nat);
    }
}

/// `decimal_digits` has the width asked for, holds digits only, and its
/// element `k` is digit `width - 1 - k` of `value`, counted from the right.
pub proof fn lemma_decimal_digits(value: nat, width: nat)
    ensures
        decimal_digits(value, width).len() == width,
        is_digits(decimal_digits(value, width)),
        forall|k: int|
            0 <= k < width ==> #[trigger] decimal_digits(value, width)[k] as int == (value as int
                / pow10((width - 1 - k) as nat) as int) % 10,
    decreases width,
{
    if width > 0 {
        let rest = decimal_digits(value / 10, (width - 1) as nat);
        let all = decimal_digits(value, width);
        lemma_decimal_digits(value / 10, (width - 1) as nat);
        assert(all == rest.push((value % 10) as u8));
        assert forall|k: int| 0 <= k < width implies #[trigger] all[k] as int == (value as int
            / pow10((width - 1 - k) as nat) as int) % 10 by {
            if k < width - 1 {
                let p = pow10((width - 2 - k) as nat) as int;
                let q = pow10((width - 1 - k) as nat) as int;
                lemma_pow10_positive((width - 2 - k) as nat);
                assert(q == 10 * p);
                lemma_div_denominator(value as int, 10, p);
                assert((value as int / 10) / p == value as int / q);
                assert(all[k] == rest[k]);
                assert(rest[k] as int == ((value / 10) as int / p) % 10);
                assert(all[k] as int == (value as int / q) % 10);
            } else {
                assert(pow10(0) == 1);
                assert(all[k] == (value % 10) as u8);
                assert(all[k] as int == (value as int / 1) % 10);
            }
        }
    }
}

/// The value of a sequence of digits is below ten to the power of its length.
pub proof fn lemma_digits_value_bound(digits: Seq<u8>)
    requires
        is_digits(digits),
    ensures
        digits_value(digits) < pow10(digits.len()),
    decreases digits.len(),
{
    if digits.len() > 0 {
        lemma_digits_value_bound(digits.drop_last());
    }
}

/// Whatever the elements hold, the value of `digits` stays below 29 times
/// ten to the power of its length.
pub proof fn lemma_digits_value_any_bound(digits: Seq<u8>)
    ensures
        digits_value(digits) + 29 <= 29 * pow10(digits.len()),
    decreases digits.len(),
{
    if digits.len() > 0 {
        lemma_digits_value_any_bound(digits.drop_last());
    }
}

/// Writing a value below `10^width` with `width` digits and reading the
/// digits back gives the value.
pub proof fn lemma_value_of_decimal_digits(value: nat, width: nat)
    requires
        value < pow10(width),
    ensures
        digits_value(decimal_digits(value, width)) == value,
    decreases width,
{
    if width > 0 {
        let rest = decimal_digits(value / 10, (width - 1) as nat);
        lemma_value_of_decimal_digits(value / 10, (width - 1) as nat);
        assert(decimal_digits(value, width).drop_last() =~= rest);
    }
}

/// Reading the value of a sequence of digits and writing it with as many
/// digits gives the sequence: leading zeros are kept.
pub proof fn lemma_decimal_digits_of_value(digits: Seq<u8>)
    requires
        is_digits(digits),
    ensures
        decimal_digits(digits_value(digits), digits.len()) == digits,
    decreases digits.len(),
{
    if digits.len() > 0 {
        let front = digits.drop_last();
        lemma_decimal_digits_of_value(front);
        let value = digits_value(digits);
        assert(value / 10 == digits_value(front));
        assert(value % 10 == digits.last());
        assert(decimal_digits(value, digits.len()) =~= digits);
    }
}

/// The character of a digit is a digit character, and stands for that digit.
pub proof fn lemma_digit_char(d: u8)
    requires
        d < 10,
    ensures
        is_digit_char(digit_char(d)),
        char_digit(digit_char(d)) == d,
{
}

/// The text of a sequence of digits has one character for each digit: the
/// character of that digit.
pub proof fn lemma_digits_text(digits: Seq<u8>)
    requires
        is_digits(digits),
    ensures
        digits_text(digits).len() == digits.len(),
        forall|i: int| 0 <= i < digits.len() ==> digits_text(digits)[i] == digit_char(digits[i]),
    decreases digits.len(),
{
    if digits.len() > 0 {
        lemma_digits_text(digits.drop_last());
        assert(byte_text(digits.last()) =~= seq![digit_char(digits.last())]);
    }
}

/// Reading the text of a sequence of digits gives the sequence back.
pub proof fn lemma_text_digits_of_digits_text(digits: Seq<u8>)
    requires
        is_digits(digits),
    ensures
        is_decimal_text(digits_text(digits), digits.len()),
        text_digits(digits_text(digits)) == digits,
{
    lemma_digits_text(digits);
    let text = digits_text(digits);
    assert forall|i: int| 0 <= i < text.len() implies is_digit_char(#[trigger] text[i]) by {
        lemma_digit_char(digits[i]);
    }
    assert forall|i: int| 0 <= i < digits.len() implies text_digits(text)[i] == digits[i] by {
        lemma_digit_char(digits[i]);
    }
    assert(text_digits(text) =~= digits);
}

/// Writing the digits that a decimal text stands for gives the text back.
pub proof fn lemma_digits_text_of_text_digits(text: Seq<char>)
    requires
        is_decimal_text(text, text.len()),
    ensures
        is_digits(text_digits(text)),
        digits_text(text_digits(text)) == text,
{
    let digits = text_digits(text);
    assert forall|i: int| 0 <= i < digits.len() implies #[trigger] digits[i] < 10 by {
        assert(is_digit_char(text[i]));
    }
    lemma_digits_text(digits);
    assert forall|i: int| 0 <= i < text.len() implies digits_text(digits)[i] == text[i] by {
        assert(is_digit_char(text[i]));
        assert(digit_char(char_digit(text[i])) == text[i]);
    }
    assert(digits_text(digits) =~= text);
}

} // verus!
