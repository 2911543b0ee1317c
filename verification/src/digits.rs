//! Sequences of decimal digits: their text, their value, and the conversions
//! between the three.

use crate::digit_lemmas::{
    lemma_decimal_digits, lemma_digits_value_any_bound, lemma_pow10_monotonic,
    lemma_pow10_positive,
};
use vstd::arithmetic::div_mod::lemma_div_denominator;
use vstd::prelude::*;
use vstd::std_specs::iter::IteratorSpec;

verus! {

/// Every element of `digits` is a single decimal digit.
pub open spec fn is_digits(digits: Seq<u8>) -> bool {
    forall|i: int| 0 <= i < digits.len() ==> #[trigger] digits[i] < 10
}

/// `c` is one of the characters `0` to `9`.
pub open spec fn is_digit_char(c: char) -> bool {
    '0' <= c <= '9'
}

/// The digit that the character `c` stands for.
pub open spec fn char_digit(c: char) -> u8
    recommends
        is_digit_char(c),
{
    (c as u8 - 48) as u8
}

/// The character that stands for the digit `d`.
pub open spec fn digit_char(d: u8) -> char
    recommends
        d < 10,
{
    (d + 48) as u8 as char
}

/// `text` is made of exactly `width` characters, each a decimal digit.
pub open spec fn is_decimal_text(text: Seq<char>, width: nat) -> bool {
    &&& text.len() == width
    &&& forall|i: int| 0 <= i < text.len() ==> is_digit_char(#[trigger] text[i])
}

/// The digits that the characters of `text` stand for, in the order given.
pub open spec fn text_digits(text: Seq<char>) -> Seq<u8> {
    Seq::new(text.len(), |i: int| char_digit(text[i]))
}

/// The decimal text of one element: one character for a digit, two or three
/// for a larger number.
pub open spec fn byte_text(d: u8) -> Seq<char> {
    if d < 10 {
        seq![digit_char(d)]
    } else if d < 100 {
        seq![digit_char(d / 10), digit_char(d % 10)]
    } else {
        seq![digit_char(d / 100), digit_char(d / 10 % 10), digit_char(d % 10)]
    }
}

/// The decimal text of each element of `digits`, joined from left to right.
pub open spec fn digits_text(digits: Seq<u8>) -> Seq<char>
    decreases digits.len(),
{
    if digits.len() == 0 {
        Seq::empty()
    } else {
        digits_text(digits.drop_last()) + byte_text(digits.last())
    }
}

/// The number that `digits` writes in base ten, most significant digit first.
pub open spec fn digits_value(digits: Seq<u8>) -> nat
    decreases digits.len(),
{
    if digits.len() == 0 {
        0
    } else {
        10 * digits_value(digits.drop_last()) + digits.last() as nat
    }
}

/// The last `width` decimal digits of `value`, most significant first, with
/// zeros in front where `value` is short.
pub open spec fn decimal_digits(value: nat, width: nat) -> Seq<u8>
    decreases width,
{
    if width == 0 {
        Seq::empty()
    } else {
        decimal_digits(value / 10, (width - 1) as nat).push((value % 10) as u8)
    }
}

/// Ten to the power `width`.
pub open spec fn pow10(width: nat) -> nat
    decreases width,
{
    if width == 0 {
        1
    } else {
        10 * pow10((width - 1) as nat)
    }
}

/// Reads `s` as exactly `N` decimal digits.
///
/// Returns the digits in the order given, leading zeros included, and `None`
/// where `s` has another length or holds a character that is no digit.
pub fn string_to_digits<const N: usize>(s: &str) -> (r: Option<[u8; N]>)
    ensures
        r is Some <==> is_decimal_text(s@, N as nat),
        r is Some ==> r.unwrap()@ == text_digits(s@),
{
    let mut digits = [0u8; N];
    let mut i: usize = 0;
    for c in it: s.chars()
        invariant
            it.seq() == s@,
            i == it.index(),
            i <= N,
            forall|k: int| 0 <= k < i ==> is_digit_char(#[trigger] s@[k]),
            forall|k: int| 0 <= k < i ==> digits@[k] == char_digit(s@[k]),
    {
        if i >= N {
            return None;
        }
        if '0' <= c && c <= '9' {
            digits[i] = c as u8 - 48u8;
        } else {
            return None;
        }
        i += 1;
    }
    if i == N {
        assert(digits@ =~= text_digits(s@));
        Some(digits)
    } else {
        None
    }
}

/// `String::push` of the standard library: the string afterwards is the
/// string before with `ch` appended as its last character.
pub assume_specification[ String::push ](s: &mut String, ch: char)
    ensures
        final(s)@ == old(s)@.push(ch),
;

/// Writes each element of `digits` in decimal, from left to right, with
/// nothing between them.
pub fn digits_to_string(digits: &[u8]) -> (s: String)
    ensures
        s@ == digits_text(digits@),
{
    let mut s = String::new();
    let mut i: usize = 0;
    while i < digits.len()
        invariant
            i <= digits.len(),
            s@ == digits_text(digits@.take(i as int)),
        decreases digits.len() - i,
    {
        let d: u8 = digits[i];
        let ghost before = s@;
        if d >= 100 {
            s.push((48u8 + d / 100) as char);
        }
        if d >= 10 {
            s.push((48u8 + d / 10 % 10) as char);
        }
        s.push((48u8 + d % 10) as char);
        proof {
            let next = digits@.take(i as int + 1);
            assert(next.drop_last() =~= digits@.take(i as int));
            assert(next.last() == d);
            assert(s@ =~= before + byte_text(d));
        }
        i += 1;
    }
    proof {
        assert(digits@.take(digits@.len() as int) =~= digits@);
    }
    s
}

/// Writes `value` with exactly `N` decimal digits, most significant first
/// and zero-padded on the left.
///
/// Returns `None` where `value` needs more than `N` digits.
pub fn int_to_digits<const N: usize>(value: u128) -> (r: Option<[u8; N]>)
    ensures
        r is Some <==> value < pow10(N as nat),
        r is Some ==> r.unwrap()@ == decimal_digits(value as nat, N as nat),
{
    let mut digits = [0u8; N];
    let mut rest: u128 = value;
    let mut i: usize = N;
    proof {
        assert(pow10((N - i) as nat) == 1);
        assert(value as int / 1 == value as int);
    }
    while i > 0
        invariant
            i <= N,
            rest as int == value as int / pow10((N - i) as nat) as int,
            forall|k: int|
                i <= k < N ==> #[trigger] digits@[k] as int == (value as int / pow10(
                    (N - 1 - k) as nat,
                ) as int) % 10,
        decreases i,
    {
        i -= 1;
        proof {
            let p = pow10((N - 1 - i) as nat) as int;
            lemma_pow10_positive((N - 1 - i) as nat);
            lemma_div_denominator(value as int, p, 10);
            assert(pow10((N - i) as nat) as int == p * 10);
        }
        digits[i] = (rest % 10) as u8;
        rest = rest / 10;
    }
    proof {
        let p = pow10(N as nat) as int;
        lemma_pow10_positive(N as nat);
        assert((value as int / p == 0) <==> (value as int) < p) by (nonlinear_arith)
            requires
                p > 0,
                value >= 0,
        ;
        lemma_decimal_digits(value as nat, N as nat);
        assert(digits@ =~= decimal_digits(value as nat, N as nat));
    }
    if rest != 0 {
        None
    } else {
        Some(digits)
    }
}

/// The largest number of elements whose value fits in 64 bits whatever the
/// elements hold.
pub const MAX_VALUE_DIGITS: usize = 17;

/// Reads `digits` as one number in base ten, most significant digit first.
pub fn digits_to_int(digits: &[u8]) -> (value: u64)
    requires
        digits@.len() <= MAX_VALUE_DIGITS,
    ensures
        value == digits_value(digits@),
{
    let mut value: u64 = 0;
    let mut i: usize = 0;
    while i < digits.len()
        invariant
            i <= digits.len(),
            digits@.len() <= MAX_VALUE_DIGITS,
            value == digits_value(digits@.take(i as int)),
        decreases digits.len() - i,
    {
        proof {
            let next = digits@.take(i as int + 1);
            assert(next.drop_last() =~= digits@.take(i as int));
            assert(next.last() == digits@[i as int]);
            lemma_digits_value_any_bound(next);
            lemma_pow10_monotonic(next.len(), MAX_VALUE_DIGITS as nat);
            assert(pow10(17) == 100_000_000_000_000_000) by {
                reveal_with_fuel(pow10, 18);
            }
        }
        value = 10 * value + digits[i] as u64;
        i += 1;
    }
    proof {
        assert(digits@.take(digits@.len() as int) =~= digits@);
    }
    value
}

} // verus!
