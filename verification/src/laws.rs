//! What holds of identifiers whatever their digits: reading gives back what
//! was written, what was read is well formed, and the check digit that the
//! library computes is the one that it accepts.

use crate::convert::{imei_int_digits, tac_int_digits};
use crate::digit_lemmas::{
    lemma_decimal_digits, lemma_decimal_digits_of_value, lemma_digits_text_of_text_digits,
    lemma_digits_value_bound, lemma_text_digits_of_digits_text, lemma_value_of_decimal_digits,
};
use crate::digits::{digits_text, is_digits};
use crate::error::ImeiWrapperError;
use crate::luhn::{
    lemma_checksum_appended, lemma_luhn_sum_trailing_zeros, luhn_checksum_spec, luhn_sum,
};
use crate::model::{imei_text_digits, tac_imei_digits, tac_text_digits, Imei, Tac};
use vstd::prelude::*;

verus! {

/// Writing a well-formed IMEI with a matching check digit as text and
/// reading the text gives the same IMEI.
pub proof fn lemma_imei_text_round_trip(imei: Imei)
    requires
        imei.wf(),
        imei.valid(),
    ensures
        Imei::from_text(digits_text(imei@)) == Ok::<Imei, ImeiWrapperError>(imei),
        digits_text(imei@).len() == 15,
{
    imei.lemma_of_view();
    lemma_text_digits_of_digits_text(imei@);
}

/// Writing a well-formed TAC as text and reading the text gives the same
/// TAC.
pub proof fn lemma_tac_text_round_trip(tac: Tac)
    requires
        tac.wf(),
    ensures
        Tac::from_text(digits_text(tac@)) == Ok::<Tac, ImeiWrapperError>(tac),
        digits_text(tac@).len() == 8,
{
    tac.lemma_of_view();
    lemma_text_digits_of_digits_text(tac@);
}

/// A text that reads as an IMEI is the text that the IMEI is written as:
/// leading zeros included.
pub proof fn lemma_imei_text_kept(text: Seq<char>)
    requires
        Imei::from_text(text) is Ok,
    ensures
        digits_text(Imei::from_text(text)->Ok_0@) == text,
{
    let digits = imei_text_digits(text)->Ok_0;
    Imei::lemma_view_of(digits);
    lemma_digits_text_of_text_digits(text);
}

/// A text that reads as a TAC is the text that the TAC is written as:
/// leading zeros included.
pub proof fn lemma_tac_text_kept(text: Seq<char>)
    requires
        Tac::from_text(text) is Ok,
    ensures
        digits_text(Tac::from_text(text)->Ok_0@) == text,
{
    let digits = tac_text_digits(text)->Ok_0;
    Tac::lemma_view_of(digits);
    lemma_digits_text_of_text_digits(text);
}

/// Writing a well-formed IMEI with a matching check digit as a number and
/// reading the number gives the same IMEI.
pub proof fn lemma_imei_int_round_trip(imei: Imei)
    requires
        imei.wf(),
        imei.valid(),
    ensures
        Imei::from_int(imei.value() as int) == Ok::<Imei, ImeiWrapperError>(imei),
{
    imei.lemma_of_view();
    lemma_digits_value_bound(imei@);
    lemma_decimal_digits_of_value(imei@);
}

/// Writing a well-formed TAC as a number and reading the number gives the
/// same TAC.
pub proof fn lemma_tac_int_round_trip(tac: Tac)
    requires
        tac.wf(),
    ensures
        Tac::from_int(tac.value() as int) == Ok::<Tac, ImeiWrapperError>(tac),
{
    tac.lemma_of_view();
    lemma_digits_value_bound(tac@);
    lemma_decimal_digits_of_value(tac@);
}

/// An IMEI read from text has fifteen elements, each a decimal digit, and
/// its check digit matches.
pub proof fn lemma_imei_from_text_well_formed(text: Seq<char>)
    requires
        Imei::from_text(text) is Ok,
    ensures
        Imei::from_text(text)->Ok_0@.len() == 15,
        Imei::from_text(text)->Ok_0.wf(),
        Imei::from_text(text)->Ok_0.valid(),
{
    let digits = imei_text_digits(text)->Ok_0;
    Imei::lemma_view_of(digits);
    lemma_digits_text_of_text_digits(text);
}

/// A TAC read from text has eight elements, each a decimal digit.
pub proof fn lemma_tac_from_text_well_formed(text: Seq<char>)
    requires
        Tac::from_text(text) is Ok,
    ensures
        Tac::from_text(text)->Ok_0@.len() == 8,
        Tac::from_text(text)->Ok_0.wf(),
{
    let digits = tac_text_digits(text)->Ok_0;
    Tac::lemma_view_of(digits);
    lemma_digits_text_of_text_digits(text);
}

/// An IMEI read from a number has fifteen elements, each a decimal digit,
/// its check digit matches, and its digits spell the number.
pub proof fn lemma_imei_from_int_well_formed(value: int)
    requires
        Imei::from_int(value) is Ok,
    ensures
        Imei::from_int(value)->Ok_0@.len() == 15,
        Imei::from_int(value)->Ok_0.wf(),
        Imei::from_int(value)->Ok_0.valid(),
        Imei::from_int(value)->Ok_0.value() == value,
{
    let digits = imei_int_digits(value)->Ok_0;
    lemma_decimal_digits(value as nat, 15);
    lemma_value_of_decimal_digits(value as nat, 15);
    Imei::lemma_view_of(digits);
}

/// A TAC read from a number has eight elements, each a decimal digit, and
/// its digits spell the number.
pub proof fn lemma_tac_from_int_well_formed(value: int)
    requires
        Tac::from_int(value) is Ok,
    ensures
        Tac::from_int(value)->Ok_0@.len() == 8,
        Tac::from_int(value)->Ok_0.wf(),
        Tac::from_int(value)->Ok_0.value() == value,
{
    let digits = tac_int_digits(value)->Ok_0;
    lemma_decimal_digits(value as nat, 8);
    lemma_value_of_decimal_digits(value as nat, 8);
    Tac::lemma_view_of(digits);
}

/// Fourteen digits with their Luhn check digit appended make an IMEI that is
/// well formed and whose check digit matches.
pub proof fn lemma_checksum_makes_valid_imei(body: Seq<u8>)
    requires
        body.len() == 14,
        is_digits(body),
    ensures
        Imei::of(body.push(luhn_checksum_spec(body) as u8)).wf(),
        Imei::of(body.push(luhn_checksum_spec(body) as u8)).valid(),
{
    let digits = body.push(luhn_checksum_spec(body) as u8);
    lemma_checksum_appended(body);
    Imei::lemma_view_of(digits);
}

/// With the check digit appended at an even position, the Luhn sum of the
/// whole sequence is a multiple of ten.
pub proof fn lemma_checksum_completes_sum(digits: Seq<u8>)
    requires
        digits.len() % 2 == 0,
    ensures
        luhn_sum(digits.push(luhn_checksum_spec(digits) as u8)) % 10 == 0,
{
    let check = luhn_checksum_spec(digits) as u8;
    assert(digits.push(check).drop_last() =~= digits);
}

/// The IMEI that stands for a TAC begins with the digits of the TAC, goes on
/// with six zeros, and ends in the Luhn check digit of the TAC alone, which
/// is that of the fourteen digits before it.
pub proof fn lemma_tac_imei_digits(tac: Seq<u8>)
    requires
        tac.len() == 8,
    ensures
        tac_imei_digits(tac).len() == 15,
        tac_imei_digits(tac).subrange(0, 8) == tac,
        forall|i: int| 8 <= i < 14 ==> tac_imei_digits(tac)[i] == 0,
        tac_imei_digits(tac)[14] as int == luhn_checksum_spec(tac),
        tac_imei_digits(tac)[14] as int == luhn_checksum_spec(tac_imei_digits(tac).subrange(0, 14)),
        is_digits(tac) ==> is_digits(tac_imei_digits(tac)),
{
    let body = tac + Seq::new(6, |i: int| 0u8);
    lemma_luhn_sum_trailing_zeros(tac, 6);
    lemma_checksum_appended(body);
    assert(tac_imei_digits(tac).subrange(0, 8) =~= tac);
    assert(tac_imei_digits(tac).subrange(0, 14) =~= body);
}

} // verus!
