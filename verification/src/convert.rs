//! Conversions between identifiers and the integer types.
//!
//! An integer is read as the decimal number it is, padded with zeros on the
//! left to the width of the identifier. An identifier is written as the
//! number that its digits spell.

use crate::digit_lemmas::{
    lemma_decimal_digits, lemma_digits_value_any_bound, lemma_digits_value_bound,
    lemma_value_of_decimal_digits,
};
use crate::digits::{decimal_digits, digits_to_int, digits_value, int_to_digits, pow10};
use crate::error::ImeiWrapperError;
use crate::luhn::check_digit_matches;
use crate::model::{Imei, Tac};
use vstd::prelude::*;

verus! {

/// What reading `value` as an IMEI gives: its digits, or the reason why not.
pub open spec fn imei_int_digits(value: int) -> Result<Seq<u8>, ImeiWrapperError> {
    if value < 0 || value >= pow10(15) {
        Err(ImeiWrapperError::ValueOutOfRange)
    } else if !check_digit_matches(decimal_digits(value as nat, 15)) {
        Err(ImeiWrapperError::ChecksumDoesNotMatch)
    } else {
        Ok(decimal_digits(value as nat, 15))
    }
}

/// What reading `value` as a TAC gives: its digits, or the reason why not.
pub open spec fn tac_int_digits(value: int) -> Result<Seq<u8>, ImeiWrapperError> {
    if value < 0 || value >= pow10(8) {
        Err(ImeiWrapperError::ValueOutOfRange)
    } else {
        Ok(decimal_digits(value as nat, 8))
    }
}

/// Ten to the power eight and ten to the power fifteen, written out.
pub proof fn lemma_pow10_widths()
    ensures
        pow10(8) == 100_000_000,
        pow10(15) == 1_000_000_000_000_000,
{
    reveal_with_fuel(pow10, 16);
}

impl Imei {
    /// What reading `value` as an IMEI gives.
    pub open spec fn from_int(value: int) -> Result<Imei, ImeiWrapperError> {
        match imei_int_digits(value) {
            Ok(digits) => Ok(Imei::of(digits)),
            Err(e) => Err(e),
        }
    }

    /// The number that the digits spell.
    pub open spec fn value(&self) -> nat {
        digits_value(self@)
    }

    /// Reads an IMEI from a number that is not negative.
    ///
    /// Fails with `ValueOutOfRange` where `value` has more than fifteen
    /// digits, and with `ChecksumDoesNotMatch` where its last digit is not
    /// the check digit of the others.
    pub fn from_unsigned(value: u128) -> (r: Result<Imei, ImeiWrapperError>)
        ensures
            r == Imei::from_int(value as int),
            r matches Ok(imei) ==> imei.wf() && imei.valid() && imei.value() == value,
    {
        let digits = match int_to_digits::<15>(value) {
            Some(digits) => digits,
            None => {
                return Err(ImeiWrapperError::ValueOutOfRange);
            },
        };
        let imei = Imei { digits };
        if !imei.is_valid() {
            return Err(ImeiWrapperError::ChecksumDoesNotMatch);
        }
        proof {
            imei.lemma_of_view();
            lemma_decimal_digits(value as nat, 15);
            lemma_value_of_decimal_digits(value as nat, 15);
        }
        Ok(imei)
    }

    /// Reads an IMEI from a number of any sign.
    ///
    /// Fails with `ValueOutOfRange` where `value` is negative, and else as
    /// `from_unsigned` does.
    pub fn from_signed(value: i128) -> (r: Result<Imei, ImeiWrapperError>)
        ensures
            r == Imei::from_int(value as int),
            r matches Ok(imei) ==> imei.wf() && imei.valid() && imei.value() == value,
    {
        if value < 0 {
            return Err(ImeiWrapperError::ValueOutOfRange);
        }
        Imei::from_unsigned(value as u128)
    }

    /// Writes the IMEI as the number that its digits spell.
    pub fn to_unsigned(&self) -> (value: u64)
        ensures
            value == self.value(),
            self.wf() ==> value < pow10(15),
            value < 29 * pow10(15),
    {
        proof {
            lemma_digits_value_any_bound(self@);
            if self.wf() {
                lemma_digits_value_bound(self@);
            }
        }
        digits_to_int(&self.digits)
    }
}

impl Tac {
    /// What reading `value` as a TAC gives.
    pub open spec fn from_int(value: int) -> Result<Tac, ImeiWrapperError> {
        match tac_int_digits(value) {
            Ok(digits) => Ok(Tac::of(digits)),
            Err(e) => Err(e),
        }
    }

    /// The number that the digits spell.
    pub open spec fn value(&self) -> nat {
        digits_value(self@)
    }

    /// Reads a TAC from a number that is not negative.
    ///
    /// Fails with `ValueOutOfRange` where `value` has more than eight
    /// digits.
    pub fn from_unsigned(value: u128) -> (r: Result<Tac, ImeiWrapperError>)
        ensures
            r == Tac::from_int(value as int),
            r matches Ok(tac) ==> tac.wf() && tac.value() == value,
    {
        match int_to_digits::<8>(value) {
            Some(digits) => {
                let tac = Tac { digits };
                proof {
                    tac.lemma_of_view();
                    lemma_decimal_digits(value as nat, 8);
                    lemma_value_of_decimal_digits(value as nat, 8);
                }
                Ok(tac)
            },
            None => Err(ImeiWrapperError::ValueOutOfRange),
        }
    }

    /// Reads a TAC from a number of any sign.
    ///
    /// Fails with `ValueOutOfRange` where `value` is negative, and else as
    /// `from_unsigned` does.
    pub fn from_signed(value: i128) -> (r: Result<Tac, ImeiWrapperError>)
        ensures
            r == Tac::from_int(value as int),
            r matches Ok(tac) ==> tac.wf() && tac.value() == value,
    {
        if value < 0 {
            return Err(ImeiWrapperError::ValueOutOfRange);
        }
        Tac::from_unsigned(value as u128)
    }

    /// Writes the TAC as the number that its digits spell.
    pub fn to_unsigned(&self) -> (value: u64)
        ensures
            value == self.value(),
            self.wf() ==> value < pow10(8),
            value < 29 * pow10(8),
    {
        proof {
            lemma_digits_value_any_bound(self@);
            if self.wf() {
                lemma_digits_value_bound(self@);
            }
        }
        digits_to_int(&self.digits)
    }
}

} // verus!
