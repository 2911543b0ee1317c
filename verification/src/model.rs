//! IMEI and TAC numbers as fixed-length sequences of decimal digits.

use crate::digits::{
    digits_text, digits_to_string, is_decimal_text, is_digits, string_to_digits, text_digits,
};
use crate::error::ImeiWrapperError;
use crate::luhn::{
    check_digit_matches, lemma_luhn_sum_trailing_zeros, luhn_checksum, luhn_checksum_spec,
};
use vstd::prelude::*;

verus! {

/// The error of the standard library for a slice whose length is not that of
/// the array asked for.
#[verifier::external_type_specification]
#[verifier::external_body]
pub struct ExTryFromSliceError(core::array::TryFromSliceError);

/// `TryFrom<&[T]>` for `&[T; N]` of the standard library: the conversion
/// succeeds exactly where the slice has `N` elements, and the array then
/// holds the elements of the slice.
pub assume_specification<'a, T, const N: usize>[ <&'a [T; N] as TryFrom<&'a [T]>>::try_from ](
    slice: &'a [T],
) -> (r: Result<&'a [T; N], core::array::TryFromSliceError>)
    ensures
        r is Ok <==> slice@.len() == N,
        r is Ok ==> r->Ok_0@ == slice@,
;

/// The `M` elements of `digits` that start at `start`.
fn window<const N: usize, const M: usize>(digits: &[u8; N], start: usize) -> (r: &[u8; M])
    requires
        start + M <= N,
    ensures
        r@ == digits@.subrange(start as int, start + M),
{
    let part: &[u8] = &digits[start..start + M];
    let r = <&[u8; M]>::try_from(part);
    r.unwrap()
}

/// An IMEI number: fifteen decimal digits, kept one by one so that leading
/// zeros survive.
#[derive(Debug, Clone, Copy, PartialEq, Eq)]
pub struct Imei {
    pub digits: [u8; 15],
}

/// A TAC number: the first eight digits of an IMEI, kept one by one so that
/// leading zeros survive.
#[derive(Debug, Clone, Copy, PartialEq, Eq)]
pub struct Tac {
    pub digits: [u8; 8],
}

/// What is known of a phone: its IMEI, its manufacturer and its model.
#[derive(Debug, Clone, PartialEq)]
pub struct PhoneInfo {
    pub imei: Imei,
    pub manufacturer: String,
    pub model: String,
}

impl View for Imei {
    type V = Seq<u8>;

    open spec fn view(&self) -> Seq<u8> {
        self.digits@
    }
}

impl View for Tac {
    type V = Seq<u8>;

    open spec fn view(&self) -> Seq<u8> {
        self.digits@
    }
}

/// The fifteen digits of the IMEI that a TAC stands for: the TAC, six zeros
/// for the serial number, and the Luhn check digit of those fourteen.
pub open spec fn tac_imei_digits(tac: Seq<u8>) -> Seq<u8> {
    let body = tac + Seq::new(6, |i: int| 0u8);
    body.push(luhn_checksum_spec(body) as u8)
}

/// What reading `text` as an IMEI gives: its digits, or the reason why not.
pub open spec fn imei_text_digits(text: Seq<char>) -> Result<Seq<u8>, ImeiWrapperError> {
    if !is_decimal_text(text, 15) {
        Err(ImeiWrapperError::CannotParseDigits)
    } else if !check_digit_matches(text_digits(text)) {
        Err(ImeiWrapperError::ChecksumDoesNotMatch)
    } else {
        Ok(text_digits(text))
    }
}

/// What reading `text` as a TAC gives: its digits, or the reason why not.
pub open spec fn tac_text_digits(text: Seq<char>) -> Result<Seq<u8>, ImeiWrapperError> {
    if !is_decimal_text(text, 8) {
        Err(ImeiWrapperError::CannotParseDigits)
    } else {
        Ok(text_digits(text))
    }
}

impl Imei {
    /// The IMEI whose digits are `digits`.
    pub open spec fn of(digits: Seq<u8>) -> Imei
        recommends
            digits.len() == 15,
    {
        Imei {
            digits: [
                digits[0],
                digits[1],
                digits[2],
                digits[3],
                digits[4],
                digits[5],
                digits[6],
                digits[7],
                digits[8],
                digits[9],
                digits[10],
                digits[11],
                digits[12],
                digits[13],
                digits[14],
            ],
        }
    }

    /// An IMEI is the IMEI of its own digits, and has fifteen of them.
    pub proof fn lemma_of_view(self)
        ensures
            Imei::of(self@) == self,
            self@.len() == 15,
    {
        assert(Imei::of(self@).digits =~= self.digits);
    }

    /// The IMEI of fifteen digits holds those digits.
    pub proof fn lemma_view_of(digits: Seq<u8>)
        requires
            digits.len() == 15,
        ensures
            Imei::of(digits)@ == digits,
    {
        assert(Imei::of(digits)@ =~= digits);
    }

    /// Every element is a single decimal digit.
    pub open spec fn wf(&self) -> bool {
        is_digits(self@)
    }

    /// The last digit is the Luhn check digit of the fourteen before it.
    pub open spec fn valid(&self) -> bool {
        check_digit_matches(self@)
    }

    /// What reading `text` as an IMEI gives.
    pub open spec fn from_text(text: Seq<char>) -> Result<Imei, ImeiWrapperError> {
        match imei_text_digits(text) {
            Ok(digits) => Ok(Imei::of(digits)),
            Err(e) => Err(e),
        }
    }

    /// The reporting body code: the first two digits.
    pub fn reporting_body(&self) -> (r: &[u8; 2])
        ensures
            r@ == self@.subrange(0, 2),
    {
        window::<15, 2>(&self.digits, 0)
    }

    /// The model identifier without the reporting body code: digits three
    /// to eight.
    pub fn model_identifier(&self) -> (r: &[u8; 6])
        ensures
            r@ == self@.subrange(2, 8),
    {
        window::<15, 6>(&self.digits, 2)
    }

    /// The type allocation code: the first eight digits.
    pub fn type_allocation_code(&self) -> (r: &[u8; 8])
        ensures
            r@ == self@.subrange(0, 8),
    {
        window::<15, 8>(&self.digits, 0)
    }

    /// The serial number of the unit: digits nine to fourteen.
    pub fn serial_number(&self) -> (r: &[u8; 6])
        ensures
            r@ == self@.subrange(8, 14),
    {
        window::<15, 6>(&self.digits, 8)
    }

    /// The check digit: the fifteenth digit.
    pub fn check_digit(&self) -> (r: u8)
        ensures
            r == self@[14],
    {
        self.digits[14]
    }

    /// The first fourteen digits, over which the check digit is computed.
    pub fn without_check_digit(&self) -> (r: &[u8; 14])
        ensures
            r@ == self@.subrange(0, 14),
    {
        window::<15, 14>(&self.digits, 0)
    }

    /// Tells whether the check digit is the Luhn check digit of the other
    /// fourteen. That says nothing on whether a device bears this number.
    pub fn is_valid(&self) -> (r: bool)
        ensures
            r == self.valid(),
    {
        let body = self.without_check_digit();
        proof {
            assert(self@.drop_last() =~= self@.subrange(0, 14));
        }
        luhn_checksum(body) == self.check_digit()
    }

    /// Reads an IMEI from its fifteen decimal digits.
    ///
    /// Fails with `CannotParseDigits` where `s` is not exactly fifteen
    /// decimal digits, and with `ChecksumDoesNotMatch` where it is but the
    /// last digit is not the check digit of the others.
    pub fn from_str(s: &str) -> (r: Result<Imei, ImeiWrapperError>)
        ensures
            r == Imei::from_text(s@),
            r matches Ok(imei) ==> imei.wf() && imei.valid() && imei@ == text_digits(s@),
    {
        let digits = match string_to_digits::<15>(s) {
            Some(digits) => digits,
            None => {
                return Err(ImeiWrapperError::CannotParseDigits);
            },
        };
        let imei = Imei { digits };
        if !imei.is_valid() {
            return Err(ImeiWrapperError::ChecksumDoesNotMatch);
        }
        proof {
            imei.lemma_of_view();
        }
        Ok(imei)
    }

    /// Writes the digits one after the other: the text that `from_str` reads.
    pub fn to_string(&self) -> (s: String)
        ensures
            s@ == digits_text(self@),
    {
        digits_to_string(&self.digits)
    }
}

impl Tac {
    /// The TAC whose digits are `digits`.
    pub open spec fn of(digits: Seq<u8>) -> Tac
        recommends
            digits.len() == 8,
    {
        Tac {
            digits: [
                digits[0],
                digits[1],
                digits[2],
                digits[3],
                digits[4],
                digits[5],
                digits[6],
                digits[7],
            ],
        }
    }

    /// A TAC is the TAC of its own digits, and has eight of them.
    pub proof fn lemma_of_view(self)
        ensures
            Tac::of(self@) == self,
            self@.len() == 8,
    {
        assert(Tac::of(self@).digits =~= self.digits);
    }

    /// The TAC of eight digits holds those digits.
    pub proof fn lemma_view_of(digits: Seq<u8>)
        requires
            digits.len() == 8,
        ensures
            Tac::of(digits)@ == digits,
    {
        assert(Tac::of(digits)@ =~= digits);
    }

    /// Every element is a single decimal digit.
    pub open spec fn wf(&self) -> bool {
        is_digits(self@)
    }

    /// What reading `text` as a TAC gives.
    pub open spec fn from_text(text: Seq<char>) -> Result<Tac, ImeiWrapperError> {
        match tac_text_digits(text) {
            Ok(digits) => Ok(Tac::of(digits)),
            Err(e) => Err(e),
        }
    }

    /// The reporting body code: the first two digits.
    pub fn reporting_body(&self) -> (r: &[u8; 2])
        ensures
            r@ == self@.subrange(0, 2),
    {
        window::<8, 2>(&self.digits, 0)
    }

    /// The model identifier without the reporting body code: digits three
    /// to eight.
    pub fn model_identifier(&self) -> (r: &[u8; 6])
        ensures
            r@ == self@.subrange(2, 8),
    {
        window::<8, 6>(&self.digits, 2)
    }

    /// A TAC carries no check digit, so every TAC passes.
    pub fn is_valid(&self) -> (r: bool)
        ensures
            r,
    {
        true
    }

    /// Reads a TAC from its eight decimal digits.
    ///
    /// Fails with `CannotParseDigits` where `s` is not exactly eight decimal
    /// digits. Nothing else is checked.
    pub fn from_str(s: &str) -> (r: Result<Tac, ImeiWrapperError>)
        ensures
            r == Tac::from_text(s@),
            r matches Ok(tac) ==> tac.wf() && tac@ == text_digits(s@),
    {
        match string_to_digits::<8>(s) {
            Some(digits) => {
                let tac = Tac { digits };
                proof {
                    tac.lemma_of_view();
                }
                Ok(tac)
            },
            None => Err(ImeiWrapperError::CannotParseDigits),
        }
    }

    /// Writes the digits one after the other: the text that `from_str` reads.
    pub fn to_string(&self) -> (s: String)
        ensures
            s@ == digits_text(self@),
    {
        digits_to_string(&self.digits)
    }
}

impl vstd::std_specs::convert::FromSpecImpl<Tac> for Imei {
    open spec fn obeys_from_spec() -> bool {
        true
    }

    open spec fn from_spec(tac: Tac) -> Imei {
        Imei::of(tac_imei_digits(tac@))
    }
}

impl From<Tac> for Imei {
    /// The IMEI that stands for a TAC: the TAC, a serial number of six
    /// zeros, and the check digit that makes it valid.
    fn from(tac: Tac) -> (imei: Imei)
        ensures
            imei@ == tac_imei_digits(tac@),
            imei@.subrange(0, 8) == tac@,
            imei.valid(),
            tac.wf() ==> imei.wf(),
    {
        let mut imei_digits = [0u8; 15];
        let mut i: usize = 0;
        while i < 8
            invariant
                i <= 8,
                forall|k: int| 0 <= k < i ==> imei_digits@[k] == tac@[k],
                forall|k: int| i <= k < 15 ==> imei_digits@[k] == 0,
            decreases 8 - i,
        {
            imei_digits[i] = tac.digits[i];
            i += 1;
        }
        imei_digits[14] = luhn_checksum(&tac.digits);
        let imei = Imei { digits: imei_digits };
        proof {
            let body = tac@ + Seq::new(6, |i: int| 0u8);
            lemma_luhn_sum_trailing_zeros(tac@, 6);
            assert(imei@ =~= tac_imei_digits(tac@));
            assert(imei@.subrange(0, 8) =~= tac@);
            assert(imei@.drop_last() =~= body);
            imei.lemma_of_view();
        }
        imei
    }
}

impl vstd::std_specs::convert::FromSpecImpl<Imei> for Tac {
    open spec fn obeys_from_spec() -> bool {
        true
    }

    open spec fn from_spec(imei: Imei) -> Tac {
        Tac::of(imei@.subrange(0, 8))
    }
}

impl From<Imei> for Tac {
    /// The TAC of an IMEI: its first eight digits. The serial number and
    /// the check digit are dropped.
    fn from(imei: Imei) -> (tac: Tac)
        ensures
            tac@ == imei@.subrange(0, 8),
            imei.wf() ==> tac.wf(),
    {
        let tac = Tac { digits: *imei.type_allocation_code() };
        proof {
            tac.lemma_of_view();
        }
        tac
    }
}

impl core::str::FromStr for Imei {
    type Err = ImeiWrapperError;

    /// Reads an IMEI as `Imei::from_str` does.
    fn from_str(s: &str) -> (r: Result<Imei, ImeiWrapperError>)
        ensures
            r == Imei::from_text(s@),
    {
        Imei::from_str(s)
    }
}

impl core::str::FromStr for Tac {
    type Err = ImeiWrapperError;

    /// Reads a TAC as `Tac::from_str` does.
    fn from_str(s: &str) -> (r: Result<Tac, ImeiWrapperError>)
        ensures
            r == Tac::from_text(s@),
    {
        Tac::from_str(s)
    }
}

impl<'a> vstd::std_specs::convert::TryFromSpecImpl<&'a str> for Imei {
    open spec fn obeys_try_from_spec() -> bool {
        true
    }

    open spec fn try_from_spec(s: &'a str) -> Result<Imei, ImeiWrapperError> {
        Imei::from_text(s@)
    }
}

impl<'a> TryFrom<&'a str> for Imei {
    type Error = ImeiWrapperError;

    /// Reads an IMEI as `Imei::from_str` does.
    fn try_from(s: &'a str) -> (r: Result<Imei, ImeiWrapperError>)
        ensures
            r == Imei::from_text(s@),
    {
        Imei::from_str(s)
    }
}

impl<'a> vstd::std_specs::convert::TryFromSpecImpl<&'a str> for Tac {
    open spec fn obeys_try_from_spec() -> bool {
        true
    }

    open spec fn try_from_spec(s: &'a str) -> Result<Tac, ImeiWrapperError> {
        Tac::from_text(s@)
    }
}

impl<'a> TryFrom<&'a str> for Tac {
    type Error = ImeiWrapperError;

    /// Reads a TAC as `Tac::from_str` does.
    fn try_from(s: &'a str) -> (r: Result<Tac, ImeiWrapperError>)
        ensures
            r == Tac::from_text(s@),
    {
        Tac::from_str(s)
    }
}

} // verus!
