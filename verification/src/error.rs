//! The ways in which reading an identifier can fail.

use vstd::prelude::*;

verus! {

/// Why a string or an integer was not accepted as an IMEI or a TAC.
#[derive(Debug, Clone, Copy, PartialEq, Eq)]
pub enum ImeiWrapperError {
    /// The integer is negative, or needs more digits than the identifier has.
    ValueOutOfRange,
    /// The string has the wrong length, or a character in it is no digit.
    CannotParseDigits,
    /// The last digit is not the Luhn check digit of the digits before it.
    ChecksumDoesNotMatch,
}

impl ImeiWrapperError {
    /// The message of this error, as one sentence in lower case.
    pub open spec fn message(self) -> Seq<char> {
        match self {
            ImeiWrapperError::ValueOutOfRange => {
                "provided numeric value is out of the required range for an IMEI or TAC"@
            },
            ImeiWrapperError::CannotParseDigits => {
                "one or more characters in the string is not numeric"@
            },
            ImeiWrapperError::ChecksumDoesNotMatch => {
                "the IMEI check digit does not match its Luhn checksum"@
            },
        }
    }

    /// Returns the message of this error.
    pub fn to_string(&self) -> (s: String)
        ensures
            s@ == self.message(),
    {
        match self {
            ImeiWrapperError::ValueOutOfRange => {
                "provided numeric value is out of the required range for an IMEI or TAC".to_owned()
            },
            ImeiWrapperError::CannotParseDigits => {
                "one or more characters in the string is not numeric".to_owned()
            },
            ImeiWrapperError::ChecksumDoesNotMatch => {
                "the IMEI check digit does not match its Luhn checksum".to_owned()
            },
        }
    }
}

} // verus!
