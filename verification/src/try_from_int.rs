//! `TryFrom` of each integer type for `Imei` and `Tac`.
//!
//! Every width reads the number in the same way: the impls widen the
//! argument and hand it to `from_signed` or `from_unsigned`.

use crate::error::ImeiWrapperError;
use crate::model::{Imei, Tac};
use vstd::prelude::*;

verus! {

impl vstd::std_specs::convert::TryFromSpecImpl<i32> for Imei {
    open spec fn obeys_try_from_spec() -> bool {
        true
    }

    open spec fn try_from_spec(value: i32) -> Result<Imei, ImeiWrapperError> {
        Imei::from_int(value as int)
    }
}

impl TryFrom<i32> for Imei {
    type Error = ImeiWrapperError;

    /// Reads an IMEI from the decimal digits of an `i32`.
    fn try_from(value: i32) -> (r: Result<Imei, ImeiWrapperError>)
        ensures
            r == Imei::from_int(value as int),
    {
        Imei::from_signed(value as i128)
    }
}

impl vstd::std_specs::convert::TryFromSpecImpl<u32> for Imei {
    open spec fn obeys_try_from_spec() -> bool {
        true
    }

    open spec fn try_from_spec(value: u32) -> Result<Imei, ImeiWrapperError> {
        Imei::from_int(value as int)
    }
}

impl TryFrom<u32> for Imei {
    type Error = ImeiWrapperError;

    /// Reads an IMEI from the decimal digits of an `u32`.
    fn try_from(value: u32) -> (r: Result<Imei, ImeiWrapperError>)
        ensures
            r == Imei::from_int(value as int),
    {
        Imei::from_unsigned(value as u128)
    }
}

impl vstd::std_specs::convert::TryFromSpecImpl<i64> for Imei {
    open spec fn obeys_try_from_spec() -> bool {
        true
    }

    open spec fn try_from_spec(value: i64) -> Result<Imei, ImeiWrapperError> {
        Imei::from_int(value as int)
    }
}

impl TryFrom<i64> for Imei {
    type Error = ImeiWrapperError;

    /// Reads an IMEI from the decimal digits of an `i64`.
    fn try_from(value: i64) -> (r: Result<Imei, ImeiWrapperError>)
        ensures
            r == Imei::from_int(value as int),
    {
        Imei::from_signed(value as i128)
    }
}

impl vstd::std_specs::convert::TryFromSpecImpl<u64> for Imei {
    open spec fn obeys_try_from_spec() -> bool {
        true
    }

    open spec fn try_from_spec(value: u64) -> Result<Imei, ImeiWrapperError> {
        Imei::from_int(value as int)
    }
}

impl TryFrom<u64> for Imei {
    type Error = ImeiWrapperError;

    /// Reads an IMEI from the decimal digits of an `u64`.
    fn try_from(value: u64) -> (r: Result<Imei, ImeiWrapperError>)
        ensures
            r == Imei::from_int(value as int),
    {
        Imei::from_unsigned(value as u128)
    }
}

impl vstd::std_specs::convert::TryFromSpecImpl<i128> for Imei {
    open spec fn obeys_try_from_spec() -> bool {
        true
    }

    open spec fn try_from_spec(value: i128) -> Result<Imei, ImeiWrapperError> {
        Imei::from_int(value as int)
    }
}

impl TryFrom<i128> for Imei {
    type Error = ImeiWrapperError;

    /// Reads an IMEI from the decimal digits of an `i128`.
    fn try_from(value: i128) -> (r: Result<Imei, ImeiWrapperError>)
        ensures
            r == Imei::from_int(value as int),
    {
        Imei::from_signed(value)
    }
}

impl vstd::std_specs::convert::TryFromSpecImpl<u128> for Imei {
    open spec fn obeys_try_from_spec() -> bool {
        true
    }

    open spec fn try_from_spec(value: u128) -> Result<Imei, ImeiWrapperError> {
        Imei::from_int(value as int)
    }
}

impl TryFrom<u128> for Imei {
    type Error = ImeiWrapperError;

    /// Reads an IMEI from the decimal digits of an `u128`.
    fn try_from(value: u128) -> (r: Result<Imei, ImeiWrapperError>)
        ensures
            r == Imei::from_int(value as int),
    {
        Imei::from_unsigned(value)
    }
}

impl vstd::std_specs::convert::TryFromSpecImpl<isize> for Imei {
    open spec fn obeys_try_from_spec() -> bool {
        true
    }

    open spec fn try_from_spec(value: isize) -> Result<Imei, ImeiWrapperError> {
        Imei::from_int(value as int)
    }
}

impl TryFrom<isize> for Imei {
    type Error = ImeiWrapperError;

    /// Reads an IMEI from the decimal digits of an `isize`.
    fn try_from(value: isize) -> (r: Result<Imei, ImeiWrapperError>)
        ensures
            r == Imei::from_int(value as int),
    {
        Imei::from_signed(value as i128)
    }
}

impl vstd::std_specs::convert::TryFromSpecImpl<usize> for Imei {
    open spec fn obeys_try_from_spec() -> bool {
        true
    }

    open spec fn try_from_spec(value: usize) -> Result<Imei, ImeiWrapperError> {
        Imei::from_int(value as int)
    }
}

impl TryFrom<usize> for Imei {
    type Error = ImeiWrapperError;

    /// Reads an IMEI from the decimal digits of an `usize`.
    fn try_from(value: usize) -> (r: Result<Imei, ImeiWrapperError>)
        ensures
            r == Imei::from_int(value as int),
    {
        Imei::from_unsigned(value as u128)
    }
}

impl vstd::std_specs::convert::TryFromSpecImpl<i32> for Tac {
    open spec fn obeys_try_from_spec() -> bool {
        true
    }

    open spec fn try_from_spec(value: i32) -> Result<Tac, ImeiWrapperError> {
        Tac::from_int(value as int)
    }
}

impl TryFrom<i32> for Tac {
    type Error = ImeiWrapperError;

    /// Reads a TAC from the decimal digits of an `i32`.
    fn try_from(value: i32) -> (r: Result<Tac, ImeiWrapperError>)
        ensures
            r == Tac::from_int(value as int),
    {
        Tac::from_signed(value as i128)
    }
}

impl vstd::std_specs::convert::TryFromSpecImpl<u32> for Tac {
    open spec fn obeys_try_from_spec() -> bool {
        true
    }

    open spec fn try_from_spec(value: u32) -> Result<Tac, ImeiWrapperError> {
        Tac::from_int(value as int)
    }
}

impl TryFrom<u32> for Tac {
    type Error = ImeiWrapperError;

    /// Reads a TAC from the decimal digits of an `u32`.
    fn try_from(value: u32) -> (r: Result<Tac, ImeiWrapperError>)
        ensures
            r == Tac::from_int(value as int),
    {
        Tac::from_unsigned(value as u128)
    }
}

impl vstd::std_specs::convert::TryFromSpecImpl<i64> for Tac {
    open spec fn obeys_try_from_spec() -> bool {
        true
    }

    open spec fn try_from_spec(value: i64) -> Result<Tac, ImeiWrapperError> {
        Tac::from_int(value as int)
    }
}

impl TryFrom<i64> for Tac {
    type Error = ImeiWrapperError;

    /// Reads a TAC from the decimal digits of an `i64`.
    fn try_from(value: i64) -> (r: Result<Tac, ImeiWrapperError>)
        ensures
            r == Tac::from_int(value as int),
    {
        Tac::from_signed(value as i128)
    }
}

impl vstd::std_specs::convert::TryFromSpecImpl<u64> for Tac {
    open spec fn obeys_try_from_spec() -> bool {
        true
    }

    open spec fn try_from_spec(value: u64) -> Result<Tac, ImeiWrapperError> {
        Tac::from_int(value as int)
    }
}

impl TryFrom<u64> for Tac {
    type Error = ImeiWrapperError;

    /// Reads a TAC from the decimal digits of an `u64`.
    fn try_from(value: u64) -> (r: Result<Tac, ImeiWrapperError>)
        ensures
            r == Tac::from_int(value as int),
    {
        Tac::from_unsigned(value as u128)
    }
}

impl vstd::std_specs::convert::TryFromSpecImpl<i128> for Tac {
    open spec fn obeys_try_from_spec() -> bool {
        true
    }

    open spec fn try_from_spec(value: i128) -> Result<Tac, ImeiWrapperError> {
        Tac::from_int(value as int)
    }
}

impl TryFrom<i128> for Tac {
    type Error = ImeiWrapperError;

    /// Reads a TAC from the decimal digits of an `i128`.
    fn try_from(value: i128) -> (r: Result<Tac, ImeiWrapperError>)
        ensures
            r == Tac::from_int(value as int),
    {
        Tac::from_signed(value)
    }
}

impl vstd::std_specs::convert::TryFromSpecImpl<u128> for Tac {
    open spec fn obeys_try_from_spec() -> bool {
        true
    }

    open spec fn try_from_spec(value: u128) -> Result<Tac, ImeiWrapperError> {
        Tac::from_int(value as int)
    }
}

impl TryFrom<u128> for Tac {
    type Error = ImeiWrapperError;

    /// Reads a TAC from the decimal digits of an `u128`.
    fn try_from(value: u128) -> (r: Result<Tac, ImeiWrapperError>)
        ensures
            r == Tac::from_int(value as int),
    {
        Tac::from_unsigned(value)
    }
}

impl vstd::std_specs::convert::TryFromSpecImpl<isize> for Tac {
    open spec fn obeys_try_from_spec() -> bool {
        true
    }

    open spec fn try_from_spec(value: isize) -> Result<Tac, ImeiWrapperError> {
        Tac::from_int(value as int)
    }
}

impl TryFrom<isize> for Tac {
    type Error = ImeiWrapperError;

    /// Reads a TAC from the decimal digits of an `isize`.
    fn try_from(value: isize) -> (r: Result<Tac, ImeiWrapperError>)
        ensures
            r == Tac::from_int(value as int),
    {
        Tac::from_signed(value as i128)
    }
}

impl vstd::std_specs::convert::TryFromSpecImpl<usize> for Tac {
    open spec fn obeys_try_from_spec() -> bool {
        true
    }

    open spec fn try_from_spec(value: usize) -> Result<Tac, ImeiWrapperError> {
        Tac::from_int(value as int)
    }
}

impl TryFrom<usize> for Tac {
    type Error = ImeiWrapperError;

    /// Reads a TAC from the decimal digits of an `usize`.
    fn try_from(value: usize) -> (r: Result<Tac, ImeiWrapperError>)
        ensures
            r == Tac::from_int(value as int),
    {
        Tac::from_unsigned(value as u128)
    }
}

} // verus!
