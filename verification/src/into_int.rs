//! `From` of `Tac` and `Imei`, owned or borrowed, for the integer types that
//! can hold them.
//!
//! A TAC has eight digits and fits every type of 32 bits or more; an IMEI
//! has fifteen and fits those of 64 bits or more. An array whose elements are
//! not all digits spells a larger number: in `i32` and `isize` that number is
//! cut to the bits of the type.

use crate::convert::lemma_pow10_widths;
use crate::model::{Imei, Tac};
use vstd::prelude::*;

verus! {

impl vstd::std_specs::convert::FromSpecImpl<Tac> for i32 {
    open spec fn obeys_from_spec() -> bool {
        true
    }

    open spec fn from_spec(tac: Tac) -> i32 {
        tac.value() as i32
    }
}

impl From<Tac> for i32 {
    /// The number that the digits of the TAC spell.
    fn from(tac: Tac) -> (value: i32)
        ensures
            tac.wf() ==> value == tac.value(),
    {
        proof {
            lemma_pow10_widths();
        }
        #[verifier::truncate]
        (tac.to_unsigned() as i32)
    }
}

impl vstd::std_specs::convert::FromSpecImpl<Tac> for u32 {
    open spec fn obeys_from_spec() -> bool {
        true
    }

    open spec fn from_spec(tac: Tac) -> u32 {
        tac.value() as u32
    }
}

impl From<Tac> for u32 {
    /// The number that the digits of the TAC spell.
    fn from(tac: Tac) -> (value: u32)
        ensures
            value == tac.value(),
    {
        proof {
            lemma_pow10_widths();
        }
        tac.to_unsigned() as u32
    }
}

impl vstd::std_specs::convert::FromSpecImpl<Tac> for i64 {
    open spec fn obeys_from_spec() -> bool {
        true
    }

    open spec fn from_spec(tac: Tac) -> i64 {
        tac.value() as i64
    }
}

impl From<Tac> for i64 {
    /// The number that the digits of the TAC spell.
    fn from(tac: Tac) -> (value: i64)
        ensures
            value == tac.value(),
    {
        proof {
            lemma_pow10_widths();
        }
        tac.to_unsigned() as i64
    }
}

impl vstd::std_specs::convert::FromSpecImpl<Tac> for u64 {
    open spec fn obeys_from_spec() -> bool {
        true
    }

    open spec fn from_spec(tac: Tac) -> u64 {
        tac.value() as u64
    }
}

impl From<Tac> for u64 {
    /// The number that the digits of the TAC spell.
    fn from(tac: Tac) -> (value: u64)
        ensures
            value == tac.value(),
    {
        tac.to_unsigned()
    }
}

impl vstd::std_specs::convert::FromSpecImpl<Tac> for i128 {
    open spec fn obeys_from_spec() -> bool {
        true
    }

    open spec fn from_spec(tac: Tac) -> i128 {
        tac.value() as i128
    }
}

impl From<Tac> for i128 {
    /// The number that the digits of the TAC spell.
    fn from(tac: Tac) -> (value: i128)
        ensures
            value == tac.value(),
    {
        proof {
            lemma_pow10_widths();
        }
        tac.to_unsigned() as i128
    }
}

impl vstd::std_specs::convert::FromSpecImpl<Tac> for u128 {
    open spec fn obeys_from_spec() -> bool {
        true
    }

    open spec fn from_spec(tac: Tac) -> u128 {
        tac.value() as u128
    }
}

impl From<Tac> for u128 {
    /// The number that the digits of the TAC spell.
    fn from(tac: Tac) -> (value: u128)
        ensures
            value == tac.value(),
    {
        proof {
            lemma_pow10_widths();
        }
        tac.to_unsigned() as u128
    }
}

impl vstd::std_specs::convert::FromSpecImpl<Tac> for isize {
    open spec fn obeys_from_spec() -> bool {
        true
    }

    open spec fn from_spec(tac: Tac) -> isize {
        tac.value() as isize
    }
}

impl From<Tac> for isize {
    /// The number that the digits of the TAC spell.
    fn from(tac: Tac) -> (value: isize)
        ensures
            tac.wf() ==> value == tac.value(),
    {
        proof {
            lemma_pow10_widths();
        }
        #[verifier::truncate]
        (tac.to_unsigned() as isize)
    }
}

impl vstd::std_specs::convert::FromSpecImpl<Tac> for usize {
    open spec fn obeys_from_spec() -> bool {
        true
    }

    open spec fn from_spec(tac: Tac) -> usize {
        tac.value() as usize
    }
}

impl From<Tac> for usize {
    /// The number that the digits of the TAC spell.
    fn from(tac: Tac) -> (value: usize)
        ensures
            value == tac.value(),
    {
        proof {
            lemma_pow10_widths();
        }
        tac.to_unsigned() as usize
    }
}

impl<'a> vstd::std_specs::convert::FromSpecImpl<&'a Tac> for i32 {
    open spec fn obeys_from_spec() -> bool {
        true
    }

    open spec fn from_spec(tac: &'a Tac) -> i32 {
        tac.value() as i32
    }
}

impl<'a> From<&'a Tac> for i32 {
    /// The number that the digits of the TAC spell.
    fn from(tac: &'a Tac) -> (value: i32)
        ensures
            tac.wf() ==> value == tac.value(),
    {
        proof {
            lemma_pow10_widths();
        }
        #[verifier::truncate]
        (tac.to_unsigned() as i32)
    }
}

impl<'a> vstd::std_specs::convert::FromSpecImpl<&'a Tac> for u32 {
    open spec fn obeys_from_spec() -> bool {
        true
    }

    open spec fn from_spec(tac: &'a Tac) -> u32 {
        tac.value() as u32
    }
}

impl<'a> From<&'a Tac> for u32 {
    /// The number that the digits of the TAC spell.
    fn from(tac: &'a Tac) -> (value: u32)
        ensures
            value == tac.value(),
    {
        proof {
            lemma_pow10_widths();
        }
        tac.to_unsigned() as u32
    }
}

impl<'a> vstd::std_specs::convert::FromSpecImpl<&'a Tac> for i64 {
    open spec fn obeys_from_spec() -> bool {
        true
    }

    open spec fn from_spec(tac: &'a Tac) -> i64 {
        tac.value() as i64
    }
}

impl<'a> From<&'a Tac> for i64 {
    /// The number that the digits of the TAC spell.
    fn from(tac: &'a Tac) -> (value: i64)
        ensures
            value == tac.value(),
    {
        proof {
            lemma_pow10_widths();
        }
        tac.to_unsigned() as i64
    }
}

impl<'a> vstd::std_specs::convert::FromSpecImpl<&'a Tac> for u64 {
    open spec fn obeys_from_spec() -> bool {
        true
    }

    open spec fn from_spec(tac: &'a Tac) -> u64 {
        tac.value() as u64
    }
}

impl<'a> From<&'a Tac> for u64 {
    /// The number that the digits of the TAC spell.
    fn from(tac: &'a Tac) -> (value: u64)
        ensures
            value == tac.value(),
    {
        tac.to_unsigned()
    }
}

impl<'a> vstd::std_specs::convert::FromSpecImpl<&'a Tac> for i128 {
    open spec fn obeys_from_spec() -> bool {
        true
    }

    open spec fn from_spec(tac: &'a Tac) -> i128 {
        tac.value() as i128
    }
}

impl<'a> From<&'a Tac> for i128 {
    /// The number that the digits of the TAC spell.
    fn from(tac: &'a Tac) -> (value: i128)
        ensures
            value == tac.value(),
    {
        proof {
            lemma_pow10_widths();
        }
        tac.to_unsigned() as i128
    }
}

impl<'a> vstd::std_specs::convert::FromSpecImpl<&'a Tac> for u128 {
    open spec fn obeys_from_spec() -> bool {
        true
    }

    open spec fn from_spec(tac: &'a Tac) -> u128 {
        tac.value() as u128
    }
}

impl<'a> From<&'a Tac> for u128 {
    /// The number that the digits of the TAC spell.
    fn from(tac: &'a Tac) -> (value: u128)
        ensures
            value == tac.value(),
    {
        proof {
            lemma_pow10_widths();
        }
        tac.to_unsigned() as u128
    }
}

impl<'a> vstd::std_specs::convert::FromSpecImpl<&'a Tac> for isize {
    open spec fn obeys_from_spec() -> bool {
        true
    }

    open spec fn from_spec(tac: &'a Tac) -> isize {
        tac.value() as isize
    }
}

impl<'a> From<&'a Tac> for isize {
    /// The number that the digits of the TAC spell.
    fn from(tac: &'a Tac) -> (value: isize)
        ensures
            tac.wf() ==> value == tac.value(),
    {
        proof {
            lemma_pow10_widths();
        }
        #[verifier::truncate]
        (tac.to_unsigned() as isize)
    }
}

impl<'a> vstd::std_specs::convert::FromSpecImpl<&'a Tac> for usize {
    open spec fn obeys_from_spec() -> bool {
        true
    }

    open spec fn from_spec(tac: &'a Tac) -> usize {
        tac.value() as usize
    }
}

impl<'a> From<&'a Tac> for usize {
    /// The number that the digits of the TAC spell.
    fn from(tac: &'a Tac) -> (value: usize)
        ensures
            value == tac.value(),
    {
        proof {
            lemma_pow10_widths();
        }
        tac.to_unsigned() as usize
    }
}

impl vstd::std_specs::convert::FromSpecImpl<Imei> for i64 {
    open spec fn obeys_from_spec() -> bool {
        true
    }

    open spec fn from_spec(imei: Imei) -> i64 {
        imei.value() as i64
    }
}

impl From<Imei> for i64 {
    /// The number that the digits of the IMEI spell.
    fn from(imei: Imei) -> (value: i64)
        ensures
            value == imei.value(),
    {
        proof {
            lemma_pow10_widths();
        }
        imei.to_unsigned() as i64
    }
}

impl vstd::std_specs::convert::FromSpecImpl<Imei> for u64 {
    open spec fn obeys_from_spec() -> bool {
        true
    }

    open spec fn from_spec(imei: Imei) -> u64 {
        imei.value() as u64
    }
}

impl From<Imei> for u64 {
    /// The number that the digits of the IMEI spell.
    fn from(imei: Imei) -> (value: u64)
        ensures
            value == imei.value(),
    {
        imei.to_unsigned()
    }
}

impl vstd::std_specs::convert::FromSpecImpl<Imei> for i128 {
    open spec fn obeys_from_spec() -> bool {
        true
    }

    open spec fn from_spec(imei: Imei) -> i128 {
        imei.value() as i128
    }
}

impl From<Imei> for i128 {
    /// The number that the digits of the IMEI spell.
    fn from(imei: Imei) -> (value: i128)
        ensures
            value == imei.value(),
    {
        proof {
            lemma_pow10_widths();
        }
        imei.to_unsigned() as i128
    }
}

impl vstd::std_specs::convert::FromSpecImpl<Imei> for u128 {
    open spec fn obeys_from_spec() -> bool {
        true
    }

    open spec fn from_spec(imei: Imei) -> u128 {
        imei.value() as u128
    }
}

impl From<Imei> for u128 {
    /// The number that the digits of the IMEI spell.
    fn from(imei: Imei) -> (value: u128)
        ensures
            value == imei.value(),
    {
        proof {
            lemma_pow10_widths();
        }
        imei.to_unsigned() as u128
    }
}

impl<'a> vstd::std_specs::convert::FromSpecImpl<&'a Imei> for i64 {
    open spec fn obeys_from_spec() -> bool {
        true
    }

    open spec fn from_spec(imei: &'a Imei) -> i64 {
        imei.value() as i64
    }
}

impl<'a> From<&'a Imei> for i64 {
    /// The number that the digits of the IMEI spell.
    fn from(imei: &'a Imei) -> (value: i64)
        ensures
            value == imei.value(),
    {
        proof {
            lemma_pow10_widths();
        }
        imei.to_unsigned() as i64
    }
}

impl<'a> vstd::std_specs::convert::FromSpecImpl<&'a Imei> for u64 {
    open spec fn obeys_from_spec() -> bool {
        true
    }

    open spec fn from_spec(imei: &'a Imei) -> u64 {
        imei.value() as u64
    }
}

impl<'a> From<&'a Imei> for u64 {
    /// The number that the digits of the IMEI spell.
    fn from(imei: &'a Imei) -> (value: u64)
        ensures
            value == imei.value(),
    {
        imei.to_unsigned()
    }
}

impl<'a> vstd::std_specs::convert::FromSpecImpl<&'a Imei> for i128 {
    open spec fn obeys_from_spec() -> bool {
        true
    }

    open spec fn from_spec(imei: &'a Imei) -> i128 {
        imei.value() as i128
    }
}

impl<'a> From<&'a Imei> for i128 {
    /// The number that the digits of the IMEI spell.
    fn from(imei: &'a Imei) -> (value: i128)
        ensures
            value == imei.value(),
    {
        proof {
            lemma_pow10_widths();
        }
        imei.to_unsigned() as i128
    }
}

impl<'a> vstd::std_specs::convert::FromSpecImpl<&'a Imei> for u128 {
    open spec fn obeys_from_spec() -> bool {
        true
    }

    open spec fn from_spec(imei: &'a Imei) -> u128 {
        imei.value() as u128
    }
}

impl<'a> From<&'a Imei> for u128 {
    /// The number that the digits of the IMEI spell.
    fn from(imei: &'a Imei) -> (value: u128)
        ensures
            value == imei.value(),
    {
        proof {
            lemma_pow10_widths();
        }
        imei.to_unsigned() as u128
    }
}

} // verus!
