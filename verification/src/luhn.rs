//! The Luhn check digit of a sequence of digits.

use vstd::prelude::*;

verus! {

/// What the digit at position `index` (counted from zero) adds to the Luhn
/// sum: the digit itself at an even position; at an odd one its double, less
/// nine where the double reaches ten, which is the digit sum of the double.
pub open spec fn luhn_term(index: int, digit: u8) -> int {
    if index % 2 == 0 {
        digit as int
    } else if 2 * digit < 10 {
        2 * digit
    } else {
        1 + (2 * digit - 10)
    }
}

/// The Luhn sum of `digits`, taken from the left.
pub open spec fn luhn_sum(digits: Seq<u8>) -> int
    decreases digits.len(),
{
    if digits.len() == 0 {
        0
    } else {
        luhn_sum(digits.drop_last()) + luhn_term(digits.len() - 1, digits.last())
    }
}

/// The digit that makes `digits`, with it appended, pass the Luhn test.
pub open spec fn luhn_checksum_spec(digits: Seq<u8>) -> int {
    (10 - luhn_sum(digits) % 10) % 10
}

/// Computes the Luhn check digit of `digits`.
pub fn luhn_checksum(digits: &[u8]) -> (check: u8)
    ensures
        check as int == luhn_checksum_spec(digits@),
        check < 10,
{
    let mut sum: u8 = 0;
    let mut i: usize = 0;
    while i < digits.len()
        invariant
            i <= digits.len(),
            sum < 10,
            sum as int == luhn_sum(digits@.take(i as int)) % 10,
        decreases digits.len() - i,
    {
        let digit: u16 = digits[i] as u16;
        let term: u16 = if i % 2 != 0 {
            let double_digit: u16 = digit * 2;
            if double_digit < 10 {
                double_digit
            } else {
                1 + (double_digit - 10)
            }
        } else {
            digit
        };
        proof {
            let next = digits@.take(i as int + 1);
            assert(next.drop_last() =~= digits@.take(i as int));
            assert(next.last() == digits@[i as int]);
            assert(term as int == luhn_term(i as int, digits@[i as int]));
        }
        sum = ((sum as u16 + term) % 10) as u8;
        i += 1;
    }
    proof {
        assert(digits@.take(digits@.len() as int) =~= digits@);
    }
    (10 - sum) % 10
}

/// `digits` ends in the Luhn check digit of the digits before it.
pub open spec fn check_digit_matches(digits: Seq<u8>) -> bool {
    &&& digits.len() > 0
    &&& digits.last() as int == luhn_checksum_spec(digits.drop_last())
}

/// A zero adds nothing to the Luhn sum, at an even or an odd position.
pub proof fn lemma_luhn_sum_trailing_zeros(digits: Seq<u8>, zeros: nat)
    ensures
        luhn_sum(digits + Seq::new(zeros, |i: int| 0u8)) == luhn_sum(digits),
        luhn_checksum_spec(digits + Seq::new(zeros, |i: int| 0u8)) == luhn_checksum_spec(digits),
    decreases zeros,
{
    let padded = digits + Seq::new(zeros, |i: int| 0u8);
    if zeros == 0 {
        assert(padded =~= digits);
    } else {
        let shorter = digits + Seq::new((zeros - 1) as nat, |i: int| 0u8);
        lemma_luhn_sum_trailing_zeros(digits, (zeros - 1) as nat);
        assert(padded.drop_last() =~= shorter);
        assert(padded.last() == 0);
    }
}

/// The check digit is a single decimal digit, and a sequence with its own
/// check digit appended ends in its check digit.
pub proof fn lemma_checksum_appended(digits: Seq<u8>)
    ensures
        0 <= luhn_checksum_spec(digits) < 10,
        check_digit_matches(digits.push(luhn_checksum_spec(digits) as u8)),
{
    let check = luhn_checksum_spec(digits) as u8;
    assert(digits.push(check).drop_last() =~= digits);
}

} // verus!
