use std::str::FromStr;

use imei_info::string_to_digits;
use imei_info::{Imei, ImeiWrapperError, Tac};

const KNOWN_IMEI: &str = "355086752340133";
const KNOWN_DIGITS: [u8; 15] = [3, 5, 5, 0, 8, 6, 7, 5, 2, 3, 4, 0, 1, 3, 3];

#[test]
fn known_imei_parses() {
    assert_eq!(Imei::from_str(KNOWN_IMEI), Ok(Imei { digits: KNOWN_DIGITS }));
}

#[test]
fn known_imei_parses_through_the_traits() {
    assert_eq!(KNOWN_IMEI.parse::<Imei>(), Ok(Imei { digits: KNOWN_DIGITS }));
    assert_eq!(<Imei as FromStr>::from_str(KNOWN_IMEI), Ok(Imei { digits: KNOWN_DIGITS }));
    assert_eq!(Imei::try_from(KNOWN_IMEI), Ok(Imei { digits: KNOWN_DIGITS }));
    let imei: Result<Imei, ImeiWrapperError> = KNOWN_IMEI.try_into();
    assert_eq!(imei, Ok(Imei { digits: KNOWN_DIGITS }));
}

#[test]
fn tac_parses_through_the_traits() {
    let tac = Tac { digits: [3, 5, 5, 0, 8, 6, 7, 5] };
    assert_eq!("35508675".parse::<Tac>(), Ok(tac));
    assert_eq!(<Tac as FromStr>::from_str("35508675"), Ok(tac));
    assert_eq!(Tac::try_from("35508675"), Ok(tac));
}

#[test]
fn altered_check_digit_is_rejected() {
    assert_eq!(Imei::from_str("355086752340130"), Err(ImeiWrapperError::ChecksumDoesNotMatch));
    assert_eq!(Imei::try_from("355086752340130"), Err(ImeiWrapperError::ChecksumDoesNotMatch));
}

#[test]
fn known_imei_and_its_tac() {
    let imei = Imei::from_str(KNOWN_IMEI).unwrap();
    let tac = Tac::from_str("35508675").unwrap();
    assert_eq!(tac.digits, [3, 5, 5, 0, 8, 6, 7, 5]);
    let synthesized = Imei::from(tac);
    assert_eq!(synthesized.digits[..8], tac.digits);
    assert_eq!(synthesized.digits, [3, 5, 5, 0, 8, 6, 7, 5, 0, 0, 0, 0, 0, 0, 2]);
    assert!(synthesized.is_valid());
    assert_eq!(Tac::from(imei), tac);
}

#[test]
fn imei_of_tac_is_determined() {
    let tac = Tac { digits: [1, 2, 3, 4, 5, 6, 7, 8] };
    let x = imei_info::luhn_checksum(&[1, 2, 3, 4, 5, 6, 7, 8, 0, 0, 0, 0, 0]);
    assert_eq!(x, 2);
    for _ in 0..3 {
        assert_eq!(Imei::from(tac).digits, [1, 2, 3, 4, 5, 6, 7, 8, 0, 0, 0, 0, 0, 0, x]);
    }
    let imei: Imei = tac.into();
    assert_eq!(imei.digits, [1, 2, 3, 4, 5, 6, 7, 8, 0, 0, 0, 0, 0, 0, 2]);
}

#[test]
fn imei_of_zero_tac() {
    assert_eq!(Imei::from(Tac { digits: [0; 8] }), Imei { digits: [0; 15] });
}

#[test]
fn tac_of_imei_drops_serial_number_and_check_digit() {
    let imei = Imei { digits: KNOWN_DIGITS };
    assert_eq!(Tac::from(imei), Tac { digits: [3, 5, 5, 0, 8, 6, 7, 5] });
    let tac: Tac = imei.into();
    assert_eq!(Imei::from(tac).digits, [3, 5, 5, 0, 8, 6, 7, 5, 0, 0, 0, 0, 0, 0, 2]);
}

#[test]
fn leading_zeros_are_kept_in_the_digits() {
    let text = "003456789012345";
    let digits = string_to_digits::<15>(text).unwrap();
    assert_eq!(digits, [0, 0, 3, 4, 5, 6, 7, 8, 9, 0, 1, 2, 3, 4, 5]);
    assert_eq!(Imei { digits }.to_string(), text);
}

#[test]
fn leading_zeros_do_not_excuse_the_check_digit() {
    assert_eq!(Imei::from_str("003456789012345"), Err(ImeiWrapperError::ChecksumDoesNotMatch));
}

#[test]
fn leading_zeros_round_trip() {
    let text = "003456789012342";
    let imei = Imei::from_str(text).unwrap();
    assert_eq!(imei.digits, [0, 0, 3, 4, 5, 6, 7, 8, 9, 0, 1, 2, 3, 4, 2]);
    assert_eq!(imei.to_string(), text);

    let tac = Tac::from_str("00012345").unwrap();
    assert_eq!(tac.digits, [0, 0, 0, 1, 2, 3, 4, 5]);
    assert_eq!(tac.to_string(), "00012345");
}

#[test]
fn imei_round_trips_through_text() {
    for digits in [KNOWN_DIGITS, [0; 15], [1, 2, 3, 4, 5, 6, 7, 8, 9, 0, 1, 2, 3, 4, 7]] {
        let imei = Imei { digits };
        let text = imei.to_string();
        assert_eq!(text.chars().count(), 15);
        assert_eq!(Imei::from_str(&text), Ok(imei));
    }
}

#[test]
fn tac_round_trips_through_text() {
    for digits in [[0; 8], [9; 8], [3, 5, 5, 0, 8, 6, 7, 5], [0, 1, 0, 2, 0, 3, 0, 4]] {
        let tac = Tac { digits };
        let text = tac.to_string();
        assert_eq!(text.chars().count(), 8);
        assert_eq!(Tac::from_str(&text), Ok(tac));
    }
}

#[test]
fn parsed_identifiers_hold_digits_only() {
    let imei = Imei::from_str("359043379809723").unwrap();
    assert_eq!(imei.digits.len(), 15);
    assert!(imei.digits.iter().all(|d| *d <= 9));
    let tac = Tac::from_str("99999999").unwrap();
    assert_eq!(tac.digits.len(), 8);
    assert!(tac.digits.iter().all(|d| *d <= 9));
}

#[test]
fn imei_to_string_is_exact() {
    assert_eq!(Imei { digits: KNOWN_DIGITS }.to_string(), KNOWN_IMEI);
    assert_eq!(Imei { digits: [0; 15] }.to_string(), "000000000000000");
}

#[test]
fn tac_to_string_is_exact() {
    assert_eq!(Tac { digits: [3, 5, 1, 7, 2, 5, 1, 0] }.to_string(), "35172510");
}

#[test]
fn to_string_writes_larger_elements_in_full() {
    assert_eq!(Tac { digits: [1, 10, 2, 205, 0, 99, 100, 9] }.to_string(), "11022050991009");
}

#[test]
fn imei_of_wrong_length_is_rejected() {
    assert_eq!(Imei::from_str(""), Err(ImeiWrapperError::CannotParseDigits));
    assert_eq!(Imei::from_str("35508675234013"), Err(ImeiWrapperError::CannotParseDigits));
    assert_eq!(Imei::from_str("3550867523401330"), Err(ImeiWrapperError::CannotParseDigits));
    assert_eq!(Imei::from_str("35508675"), Err(ImeiWrapperError::CannotParseDigits));
}

#[test]
fn imei_with_other_characters_is_rejected() {
    assert_eq!(Imei::from_str("35508675234013a"), Err(ImeiWrapperError::CannotParseDigits));
    assert_eq!(Imei::from_str("35508675 340133"), Err(ImeiWrapperError::CannotParseDigits));
    assert_eq!(Imei::from_str("-55086752340133"), Err(ImeiWrapperError::CannotParseDigits));
    assert_eq!(Imei::from_str("+55086752340133"), Err(ImeiWrapperError::CannotParseDigits));
    assert_eq!(Imei::from_str("35508675234013\u{0663}"), Err(ImeiWrapperError::CannotParseDigits));
    assert_eq!(Imei::from_str("\u{ff13}55086752340133"), Err(ImeiWrapperError::CannotParseDigits));
}

#[test]
fn tac_of_wrong_shape_is_rejected() {
    assert_eq!(Tac::from_str(""), Err(ImeiWrapperError::CannotParseDigits));
    assert_eq!(Tac::from_str("1234567"), Err(ImeiWrapperError::CannotParseDigits));
    assert_eq!(Tac::from_str("123456789"), Err(ImeiWrapperError::CannotParseDigits));
    assert_eq!(Tac::from_str("1234567x"), Err(ImeiWrapperError::CannotParseDigits));
    assert_eq!(Tac::from_str("1234\u{e9}678"), Err(ImeiWrapperError::CannotParseDigits));
    assert_eq!(Tac::try_from("12 45678"), Err(ImeiWrapperError::CannotParseDigits));
}

#[test]
fn tac_is_not_checked_beyond_its_shape() {
    assert_eq!(Tac::from_str("00000001"), Ok(Tac { digits: [0, 0, 0, 0, 0, 0, 0, 1] }));
    assert_eq!(Tac::from_str("99999999"), Ok(Tac { digits: [9; 8] }));
}

#[test]
fn string_to_digits_of_other_widths() {
    assert_eq!(string_to_digits::<0>(""), Some([]));
    assert_eq!(string_to_digits::<0>("1"), None);
    assert_eq!(string_to_digits::<3>("907"), Some([9, 0, 7]));
    assert_eq!(string_to_digits::<3>("90"), None);
    assert_eq!(string_to_digits::<3>("9070"), None);
    assert_eq!(string_to_digits::<3>("9o7"), None);
}

#[test]
fn imei_parts() {
    let imei = Imei { digits: KNOWN_DIGITS };
    assert_eq!(imei.reporting_body(), &[3, 5]);
    assert_eq!(imei.model_identifier(), &[5, 0, 8, 6, 7, 5]);
    assert_eq!(imei.type_allocation_code(), &[3, 5, 5, 0, 8, 6, 7, 5]);
    assert_eq!(imei.serial_number(), &[2, 3, 4, 0, 1, 3]);
    assert_eq!(imei.check_digit(), 3);
    assert_eq!(imei.without_check_digit(), &[3, 5, 5, 0, 8, 6, 7, 5, 2, 3, 4, 0, 1, 3]);
}

#[test]
fn tac_parts() {
    let tac = Tac { digits: [0, 1, 2, 3, 4, 5, 6, 7] };
    assert_eq!(tac.reporting_body(), &[0, 1]);
    assert_eq!(tac.model_identifier(), &[2, 3, 4, 5, 6, 7]);
}

#[test]
fn error_messages() {
    assert_eq!(
        ImeiWrapperError::ValueOutOfRange.to_string(),
        "provided numeric value is out of the required range for an IMEI or TAC"
    );
    assert_eq!(
        ImeiWrapperError::CannotParseDigits.to_string(),
        "one or more characters in the string is not numeric"
    );
    assert_eq!(
        ImeiWrapperError::ChecksumDoesNotMatch.to_string(),
        "the IMEI check digit does not match its Luhn checksum"
    );
}
