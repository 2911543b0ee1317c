use imei_info::luhn_checksum;
use imei_info::{Imei, Tac};

#[test]
fn checksum_of_nothing_is_zero() {
    assert_eq!(luhn_checksum(&[]), 0);
}

#[test]
fn checksum_of_zeros_is_zero() {
    assert_eq!(luhn_checksum(&[0; 14]), 0);
    assert_eq!(luhn_checksum(&[0; 8]), 0);
}

#[test]
fn checksum_adds_even_positions_unchanged() {
    assert_eq!(luhn_checksum(&[7]), 3);
    assert_eq!(luhn_checksum(&[7, 0, 2]), 1);
}

#[test]
fn checksum_doubles_odd_positions() {
    assert_eq!(luhn_checksum(&[0, 4]), 2);
    assert_eq!(luhn_checksum(&[0, 5]), 9);
    assert_eq!(luhn_checksum(&[0, 9]), 1);
}

#[test]
fn checksum_of_nines() {
    assert_eq!(luhn_checksum(&[9; 14]), 4);
}

#[test]
fn checksum_of_known_imei_body() {
    assert_eq!(luhn_checksum(&[3, 5, 5, 0, 8, 6, 7, 5, 2, 3, 4, 0, 1, 3]), 3);
    assert_eq!(luhn_checksum(&[1, 2, 3, 4, 5, 6, 7, 8, 9, 0, 1, 2, 3, 4]), 7);
}

#[test]
fn checksum_ignores_trailing_zeros() {
    let tac = [1, 2, 3, 4, 5, 6, 7, 8];
    assert_eq!(luhn_checksum(&tac), 2);
    assert_eq!(luhn_checksum(&[1, 2, 3, 4, 5, 6, 7, 8, 0, 0, 0, 0, 0]), 2);
    assert_eq!(luhn_checksum(&[1, 2, 3, 4, 5, 6, 7, 8, 0, 0, 0, 0, 0, 0]), 2);
}

#[test]
fn checksum_takes_elements_that_are_no_digits() {
    assert_eq!(luhn_checksum(&[200]), 0);
    assert_eq!(luhn_checksum(&[255, 255]), 4);
}

#[test]
fn checksum_appended_makes_a_valid_imei() {
    let bodies: [[u8; 14]; 4] = [
        [0; 14],
        [9; 14],
        [3, 5, 5, 0, 8, 6, 7, 5, 2, 3, 4, 0, 1, 3],
        [0, 0, 3, 4, 5, 6, 7, 8, 9, 0, 1, 2, 3, 4],
    ];
    for body in bodies {
        let mut digits = [0u8; 15];
        digits[..14].copy_from_slice(&body);
        digits[14] = luhn_checksum(&body);
        let imei = Imei { digits };
        assert!(imei.is_valid());
        assert_eq!(Imei::from_str(&imei.to_string()), Ok(imei));
    }
}

#[test]
fn altered_check_digit_is_not_valid() {
    let imei = Imei { digits: [3, 5, 5, 0, 8, 6, 7, 5, 2, 3, 4, 0, 1, 3, 0] };
    assert!(!imei.is_valid());
    let imei = Imei { digits: [3, 5, 5, 0, 8, 6, 7, 5, 2, 3, 4, 0, 1, 3, 3] };
    assert!(imei.is_valid());
}

#[test]
fn every_tac_is_valid() {
    assert!(Tac { digits: [0; 8] }.is_valid());
    assert!(Tac { digits: [9, 9, 9, 9, 9, 9, 9, 9] }.is_valid());
}
