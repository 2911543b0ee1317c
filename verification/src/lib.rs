//! Validation and conversion of IMEI and TAC device identifiers.
//!
//! An identifier is kept as its decimal digits, one by one, so that leading
//! zeros survive. It is read from text or from an integer, written back as
//! either, and an IMEI is checked against its Luhn check digit.

pub mod convert;
pub mod digit_lemmas;
pub mod digits;
pub mod error;
pub mod into_int;
pub mod laws;
pub mod lookup;
pub mod luhn;
pub mod model;
pub mod try_from_int;

pub use digits::string_to_digits;
pub use error::ImeiWrapperError;
pub use lookup::{classify_status, ApiPhoneInfo, LookupRequest, ResponseKind, BASIC_IMEI_CHECK_SID};
pub use luhn::luhn_checksum;
pub use model::{Imei, PhoneInfo, Tac};
