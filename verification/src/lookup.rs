//! What a lookup of a device decides before a request is sent and after the
//! answer has come: which IMEI to ask for, what kind of answer a status code
//! announces, and what the answer says of the phone.

use crate::digits::digits_text;
use crate::error::ImeiWrapperError;
use crate::model::{tac_imei_digits, Imei, PhoneInfo, Tac};
use vstd::prelude::*;

verus! {

/// The service that reports the make and the model of a device.
pub const BASIC_IMEI_CHECK_SID: u32 = 0;

/// A lookup that is ready to be sent: the service to ask and the IMEI to ask
/// it for.
#[derive(Debug, Clone, Copy, PartialEq, Eq)]
pub struct LookupRequest {
    pub service_id: u32,
    pub imei: Imei,
}

/// The lookup of the make and model of the device with IMEI `text`, if
/// `text` reads as an IMEI.
pub open spec fn imei_lookup(text: Seq<char>) -> Option<LookupRequest> {
    match Imei::from_text(text) {
        Ok(imei) => Some(LookupRequest { service_id: BASIC_IMEI_CHECK_SID, imei }),
        Err(_) => None,
    }
}

/// The lookup of the make and model of the devices with TAC `text`, if
/// `text` reads as a TAC: it asks for the IMEI that stands for the TAC.
pub open spec fn tac_lookup(text: Seq<char>) -> Option<LookupRequest> {
    match Tac::from_text(text) {
        Ok(tac) => Some(
            LookupRequest {
                service_id: BASIC_IMEI_CHECK_SID,
                imei: Imei::of(tac_imei_digits(tac@)),
            },
        ),
        Err(_) => None,
    }
}

impl LookupRequest {
    /// Prepares the lookup of a device by its IMEI.
    ///
    /// Returns `None` where `imei` does not read as an IMEI: no request is
    /// to be sent then.
    pub fn for_imei(imei: &str) -> (r: Option<LookupRequest>)
        ensures
            r == imei_lookup(imei@),
    {
        match Imei::from_str(imei) {
            Ok(imei) => Some(LookupRequest { service_id: BASIC_IMEI_CHECK_SID, imei }),
            Err(_) => None,
        }
    }

    /// Prepares the lookup of a device model by its TAC, through the IMEI
    /// that stands for the TAC.
    ///
    /// Returns `None` where `tac` does not read as a TAC: no request is to
    /// be sent then.
    pub fn for_tac(tac: &str) -> (r: Option<LookupRequest>)
        ensures
            r == tac_lookup(tac@),
    {
        match Tac::from_str(tac) {
            Ok(tac) => {
                let imei = Imei::from(tac);
                proof {
                    imei.lemma_of_view();
                }
                Some(LookupRequest { service_id: BASIC_IMEI_CHECK_SID, imei })
            },
            Err(_) => None,
        }
    }

    /// The value of the `imei` parameter of the request: the IMEI as text.
    pub fn imei_parameter(&self) -> (s: String)
        ensures
            s@ == digits_text(self.imei@),
    {
        self.imei.to_string()
    }
}

/// What a status code says of the answer that it comes with.
#[derive(Debug, Clone, Copy, PartialEq, Eq)]
pub enum ResponseKind {
    /// The lookup is done and its result is in the body.
    Standard,
    /// The lookup has not finished: the body says under which name to ask
    /// again.
    Pending,
    /// No API key came with the request.
    MissingApiKey,
    /// The API key was not accepted: the body says why.
    InvalidApiKey,
    /// There is no service of that number.
    InvalidServiceId,
    /// Anything else.
    Unknown,
}

/// The kind of answer that each status code announces.
pub open spec fn status_kind(status: u16) -> ResponseKind {
    if status == 200 {
        ResponseKind::Standard
    } else if status == 202 {
        ResponseKind::Pending
    } else if status == 403 {
        ResponseKind::MissingApiKey
    } else if status == 401 {
        ResponseKind::InvalidApiKey
    } else if status == 404 {
        ResponseKind::InvalidServiceId
    } else {
        ResponseKind::Unknown
    }
}

/// Tells from the status code of an answer what kind of answer it is.
pub fn classify_status(status: u16) -> (kind: ResponseKind)
    ensures
        kind == status_kind(status),
{
    match status {
        200 => ResponseKind::Standard,
        202 => ResponseKind::Pending,
        403 => ResponseKind::MissingApiKey,
        401 => ResponseKind::InvalidApiKey,
        404 => ResponseKind::InvalidServiceId,
        _ => ResponseKind::Unknown,
    }
}

/// What the service says of a phone: its IMEI as text, the name of its brand
/// and the name of its model.
#[derive(Debug, Clone, PartialEq)]
pub struct ApiPhoneInfo {
    pub imei: String,
    pub brand_name: String,
    pub model: String,
}

impl vstd::std_specs::convert::TryFromSpecImpl<ApiPhoneInfo> for PhoneInfo {
    open spec fn obeys_try_from_spec() -> bool {
        true
    }

    open spec fn try_from_spec(info: ApiPhoneInfo) -> Result<PhoneInfo, ImeiWrapperError> {
        match Imei::from_text(info.imei@) {
            Ok(imei) => Ok(PhoneInfo { imei, manufacturer: info.brand_name, model: info.model }),
            Err(e) => Err(e),
        }
    }
}

impl TryFrom<ApiPhoneInfo> for PhoneInfo {
    type Error = ImeiWrapperError;

    /// Reads the IMEI of the answer and keeps the two names as they are.
    ///
    /// Fails, as `Imei::from_str` does, where the IMEI of the answer is not
    /// one.
    fn try_from(info: ApiPhoneInfo) -> (r: Result<PhoneInfo, ImeiWrapperError>)
        ensures
            match r {
                Ok(phone) => {
                    &&& Imei::from_text(info.imei@) == Ok::<Imei, ImeiWrapperError>(phone.imei)
                    &&& phone.manufacturer == info.brand_name
                    &&& phone.model == info.model
                },
                Err(e) => Imei::from_text(info.imei@) == Err::<Imei, ImeiWrapperError>(e),
            },
    {
        match Imei::from_str(info.imei.as_str()) {
            Ok(imei) => Ok(PhoneInfo { imei, manufacturer: info.brand_name, model: info.model }),
            Err(e) => Err(e),
        }
    }
}

} // verus!
