use imei_info::{
    classify_status, ApiPhoneInfo, Imei, ImeiWrapperError, LookupRequest, PhoneInfo, ResponseKind,
    BASIC_IMEI_CHECK_SID,
};

#[test]
fn lookup_by_imei() {
    let request = LookupRequest::for_imei("356741089728686").unwrap();
    assert_eq!(request.service_id, BASIC_IMEI_CHECK_SID);
    assert_eq!(request.service_id, 0);
    assert_eq!(request.imei.digits, [3, 5, 6, 7, 4, 1, 0, 8, 9, 7, 2, 8, 6, 8, 6]);
    assert_eq!(request.imei_parameter(), "356741089728686");
}

#[test]
fn lookup_by_invalid_imei_is_not_prepared() {
    assert_eq!(LookupRequest::for_imei("356741089728680"), None);
    assert_eq!(LookupRequest::for_imei("35674108972868"), None);
    assert_eq!(LookupRequest::for_imei("35674108972868x"), None);
    assert_eq!(LookupRequest::for_imei("35172510"), None);
}

#[test]
fn lookup_by_tac() {
    let request = LookupRequest::for_tac("35172510").unwrap();
    assert_eq!(request.service_id, BASIC_IMEI_CHECK_SID);
    assert_eq!(request.imei.digits, [3, 5, 1, 7, 2, 5, 1, 0, 0, 0, 0, 0, 0, 0, 6]);
    assert_eq!(request.imei_parameter(), "351725100000006");
    assert!(request.imei.is_valid());
}

#[test]
fn lookup_by_invalid_tac_is_not_prepared() {
    assert_eq!(LookupRequest::for_tac("3517251"), None);
    assert_eq!(LookupRequest::for_tac("351725105"), None);
    assert_eq!(LookupRequest::for_tac("3517251o"), None);
    assert_eq!(LookupRequest::for_tac("351725105350612"), None);
}

#[test]
fn status_codes() {
    assert_eq!(classify_status(200), ResponseKind::Standard);
    assert_eq!(classify_status(202), ResponseKind::Pending);
    assert_eq!(classify_status(403), ResponseKind::MissingApiKey);
    assert_eq!(classify_status(401), ResponseKind::InvalidApiKey);
    assert_eq!(classify_status(404), ResponseKind::InvalidServiceId);
}

#[test]
fn other_status_codes_are_unknown() {
    for status in [0, 100, 199, 201, 203, 204, 301, 400, 402, 405, 429, 500, 503, u16::MAX] {
        assert_eq!(classify_status(status), ResponseKind::Unknown);
    }
}

#[test]
fn phone_info_of_an_answer() {
    let answer = ApiPhoneInfo {
        imei: "356741089728686".to_owned(),
        brand_name: "APPLE".to_owned(),
        model: "iPhone X".to_owned(),
    };
    assert_eq!(
        PhoneInfo::try_from(answer),
        Ok(PhoneInfo {
            imei: Imei::try_from("356741089728686").unwrap(),
            manufacturer: "APPLE".to_owned(),
            model: "iPhone X".to_owned(),
        })
    );
}

#[test]
fn phone_info_of_an_answer_to_a_tac() {
    let request = LookupRequest::for_tac("35172510").unwrap();
    let answer = ApiPhoneInfo {
        imei: request.imei_parameter(),
        brand_name: "SAMSUNG".to_owned(),
        model: "Galaxy S10 Exynos".to_owned(),
    };
    let phone: PhoneInfo = answer.try_into().unwrap();
    assert_eq!(phone.imei, request.imei);
    assert_eq!(phone.manufacturer, "SAMSUNG");
    assert_eq!(phone.model, "Galaxy S10 Exynos");
}

#[test]
fn phone_info_of_a_malformed_answer() {
    let answer = ApiPhoneInfo {
        imei: "35674108972868".to_owned(),
        brand_name: "APPLE".to_owned(),
        model: "iPhone X".to_owned(),
    };
    assert_eq!(PhoneInfo::try_from(answer), Err(ImeiWrapperError::CannotParseDigits));
    let answer = ApiPhoneInfo {
        imei: "356741089728680".to_owned(),
        brand_name: "APPLE".to_owned(),
        model: "iPhone X".to_owned(),
    };
    assert_eq!(PhoneInfo::try_from(answer), Err(ImeiWrapperError::ChecksumDoesNotMatch));
}
