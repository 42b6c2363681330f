use vvcore::result_code::MAX_RAW_CODE;
use vvcore::{Error, ResultCode};

fn all_codes() -> Vec<ResultCode> {
    vec![
        ResultCode::Success,
        ResultCode::NotLoadedOpenjtalkDictError,
        ResultCode::LoadModelError,
        ResultCode::GetSupportedDevicesError,
        ResultCode::GpuSupportError,
        ResultCode::LoadMetasError,
        ResultCode::UninitializedStatusError,
        ResultCode::InvalidSpeakerIdError,
        ResultCode::InvalidModelIndexError,
        ResultCode::InferenceError,
        ResultCode::ExtractFullContextLabelError,
        ResultCode::InvalidUtf8InputError,
        ResultCode::ParseKanaError,
        ResultCode::InvalidAudioQueryError,
    ]
}

#[test]
fn every_code_has_its_documented_integer() {
    assert_eq!(ResultCode::Success.raw(), 0);
    assert_eq!(ResultCode::NotLoadedOpenjtalkDictError.raw(), 1);
    assert_eq!(ResultCode::LoadModelError.raw(), 2);
    assert_eq!(ResultCode::GetSupportedDevicesError.raw(), 3);
    assert_eq!(ResultCode::GpuSupportError.raw(), 4);
    assert_eq!(ResultCode::LoadMetasError.raw(), 5);
    assert_eq!(ResultCode::UninitializedStatusError.raw(), 6);
    assert_eq!(ResultCode::InvalidSpeakerIdError.raw(), 7);
    assert_eq!(ResultCode::InvalidModelIndexError.raw(), 8);
    assert_eq!(ResultCode::InferenceError.raw(), 9);
    assert_eq!(ResultCode::ExtractFullContextLabelError.raw(), 10);
    assert_eq!(ResultCode::InvalidUtf8InputError.raw(), 11);
    assert_eq!(ResultCode::ParseKanaError.raw(), 12);
    assert_eq!(ResultCode::InvalidAudioQueryError.raw(), 13);
}

#[test]
fn the_codes_are_numbered_without_a_gap() {
    let codes = all_codes();
    assert_eq!(codes.len(), 14);
    assert_eq!(MAX_RAW_CODE, 13);
    for (index, code) in codes.iter().enumerate() {
        assert_eq!(code.raw() as usize, index);
    }
}

#[test]
fn the_integer_of_a_code_names_it_again() {
    for code in all_codes() {
        assert_eq!(ResultCode::from_raw(code.raw()), Some(code));
    }
}

#[test]
fn an_integer_outside_the_codes_has_no_name() {
    assert_eq!(ResultCode::from_raw(14), None);
    assert_eq!(ResultCode::from_raw(-1), None);
    assert_eq!(ResultCode::from_raw(255), None);
    assert_eq!(ResultCode::from_raw(i32::MAX), None);
    assert_eq!(ResultCode::from_raw(i32::MIN), None);
}

#[test]
fn zero_is_the_only_success() {
    assert_eq!(ResultCode::check(0), Ok(()));
    for raw in 1..=13 {
        assert!(ResultCode::check(raw).is_err());
    }
    assert!(ResultCode::check(-1).is_err());
    assert!(ResultCode::check(14).is_err());
}

#[test]
fn a_failure_is_reported_under_its_own_name() {
    for code in all_codes() {
        if code != ResultCode::Success {
            assert_eq!(ResultCode::check(code.raw()), Err(Error::Native(code)));
        }
    }
    assert_eq!(
        ResultCode::check(1),
        Err(Error::Native(ResultCode::NotLoadedOpenjtalkDictError))
    );
    assert_eq!(
        ResultCode::check(11),
        Err(Error::Native(ResultCode::InvalidUtf8InputError))
    );
}

#[test]
fn an_unknown_answer_is_kept_as_it_came() {
    assert_eq!(ResultCode::check(14), Err(Error::UnknownResultCode(14)));
    assert_eq!(ResultCode::check(-7), Err(Error::UnknownResultCode(-7)));
    assert_eq!(
        ResultCode::check(i32::MIN),
        Err(Error::UnknownResultCode(i32::MIN))
    );
}

#[test]
fn a_message_is_only_asked_for_documented_codes() {
    for code in all_codes() {
        let raw = code.raw();
        assert!(0 <= raw && raw <= MAX_RAW_CODE);
    }
}
