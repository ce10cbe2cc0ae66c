use mediacodec::error::MediaStatus;

#[test]
fn make_result_passes_ok_code_through() {
    assert_eq!(MediaStatus::make_result(0), Ok(0));
}

#[test]
fn make_result_passes_unknown_codes_through() {
    assert_eq!(MediaStatus::make_result(42), Ok(42));
    assert_eq!(MediaStatus::make_result(-1), Ok(-1));
    assert_eq!(MediaStatus::make_result(1), Ok(1));
    assert_eq!(MediaStatus::make_result(-9999), Ok(-9999));
    assert_eq!(MediaStatus::make_result(isize::MAX), Ok(isize::MAX));
}

#[test]
fn make_result_translates_error_codes() {
    assert_eq!(
        MediaStatus::make_result(1100),
        Err(MediaStatus::ErrorInsufficientResource)
    );
    assert_eq!(MediaStatus::make_result(1101), Err(MediaStatus::ErrorReclaimed));
    assert_eq!(MediaStatus::make_result(-10000), Err(MediaStatus::ErrorUnknown));
    assert_eq!(MediaStatus::make_result(-10001), Err(MediaStatus::ErrorMalformed));
    assert_eq!(MediaStatus::make_result(-10002), Err(MediaStatus::ErrorUnsupported));
    assert_eq!(MediaStatus::make_result(-10003), Err(MediaStatus::ErrorInvalidObject));
    assert_eq!(
        MediaStatus::make_result(-10004),
        Err(MediaStatus::ErrorInvalidParameter)
    );
    assert_eq!(
        MediaStatus::make_result(-10005),
        Err(MediaStatus::ErrorInvalidOperation)
    );
    assert_eq!(MediaStatus::make_result(-10006), Err(MediaStatus::ErrorEndOfStream));
    assert_eq!(MediaStatus::make_result(-10007), Err(MediaStatus::ErrorIO));
    assert_eq!(MediaStatus::make_result(-10008), Err(MediaStatus::ErrorWouldBlock));
    assert_eq!(MediaStatus::make_result(-20000), Err(MediaStatus::DRMErrorBase));
    assert_eq!(MediaStatus::make_result(-20005), Err(MediaStatus::DRMSessionNotOpened));
    assert_eq!(MediaStatus::make_result(-20009), Err(MediaStatus::DRMLicenseExpired));
    assert_eq!(MediaStatus::make_result(-30000), Err(MediaStatus::ImgReaderErrorBase));
    assert_eq!(
        MediaStatus::make_result(-30005),
        Err(MediaStatus::ImgReaderImageNotLocked)
    );
}

#[test]
fn code_and_from_code_roundtrip() {
    for status in MediaStatus::values() {
        assert_eq!(MediaStatus::from_code(status.code()), Some(status));
    }
}

#[test]
fn from_code_rejects_unknown() {
    assert_eq!(MediaStatus::from_code(7), None);
    assert_eq!(MediaStatus::from_code(-20010), None);
    assert_eq!(MediaStatus::from_code(-29999), None);
}

#[test]
fn values_lists_every_status_once() {
    let values = MediaStatus::values();
    assert_eq!(values.len(), 28);
    assert_eq!(values[0], MediaStatus::Okay);
    for i in 0..values.len() {
        for j in 0..i {
            assert_ne!(values[i], values[j]);
        }
    }
}

#[test]
fn is_ok_and_is_err_split_on_the_ok_status() {
    assert!(MediaStatus::Okay.is_ok());
    assert!(!MediaStatus::Okay.is_err());
    assert!(!MediaStatus::ErrorWouldBlock.is_ok());
    assert!(MediaStatus::ErrorWouldBlock.is_err());
}
