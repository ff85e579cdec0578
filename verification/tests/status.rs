use rfmod::fmod::Status;
use rfmod::fmod::status_result;

#[test]
fn okay_is_code_zero() {
    assert_eq!(Status::Okay.to_code(), 0);
    assert_eq!(Status::from_code(0), Some(Status::Okay));
    assert!(Status::Okay.is_okay());
}

#[test]
fn error_codes_round_trip() {
    let samples = [
        Status::ErrAlreadyLocked,
        Status::ErrFileNotFound,
        Status::ErrMemory,
        Status::ErrNotReady,
        Status::ErrTooManyChannels,
        Status::ErrUninitialized,
        Status::ErrMusicNoCallback,
    ];
    for s in samples {
        assert_eq!(Status::from_code(s.to_code()), Some(s));
        assert!(!s.is_okay());
    }
}

#[test]
fn exact_error_codes() {
    assert_eq!(Status::ErrBadCommand.to_code(), 2);
    assert_eq!(Status::ErrFileNotFound.to_code(), 23);
    assert_eq!(Status::ErrMemory.to_code(), 43);
    assert_eq!(Status::ErrVersion.to_code(), 82);
    assert_eq!(Status::ErrMusicNoCallback.to_code(), 95);
}

#[test]
fn unknown_codes_are_rejected() {
    assert_eq!(Status::from_code(96), None);
    assert_eq!(Status::from_code(1000), None);
    assert_eq!(Status::from_code(u32::MAX), None);
}

#[test]
fn status_result_splits_on_success() {
    assert_eq!(status_result(Status::Okay, 7u32), Ok(7u32));
    assert_eq!(status_result(Status::ErrInvalidParam, 7u32), Err(Status::ErrInvalidParam));
}
