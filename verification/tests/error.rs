//! Errors, their codes and their texts.

use rsmpv::cstring::CString;
use rsmpv::error::{check, status};
use rsmpv::sys;
use rsmpv::Error;

const NAMED: [(i32, Error); 20] = [
    (sys::MPV_ERROR_EVENT_QUEUE_FULL, Error::EventQueueFull),
    (sys::MPV_ERROR_NOMEM, Error::OutOfMemory),
    (sys::MPV_ERROR_UNINITIALIZED, Error::Uninitialized),
    (sys::MPV_ERROR_INVALID_PARAMETER, Error::InvalidParameter),
    (sys::MPV_ERROR_OPTION_NOT_FOUND, Error::OptionNotFound),
    (sys::MPV_ERROR_OPTION_FORMAT, Error::OptionFormat),
    (sys::MPV_ERROR_OPTION_ERROR, Error::OptionError),
    (sys::MPV_ERROR_PROPERTY_NOT_FOUND, Error::PropertyNotFound),
    (sys::MPV_ERROR_PROPERTY_FORMAT, Error::PropertyFormat),
    (sys::MPV_ERROR_PROPERTY_UNAVAILABLE, Error::PropertyUnavailable),
    (sys::MPV_ERROR_PROPERTY_ERROR, Error::PropertyError),
    (sys::MPV_ERROR_COMMAND, Error::Command),
    (sys::MPV_ERROR_LOADING_FAILED, Error::LoadingFailed),
    (sys::MPV_ERROR_AO_INIT_FAILED, Error::AoInitFailed),
    (sys::MPV_ERROR_VO_INIT_FAILED, Error::VoInitFailed),
    (sys::MPV_ERROR_NOTHING_TO_PLAY, Error::NothingToPlay),
    (sys::MPV_ERROR_UNKNOWN_FORMAT, Error::UnknownFormat),
    (sys::MPV_ERROR_UNSUPPORTED, Error::Unsupported),
    (sys::MPV_ERROR_NOT_IMPLEMENTED, Error::NotImplemented),
    (sys::MPV_ERROR_GENERIC, Error::Generic),
];

#[test]
fn every_named_code_round_trips() {
    for (i, (code, error)) in NAMED.iter().enumerate() {
        assert_eq!(*code, -1 - i as i32);
        assert_eq!(Error::from_raw(*code), *error);
        assert_eq!(error.raw_code(), Some(*code));
    }
}

#[test]
fn other_codes_are_kept() {
    assert_eq!(Error::from_raw(-21), Error::Other(-21));
    assert_eq!(Error::from_raw(i32::MIN).raw_code(), Some(i32::MIN));
    // A code with a name inside `Other` does not come back as `Other`.
    assert_eq!(Error::from_raw(Error::Other(-2).raw_code().unwrap()), Error::OutOfMemory);
}

#[test]
fn errors_of_the_wrapper_have_no_code() {
    assert_eq!(Error::InteriorNul.raw_code(), None);
    assert_eq!(Error::CreateFailed.raw_code(), None);
}

#[test]
fn status_returns() {
    assert_eq!(check(0), Ok(0));
    assert_eq!(check(7), Ok(7));
    assert_eq!(check(-4), Err(Error::InvalidParameter));
    assert_eq!(status(7), Ok(()));
    assert_eq!(status(-1), Err(Error::EventQueueFull));
}

#[test]
fn messages() {
    let text = CString::new(b"something else happened".to_vec()).unwrap();
    assert_eq!(Error::Generic.message(&text), "something else happened (-20)");
    assert_eq!(Error::Other(-1234567890).message(&text), "something else happened (-1234567890)");
    assert_eq!(Error::Other(i32::MIN).message(&text), "something else happened (-2147483648)");
    assert_eq!(Error::Other(0).message(&text), "something else happened (0)");
    assert_eq!(Error::Other(i32::MAX).message(&text), "something else happened (2147483647)");
    assert_eq!(Error::InteriorNul.message(&text), "string contains an interior NUL byte");
    assert_eq!(Error::CreateFailed.message(&text), "mpv handle creation returned null");
    // A text that is not UTF-8 is read lossily.
    let text = CString::new(vec![b'a', 0xff]).unwrap();
    assert_eq!(Error::Command.message(&text), "a\u{fffd} (-12)");
}
