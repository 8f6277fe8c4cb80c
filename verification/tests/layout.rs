//! The client API as values.

use rsmpv::cstring::CString;
use rsmpv::sys::{
    MPV_CLIENT_API_VERSION, MPV_ERROR_NOMEM, MPV_MAKE_VERSION, MPV_RENDER_PARAM_DRM_OSD_SIZE,
};
use rsmpv::{client_api_version, Error};

#[test]
fn version_macro() {
    assert_eq!(MPV_MAKE_VERSION(2, 5), (2 << 16) | 5);
    assert_eq!(MPV_CLIENT_API_VERSION >> 16, 2);
}

#[test]
fn links_and_reports_a_sane_api_version() {
    let version = MPV_CLIENT_API_VERSION;
    // Major version 1 or 2; written for 2.x, but 1.x is served too.
    assert!(
        (1..=2).contains(&(version >> 16)),
        "unexpected api version {version:#x}"
    );
    assert_eq!(client_api_version(version), (2, 5));
}

#[test]
fn error_strings_are_static() {
    let s = CString::new(b"memory allocation failed".to_vec());
    assert!(!s.is_err());
    let text = Error::from_raw(MPV_ERROR_NOMEM).message(&s.unwrap());
    assert!(!text.is_empty());
    assert_eq!(text, "memory allocation failed (-2)");
}

#[test]
fn version_numbers_stand_for_their_pair() {
    assert_eq!(client_api_version(MPV_MAKE_VERSION(1, 108)), (1, 108));
    assert_eq!(client_api_version(MPV_MAKE_VERSION(0xffff, 0xffff)), (0xffff, 0xffff));
    assert!(MPV_MAKE_VERSION(1, 109) < MPV_MAKE_VERSION(2, 0));
    // Bits above the low 32 have no place in the pair.
    assert_eq!(client_api_version(0x1_0002_0005), (2, 5));
}

#[test]
fn aliases_are_the_same_parameter() {
    assert_eq!(MPV_RENDER_PARAM_DRM_OSD_SIZE, 15);
}
