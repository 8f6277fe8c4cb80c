//! C strings.

use rsmpv::cstring::{cstr, cstr_args, cstr_opt, CString};
use rsmpv::Error;

#[test]
fn bytes_are_terminated() {
    let c = CString::new(b"abc".to_vec()).unwrap();
    assert_eq!(c.as_bytes_with_nul(), b"abc\0");
    assert_eq!(c.to_bytes(), b"abc");
    assert_eq!(CString::new(Vec::new()).unwrap().as_bytes_with_nul(), b"\0");
}

#[test]
fn a_nul_is_refused() {
    assert_eq!(CString::new(b"a\0c".to_vec()).unwrap_err(), Error::InteriorNul);
    assert_eq!(cstr("\0").unwrap_err(), Error::InteriorNul);
    assert_eq!(cstr("end\0").unwrap_err(), Error::InteriorNul);
    // U+0100 has no zero byte in UTF-8, though its code point has one.
    assert_eq!(cstr("\u{100}").unwrap().to_bytes(), [0xc4, 0x80]);
}

#[test]
fn text_round_trips() {
    for s in ["", "volume", "h\u{e9}llo \u{1f3ac}"] {
        let c = cstr(s).unwrap();
        assert_eq!(c.to_bytes(), s.as_bytes());
        assert_eq!(c.to_string_lossy(), s);
        assert_eq!(c.to_str_or_empty(), s);
    }
}

#[test]
fn bytes_that_are_not_utf8_are_replaced() {
    let c = CString::new(vec![b'x', 0xc3, b'y']).unwrap();
    assert_eq!(c.to_string_lossy(), "x\u{fffd}y");
    assert_eq!(c.to_str_or_empty(), "");
}

#[test]
fn no_name_is_null() {
    assert!(cstr_opt(None).unwrap().is_none());
    assert_eq!(cstr_opt(Some("helper")).unwrap().unwrap().to_bytes(), b"helper");
    assert_eq!(cstr_opt(Some("a\0b")).unwrap_err(), Error::InteriorNul);
}

#[test]
fn argument_vectors_are_null_terminated() {
    let args = cstr_args(&["loadfile", "video.mkv"]).unwrap();
    assert_eq!(args.owned.len(), 2);
    assert_eq!(args.owned[0].to_bytes(), b"loadfile");
    assert_eq!(args.owned[1].to_bytes(), b"video.mkv");
    assert_eq!(args.ptrs, [Some(0), Some(1), None]);
    assert_eq!(cstr_args(&[]).unwrap().ptrs, [None]);
    assert!(matches!(cstr_args(&["a", "b\0"]), Err(Error::InteriorNul)));
}
