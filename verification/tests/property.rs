//! Typed property access.

use rsmpv::call::{Call, Cleanup, PropertyArg};
use rsmpv::cstring::{cstr, CString};
use rsmpv::node::NodeStorage;
use rsmpv::sys;
use rsmpv::sys::{mpv_handle, mpv_property_value, Double};
use rsmpv::{Error, Format, GetProperty, Node, SetProperty};

const CTX: mpv_handle = mpv_handle { addr: 64 };

fn name() -> CString {
    cstr("volume").unwrap()
}

#[test]
fn formats_have_their_numbers() {
    let formats = [
        (Format::Empty, 0),
        (Format::String, 1),
        (Format::OsdString, 2),
        (Format::Flag, 3),
        (Format::Int64, 4),
        (Format::Double, 5),
        (Format::Node, 6),
    ];
    for (format, raw) in formats {
        assert_eq!(format.to_raw(), raw);
    }
    assert_eq!(Format::default(), Format::Empty);
}

#[test]
fn types_have_their_format() {
    assert_eq!(bool::format(), Format::Flag);
    assert_eq!(i64::format(), Format::Int64);
    assert_eq!(Double::format(), Format::Double);
    assert_eq!(String::format(), Format::String);
    assert_eq!(Node::format(), Format::Node);
}

#[test]
fn reads_of_each_type() {
    let mut mem = NodeStorage::new();
    let done = bool::get_from(0, &mem, &mpv_property_value::flag(2));
    assert_eq!((done.result, done.cleanup), (Ok(true), Cleanup::Nothing));
    let done = i64::get_from(0, &mem, &mpv_property_value::int64(-9));
    assert_eq!((done.result, done.cleanup), (Ok(-9), Cleanup::Nothing));
    let d = Double { bits: 2.5f64.to_bits() };
    let done = Double::get_from(0, &mem, &mpv_property_value::double_(d));
    assert_eq!((done.result, done.cleanup), (Ok(d), Cleanup::Nothing));
    let p = mem.push_string(CString::new(vec![0xff]).unwrap());
    let done = String::get_from(0, &mem, &mpv_property_value::string(Some(p)));
    assert_eq!((done.result, done.cleanup), (Ok("\u{fffd}".to_string()), Cleanup::Free));
    let raw = mem.build(&Node::from(vec![1i64, 2])).unwrap();
    let done = Node::get_from(0, &mem, &mpv_property_value::node(raw));
    assert_eq!(done.result, Ok(Node::from(vec![1i64, 2])));
    assert_eq!(done.cleanup, Cleanup::FreeNodeContents);
}

#[test]
fn failed_reads_free_nothing() {
    let mem = NodeStorage::new();
    let out = mpv_property_value::int64(0);
    let done = String::get_from(sys::MPV_ERROR_PROPERTY_UNAVAILABLE, &mem, &out);
    assert_eq!(done.result, Err(Error::PropertyUnavailable));
    assert_eq!(done.cleanup, Cleanup::Nothing);
    let done = Node::get_from(sys::MPV_ERROR_PROPERTY_FORMAT, &mem, &out);
    assert_eq!(done.result, Err(Error::PropertyFormat));
    assert_eq!(done.cleanup, Cleanup::Nothing);
}

#[test]
fn writes_of_scalars() {
    match true.set_on(CTX, name()).unwrap() {
        Call::SetProperty { ctx, name, format, data: PropertyArg::Flag(1) } => {
            assert_eq!(ctx, CTX);
            assert_eq!(name.to_bytes(), b"volume");
            assert_eq!(format, sys::MPV_FORMAT_FLAG);
        }
        _ => unreachable!(),
    }
    assert!(matches!(
        (-3i64).set_on(CTX, name()),
        Ok(Call::SetProperty { format: sys::MPV_FORMAT_INT64, data: PropertyArg::Int64(-3), .. })
    ));
    let d = Double { bits: f64::NAN.to_bits() };
    match d.set_on(CTX, name()).unwrap() {
        Call::SetProperty { format, data: PropertyArg::Double(v), .. } => {
            assert_eq!(format, sys::MPV_FORMAT_DOUBLE);
            assert_eq!(v.bits, d.bits);
        }
        _ => unreachable!(),
    }
}

#[test]
fn writes_of_strings() {
    let owned = "1.5".to_string();
    let calls = ["1.5".set_on(CTX, name()), owned.set_on(CTX, name()), (&owned).set_on(CTX, name())];
    for call in calls {
        match call.unwrap() {
            Call::SetPropertyString { ctx, name, data } => {
                assert_eq!(ctx, CTX);
                assert_eq!(name.to_bytes(), b"volume");
                assert_eq!(data.to_bytes(), b"1.5");
            }
            _ => unreachable!(),
        }
    }
    assert!(matches!("a\0".set_on(CTX, name()), Err(Error::InteriorNul)));
}

#[test]
fn writes_of_nodes() {
    let node = Node::from(vec!["a", "b"]);
    for call in [node.set_on(CTX, name()), (&node).set_on(CTX, name())] {
        match call.unwrap() {
            Call::SetProperty { format, data: PropertyArg::Node(arg), .. } => {
                assert_eq!(format, sys::MPV_FORMAT_NODE);
                assert_eq!(Node::from_raw(&arg.storage, &arg.root), node);
            }
            _ => unreachable!(),
        }
    }
    assert!(matches!(Node::from("\0").set_on(CTX, name()), Err(Error::InteriorNul)));
}
