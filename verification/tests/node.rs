//! Structured values and their C representation.

use rsmpv::cstring::CString;
use rsmpv::node::{entry_count, NodeStorage};
use rsmpv::sys;
use rsmpv::sys::{mpv_node, mpv_node_u, Double};
use rsmpv::{Error, Node};

fn double(v: f64) -> Double {
    Double { bits: v.to_bits() }
}

fn sample() -> Node {
    Node::NodeMap(vec![
        ("nothing".to_string(), Node::Empty),
        ("flag".to_string(), Node::Flag(true)),
        ("int".to_string(), Node::Int64(i64::MIN)),
        ("double".to_string(), Node::Double(double(-0.0))),
        ("text".to_string(), Node::from("h\u{e9}")),
        ("bytes".to_string(), Node::ByteArray(vec![0, 1, 255])),
        ("no bytes".to_string(), Node::ByteArray(Vec::new())),
        (
            "list".to_string(),
            Node::Array(vec![Node::Array(Vec::new()), Node::NodeMap(Vec::new()), Node::from("x")]),
        ),
    ])
}

#[test]
fn values_round_trip() {
    let mut mem = NodeStorage::new();
    let raw = mem.build(&sample()).unwrap();
    assert_eq!(raw.format, sys::MPV_FORMAT_NODE_MAP);
    assert_eq!(Node::from_raw(&mem, &raw), sample());
    assert_eq!(sample().clone(), sample());
}

#[test]
fn doubles_compare_as_numbers() {
    assert_eq!(double(0.0), double(-0.0));
    assert_eq!(Node::Double(double(0.0)), Node::Double(double(-0.0)));
    assert_ne!(double(f64::NAN), double(f64::NAN));
    assert_ne!(Node::Double(double(f64::NAN)), Node::Double(double(f64::NAN)));
    assert_ne!(double(1.0), double(-1.0));
    assert_eq!(double(f64::INFINITY), double(f64::INFINITY));
    assert_ne!(double(f64::INFINITY), double(f64::NEG_INFINITY));
    let numbers = [0.0, -0.0, 1.5, -1.5, 5e-324, f64::MAX, f64::INFINITY, -f64::NAN, f64::NAN];
    for a in numbers {
        for b in numbers {
            assert_eq!(double(a) == double(b), a == b, "{a} {b}");
        }
    }
}

#[test]
fn values_differ_in_shape_and_contents() {
    let values = [
        Node::Empty,
        Node::Flag(false),
        Node::Int64(0),
        Node::Double(double(0.0)),
        Node::from("a"),
        Node::from("b"),
        Node::Array(Vec::new()),
        Node::Array(vec![Node::Empty]),
        Node::Array(vec![Node::Flag(true)]),
        Node::NodeMap(Vec::new()),
        Node::NodeMap(vec![("k".to_string(), Node::Empty)]),
        Node::NodeMap(vec![("l".to_string(), Node::Empty)]),
        Node::NodeMap(vec![("k".to_string(), Node::Int64(0))]),
        Node::ByteArray(Vec::new()),
        Node::ByteArray(vec![1]),
        Node::ByteArray(vec![2]),
    ];
    for (i, a) in values.iter().enumerate() {
        for (j, b) in values.iter().enumerate() {
            assert_eq!(a == b, i == j);
        }
    }
}

#[test]
fn scalars_have_their_representation() {
    let mut mem = NodeStorage::new();
    let flag = mem.build(&Node::Flag(true)).unwrap();
    assert_eq!(flag, mpv_node { u: mpv_node_u::flag(1), format: sys::MPV_FORMAT_FLAG });
    let int = mem.build(&Node::Int64(-5)).unwrap();
    assert_eq!(int, mpv_node { u: mpv_node_u::int64(-5), format: sys::MPV_FORMAT_INT64 });
    let d = mem.build(&Node::Double(double(1.5))).unwrap();
    assert_eq!(d, mpv_node { u: mpv_node_u::double_(double(1.5)), format: sys::MPV_FORMAT_DOUBLE });
    let none = mem.build(&Node::Empty).unwrap();
    assert_eq!(none, mpv_node { u: mpv_node_u::int64(0), format: sys::MPV_FORMAT_NONE });
}

#[test]
fn a_storage_keeps_what_it_holds_while_it_grows() {
    let mut mem = NodeStorage::new();
    let first = mem.build(&sample()).unwrap();
    let second = mem.build(&Node::Array(vec![sample(), sample()])).unwrap();
    assert_eq!(Node::from_raw(&mem, &first), sample());
    assert_eq!(Node::from_raw(&mem, &second), Node::Array(vec![sample(), sample()]));
}

#[test]
fn a_nul_anywhere_is_refused() {
    let bad = [
        Node::from("a\0b"),
        Node::Array(vec![Node::Int64(1), Node::from("\0")]),
        Node::NodeMap(vec![("k\0".to_string(), Node::Empty)]),
        Node::NodeMap(vec![("k".to_string(), Node::Array(vec![Node::from("\0")]))]),
    ];
    for node in &bad {
        let mut mem = NodeStorage::new();
        assert_eq!(mem.build(node).unwrap_err(), Error::InteriorNul);
    }
    // Bytes may hold anything.
    let mut mem = NodeStorage::new();
    assert!(mem.build(&Node::ByteArray(vec![0])).is_ok());
}

#[test]
fn unknown_formats_are_empty() {
    let mem = NodeStorage::new();
    for format in [sys::MPV_FORMAT_NONE, sys::MPV_FORMAT_OSD_STRING, 99, -1] {
        let raw = mpv_node { u: mpv_node_u::int64(3), format };
        assert_eq!(Node::from_raw(&mem, &raw), Node::Empty);
    }
}

#[test]
fn any_flag_but_zero_is_set() {
    let mem = NodeStorage::new();
    let raw = mpv_node { u: mpv_node_u::flag(-3), format: sys::MPV_FORMAT_FLAG };
    assert_eq!(Node::from_raw(&mem, &raw), Node::Flag(true));
}

#[test]
fn strings_are_read_lossily() {
    let mut mem = NodeStorage::new();
    let p = mem.push_string(CString::new(vec![b'a', 0x80]).unwrap());
    let raw = mpv_node { u: mpv_node_u::string(p), format: sys::MPV_FORMAT_STRING };
    assert_eq!(Node::from_raw(&mem, &raw), Node::from("a\u{fffd}"));
}

#[test]
fn a_list_is_read_up_to_its_count() {
    let mut mem = NodeStorage::new();
    let one = mem.build(&Node::Int64(1)).unwrap();
    let two = mem.build(&Node::Int64(2)).unwrap();
    let p = mem.push_list(1, vec![one, two], None);
    let raw = mpv_node { u: mpv_node_u::list(p), format: sys::MPV_FORMAT_NODE_ARRAY };
    assert_eq!(Node::from_raw(&mem, &raw), Node::Array(vec![Node::Int64(1)]));
    let p = mem.push_list(-7, vec![one], None);
    let raw = mpv_node { u: mpv_node_u::list(p), format: sys::MPV_FORMAT_NODE_ARRAY };
    assert_eq!(Node::from_raw(&mem, &raw), Node::Array(Vec::new()));
    assert_eq!(entry_count(-1), 0);
    assert_eq!(entry_count(5), 5);
}

#[test]
fn allocations_are_found_by_their_index() {
    let mut mem = NodeStorage::new();
    let node = Node::NodeMap(vec![("k".to_string(), Node::ByteArray(vec![7, 8]))]);
    let raw = mem.build(&node).unwrap();
    let list = match raw.u {
        mpv_node_u::list(p) => mem.list_at(p),
        other => panic!("{other:?}"),
    };
    assert_eq!(list.num, 1);
    let keys = mem.keys_at(list.keys.unwrap());
    assert_eq!(mem.c_string_at(keys[0]).to_bytes(), b"k");
    let values = mem.nodes_at(list.values.unwrap());
    assert_eq!(values[0].format, sys::MPV_FORMAT_BYTE_ARRAY);
    let ba = match values[0].u {
        mpv_node_u::ba(p) => mem.byte_array_at(p),
        other => panic!("{other:?}"),
    };
    assert_eq!(ba.size, 2);
    assert_eq!(mem.bytes_at(ba.data.unwrap()), [7, 8]);
}

#[test]
fn conversions() {
    assert_eq!(Node::from(true), Node::Flag(true));
    assert_eq!(Node::from(7i64), Node::Int64(7));
    assert_eq!(Node::from(double(0.5)), Node::Double(double(0.5)));
    assert_eq!(Node::from("x"), Node::String("x".to_string()));
    assert_eq!(Node::from("y".to_string()), Node::String("y".to_string()));
    assert_eq!(Node::from(vec!["a", "b"]), Node::Array(vec![Node::from("a"), Node::from("b")]));
    assert_eq!(Node::default(), Node::Empty);
}
