//! Owned events.

use rsmpv::cstring::CString;
use rsmpv::event::{has_api_1_108, lossy, property_data};
use rsmpv::node::NodeStorage;
use rsmpv::sys;
use rsmpv::sys::{
    mpv_event, mpv_event_client_message, mpv_event_command, mpv_event_data, mpv_event_end_file,
    mpv_event_hook, mpv_event_log_message, mpv_event_property, mpv_event_start_file,
    mpv_property_value, Double, MPV_CLIENT_API_VERSION, MPV_MAKE_VERSION,
};
use rsmpv::{EndFileReason, Error, Event, LogMessage, Node, PropertyData};

fn raw(event_id: i32, error: i32, data: mpv_event_data) -> mpv_event {
    mpv_event { event_id, error, reply_userdata: 42, data }
}

fn text(mem: &mut NodeStorage, s: &str) -> Option<usize> {
    Some(mem.push_string(CString::new(s.as_bytes().to_vec()).unwrap()))
}

fn read(mem: &NodeStorage, event: mpv_event) -> Event {
    Event::from_raw(mem, &event, MPV_CLIENT_API_VERSION).unwrap()
}

#[test]
fn nothing_happened() {
    let mem = NodeStorage::new();
    let none = raw(sys::MPV_EVENT_NONE, 0, mpv_event_data::null);
    assert!(Event::from_raw(&mem, &none, MPV_CLIENT_API_VERSION).is_none());
}

#[test]
fn events_without_data() {
    let mem = NodeStorage::new();
    let of = |id: i32| read(&mem, raw(id, 0, mpv_event_data::null));
    assert!(matches!(of(sys::MPV_EVENT_SHUTDOWN), Event::Shutdown));
    assert!(matches!(of(sys::MPV_EVENT_FILE_LOADED), Event::FileLoaded));
    assert!(matches!(of(sys::MPV_EVENT_VIDEO_RECONFIG), Event::VideoReconfig));
    assert!(matches!(of(sys::MPV_EVENT_AUDIO_RECONFIG), Event::AudioReconfig));
    assert!(matches!(of(sys::MPV_EVENT_SEEK), Event::Seek));
    assert!(matches!(of(sys::MPV_EVENT_PLAYBACK_RESTART), Event::PlaybackRestart));
    assert!(matches!(of(sys::MPV_EVENT_QUEUE_OVERFLOW), Event::QueueOverflow));
}

#[test]
fn unknown_events_keep_their_id() {
    let mem = NodeStorage::new();
    for id in [sys::MPV_EVENT_IDLE, sys::MPV_EVENT_TICK, 9, 26, -1, i32::MAX] {
        match read(&mem, raw(id, 0, mpv_event_data::null)) {
            Event::Unknown(unknown) => assert_eq!(unknown, id),
            other => panic!("{other:?}"),
        }
    }
}

#[test]
fn log_messages() {
    let mut mem = NodeStorage::new();
    let msg = mpv_event_log_message {
        prefix: text(&mut mem, "cplayer"),
        level: text(&mut mem, "info"),
        text: None,
        log_level: sys::MPV_LOG_LEVEL_INFO,
    };
    match read(&mem, raw(sys::MPV_EVENT_LOG_MESSAGE, 0, mpv_event_data::log_message(msg))) {
        Event::LogMessage(m) => assert_eq!(
            m,
            LogMessage {
                prefix: "cplayer".to_string(),
                level: "info".to_string(),
                text: String::new(),
                log_level: 40,
            }
        ),
        other => panic!("{other:?}"),
    }
    assert_eq!(lossy(&mem, None), "");
    assert_eq!(lossy(&mem, msg.prefix), "cplayer");
}

#[test]
fn property_replies_and_changes() {
    let mut mem = NodeStorage::new();
    let prop = mpv_event_property {
        name: text(&mut mem, "pause"),
        format: sys::MPV_FORMAT_FLAG,
        data: Some(mpv_property_value::flag(1)),
    };
    let data = mpv_event_data::property(prop);
    match read(&mem, raw(sys::MPV_EVENT_GET_PROPERTY_REPLY, 0, data.clone())) {
        Event::GetPropertyReply { userdata: 42, result } => {
            assert_eq!(result, Ok(("pause".to_string(), PropertyData::Flag(true))));
        }
        other => panic!("{other:?}"),
    }
    match read(&mem, raw(sys::MPV_EVENT_GET_PROPERTY_REPLY, -10, data.clone())) {
        Event::GetPropertyReply { userdata: 42, result } => {
            assert_eq!(result, Err(Error::PropertyUnavailable));
        }
        other => panic!("{other:?}"),
    }
    match read(&mem, raw(sys::MPV_EVENT_PROPERTY_CHANGE, 0, data)) {
        Event::PropertyChange { userdata: 42, name, data } => {
            assert_eq!(name, "pause");
            assert_eq!(data, PropertyData::Flag(true));
        }
        other => panic!("{other:?}"),
    }
    match read(&mem, raw(sys::MPV_EVENT_SET_PROPERTY_REPLY, -9, mpv_event_data::null)) {
        Event::SetPropertyReply { userdata: 42, result } => {
            assert_eq!(result, Err(Error::PropertyFormat));
        }
        other => panic!("{other:?}"),
    }
}

#[test]
fn property_values_of_each_format() {
    let mut mem = NodeStorage::new();
    let s = mpv_property_value::string(text(&mut mem, "x"));
    let d = Double { bits: 0.25f64.to_bits() };
    let node = mpv_property_value::node(mem.build(&Node::from(vec![true])).unwrap());
    let of = |format: i32, data: Option<mpv_property_value>| {
        property_data(&mem, &mpv_event_property { name: None, format, data })
    };
    assert_eq!(of(sys::MPV_FORMAT_STRING, Some(s)), PropertyData::String("x".to_string()));
    assert_eq!(of(sys::MPV_FORMAT_OSD_STRING, Some(s)), PropertyData::OsdString("x".to_string()));
    let null = mpv_property_value::string(None);
    assert_eq!(of(sys::MPV_FORMAT_STRING, Some(null)), PropertyData::String(String::new()));
    assert_eq!(of(sys::MPV_FORMAT_FLAG, Some(mpv_property_value::flag(0))), PropertyData::Flag(false));
    assert_eq!(of(sys::MPV_FORMAT_INT64, Some(mpv_property_value::int64(5))), PropertyData::Int64(5));
    assert_eq!(of(sys::MPV_FORMAT_DOUBLE, Some(mpv_property_value::double_(d))), PropertyData::Double(d));
    assert_eq!(of(sys::MPV_FORMAT_NODE, Some(node)), PropertyData::Node(Node::from(vec![true])));
    assert_eq!(of(sys::MPV_FORMAT_NONE, Some(mpv_property_value::int64(5))), PropertyData::Empty);
    assert_eq!(of(77, Some(mpv_property_value::int64(5))), PropertyData::Empty);
    assert_eq!(of(sys::MPV_FORMAT_INT64, None), PropertyData::Empty);
}

#[test]
fn property_values_compare_as_their_contents() {
    let zero = |v: f64| PropertyData::Double(Double { bits: v.to_bits() });
    assert_eq!(zero(0.0), zero(-0.0));
    assert_ne!(zero(f64::NAN), zero(f64::NAN));
    let nan = Node::Double(Double { bits: f64::NAN.to_bits() });
    assert_ne!(PropertyData::Node(nan.clone()), PropertyData::Node(nan));
    assert_ne!(PropertyData::String("x".to_string()), PropertyData::OsdString("x".to_string()));
    assert_ne!(PropertyData::Flag(true), PropertyData::Flag(false));
    assert_eq!(PropertyData::Empty, PropertyData::Empty);
}

#[test]
fn command_replies() {
    let mut mem = NodeStorage::new();
    let result = mem.build(&Node::from("ok")).unwrap();
    let data = mpv_event_data::command(mpv_event_command { result });
    match read(&mem, raw(sys::MPV_EVENT_COMMAND_REPLY, 0, data.clone())) {
        Event::CommandReply { userdata: 42, result } => assert_eq!(result, Ok(Node::from("ok"))),
        other => panic!("{other:?}"),
    }
    match read(&mem, raw(sys::MPV_EVENT_COMMAND_REPLY, -12, data)) {
        Event::CommandReply { userdata: 42, result } => assert_eq!(result, Err(Error::Command)),
        other => panic!("{other:?}"),
    }
}

#[test]
fn files_start() {
    let mem = NodeStorage::new();
    let data = mpv_event_data::start_file(mpv_event_start_file { playlist_entry_id: 8 });
    let event = read(&mem, raw(sys::MPV_EVENT_START_FILE, 0, data));
    assert!(matches!(event, Event::StartFile { playlist_entry_id: 8 }));
    // Old libmpv sends no data.
    let event = read(&mem, raw(sys::MPV_EVENT_START_FILE, 0, mpv_event_data::null));
    assert!(matches!(event, Event::StartFile { playlist_entry_id: 0 }));
}

#[test]
fn files_end() {
    let mem = NodeStorage::new();
    let ef = mpv_event_end_file {
        reason: sys::MPV_END_FILE_REASON_ERROR,
        error: sys::MPV_ERROR_LOADING_FAILED,
        playlist_entry_id: 1,
        playlist_insert_id: 2,
        playlist_insert_num_entries: 3,
    };
    let event = raw(sys::MPV_EVENT_END_FILE, 0, mpv_event_data::end_file(ef));
    match Event::from_raw(&mem, &event, MPV_MAKE_VERSION(1, 108)).unwrap() {
        Event::EndFile {
            reason: EndFileReason::Error,
            error: Some(Error::LoadingFailed),
            playlist_entry_id: 1,
            playlist_insert_id: 2,
            playlist_insert_num_entries: 3,
        } => {}
        other => panic!("{other:?}"),
    }
    match Event::from_raw(&mem, &event, MPV_MAKE_VERSION(1, 107)).unwrap() {
        Event::EndFile {
            reason: EndFileReason::Error,
            error: Some(Error::LoadingFailed),
            playlist_entry_id: 0,
            playlist_insert_id: 0,
            playlist_insert_num_entries: 0,
        } => {}
        other => panic!("{other:?}"),
    }
    let clean = mpv_event_end_file { reason: sys::MPV_END_FILE_REASON_EOF, error: 0, ..ef };
    match read(&mem, raw(sys::MPV_EVENT_END_FILE, 0, mpv_event_data::end_file(clean))) {
        Event::EndFile { reason: EndFileReason::Eof, error: None, .. } => {}
        other => panic!("{other:?}"),
    }
    assert!(!has_api_1_108(MPV_MAKE_VERSION(1, 107)));
    assert!(has_api_1_108(MPV_MAKE_VERSION(1, 108)));
    assert!(has_api_1_108(MPV_MAKE_VERSION(2, 0)));
}

#[test]
fn reasons() {
    assert_eq!(EndFileReason::from_raw(0), EndFileReason::Eof);
    assert_eq!(EndFileReason::from_raw(1), EndFileReason::Unknown(1));
    assert_eq!(EndFileReason::from_raw(2), EndFileReason::Stop);
    assert_eq!(EndFileReason::from_raw(3), EndFileReason::Quit);
    assert_eq!(EndFileReason::from_raw(4), EndFileReason::Error);
    assert_eq!(EndFileReason::from_raw(5), EndFileReason::Redirect);
    assert_eq!(EndFileReason::from_raw(-1), EndFileReason::Unknown(-1));
}

#[test]
fn client_messages() {
    let mut mem = NodeStorage::new();
    let args = vec![text(&mut mem, "hello"), None, text(&mut mem, "ignored")];
    let cm = mpv_event_client_message { num_args: 2, args };
    let event = read(&mem, raw(sys::MPV_EVENT_CLIENT_MESSAGE, 0, mpv_event_data::client_message(cm)));
    match event.clone() {
        Event::ClientMessage(args) => assert_eq!(args, ["hello", ""]),
        other => panic!("{other:?}"),
    }
    let cm = mpv_event_client_message { num_args: -1, args: Vec::new() };
    match read(&mem, raw(sys::MPV_EVENT_CLIENT_MESSAGE, 0, mpv_event_data::client_message(cm))) {
        Event::ClientMessage(args) => assert!(args.is_empty()),
        other => panic!("{other:?}"),
    }
}

#[test]
fn hooks() {
    let mut mem = NodeStorage::new();
    let hook = mpv_event_hook { name: text(&mut mem, "on_load"), id: 9 };
    match read(&mem, raw(sys::MPV_EVENT_HOOK, 0, mpv_event_data::hook(hook))) {
        Event::Hook { userdata: 42, name, id: 9 } => assert_eq!(name, "on_load"),
        other => panic!("{other:?}"),
    }
}

#[test]
fn an_event_stays_while_memory_grows() {
    let mut mem = NodeStorage::new();
    let result = mem.build(&Node::from(vec!["a"])).unwrap();
    let data = mpv_event_data::command(mpv_event_command { result });
    let event = raw(sys::MPV_EVENT_COMMAND_REPLY, 0, data);
    mem.build(&Node::from(vec!["b", "c"])).unwrap();
    match read(&mem, event) {
        Event::CommandReply { result, .. } => assert_eq!(result, Ok(Node::from(vec!["a"]))),
        other => panic!("{other:?}"),
    }
}
