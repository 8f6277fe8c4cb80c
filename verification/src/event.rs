//! Owned representation of libmpv events.

use vstd::pervasive::unreached;
use vstd::prelude::*;
use vstd::utf8::*;

use crate::call::Finished;
use crate::cstring;
use crate::error;
use crate::error::{check, status, Error, Result};
use crate::node;
use crate::node::{entry_count, Node, NodeStorage, NodeView};
use crate::property::{Format, GetProperty};
use crate::sys;
use crate::sys::{
    mpv_end_file_reason, mpv_event, mpv_event_client_message, mpv_event_data, mpv_event_end_file,
    mpv_event_hook, mpv_event_log_message, mpv_event_property, mpv_node, mpv_property_value,
    Double,
};

verus! {

/// The value carried by a property event, decoded according to the format it
/// was requested/observed with.
#[derive(Debug)]
#[non_exhaustive]
pub enum PropertyData {
    /// No data (the property is unavailable, reading it failed, or it was
    /// observed with [`Format::Empty`](crate::property::Format::Empty)).
    Empty,
    /// Raw string value (lossily converted; see [`Node::String`]).
    String(String),
    /// OSD string value.
    OsdString(String),
    /// Boolean flag.
    Flag(bool),
    /// 64-bit integer.
    Int64(i64),
    /// Double.
    Double(Double),
    /// Structured value.
    Node(Node),
}

/// The value of a [`PropertyData`].
pub enum PropertyDataView {
    Empty,
    String(Seq<char>),
    OsdString(Seq<char>),
    Flag(bool),
    Int64(i64),
    Double(Double),
    Node(NodeView),
}

impl View for PropertyData {
    type V = PropertyDataView;

    open spec fn view(&self) -> PropertyDataView {
        match *self {
            PropertyData::Empty => PropertyDataView::Empty,
            PropertyData::String(s) => PropertyDataView::String(s@),
            PropertyData::OsdString(s) => PropertyDataView::OsdString(s@),
            PropertyData::Flag(v) => PropertyDataView::Flag(v),
            PropertyData::Int64(v) => PropertyDataView::Int64(v),
            PropertyData::Double(v) => PropertyDataView::Double(v),
            PropertyData::Node(v) => PropertyDataView::Node(v@),
        }
    }
}

/// Whether two property values are equal: of the same format, with equal
/// contents.
pub open spec fn same_data(a: PropertyDataView, b: PropertyDataView) -> bool {
    match (a, b) {
        (PropertyDataView::Empty, PropertyDataView::Empty) => true,
        (PropertyDataView::String(x), PropertyDataView::String(y)) => x == y,
        (PropertyDataView::OsdString(x), PropertyDataView::OsdString(y)) => x == y,
        (PropertyDataView::Flag(x), PropertyDataView::Flag(y)) => x == y,
        (PropertyDataView::Int64(x), PropertyDataView::Int64(y)) => x == y,
        (PropertyDataView::Double(x), PropertyDataView::Double(y)) => x.same_number(y),
        (PropertyDataView::Node(x), PropertyDataView::Node(y)) => node::same_value(x, y),
        _ => false,
    }
}

impl PartialEq for PropertyData {
    fn eq(&self, other: &PropertyData) -> (same: bool) {
        match (self, other) {
            (PropertyData::Empty, PropertyData::Empty) => true,
            (PropertyData::String(x), PropertyData::String(y)) => *x == *y,
            (PropertyData::OsdString(x), PropertyData::OsdString(y)) => *x == *y,
            (PropertyData::Flag(x), PropertyData::Flag(y)) => *x == *y,
            (PropertyData::Int64(x), PropertyData::Int64(y)) => *x == *y,
            (PropertyData::Double(x), PropertyData::Double(y)) => *x == *y,
            (PropertyData::Node(x), PropertyData::Node(y)) => *x == *y,
            _ => false,
        }
    }
}

impl vstd::std_specs::cmp::PartialEqSpecImpl for PropertyData {
    open spec fn obeys_eq_spec() -> bool {
        true
    }

    open spec fn eq_spec(&self, other: &PropertyData) -> bool {
        same_data(self@, other@)
    }
}

impl Clone for PropertyData {
    fn clone(&self) -> (data: PropertyData)
        ensures
            data@ == self@,
    {
        match self {
            PropertyData::Empty => PropertyData::Empty,
            PropertyData::String(s) => PropertyData::String(s.clone()),
            PropertyData::OsdString(s) => PropertyData::OsdString(s.clone()),
            PropertyData::Flag(v) => PropertyData::Flag(*v),
            PropertyData::Int64(v) => PropertyData::Int64(*v),
            PropertyData::Double(v) => PropertyData::Double(*v),
            PropertyData::Node(v) => PropertyData::Node(v.clone()),
        }
    }
}

/// Why playback of a file ended (see [`Event::EndFile`]).
#[derive(Debug, Clone, Copy, PartialEq, Eq, Structural)]
#[non_exhaustive]
pub enum EndFileReason {
    /// The end of the file was reached (also possible for broken files or
    /// interrupted network streams, or a restricted playback range).
    Eof,
    /// Playback was stopped by an external action (e.g. playlist controls).
    Stop,
    /// Playback was stopped by the `quit` command or player shutdown.
    Quit,
    /// An error aborted playback; see the `error` field of
    /// [`Event::EndFile`].
    Error,
    /// The file was a playlist (or similar) whose entries replaced it.
    Redirect,
    /// A reason this crate doesn't know about.
    Unknown(i32),
}

impl EndFileReason {
    /// The number of the reason in the client API.
    pub open spec fn code(self) -> mpv_end_file_reason {
        match self {
            EndFileReason::Eof => sys::MPV_END_FILE_REASON_EOF,
            EndFileReason::Stop => sys::MPV_END_FILE_REASON_STOP,
            EndFileReason::Quit => sys::MPV_END_FILE_REASON_QUIT,
            EndFileReason::Error => sys::MPV_END_FILE_REASON_ERROR,
            EndFileReason::Redirect => sys::MPV_END_FILE_REASON_REDIRECT,
            EndFileReason::Unknown(raw) => raw,
        }
    }

    /// The reason with the number `raw`.
    pub open spec fn of_code(raw: mpv_end_file_reason) -> EndFileReason {
        if raw == sys::MPV_END_FILE_REASON_EOF {
            EndFileReason::Eof
        } else if raw == sys::MPV_END_FILE_REASON_STOP {
            EndFileReason::Stop
        } else if raw == sys::MPV_END_FILE_REASON_QUIT {
            EndFileReason::Quit
        } else if raw == sys::MPV_END_FILE_REASON_ERROR {
            EndFileReason::Error
        } else if raw == sys::MPV_END_FILE_REASON_REDIRECT {
            EndFileReason::Redirect
        } else {
            EndFileReason::Unknown(raw)
        }
    }

    /// Convert a raw reason code.
    pub fn from_raw(raw: mpv_end_file_reason) -> (reason: EndFileReason)
        ensures
            reason == EndFileReason::of_code(raw),
    {
        if raw == sys::MPV_END_FILE_REASON_EOF {
            EndFileReason::Eof
        } else if raw == sys::MPV_END_FILE_REASON_STOP {
            EndFileReason::Stop
        } else if raw == sys::MPV_END_FILE_REASON_QUIT {
            EndFileReason::Quit
        } else if raw == sys::MPV_END_FILE_REASON_ERROR {
            EndFileReason::Error
        } else if raw == sys::MPV_END_FILE_REASON_REDIRECT {
            EndFileReason::Redirect
        } else {
            EndFileReason::Unknown(raw)
        }
    }
}

/// A reason code survives the conversion into a reason and back.
pub proof fn law_reason_round_trip(raw: mpv_end_file_reason)
    ensures
        EndFileReason::of_code(raw).code() == raw,
{
}

/// A log message (see [`Event::LogMessage`]).
#[derive(Debug, PartialEq)]
pub struct LogMessage {
    /// Module prefix identifying the sender (the special value `"overflow"`
    /// indicates the message buffer overflowed).
    pub prefix: String,
    /// The log level as a string (never `"no"`).
    pub level: String,
    /// One line of text, terminated with a newline character.
    pub text: String,
    /// The numeric log level (a `MPV_LOG_LEVEL_*` value).
    pub log_level: i32,
}

impl Clone for LogMessage {
    fn clone(&self) -> (message: LogMessage)
        ensures
            message.prefix@ == self.prefix@,
            message.level@ == self.level@,
            message.text@ == self.text@,
            message.log_level == self.log_level,
    {
        LogMessage {
            prefix: self.prefix.clone(),
            level: self.level.clone(),
            text: self.text.clone(),
            log_level: self.log_level,
        }
    }
}

/// An owned libmpv event.
///
/// All data is deep-copied out of libmpv's event storage, so events can be
/// kept and sent across threads freely.
#[derive(Debug)]
#[non_exhaustive]
pub enum Event {
    /// The player is quitting; drop the handle (or the client) soon.
    Shutdown,
    /// A log message.
    LogMessage(LogMessage),
    /// Reply to an asynchronous property read.
    GetPropertyReply {
        userdata: u64,
        /// The property name and decoded value on success.
        result: Result<(String, PropertyData)>,
    },
    /// Reply to an asynchronous property write.
    SetPropertyReply { userdata: u64, result: Result<()> },
    /// Reply to an asynchronous command.
    CommandReply {
        userdata: u64,
        /// Command-specific return data on success ([`Node::Empty`] for most
        /// commands).
        result: Result<Node>,
    },
    /// Playback of a file is starting.
    StartFile { playlist_entry_id: i64 },
    /// Playback of a file ended.
    ///
    /// The playlist fields are `0` when the linked libmpv predates client
    /// API 1.108 (mpv 0.33), which lacks them.
    EndFile {
        reason: EndFileReason,
        /// Set when `reason` is [`EndFileReason::Error`].
        error: Option<Error>,
        playlist_entry_id: i64,
        playlist_insert_id: i64,
        playlist_insert_num_entries: i32,
    },
    /// The file has been loaded and decoding starts.
    FileLoaded,
    /// A `script-message` directed at this client.
    ClientMessage(Vec<String>),
    /// Video was reconfigured.
    VideoReconfig,
    /// Audio was reconfigured.
    AudioReconfig,
    /// A seek started.
    Seek,
    /// Playback was reinitialized after a discontinuity.
    PlaybackRestart,
    /// An observed property (may have) changed.
    PropertyChange { userdata: u64, name: String, data: PropertyData },
    /// The event queue overflowed and at least one event was dropped.
    QueueOverflow,
    /// A hook was invoked; it must be continued, passing `id`.
    Hook { userdata: u64, name: String, id: u64 },
    /// An event this crate doesn't know about (including the events
    /// deprecated upstream, `MPV_EVENT_IDLE` = 11 and `MPV_EVENT_TICK` = 14).
    Unknown(i32),
}

/// The value of an [`Event`].
pub enum EventView {
    Shutdown,
    LogMessage { prefix: Seq<char>, level: Seq<char>, text: Seq<char>, log_level: i32 },
    GetPropertyReply { userdata: u64, result: Result<(Seq<char>, PropertyDataView)> },
    SetPropertyReply { userdata: u64, result: Result<()> },
    CommandReply { userdata: u64, result: Result<NodeView> },
    StartFile { playlist_entry_id: i64 },
    EndFile {
        reason: EndFileReason,
        error: Option<Error>,
        playlist_entry_id: i64,
        playlist_insert_id: i64,
        playlist_insert_num_entries: i32,
    },
    FileLoaded,
    ClientMessage(Seq<Seq<char>>),
    VideoReconfig,
    AudioReconfig,
    Seek,
    PlaybackRestart,
    PropertyChange { userdata: u64, name: Seq<char>, data: PropertyDataView },
    QueueOverflow,
    Hook { userdata: u64, name: Seq<char>, id: u64 },
    Unknown(i32),
}

impl View for Event {
    type V = EventView;

    open spec fn view(&self) -> EventView {
        match *self {
            Event::Shutdown => EventView::Shutdown,
            Event::LogMessage(m) => EventView::LogMessage {
                prefix: m.prefix@,
                level: m.level@,
                text: m.text@,
                log_level: m.log_level,
            },
            Event::GetPropertyReply { userdata, result } => EventView::GetPropertyReply {
                userdata,
                result: match result {
                    Ok((name, data)) => Ok((name@, data@)),
                    Err(e) => Err(e),
                },
            },
            Event::SetPropertyReply { userdata, result } => EventView::SetPropertyReply {
                userdata,
                result,
            },
            Event::CommandReply { userdata, result } => EventView::CommandReply {
                userdata,
                result: match result {
                    Ok(node) => Ok(node@),
                    Err(e) => Err(e),
                },
            },
            Event::StartFile { playlist_entry_id } => EventView::StartFile { playlist_entry_id },
            Event::EndFile {
                reason,
                error,
                playlist_entry_id,
                playlist_insert_id,
                playlist_insert_num_entries,
            } => EventView::EndFile {
                reason,
                error,
                playlist_entry_id,
                playlist_insert_id,
                playlist_insert_num_entries,
            },
            Event::FileLoaded => EventView::FileLoaded,
            Event::ClientMessage(args) => EventView::ClientMessage(
                args@.map_values(|arg: String| arg@),
            ),
            Event::VideoReconfig => EventView::VideoReconfig,
            Event::AudioReconfig => EventView::AudioReconfig,
            Event::Seek => EventView::Seek,
            Event::PlaybackRestart => EventView::PlaybackRestart,
            Event::PropertyChange { userdata, name, data } => EventView::PropertyChange {
                userdata,
                name: name@,
                data: data@,
            },
            Event::QueueOverflow => EventView::QueueOverflow,
            Event::Hook { userdata, name, id } => EventView::Hook { userdata, name: name@, id },
            Event::Unknown(id) => EventView::Unknown(id),
        }
    }
}

impl Clone for Event {
    fn clone(&self) -> (event: Event)
        ensures
            event@ == self@,
    {
        match self {
            Event::Shutdown => Event::Shutdown,
            Event::LogMessage(m) => Event::LogMessage(m.clone()),
            Event::GetPropertyReply { userdata, result } => Event::GetPropertyReply {
                userdata: *userdata,
                result: match result {
                    Ok((name, data)) => Ok((name.clone(), data.clone())),
                    Err(e) => Err(*e),
                },
            },
            Event::SetPropertyReply { userdata, result } => Event::SetPropertyReply {
                userdata: *userdata,
                result: match result {
                    Ok(done) => Ok(*done),
                    Err(e) => Err(*e),
                },
            },
            Event::CommandReply { userdata, result } => Event::CommandReply {
                userdata: *userdata,
                result: match result {
                    Ok(node) => Ok(node.clone()),
                    Err(e) => Err(*e),
                },
            },
            Event::StartFile { playlist_entry_id } => Event::StartFile {
                playlist_entry_id: *playlist_entry_id,
            },
            Event::EndFile {
                reason,
                error,
                playlist_entry_id,
                playlist_insert_id,
                playlist_insert_num_entries,
            } => Event::EndFile {
                reason: *reason,
                error: *error,
                playlist_entry_id: *playlist_entry_id,
                playlist_insert_id: *playlist_insert_id,
                playlist_insert_num_entries: *playlist_insert_num_entries,
            },
            Event::FileLoaded => Event::FileLoaded,
            Event::ClientMessage(args) => {
                let mut copies: Vec<String> = Vec::new();
                for i in 0..args.len()
                    invariant
                        copies@.len() == i,
                        forall|j: int| 0 <= j < i ==> (#[trigger] copies@[j])@ == args@[j]@,
                {
                    copies.push(args[i].clone());
                }
                let event = Event::ClientMessage(copies);
                assert(event@->ClientMessage_0 == self@->ClientMessage_0);
                event
            },
            Event::VideoReconfig => Event::VideoReconfig,
            Event::AudioReconfig => Event::AudioReconfig,
            Event::Seek => Event::Seek,
            Event::PlaybackRestart => Event::PlaybackRestart,
            Event::PropertyChange { userdata, name, data } => Event::PropertyChange {
                userdata: *userdata,
                name: name.clone(),
                data: data.clone(),
            },
            Event::QueueOverflow => Event::QueueOverflow,
            Event::Hook { userdata, name, id } => Event::Hook {
                userdata: *userdata,
                name: name.clone(),
                id: *id,
            },
            Event::Unknown(id) => Event::Unknown(*id),
        }
    }
}

/// Whether a libmpv of the client API version `version` has the fields added
/// in 1.108 (mpv 0.33): the playlist ids of `mpv_event_end_file` and non-null
/// data for `MPV_EVENT_START_FILE`.
pub fn has_api_1_108(version: u64) -> (has: bool)
    ensures
        has == (version >= sys::make_version(1, 108)),
{
    version >= sys::MPV_MAKE_VERSION(1, 108)
}

/// Whether `p` is null or refers to a string of `mem`.
pub open spec fn string_valid(mem: NodeStorage, p: Option<usize>) -> bool {
    p matches Some(p) ==> p < mem.strings().len()
}

/// The text at `p`, empty for null.
pub open spec fn text_or_empty(mem: NodeStorage, p: Option<usize>) -> Seq<char> {
    match p {
        Some(p) => mem.text(p),
        None => Seq::empty(),
    }
}

/// The text at `p`, empty for null; bytes that are not UTF-8 are replaced.
pub fn lossy(mem: &NodeStorage, p: Option<usize>) -> (s: String)
    requires
        string_valid(*mem, p),
    ensures
        s@ == text_or_empty(*mem, p),
{
    match p {
        Some(p) => mem.string_at(p),
        None => String::new(),
    }
}

/// Whether the data of a property event is what its format says, in `mem`.
pub open spec fn property_valid(mem: NodeStorage, prop: mpv_event_property) -> bool {
    &&& string_valid(mem, prop.name)
    &&& prop.data matches Some(data) ==> {
        if prop.format == sys::MPV_FORMAT_STRING || prop.format == sys::MPV_FORMAT_OSD_STRING {
            data matches mpv_property_value::string(p) && string_valid(mem, p)
        } else if prop.format == sys::MPV_FORMAT_FLAG {
            data is flag
        } else if prop.format == sys::MPV_FORMAT_INT64 {
            data is int64
        } else if prop.format == sys::MPV_FORMAT_DOUBLE {
            data is double_
        } else if prop.format == sys::MPV_FORMAT_NODE {
            data matches mpv_property_value::node(raw) && mem.valid(raw)
        } else {
            true
        }
    }
}

/// The value that a property event carries.
pub open spec fn property_data_of(mem: NodeStorage, prop: mpv_event_property) -> PropertyDataView {
    match prop.data {
        None => PropertyDataView::Empty,
        Some(data) => if prop.format == sys::MPV_FORMAT_STRING {
            PropertyDataView::String(text_or_empty(mem, data->string_0))
        } else if prop.format == sys::MPV_FORMAT_OSD_STRING {
            PropertyDataView::OsdString(text_or_empty(mem, data->string_0))
        } else if prop.format == sys::MPV_FORMAT_FLAG {
            PropertyDataView::Flag(data->flag_0 != 0)
        } else if prop.format == sys::MPV_FORMAT_INT64 {
            PropertyDataView::Int64(data->int64_0)
        } else if prop.format == sys::MPV_FORMAT_DOUBLE {
            PropertyDataView::Double(data->double__0)
        } else if prop.format == sys::MPV_FORMAT_NODE {
            PropertyDataView::Node(mem.read(data->node_0))
        } else {
            PropertyDataView::Empty
        },
    }
}

/// Decode the value of a property event.
pub fn property_data(mem: &NodeStorage, prop: &mpv_event_property) -> (data: PropertyData)
    requires
        mem.wf(),
        property_valid(*mem, *prop),
    ensures
        data@ == property_data_of(*mem, *prop),
{
    match prop.data {
        None => PropertyData::Empty,
        Some(mpv_property_value::string(p)) if prop.format == sys::MPV_FORMAT_STRING =>
            PropertyData::String(lossy(mem, p)),
        Some(mpv_property_value::string(p)) if prop.format == sys::MPV_FORMAT_OSD_STRING =>
            PropertyData::OsdString(lossy(mem, p)),
        Some(mpv_property_value::flag(v)) if prop.format == sys::MPV_FORMAT_FLAG =>
            PropertyData::Flag(v != 0),
        Some(mpv_property_value::int64(v)) if prop.format == sys::MPV_FORMAT_INT64 =>
            PropertyData::Int64(v),
        Some(mpv_property_value::double_(v)) if prop.format == sys::MPV_FORMAT_DOUBLE =>
            PropertyData::Double(v),
        Some(mpv_property_value::node(raw)) if prop.format == sys::MPV_FORMAT_NODE =>
            PropertyData::Node(Node::from_raw(mem, &raw)),
        _ => PropertyData::Empty,
    }
}

/// Whether `raw` is an event as libmpv delivers it: its data is of the type
/// that its id says, and what the data refers to is in `mem`. The data of a
/// reply is only there if the request succeeded.
pub open spec fn event_valid(mem: NodeStorage, raw: mpv_event) -> bool {
    if raw.event_id == sys::MPV_EVENT_LOG_MESSAGE {
        raw.data matches mpv_event_data::log_message(msg) && string_valid(mem, msg.prefix)
            && string_valid(mem, msg.level) && string_valid(mem, msg.text)
    } else if raw.event_id == sys::MPV_EVENT_GET_PROPERTY_REPLY {
        raw.error >= 0 ==> (raw.data matches mpv_event_data::property(prop) && property_valid(
            mem,
            prop,
        ))
    } else if raw.event_id == sys::MPV_EVENT_COMMAND_REPLY {
        raw.error >= 0 ==> (raw.data matches mpv_event_data::command(cmd) && mem.valid(cmd.result))
    } else if raw.event_id == sys::MPV_EVENT_START_FILE {
        raw.data is null || raw.data is start_file
    } else if raw.event_id == sys::MPV_EVENT_END_FILE {
        raw.data is end_file
    } else if raw.event_id == sys::MPV_EVENT_CLIENT_MESSAGE {
        raw.data matches mpv_event_data::client_message(cm) && cm.num_args <= cm.args@.len()
            && forall|i: int|
            0 <= i < cm.args@.len() ==> string_valid(mem, #[trigger] cm.args@[i])
    } else if raw.event_id == sys::MPV_EVENT_PROPERTY_CHANGE {
        raw.data matches mpv_event_data::property(prop) && property_valid(mem, prop)
    } else if raw.event_id == sys::MPV_EVENT_HOOK {
        raw.data matches mpv_event_data::hook(hook) && string_valid(mem, hook.name)
    } else {
        true
    }
}

/// The event that `raw` stands for, none for `MPV_EVENT_NONE`; `version` is
/// the client API version of the libmpv that delivered it.
pub open spec fn event_of(mem: NodeStorage, raw: mpv_event, version: u64) -> Option<EventView> {
    if raw.event_id == sys::MPV_EVENT_NONE {
        None
    } else if raw.event_id == sys::MPV_EVENT_SHUTDOWN {
        Some(EventView::Shutdown)
    } else if raw.event_id == sys::MPV_EVENT_LOG_MESSAGE {
        let msg = raw.data->log_message_0;
        Some(
            EventView::LogMessage {
                prefix: text_or_empty(mem, msg.prefix),
                level: text_or_empty(mem, msg.level),
                text: text_or_empty(mem, msg.text),
                log_level: msg.log_level,
            },
        )
    } else if raw.event_id == sys::MPV_EVENT_GET_PROPERTY_REPLY {
        let prop = raw.data->property_0;
        Some(
            EventView::GetPropertyReply {
                userdata: raw.reply_userdata,
                result: if raw.error >= 0 {
                    Ok((text_or_empty(mem, prop.name), property_data_of(mem, prop)))
                } else {
                    Err(Error::of_code(raw.error))
                },
            },
        )
    } else if raw.event_id == sys::MPV_EVENT_SET_PROPERTY_REPLY {
        Some(
            EventView::SetPropertyReply {
                userdata: raw.reply_userdata,
                result: error::status_of(raw.error),
            },
        )
    } else if raw.event_id == sys::MPV_EVENT_COMMAND_REPLY {
        Some(
            EventView::CommandReply {
                userdata: raw.reply_userdata,
                result: if raw.error >= 0 {
                    Ok(mem.read(raw.data->command_0.result))
                } else {
                    Err(Error::of_code(raw.error))
                },
            },
        )
    } else if raw.event_id == sys::MPV_EVENT_START_FILE {
        Some(
            EventView::StartFile {
                playlist_entry_id: match raw.data {
                    mpv_event_data::start_file(sf) => sf.playlist_entry_id,
                    _ => 0,
                },
            },
        )
    } else if raw.event_id == sys::MPV_EVENT_END_FILE {
        let ef = raw.data->end_file_0;
        let v108 = version >= sys::make_version(1, 108);
        Some(
            EventView::EndFile {
                reason: EndFileReason::of_code(ef.reason),
                error: if ef.error < 0 {
                    Some(Error::of_code(ef.error))
                } else {
                    None
                },
                playlist_entry_id: if v108 {
                    ef.playlist_entry_id
                } else {
                    0
                },
                playlist_insert_id: if v108 {
                    ef.playlist_insert_id
                } else {
                    0
                },
                playlist_insert_num_entries: if v108 {
                    ef.playlist_insert_num_entries
                } else {
                    0
                },
            },
        )
    } else if raw.event_id == sys::MPV_EVENT_FILE_LOADED {
        Some(EventView::FileLoaded)
    } else if raw.event_id == sys::MPV_EVENT_CLIENT_MESSAGE {
        let cm = raw.data->client_message_0;
        Some(
            EventView::ClientMessage(
                Seq::new(
                    if cm.num_args > 0 {
                        cm.num_args as nat
                    } else {
                        0
                    },
                    |i: int| text_or_empty(mem, cm.args@[i]),
                ),
            ),
        )
    } else if raw.event_id == sys::MPV_EVENT_VIDEO_RECONFIG {
        Some(EventView::VideoReconfig)
    } else if raw.event_id == sys::MPV_EVENT_AUDIO_RECONFIG {
        Some(EventView::AudioReconfig)
    } else if raw.event_id == sys::MPV_EVENT_SEEK {
        Some(EventView::Seek)
    } else if raw.event_id == sys::MPV_EVENT_PLAYBACK_RESTART {
        Some(EventView::PlaybackRestart)
    } else if raw.event_id == sys::MPV_EVENT_PROPERTY_CHANGE {
        let prop = raw.data->property_0;
        Some(
            EventView::PropertyChange {
                userdata: raw.reply_userdata,
                name: text_or_empty(mem, prop.name),
                data: property_data_of(mem, prop),
            },
        )
    } else if raw.event_id == sys::MPV_EVENT_QUEUE_OVERFLOW {
        Some(EventView::QueueOverflow)
    } else if raw.event_id == sys::MPV_EVENT_HOOK {
        let hook = raw.data->hook_0;
        Some(
            EventView::Hook {
                userdata: raw.reply_userdata,
                name: text_or_empty(mem, hook.name),
                id: hook.id,
            },
        )
    } else {
        Some(EventView::Unknown(raw.event_id))
    }
}

impl Event {
    /// Deep-copy a raw event, whose strings and nodes are in `mem`, into an
    /// owned [`Event`]. Returns `None` for `MPV_EVENT_NONE`. `version` is the
    /// client API version of the libmpv that delivered the event.
    pub fn from_raw(mem: &NodeStorage, raw: &mpv_event, version: u64) -> (event: Option<Event>)
        requires
            mem.wf(),
            event_valid(*mem, *raw),
        ensures
            event is Some <==> event_of(*mem, *raw, version) is Some,
            event matches Some(event) ==> event_of(*mem, *raw, version) == Some(event@),
    {
        if raw.event_id == sys::MPV_EVENT_NONE {
            return None;
        }
        Some(
            if raw.event_id == sys::MPV_EVENT_SHUTDOWN {
                Event::Shutdown
            } else if raw.event_id == sys::MPV_EVENT_LOG_MESSAGE {
                match &raw.data {
                    mpv_event_data::log_message(msg) => Event::LogMessage(
                        LogMessage {
                            prefix: lossy(mem, msg.prefix),
                            level: lossy(mem, msg.level),
                            text: lossy(mem, msg.text),
                            log_level: msg.log_level,
                        },
                    ),
                    _ => unreached(),
                }
            } else if raw.event_id == sys::MPV_EVENT_GET_PROPERTY_REPLY {
                Event::GetPropertyReply {
                    userdata: raw.reply_userdata,
                    result: match (check(raw.error), &raw.data) {
                        (Err(e), _) => Err(e),
                        (Ok(_), mpv_event_data::property(prop)) => Ok(
                            (lossy(mem, prop.name), property_data(mem, prop)),
                        ),
                        _ => unreached(),
                    },
                }
            } else if raw.event_id == sys::MPV_EVENT_SET_PROPERTY_REPLY {
                Event::SetPropertyReply { userdata: raw.reply_userdata, result: status(raw.error) }
            } else if raw.event_id == sys::MPV_EVENT_COMMAND_REPLY {
                Event::CommandReply {
                    userdata: raw.reply_userdata,
                    result: match (check(raw.error), &raw.data) {
                        (Err(e), _) => Err(e),
                        (Ok(_), mpv_event_data::command(cmd)) => Ok(
                            Node::from_raw(mem, &cmd.result),
                        ),
                        _ => unreached(),
                    },
                }
            } else if raw.event_id == sys::MPV_EVENT_START_FILE {
                Event::StartFile {
                    // Null before client API 1.108.
                    playlist_entry_id: match &raw.data {
                        mpv_event_data::start_file(sf) => sf.playlist_entry_id,
                        _ => 0,
                    },
                }
            } else if raw.event_id == sys::MPV_EVENT_END_FILE {
                match &raw.data {
                    mpv_event_data::end_file(ef) => {
                        let v108 = has_api_1_108(version);
                        Event::EndFile {
                            reason: EndFileReason::from_raw(ef.reason),
                            error: if ef.error < 0 {
                                Some(Error::from_raw(ef.error))
                            } else {
                                None
                            },
                            playlist_entry_id: if v108 {
                                ef.playlist_entry_id
                            } else {
                                0
                            },
                            playlist_insert_id: if v108 {
                                ef.playlist_insert_id
                            } else {
                                0
                            },
                            playlist_insert_num_entries: if v108 {
                                ef.playlist_insert_num_entries
                            } else {
                                0
                            },
                        }
                    },
                    _ => unreached(),
                }
            } else if raw.event_id == sys::MPV_EVENT_FILE_LOADED {
                Event::FileLoaded
            } else if raw.event_id == sys::MPV_EVENT_CLIENT_MESSAGE {
                match &raw.data {
                    mpv_event_data::client_message(cm) => {
                        let mut args: Vec<String> = Vec::new();
                        let num: usize = entry_count(cm.num_args);
                        for i in 0..num
                            invariant
                                num <= cm.args@.len(),
                                forall|j: int|
                                    0 <= j < cm.args@.len() ==> string_valid(
                                        *mem,
                                        #[trigger] cm.args@[j],
                                    ),
                                args@.len() == i,
                                forall|j: int|
                                    0 <= j < i ==> (#[trigger] args@[j])@ == text_or_empty(
                                        *mem,
                                        cm.args@[j],
                                    ),
                        {
                            args.push(lossy(mem, cm.args[i]));
                        }
                        let event = Event::ClientMessage(args);
                        assert(event@->ClientMessage_0 == event_of(
                            *mem,
                            *raw,
                            version,
                        )->0->ClientMessage_0);
                        event
                    },
                    _ => unreached(),
                }
            } else if raw.event_id == sys::MPV_EVENT_VIDEO_RECONFIG {
                Event::VideoReconfig
            } else if raw.event_id == sys::MPV_EVENT_AUDIO_RECONFIG {
                Event::AudioReconfig
            } else if raw.event_id == sys::MPV_EVENT_SEEK {
                Event::Seek
            } else if raw.event_id == sys::MPV_EVENT_PLAYBACK_RESTART {
                Event::PlaybackRestart
            } else if raw.event_id == sys::MPV_EVENT_PROPERTY_CHANGE {
                match &raw.data {
                    mpv_event_data::property(prop) => Event::PropertyChange {
                        userdata: raw.reply_userdata,
                        name: lossy(mem, prop.name),
                        data: property_data(mem, prop),
                    },
                    _ => unreached(),
                }
            } else if raw.event_id == sys::MPV_EVENT_QUEUE_OVERFLOW {
                Event::QueueOverflow
            } else if raw.event_id == sys::MPV_EVENT_HOOK {
                match &raw.data {
                    mpv_event_data::hook(hook) => Event::Hook {
                        userdata: raw.reply_userdata,
                        name: lossy(mem, hook.name),
                        id: hook.id,
                    },
                    _ => unreached(),
                }
            } else {
                Event::Unknown(raw.event_id)
            },
        )
    }
}

/// There is an event for everything that libmpv delivers but the sign that
/// nothing happened.
pub proof fn law_only_none_is_no_event(mem: NodeStorage, raw: mpv_event, version: u64)
    ensures
        event_of(mem, raw, version) is None <==> raw.event_id == sys::MPV_EVENT_NONE,
{
}

/// An event that is not known keeps its id, and so do the two that are
/// deprecated.
pub proof fn law_unknown_event_keeps_id(mem: NodeStorage, raw: mpv_event, version: u64)
    ensures
        event_of(mem, raw, version) matches Some(EventView::Unknown(id)) ==> id == raw.event_id,
        raw.event_id == sys::MPV_EVENT_IDLE || raw.event_id == sys::MPV_EVENT_TICK || raw.event_id
            < sys::MPV_EVENT_NONE || raw.event_id > sys::MPV_EVENT_HOOK ==> event_of(
            mem,
            raw,
            version,
        ) == Some(EventView::Unknown(raw.event_id)),
{
}

/// The number that a request was made with is the one that the event for it
/// carries.
pub proof fn law_userdata_comes_back(mem: NodeStorage, raw: mpv_event, version: u64)
    ensures
        match event_of(mem, raw, version) {
            Some(EventView::GetPropertyReply { userdata, .. }) => userdata == raw.reply_userdata,
            Some(EventView::SetPropertyReply { userdata, .. }) => userdata == raw.reply_userdata,
            Some(EventView::CommandReply { userdata, .. }) => userdata == raw.reply_userdata,
            Some(EventView::PropertyChange { userdata, .. }) => userdata == raw.reply_userdata,
            Some(EventView::Hook { userdata, .. }) => userdata == raw.reply_userdata,
            _ => true,
        },
{
}

/// A failed request is replied to with the error of its status, whatever data
/// comes with the event.
pub proof fn law_failed_request_is_an_error(mem: NodeStorage, raw: mpv_event, version: u64)
    ensures
        match event_of(mem, raw, version) {
            Some(EventView::GetPropertyReply { result, .. }) => if raw.error < 0 {
                result == Err::<(Seq<char>, PropertyDataView), Error>(Error::of_code(raw.error))
            } else {
                result is Ok
            },
            Some(EventView::SetPropertyReply { result, .. }) => if raw.error < 0 {
                result == Err::<(), Error>(Error::of_code(raw.error))
            } else {
                result is Ok
            },
            Some(EventView::CommandReply { result, .. }) => if raw.error < 0 {
                result == Err::<NodeView, Error>(Error::of_code(raw.error))
            } else {
                result is Ok
            },
            _ => true,
        },
{
}

/// The playlist fields of a file's end are `0` from a libmpv that lacks them,
/// whatever stands where a later one has them.
pub proof fn law_playlist_fields_need_api_1_108(mem: NodeStorage, raw: mpv_event, version: u64)
    requires
        version < sys::make_version(1, 108),
    ensures
        event_of(mem, raw, version) matches Some(
            EventView::EndFile {
                playlist_entry_id,
                playlist_insert_id,
                playlist_insert_num_entries,
                ..
            },
        ) ==> playlist_entry_id == 0 && playlist_insert_id == 0 && playlist_insert_num_entries == 0,
{
}

/// The value of a property is decoded by the format that it was requested or
/// observed with, where there is a value.
pub proof fn law_property_data_follows_format(
    mem: NodeStorage,
    prop: mpv_event_property,
    format: Format,
)
    requires
        prop.format == format.code(),
        prop.data is Some,
    ensures
        match format {
            Format::Empty => property_data_of(mem, prop) is Empty,
            Format::String => property_data_of(mem, prop) is String,
            Format::OsdString => property_data_of(mem, prop) is OsdString,
            Format::Flag => property_data_of(mem, prop) is Flag,
            Format::Int64 => property_data_of(mem, prop) is Int64,
            Format::Double => property_data_of(mem, prop) is Double,
            Format::Node => property_data_of(mem, prop) is Node,
        },
{
}

/// An event is a deep copy: it stays the same while allocations are added to
/// the memory that it was read from.
pub proof fn law_growth_keeps_events(
    old: NodeStorage,
    new: NodeStorage,
    raw: mpv_event,
    version: u64,
)
    requires
        old.wf(),
        event_valid(old, raw),
        new.extends(old),
    ensures
        event_of(new, raw, version) == event_of(old, raw, version),
{
    if raw.event_id == sys::MPV_EVENT_GET_PROPERTY_REPLY || raw.event_id
        == sys::MPV_EVENT_PROPERTY_CHANGE {
        if raw.data is property {
            let prop = raw.data->property_0;
            if property_valid(old, prop) && prop.format == sys::MPV_FORMAT_NODE && prop.data is Some {
                node::law_growth_keeps_values(old, new, prop.data->0->node_0);
            }
        }
    } else if raw.event_id == sys::MPV_EVENT_COMMAND_REPLY && raw.error >= 0 {
        node::law_growth_keeps_values(old, new, raw.data->command_0.result);
    } else if raw.event_id == sys::MPV_EVENT_CLIENT_MESSAGE {
        assert(event_of(new, raw, version)->0->ClientMessage_0 =~= event_of(
            old,
            raw,
            version,
        )->0->ClientMessage_0);
    }
}

/// Whether `p` refers to the C string of `t`, which has no NUL, or is null and
/// `t` is empty.
pub open spec fn points_to_text(mem: NodeStorage, p: Option<usize>, t: Seq<char>) -> bool {
    match p {
        Some(p) => p < mem.strings().len() && mem.strings()[p as int]@ == encode_utf8(t)
            && !t.contains('\0'),
        None => t.len() == 0,
    }
}

/// What a `char*` is read as: nothing for null, the very text whose C string it
/// points to, and for bytes that are no UTF-8 what the lossy conversion gives.
pub proof fn law_text_is_what_the_pointer_refers_to(
    mem: &NodeStorage,
    p: Option<usize>,
    t: Seq<char>,
    s: String,
)
    requires
        call_ensures(lossy, (mem, p), s),
    ensures
        points_to_text(*mem, p, t) ==> string_valid(*mem, p) && text_or_empty(*mem, p) == t && s@
            == t,
        s@ == text_or_empty(*mem, p),
        p is None ==> s@.len() == 0,
        p matches Some(p) ==> {
            let bytes = mem.strings()[p as int]@;
            &&& valid_utf8(bytes) ==> encode_utf8(s@) == bytes
            &&& !valid_utf8(bytes) ==> s@ == cstring::utf8_lossy(bytes)
        },
{
    lemma_text(*mem, p, t);
    if let Some(q) = p {
        if valid_utf8(mem.strings()[q as int]@) {
            decode_utf8_encode_utf8(mem.strings()[q as int]@);
        }
    }
}

/// A pointer to the C string of a text is read as that text.
proof fn lemma_text(mem: NodeStorage, p: Option<usize>, t: Seq<char>)
    ensures
        points_to_text(mem, p, t) ==> string_valid(mem, p) && text_or_empty(mem, p) == t,
{
    if points_to_text(mem, p, t) {
        if p is Some {
            cstring::law_c_string_round_trip(t);
        } else {
            assert(t =~= Seq::empty());
        }
    }
}

/// The event of a log message carries the three texts that the fields of the
/// raw message refer to, each under its own name, and its numeric level.
pub proof fn law_log_message_keeps_its_texts(
    mem: &NodeStorage,
    raw: &mpv_event,
    version: u64,
    msg: mpv_event_log_message,
    prefix: Seq<char>,
    level: Seq<char>,
    text: Seq<char>,
    event: Option<Event>,
)
    requires
        raw.event_id == 2,
        raw.data == mpv_event_data::log_message(msg),
        points_to_text(*mem, msg.prefix, prefix),
        points_to_text(*mem, msg.level, level),
        points_to_text(*mem, msg.text, text),
    ensures
        event_valid(*mem, *raw),
        event_of(*mem, *raw, version) == Some(
            EventView::LogMessage { prefix, level, text, log_level: msg.log_level },
        ),
        call_ensures(Event::from_raw, (mem, raw, version), event) ==> (event matches Some(
            Event::LogMessage(m),
        ) && m.prefix@ == prefix && m.level@ == level && m.text@ == text && m.log_level
            == msg.log_level),
{
    lemma_text(*mem, msg.prefix, prefix);
    lemma_text(*mem, msg.level, level);
    lemma_text(*mem, msg.text, text);
}

/// Each text of a log message is what the library reads for the pointer in the
/// field of the same name, whatever bytes it points to.
pub proof fn law_log_message_reads_its_own_fields(
    mem: &NodeStorage,
    raw: &mpv_event,
    version: u64,
    msg: mpv_event_log_message,
    m: LogMessage,
    prefix: String,
    level: String,
    text: String,
)
    requires
        raw.event_id == 2,
        raw.data == mpv_event_data::log_message(msg),
        call_ensures(Event::from_raw, (mem, raw, version), Some(Event::LogMessage(m))),
        call_ensures(lossy, (mem, msg.prefix), prefix),
        call_ensures(lossy, (mem, msg.level), level),
        call_ensures(lossy, (mem, msg.text), text),
    ensures
        string_valid(*mem, msg.prefix) && string_valid(*mem, msg.level) && string_valid(
            *mem,
            msg.text,
        ) ==> event_valid(*mem, *raw),
        m.prefix@ == prefix@,
        m.level@ == level@,
        m.text@ == text@,
{
}

/// A message to a client carries as many arguments as the raw message counts,
/// argument `i` being the text that the pointer at `i` refers to.
pub proof fn law_client_message_keeps_its_arguments(
    mem: &NodeStorage,
    raw: &mpv_event,
    version: u64,
    cm: mpv_event_client_message,
    texts: Seq<Seq<char>>,
    event: Option<Event>,
)
    requires
        raw.event_id == 16,
        raw.data == mpv_event_data::client_message(cm),
        cm.num_args == texts.len(),
        cm.args@.len() == texts.len(),
        forall|i: int|
            0 <= i < texts.len() ==> points_to_text(*mem, cm.args@[i], #[trigger] texts[i]),
    ensures
        event_valid(*mem, *raw),
        event_of(*mem, *raw, version) == Some(EventView::ClientMessage(texts)),
        call_ensures(Event::from_raw, (mem, raw, version), event) ==> (event matches Some(
            Event::ClientMessage(args),
        ) && args@.len() == texts.len() && forall|i: int|
            0 <= i < texts.len() ==> (#[trigger] args@[i])@ == texts[i]),
{
    assert forall|i: int| 0 <= i < texts.len() implies string_valid(*mem, #[trigger] cm.args@[i])
        && text_or_empty(*mem, cm.args@[i]) == texts[i] by {
        assert(points_to_text(*mem, cm.args@[i], texts[i]));
        lemma_text(*mem, cm.args@[i], texts[i]);
    }
    assert(event_of(*mem, *raw, version)->0->ClientMessage_0 =~= texts);
    if call_ensures(Event::from_raw, (mem, raw, version), event) {
        let args = event->0->ClientMessage_0;
        assert(event->0@ == EventView::ClientMessage(texts));
        assert forall|i: int| 0 <= i < texts.len() implies (#[trigger] args@[i])@ == texts[i] by {
            assert(args@.map_values(|arg: String| arg@)[i] == texts[i]);
        }
    }
}

/// A message to a client has no arguments for a count that is not positive,
/// and argument `i` is what the library reads for the pointer at `i`, whatever
/// bytes it points to and however many pointers follow.
pub proof fn law_client_message_reads_its_own_arguments(
    mem: NodeStorage,
    raw: mpv_event,
    version: u64,
    cm: mpv_event_client_message,
    i: int,
)
    requires
        raw.event_id == 16,
        raw.data == mpv_event_data::client_message(cm),
    ensures
        event_of(mem, raw, version) matches Some(EventView::ClientMessage(args)) && {
            &&& cm.num_args >= 0 ==> args.len() == cm.num_args
            &&& cm.num_args <= 0 ==> args.len() == 0
            &&& 0 <= i < cm.num_args ==> args[i] == text_or_empty(mem, cm.args@[i])
        },
        cm.num_args <= cm.args@.len() && (forall|j: int|
            0 <= j < cm.args@.len() ==> string_valid(mem, #[trigger] cm.args@[j])) ==> event_valid(
            mem,
            raw,
        ),
{
}

/// A hook event carries the name of the hook, the id to continue it with and
/// the number it was added with.
pub proof fn law_hook_keeps_its_fields(
    mem: &NodeStorage,
    raw: &mpv_event,
    version: u64,
    hook: mpv_event_hook,
    text: Seq<char>,
    event: Option<Event>,
)
    requires
        raw.event_id == 25,
        raw.data == mpv_event_data::hook(hook),
    ensures
        string_valid(*mem, hook.name) ==> event_valid(*mem, *raw),
        call_ensures(Event::from_raw, (mem, raw, version), event) ==> (event matches Some(
            Event::Hook { userdata, name, id },
        ) && userdata == raw.reply_userdata && id == hook.id && name@ == text_or_empty(
            *mem,
            hook.name,
        ) && (points_to_text(*mem, hook.name, text) ==> name@ == text)),
{
    lemma_text(*mem, hook.name, text);
}

/// The event of a changed property carries the number it was observed with,
/// its name, and the value that the property data shows.
pub proof fn law_property_change_keeps_its_fields(
    mem: &NodeStorage,
    raw: &mpv_event,
    version: u64,
    prop: mpv_event_property,
    text: Seq<char>,
    event: Option<Event>,
)
    requires
        raw.event_id == 22,
        raw.data == mpv_event_data::property(prop),
    ensures
        property_valid(*mem, prop) ==> event_valid(*mem, *raw),
        call_ensures(Event::from_raw, (mem, raw, version), event) ==> (event matches Some(
            Event::PropertyChange { userdata, name, data },
        ) && userdata == raw.reply_userdata && name@ == text_or_empty(*mem, prop.name) && (
        points_to_text(*mem, prop.name, text) ==> name@ == text) && data@ == property_data_of(
            *mem,
            prop,
        )),
{
    lemma_text(*mem, prop.name, text);
}

/// The reply to a property read carries the number of the request, and if it
/// succeeded the name of the property with the value that its data shows, else
/// the error with the code of the status.
pub proof fn law_property_reply_keeps_its_fields(
    mem: &NodeStorage,
    raw: &mpv_event,
    version: u64,
    prop: mpv_event_property,
    text: Seq<char>,
    event: Option<Event>,
)
    requires
        raw.event_id == 3,
        raw.error >= 0 ==> raw.data == mpv_event_data::property(prop),
    ensures
        raw.error < 0 || property_valid(*mem, prop) ==> event_valid(*mem, *raw),
        call_ensures(Event::from_raw, (mem, raw, version), event) ==> (event matches Some(
            Event::GetPropertyReply { userdata, result },
        ) && userdata == raw.reply_userdata && match result {
            Ok((name, data)) => raw.error >= 0 && name@ == text_or_empty(*mem, prop.name) && (
            points_to_text(*mem, prop.name, text) ==> name@ == text) && data@ == property_data_of(
                *mem,
                prop,
            ),
            Err(e) => raw.error < 0 && e.code() == Some(raw.error),
        }),
{
    lemma_text(*mem, prop.name, text);
    error::law_code_round_trip(raw.error);
}

/// The reply to a property write carries the number of the request and whether
/// it succeeded, and the reply to a command also the value that its result
/// reads as; a failure is the error with the code of the status.
pub proof fn law_replies_keep_their_fields(
    mem: &NodeStorage,
    raw: &mpv_event,
    version: u64,
    event: Option<Event>,
)
    requires
        call_ensures(Event::from_raw, (mem, raw, version), event),
    ensures
        raw.event_id == 4 ==> event_valid(*mem, *raw) && (event matches Some(
            Event::SetPropertyReply { userdata, result },
        ) && userdata == raw.reply_userdata && match result {
            Ok(_) => raw.error >= 0,
            Err(e) => raw.error < 0 && e.code() == Some(raw.error),
        }),
        raw.event_id == 5 ==> (event matches Some(Event::CommandReply { userdata, result })
            && userdata == raw.reply_userdata && match result {
            Ok(node) => raw.error >= 0 && (raw.data matches mpv_event_data::command(cmd) ==> node@
                == mem.read(cmd.result)),
            Err(e) => raw.error < 0 && e.code() == Some(raw.error),
        }),
        raw.event_id == 5 && raw.error < 0 ==> event_valid(*mem, *raw),
        raw.event_id == 5 && (raw.data matches mpv_event_data::command(cmd) && mem.valid(
            cmd.result,
        )) ==> event_valid(*mem, *raw),
{
    error::law_code_round_trip(raw.error);
}

/// The event of a file's start carries the id of its playlist entry, `0` where
/// libmpv gave no data.
pub proof fn law_start_file_keeps_its_entry(
    mem: &NodeStorage,
    raw: &mpv_event,
    version: u64,
    event: Option<Event>,
)
    requires
        raw.event_id == 6,
        call_ensures(Event::from_raw, (mem, raw, version), event),
    ensures
        raw.data is null || raw.data is start_file ==> event_valid(*mem, *raw),
        event matches Some(Event::StartFile { playlist_entry_id }) && {
            &&& raw.data is null ==> playlist_entry_id == 0
            &&& raw.data matches mpv_event_data::start_file(sf) ==> playlist_entry_id
                == sf.playlist_entry_id
        },
{
}

/// The event of a file's end carries the reason with the number that libmpv
/// gave, an error exactly for a negative error code, with that code, and from
/// the client API 1.108 on each of the three playlist numbers in the field of
/// the same name.
pub proof fn law_end_file_keeps_its_fields(
    mem: &NodeStorage,
    raw: &mpv_event,
    version: u64,
    ef: mpv_event_end_file,
    event: Option<Event>,
)
    requires
        raw.event_id == 7,
        raw.data == mpv_event_data::end_file(ef),
    ensures
        event_valid(*mem, *raw),
        call_ensures(Event::from_raw, (mem, raw, version), event) ==> (event matches Some(
            Event::EndFile {
                reason,
                error,
                playlist_entry_id,
                playlist_insert_id,
                playlist_insert_num_entries,
            },
        ) && {
            &&& reason.code() == ef.reason
            &&& reason == EndFileReason::of_code(ef.reason)
            &&& error is Some <==> ef.error < 0
            &&& error matches Some(e) ==> e.code() == Some(ef.error)
            &&& version >= 65536 + 108 ==> playlist_entry_id == ef.playlist_entry_id
                && playlist_insert_id == ef.playlist_insert_id && playlist_insert_num_entries
                == ef.playlist_insert_num_entries
            &&& version < 65536 + 108 ==> playlist_entry_id == 0 && playlist_insert_id == 0
                && playlist_insert_num_entries == 0
        }),
{
    error::law_code_round_trip(ef.error);
    sys::law_version_is_major_and_minor(1, 108);
}

/// A libmpv has the fields added in 1.108 exactly from that version on,
/// whatever its minor version.
pub proof fn law_api_1_108_is_the_first(major: u64, minor: u64, version: u64, has: bool)
    requires
        major < 0x1_0000_0000_0000,
        minor < 0x1_0000,
        version == major * 0x1_0000 + minor,
        call_ensures(has_api_1_108, (version,), has),
    ensures
        has <==> major > 1 || (major == 1 && minor >= 108),
{
    sys::law_version_is_major_and_minor(1, 108);
}

/// What each of the events is that carry no data, by the number libmpv gives
/// it, and which numbers are events that are not known.
pub proof fn law_events_by_number(
    mem: &NodeStorage,
    raw: &mpv_event,
    version: u64,
    event: Option<Event>,
)
    requires
        call_ensures(Event::from_raw, (mem, raw, version), event),
    ensures
        event is None <==> raw.event_id == 0,
        event matches Some(event) ==> {
            &&& event is Shutdown <==> raw.event_id == 1
            &&& event is LogMessage <==> raw.event_id == 2
            &&& event is GetPropertyReply <==> raw.event_id == 3
            &&& event is SetPropertyReply <==> raw.event_id == 4
            &&& event is CommandReply <==> raw.event_id == 5
            &&& event is StartFile <==> raw.event_id == 6
            &&& event is EndFile <==> raw.event_id == 7
            &&& event is FileLoaded <==> raw.event_id == 8
            &&& event is ClientMessage <==> raw.event_id == 16
            &&& event is VideoReconfig <==> raw.event_id == 17
            &&& event is AudioReconfig <==> raw.event_id == 18
            &&& event is Seek <==> raw.event_id == 20
            &&& event is PlaybackRestart <==> raw.event_id == 21
            &&& event is PropertyChange <==> raw.event_id == 22
            &&& event is QueueOverflow <==> raw.event_id == 24
            &&& event is Hook <==> raw.event_id == 25
            &&& event matches Event::Unknown(id) ==> id == raw.event_id
        },
        !(2 <= raw.event_id <= 7) && raw.event_id != 16 && raw.event_id != 22 && raw.event_id != 25
            ==> event_valid(*mem, *raw),
{
}

/// Which reason each number of the client API stands for; every other number
/// is kept.
pub proof fn law_reasons_by_number(raw: mpv_end_file_reason, reason: EndFileReason)
    requires
        call_ensures(EndFileReason::from_raw, (raw,), reason),
    ensures
        reason == EndFileReason::of_code(raw),
        raw == 0 <==> reason is Eof,
        raw == 2 <==> reason is Stop,
        raw == 3 <==> reason is Quit,
        raw == 4 <==> reason is Error,
        raw == 5 <==> reason is Redirect,
        reason matches EndFileReason::Unknown(n) ==> n == raw,
{
}

/// The value in a property event is what libmpv wrote, for every value of its
/// format: each integer as itself, each double with its bits, a flag as whether
/// it is not `0`, a text as the text that the pointer refers to, and a node as
/// the value that it reads as.
pub proof fn law_property_event_shows_what_was_written(
    mem: &NodeStorage,
    prop: &mpv_event_property,
    text: Seq<char>,
    data: PropertyData,
)
    requires
        call_ensures(property_data, (mem, prop), data),
    ensures
        forall|n: i64|
            prop.format == 4 && prop.data == Some(mpv_property_value::int64(n)) ==> data
                == PropertyData::Int64(n) && property_data_of(*mem, *prop)
                == PropertyDataView::Int64(n),
        forall|d: Double|
            prop.format == 5 && prop.data == Some(mpv_property_value::double_(d)) ==> data
                == PropertyData::Double(d) && property_data_of(*mem, *prop)
                == PropertyDataView::Double(d),
        forall|n: i32|
            prop.format == 3 && prop.data == Some(mpv_property_value::flag(n)) ==> data
                == PropertyData::Flag(n != 0) && #[trigger] property_data_of(*mem, *prop)
                == PropertyDataView::Flag(n != 0),
        forall|p: Option<usize>|
            prop.format == 1 && prop.data == Some(mpv_property_value::string(p))
                ==> property_data_of(*mem, *prop) == data@ && (data matches PropertyData::String(s)
                && s@ == text_or_empty(*mem, p) && (points_to_text(*mem, p, text) ==> s@ == text)),
        forall|p: Option<usize>|
            prop.format == 2 && prop.data == Some(mpv_property_value::string(p))
                ==> property_data_of(*mem, *prop) == data@ && (
            data matches PropertyData::OsdString(s) && s@ == text_or_empty(*mem, p) && (
            points_to_text(*mem, p, text) ==> s@ == text)),
        forall|raw: mpv_node|
            prop.format == 6 && prop.data == Some(mpv_property_value::node(raw))
                ==> property_data_of(*mem, *prop) == data@ && (data matches PropertyData::Node(node)
                && node@ == mem.read(raw)),
        prop.data is None || prop.format < 1 || prop.format > 6 ==> data is Empty
            && property_data_of(*mem, *prop) is Empty,
{
    assert forall|p: Option<usize>|
        prop.data == Some(mpv_property_value::string(p)) && points_to_text(
            *mem,
            p,
            text,
        ) implies text_or_empty(*mem, p) == text by {
        lemma_text(*mem, p, text);
    }
}

/// Property data is valid with the kind of value of its format, where what it
/// refers to is in memory, and without a value; the name may be null.
pub proof fn law_property_data_that_is_valid(mem: NodeStorage, prop: mpv_event_property)
    requires
        prop.name matches Some(p) ==> p < mem.strings().len(),
        match prop.data {
            None => true,
            Some(mpv_property_value::string(p)) => (prop.format == 1 || prop.format == 2) && (
            p matches Some(p) ==> p < mem.strings().len()),
            Some(mpv_property_value::flag(_)) => prop.format == 3,
            Some(mpv_property_value::int64(_)) => prop.format == 4,
            Some(mpv_property_value::double_(_)) => prop.format == 5,
            Some(mpv_property_value::node(raw)) => prop.format == 6 && mem.valid(raw),
        },
    ensures
        property_valid(mem, prop),
{
}

/// What a property read finds in its out-argument is what an event shows for
/// the same format and data: the two ways to learn a value agree, for every
/// type that a property can be read as.
pub proof fn law_events_agree_with_reads(
    mem: &NodeStorage,
    out: &mpv_property_value,
    prop: &mpv_event_property,
    data: PropertyData,
)
    requires
        prop.data == Some(*out),
        call_ensures(property_data, (mem, prop), data),
    ensures
        forall|v: bool|
            prop.format == 3 && out is flag && #[trigger] v.shown_by(*mem, *out) ==> data
                == PropertyData::Flag(v),
        forall|v: i64|
            prop.format == 4 && out is int64 && #[trigger] v.shown_by(*mem, *out) ==> data
                == PropertyData::Int64(v),
        forall|v: Double|
            prop.format == 5 && out is double_ && #[trigger] v.shown_by(*mem, *out) ==> data
                == PropertyData::Double(v),
        forall|v: String|
            prop.format == 1 && (out matches mpv_property_value::string(p) && p is Some)
                && #[trigger] v.shown_by(*mem, *out) ==> (data matches PropertyData::String(s) && s@
                == v@),
        forall|v: Node|
            prop.format == 6 && out is node && #[trigger] v.shown_by(*mem, *out) ==> (
            data matches PropertyData::Node(node) && node@ == v@),
        forall|done: Finished<bool>, code: i32|
            prop.format == 3 && out is flag && code >= 0 && #[trigger]
                call_ensures(<bool as GetProperty>::get_from, (code, mem, out), done) ==> (
            done.result matches Ok(v) && data == PropertyData::Flag(v)),
        forall|done: Finished<i64>, code: i32|
            prop.format == 4 && out is int64 && code >= 0 && #[trigger]
                call_ensures(<i64 as GetProperty>::get_from, (code, mem, out), done) ==> (
            done.result matches Ok(v) && data == PropertyData::Int64(v)),
        forall|done: Finished<Double>, code: i32|
            prop.format == 5 && out is double_ && code >= 0 && #[trigger]
                call_ensures(<Double as GetProperty>::get_from, (code, mem, out), done) ==> (
            done.result matches Ok(v) && data == PropertyData::Double(v)),
        forall|done: Finished<String>, code: i32|
            prop.format == 1 && (out matches mpv_property_value::string(p) && p is Some) && code
                >= 0 && #[trigger]
                call_ensures(<String as GetProperty>::get_from, (code, mem, out), done) ==> (
            done.result matches Ok(v) && (data matches PropertyData::String(s) && s@ == v@)),
        forall|done: Finished<Node>, code: i32|
            prop.format == 6 && out is node && code >= 0 && #[trigger]
                call_ensures(<Node as GetProperty>::get_from, (code, mem, out), done) ==> (
            done.result matches Ok(v) && (data matches PropertyData::Node(node) && node@ == v@)),
{
}

/// The value of property data is what it holds, under its own format.
pub proof fn law_property_data_keeps_contents(data: PropertyData)
    ensures
        match data {
            PropertyData::Empty => data@ is Empty,
            PropertyData::String(s) => data@ == PropertyDataView::String(s@),
            PropertyData::OsdString(s) => data@ == PropertyDataView::OsdString(s@),
            PropertyData::Flag(v) => data@ == PropertyDataView::Flag(v),
            PropertyData::Int64(n) => data@ == PropertyDataView::Int64(n),
            PropertyData::Double(d) => data@ == PropertyDataView::Double(d),
            PropertyData::Node(node) => data@ == PropertyDataView::Node(node@),
        },
{
}

/// Property values are equal only in the same format; then `==` compares
/// doubles as numbers, nodes as values, and everything else as it is. A copy
/// has the value of the original.
pub proof fn law_property_data_equality(
    a: &PropertyData,
    b: &PropertyData,
    same: bool,
    copy: PropertyData,
)
    ensures
        call_ensures(<PropertyData as PartialEq>::eq, (a, b), same) ==> same == same_data(a@, b@),
        call_ensures(<PropertyData as Clone>::clone, (a,), copy) ==> copy@ == a@,
        same_data(a@, b@) <==> same_data(b@, a@),
        a@ is Double || b@ is Double || a@ is Node || b@ is Node || (same_data(a@, b@) <==> a@
            == b@),
        a@ matches PropertyDataView::Double(x) ==> (same_data(a@, b@) <==> (
        b@ matches PropertyDataView::Double(y) && x.same_number(y))),
        a@ matches PropertyDataView::Node(x) ==> (same_data(a@, b@) <==> (
        b@ matches PropertyDataView::Node(y) && node::same_value(x, y))),
{
    if let (PropertyDataView::Node(x), PropertyDataView::Node(y)) = (a@, b@) {
        node::law_equality_is_symmetric(x, y);
    }
    if let (PropertyDataView::Double(x), PropertyDataView::Double(y)) = (a@, b@) {
        sys::law_numbers_equal(x, y);
    }
}

/// A copy of an event, or of a log message, holds in each field what the
/// original holds there.
pub proof fn law_event_copies_are_equal(
    event: &Event,
    copy: Event,
    message: &LogMessage,
    message_copy: LogMessage,
)
    ensures
        call_ensures(<LogMessage as Clone>::clone, (message,), message_copy)
            ==> message_copy.prefix@ == message.prefix@ && message_copy.level@ == message.level@ && message_copy.text@
            == message.text@ && message_copy.log_level == message.log_level,
        call_ensures(<Event as Clone>::clone, (event,), copy) ==> match (*event, copy) {
            (Event::LogMessage(m), Event::LogMessage(c)) => m.prefix@ == c.prefix@ && m.level@
                == c.level@ && m.text@ == c.text@ && m.log_level == c.log_level,
            (
                Event::GetPropertyReply { userdata, result },
                Event::GetPropertyReply { userdata: u, result: r },
            ) => userdata == u && match (result, r) {
                (Ok((name, data)), Ok((n, d))) => name@ == n@ && data@ == d@,
                (Err(e), Err(f)) => e == f,
                _ => false,
            },
            (
                Event::CommandReply { userdata, result },
                Event::CommandReply { userdata: u, result: r },
            ) => userdata == u && match (result, r) {
                (Ok(node), Ok(n)) => node@ == n@,
                (Err(e), Err(f)) => e == f,
                _ => false,
            },
            (Event::ClientMessage(args), Event::ClientMessage(a)) => args@.len() == a@.len()
                && forall|i: int| 0 <= i < args@.len() ==> (#[trigger] args@[i])@ == a@[i]@,
            (
                Event::PropertyChange { userdata, name, data },
                Event::PropertyChange { userdata: u, name: n, data: d },
            ) => userdata == u && name@ == n@ && data@ == d@,
            (Event::Hook { userdata, name, id }, Event::Hook { userdata: u, name: n, id: i }) =>
                userdata == u && name@ == n@ && id == i,
            _ => copy == *event,
        },
{
    if call_ensures(<Event as Clone>::clone, (event,), copy) {
        if let (Event::ClientMessage(args), Event::ClientMessage(a)) = (*event, copy) {
            let texts = args@.map_values(|arg: String| arg@);
            let copies = a@.map_values(|arg: String| arg@);
            assert(texts == copies);
            assert(texts.len() == args@.len() && copies.len() == a@.len());
            assert forall|i: int| 0 <= i < args@.len() implies (#[trigger] args@[i])@ == a@[i]@ by {
                assert(texts[i] == args@[i]@);
                assert(copies[i] == a@[i]@);
            }
        }
    }
}

/// Every event that is valid can be decoded, and so can every property value
/// and every pointer to a string.
pub proof fn law_what_is_valid_is_decoded(
    mem: &NodeStorage,
    raw: &mpv_event,
    version: u64,
    prop: &mpv_event_property,
    p: Option<usize>,
    number: i32,
)
    ensures
        mem.wf() && event_valid(*mem, *raw) ==> call_requires(
            Event::from_raw,
            (mem, raw, version),
        ),
        mem.wf() && property_valid(*mem, *prop) ==> call_requires(property_data, (mem, prop)),
        string_valid(*mem, p) ==> call_requires(lossy, (mem, p)),
        string_valid(*mem, p) <==> p is None || p->0 < mem.strings().len(),
        call_requires(EndFileReason::from_raw, (number,)),
        call_requires(has_api_1_108, (version,)),
{
}

} // verus!
