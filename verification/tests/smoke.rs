//! The operations of a player, performed on a core that lives in memory.

use std::collections::VecDeque;

use rsmpv::call::{Call, Cleanup, NodeArg, PropertyArg};
use rsmpv::client::{command_result, osd_string, removed};
use rsmpv::cstring::{CArgs, CString};
use rsmpv::error::status;
use rsmpv::node::NodeStorage;
use rsmpv::sys;
use rsmpv::sys::{
    mpv_event, mpv_event_command, mpv_event_data, mpv_event_property, mpv_handle, mpv_node,
    mpv_node_u, mpv_property_value, Double,
};
use rsmpv::{
    client_api_version, Error, Event, Format, GetProperty, Node, PropertyData, Reply, SetProperty,
};

// These tests set no wakeup callbacks and register no protocols.
type Handle = rsmpv::Handle<()>;
type Mpv = rsmpv::Mpv<(), ()>;
type Startup = rsmpv::Startup<(), ()>;

fn double(v: f64) -> Double {
    Double { bits: v.to_bits() }
}

fn number(v: Double) -> f64 {
    f64::from_bits(v.bits)
}

/// What a call on the core returned.
enum Returned {
    Nothing,
    Code(i32),
    Handle(mpv_handle),
    Number(i64),
    Text(Option<CString>),
    Value(i32, NodeStorage, mpv_property_value),
    Tree(i32, NodeStorage, mpv_node),
    Event(NodeStorage, mpv_event),
}

const EMPTY: mpv_node = mpv_node {
    u: mpv_node_u::int64(0),
    format: sys::MPV_FORMAT_NONE,
};

/// A core with properties, an event queue, and clients.
struct Core {
    properties: Vec<(String, Node)>,
    observed: Vec<(u64, String, i32)>,
    queue: VecDeque<(NodeStorage, mpv_event)>,
    handles: Vec<(usize, String)>,
    initialized: bool,
}

fn c(s: &str) -> CString {
    CString::new(s.as_bytes().to_vec()).unwrap()
}

impl Core {
    fn new() -> Core {
        let info = Node::NodeMap(vec![
            ("type".to_string(), Node::from("Double")),
            ("name".to_string(), Node::from("volume")),
        ]);
        Core {
            properties: vec![
                ("mpv-version".to_string(), Node::from("mpv 0.40.0")),
                ("pause".to_string(), Node::Flag(false)),
                ("volume".to_string(), Node::Double(double(100.0))),
                ("osd-level".to_string(), Node::Int64(1)),
                ("speed".to_string(), Node::Double(double(1.0))),
                ("vo".to_string(), Node::from("")),
                ("ao".to_string(), Node::from("")),
                ("option-info/volume".to_string(), info),
            ],
            observed: Vec::new(),
            queue: VecDeque::new(),
            handles: Vec::new(),
            initialized: false,
        }
    }

    fn connect(&mut self, name: String) -> mpv_handle {
        let addr = 0x1000 + 0x10 * self.handles.len();
        self.handles.push((addr, name));
        mpv_handle { addr }
    }

    fn find(&self, name: &str) -> Option<&Node> {
        self.properties.iter().find(|(n, _)| n == name).map(|(_, v)| v)
    }

    /// The value of a property in a format, as the out-argument of a read.
    fn read(&self, name: &str, format: i32) -> (i32, NodeStorage, mpv_property_value) {
        let nothing = mpv_property_value::int64(0);
        let value = match self.find(name) {
            Some(value) => value,
            None => {
                return (sys::MPV_ERROR_PROPERTY_NOT_FOUND, NodeStorage::new(), nothing);
            }
        };
        let mut mem = NodeStorage::new();
        let out = match (format, value) {
            (sys::MPV_FORMAT_FLAG, Node::Flag(v)) => mpv_property_value::flag(*v as i32),
            (sys::MPV_FORMAT_INT64, Node::Int64(v)) => mpv_property_value::int64(*v),
            (sys::MPV_FORMAT_DOUBLE, Node::Double(v)) => mpv_property_value::double_(*v),
            (sys::MPV_FORMAT_STRING, Node::String(s)) => {
                mpv_property_value::string(Some(mem.push_string(c(s))))
            }
            (sys::MPV_FORMAT_NODE, node) => mpv_property_value::node(mem.build(node).unwrap()),
            _ => return (sys::MPV_ERROR_PROPERTY_FORMAT, mem, nothing),
        };
        (0, mem, out)
    }

    fn write(&mut self, name: &str, value: Node) -> i32 {
        let old = match self.properties.iter_mut().find(|(n, _)| n == name) {
            Some((_, old)) => old,
            None => return sys::MPV_ERROR_PROPERTY_NOT_FOUND,
        };
        let value = match (&*old, value) {
            (Node::Double(_), Node::String(s)) => match s.parse::<f64>() {
                Ok(v) => Node::Double(double(v)),
                Err(_) => return sys::MPV_ERROR_PROPERTY_ERROR,
            },
            (_, value) => value,
        };
        *old = value;
        let observed = self.observed.clone();
        for (userdata, observed_name, format) in observed {
            if observed_name == name {
                self.notify(userdata, name, format);
            }
        }
        0
    }

    fn property_event(&mut self, id: i32, userdata: u64, name: &str, format: i32) {
        let (error, mut mem, out) = self.read(name, format);
        let name = mem.push_string(c(name));
        let data = mpv_event_data::property(mpv_event_property {
            name: Some(name),
            format,
            data: Some(out),
        });
        self.queue.push_back((mem, mpv_event { event_id: id, error, reply_userdata: userdata, data }));
    }

    fn notify(&mut self, userdata: u64, name: &str, format: i32) {
        self.property_event(sys::MPV_EVENT_PROPERTY_CHANGE, userdata, name, format);
    }

    fn expand(&self, text: &str) -> String {
        match self.find("volume") {
            Some(Node::Double(v)) => text.replace("${volume}", &format!("{}", number(*v))),
            _ => text.to_string(),
        }
    }

    fn run(&mut self, args: Vec<String>) -> (i32, NodeArg) {
        let result = match args.first().map(|a| a.as_str()) {
            Some("expand-text") => Node::String(self.expand(&args[1])),
            Some("loadfile") => Node::Empty,
            _ => return (sys::MPV_ERROR_COMMAND, NodeArg::new(&Node::Empty).unwrap()),
        };
        (0, NodeArg::new(&result).unwrap())
    }

    fn perform(&mut self, call: Call) -> Returned {
        match call {
            Call::Create => Returned::Handle(self.connect("main".to_string())),
            Call::Initialize { ctx } => {
                assert_eq!(ctx.addr, self.handles[0].0);
                self.initialized = true;
                Returned::Code(0)
            }
            Call::TerminateDestroy { ctx } => {
                assert_eq!(ctx.addr, self.handles[0].0);
                self.handles.clear();
                Returned::Nothing
            }
            Call::Destroy { ctx } => {
                let before = self.handles.len();
                self.handles.retain(|(addr, _)| *addr != ctx.addr);
                assert_eq!(self.handles.len(), before - 1);
                Returned::Nothing
            }
            Call::CreateClient { name, .. } | Call::CreateWeakClient { name, .. } => {
                let name = match name {
                    Some(name) => name.to_string_lossy(),
                    None => format!("client{}", self.handles.len()),
                };
                Returned::Handle(self.connect(name))
            }
            Call::ClientName { ctx } => {
                let (_, name) = self.handles.iter().find(|(a, _)| *a == ctx.addr).unwrap();
                Returned::Text(Some(c(name)))
            }
            Call::ClientId { ctx } => Returned::Number(ctx.addr as i64),
            Call::GetProperty { name, format, .. } => {
                let (code, mem, out) = self.read(&name.to_string_lossy(), format);
                Returned::Value(code, mem, out)
            }
            Call::GetPropertyOsdString { name, .. } => {
                Returned::Text(match self.find(&name.to_string_lossy()) {
                    Some(Node::Double(v)) => Some(c(&format!("{}%", number(*v)))),
                    _ => None,
                })
            }
            Call::SetPropertyString { name, data, .. } => {
                Returned::Code(self.write(&name.to_string_lossy(), Node::String(data.to_string_lossy())))
            }
            Call::SetProperty { name, format, data, .. } => {
                Returned::Code(self.write(&name.to_string_lossy(), written(format, data)))
            }
            Call::SetPropertyAsync { userdata, name, format, data, .. } => {
                let error = self.write(&name.to_string_lossy(), written(format, data));
                self.queue.push_back((
                    NodeStorage::new(),
                    mpv_event {
                        event_id: sys::MPV_EVENT_SET_PROPERTY_REPLY,
                        error,
                        reply_userdata: userdata,
                        data: mpv_event_data::null,
                    },
                ));
                Returned::Code(0)
            }
            Call::GetPropertyAsync { userdata, name, format, .. } => {
                let name = name.to_string_lossy();
                self.property_event(sys::MPV_EVENT_GET_PROPERTY_REPLY, userdata, &name, format);
                Returned::Code(0)
            }
            Call::ObserveProperty { userdata, name, format, .. } => {
                let name = name.to_string_lossy();
                self.notify(userdata, &name, format);
                self.observed.push((userdata, name, format));
                Returned::Code(0)
            }
            Call::UnobserveProperty { userdata, .. } => {
                let before = self.observed.len();
                self.observed.retain(|(u, _, _)| *u != userdata);
                Returned::Code((before - self.observed.len()) as i32)
            }
            Call::Command { args, .. } => Returned::Code(self.run(argv(&args)).0),
            Call::CommandRet { args, .. } => {
                let (code, result) = self.run(argv(&args));
                Returned::Tree(code, result.storage, result.root)
            }
            Call::CommandNode { args, .. } => {
                let (code, result) = self.run(strings(Node::from_raw(&args.storage, &args.root)));
                Returned::Tree(code, result.storage, result.root)
            }
            Call::CommandAsync { userdata, args, .. } => {
                let (error, result) = self.run(argv(&args));
                self.queue.push_back((
                    result.storage,
                    mpv_event {
                        event_id: sys::MPV_EVENT_COMMAND_REPLY,
                        error,
                        reply_userdata: userdata,
                        data: mpv_event_data::command(mpv_event_command { result: result.root }),
                    },
                ));
                Returned::Code(0)
            }
            Call::WaitEvent { .. } => match self.queue.pop_front() {
                Some((mem, event)) => Returned::Event(mem, event),
                None => Returned::Event(
                    NodeStorage::new(),
                    mpv_event {
                        event_id: sys::MPV_EVENT_NONE,
                        error: 0,
                        reply_userdata: 0,
                        data: mpv_event_data::null,
                    },
                ),
            },
            _ => panic!("not a call of these tests"),
        }
    }
}

/// The value that a property write passes.
fn written(format: i32, data: PropertyArg) -> Node {
    match (format, data) {
        (sys::MPV_FORMAT_FLAG, PropertyArg::Flag(v)) => Node::Flag(v != 0),
        (sys::MPV_FORMAT_INT64, PropertyArg::Int64(v)) => Node::Int64(v),
        (sys::MPV_FORMAT_DOUBLE, PropertyArg::Double(v)) => Node::Double(v),
        (sys::MPV_FORMAT_NODE, PropertyArg::Node(arg)) => Node::from_raw(&arg.storage, &arg.root),
        _ => panic!("format and data differ"),
    }
}

/// The arguments that a null-terminated vector points to.
fn argv(args: &CArgs) -> Vec<String> {
    let mut strings = Vec::new();
    for ptr in &args.ptrs {
        match ptr {
            Some(i) => strings.push(args.owned[*i].to_string_lossy()),
            None => return strings,
        }
    }
    panic!("no null pointer at the end");
}

fn strings(node: Node) -> Vec<String> {
    match node {
        Node::Array(items) => items
            .into_iter()
            .map(|item| match item {
                Node::String(s) => s,
                other => panic!("expected string, got {other:?}"),
            })
            .collect(),
        other => panic!("expected array, got {other:?}"),
    }
}

/// A player and the core that performs its calls.
struct Player {
    core: Core,
    mpv: Mpv,
}

fn drive(core: &mut Core, mut start: Startup) -> Startup {
    while let Some(call) = start.call() {
        let reply = match core.perform(call) {
            Returned::Handle(raw) => Reply::Handle(raw),
            Returned::Code(code) => Reply::Code(code),
            _ => Reply::Nothing,
        };
        start = start.resume(reply);
    }
    start
}

fn set(core: &mut Core, handle: &Handle, name: &str, value: impl SetProperty) -> rsmpv::Result<()> {
    match core.perform(handle.set_property(name, value)?) {
        Returned::Code(code) => status(code),
        _ => unreachable!(),
    }
}

fn get<T: GetProperty>(core: &mut Core, handle: &Handle, name: &str) -> rsmpv::Result<T> {
    match core.perform(handle.get_property::<T>(name)?) {
        Returned::Value(code, mem, out) => T::get_from(code, &mem, &out).result,
        _ => unreachable!(),
    }
}

fn poll(core: &mut Core, handle: &Handle) -> Option<Event> {
    match core.perform(handle.poll_event()) {
        Returned::Event(mem, raw) => Event::from_raw(&mem, &raw, sys::MPV_CLIENT_API_VERSION),
        _ => unreachable!(),
    }
}

fn done(returned: Returned) {
    match returned {
        Returned::Code(code) => status(code).unwrap(),
        _ => unreachable!(),
    }
}

fn headless() -> Player {
    let mut core = Core::new();
    let builder = match drive(&mut core, Mpv::builder()) {
        Startup::Created(builder) => builder,
        other => panic!("{other:?}"),
    };
    for name in ["vo", "ao"] {
        let call = builder.set_property(name, "null").unwrap();
        done(core.perform(call));
    }
    assert!(!core.initialized);
    match drive(&mut core, builder.build()) {
        Startup::Running(mpv) => {
            assert!(core.initialized);
            Player { core, mpv }
        }
        other => panic!("{other:?}"),
    }
}

impl Player {
    fn set(&mut self, name: &str, value: impl SetProperty) -> rsmpv::Result<()> {
        set(&mut self.core, &self.mpv, name, value)
    }

    fn get<T: GetProperty>(&mut self, name: &str) -> rsmpv::Result<T> {
        get(&mut self.core, &self.mpv, name)
    }

    fn wait_for<T>(&mut self, mut f: impl FnMut(Event) -> Option<T>) -> T {
        while let Some(event) = poll(&mut self.core, &self.mpv) {
            if let Some(out) = f(event) {
                return out;
            }
        }
        panic!("no such event");
    }
}

#[test]
fn version_and_client_identity() {
    let (major, _minor) = client_api_version(sys::MPV_CLIENT_API_VERSION);
    assert!(major >= 1);

    let mut player = headless();
    let call = player.mpv.client_name();
    match player.core.perform(call) {
        Returned::Text(Some(name)) => assert!(!name.to_string_lossy().is_empty()),
        _ => unreachable!(),
    }
    let call = player.mpv.client_id();
    match player.core.perform(call) {
        Returned::Number(id) => assert!(id > 0),
        _ => unreachable!(),
    }
    let version: String = player.get("mpv-version").unwrap();
    assert!(version.starts_with("mpv"), "version: {version}");
}

#[test]
fn typed_property_round_trips() {
    let mut mpv = headless();

    mpv.set("pause", true).unwrap();
    assert!(mpv.get::<bool>("pause").unwrap());

    mpv.set("volume", double(42.5)).unwrap();
    assert_eq!(number(mpv.get::<Double>("volume").unwrap()), 42.5);

    mpv.set("osd-level", 3i64).unwrap();
    assert_eq!(mpv.get::<i64>("osd-level").unwrap(), 3);

    mpv.set("speed", "1.5").unwrap();
    assert_eq!(number(mpv.get::<Double>("speed").unwrap()), 1.5);

    let err = mpv.get::<i64>("this-property-does-not-exist");
    assert_eq!(err.unwrap_err(), Error::PropertyNotFound);

    let call = mpv.mpv.get_property_osd_string("volume").unwrap();
    match mpv.core.perform(call) {
        Returned::Text(text) => {
            let osd = osd_string(text.as_ref());
            assert!(!osd.result.unwrap().is_empty());
            assert_eq!(osd.cleanup, Cleanup::Free);
        }
        _ => unreachable!(),
    }
}

#[test]
fn node_properties_and_commands() {
    let mut mpv = headless();

    // Structured read of a map-valued property.
    match mpv.get::<Node>("option-info/volume").unwrap() {
        Node::NodeMap(entries) => assert!(entries.iter().any(|(k, _)| k == "name")),
        other => panic!("expected map, got {other:?}"),
    }

    // Structured write.
    mpv.set("volume", Node::Double(double(31.0))).unwrap();
    assert_eq!(number(mpv.get::<Double>("volume").unwrap()), 31.0);

    // Command with a structured return value.
    let call = mpv
        .mpv
        .command_node(&Node::Array(vec![
            Node::from("expand-text"),
            Node::from("vol=${volume}"),
        ]))
        .unwrap();
    match mpv.core.perform(call) {
        Returned::Tree(code, mem, root) => {
            let done = command_result(code, &mem, &root);
            assert_eq!(done.result.unwrap(), Node::String("vol=31".into()));
            assert_eq!(done.cleanup, Cleanup::FreeNodeContents);
        }
        _ => unreachable!(),
    }

    // Same command through the string-argv path.
    let call = mpv.mpv.command_ret(&["expand-text", "x${volume}"]).unwrap();
    match mpv.core.perform(call) {
        Returned::Tree(code, mem, root) => {
            let done = command_result(code, &mem, &root);
            assert_eq!(done.result.unwrap(), Node::String("x31".into()));
        }
        _ => unreachable!(),
    }
}

#[test]
fn failed_command_has_no_result() {
    let mut mpv = headless();
    let call = mpv.mpv.command_ret(&["no-such-command"]).unwrap();
    match mpv.core.perform(call) {
        Returned::Tree(code, mem, _) => {
            let done = command_result(code, &mem, &EMPTY);
            assert_eq!(done.result.unwrap_err(), Error::Command);
            assert_eq!(done.cleanup, Cleanup::Nothing);
        }
        _ => unreachable!(),
    }
}

#[test]
fn observe_property_delivers_changes() {
    let mut mpv = headless();
    let call = mpv.mpv.observe_property(7, "volume", Format::Double).unwrap();
    done(mpv.core.perform(call));

    // Initial notification.
    let initial = mpv.wait_for(|ev| match ev {
        Event::PropertyChange {
            userdata: 7,
            name,
            data: PropertyData::Double(v),
        } if name == "volume" => Some(number(v)),
        _ => None,
    });
    assert_eq!(initial, 100.0);

    mpv.set("volume", double(55.0)).unwrap();
    let changed = mpv.wait_for(|ev| match ev {
        Event::PropertyChange {
            userdata: 7,
            data: PropertyData::Double(v),
            ..
        } if number(v) != 100.0 => Some(number(v)),
        _ => None,
    });
    assert_eq!(changed, 55.0);

    let call = mpv.mpv.unobserve_property(7);
    match mpv.core.perform(call) {
        Returned::Code(code) => assert_eq!(removed(code).unwrap(), 1),
        _ => unreachable!(),
    }
}

#[test]
fn async_property_and_command_replies() {
    let mut mpv = headless();

    let call = mpv.mpv.get_property_async::<Double>(11, "volume").unwrap();
    done(mpv.core.perform(call));
    let (name, data) = mpv.wait_for(|ev| match ev {
        Event::GetPropertyReply {
            userdata: 11,
            result,
        } => Some(result.unwrap()),
        _ => None,
    });
    assert_eq!(name, "volume");
    assert_eq!(data, PropertyData::Double(double(100.0)));

    let call = mpv.mpv.set_property_async(12, "volume", double(60.0)).unwrap();
    done(mpv.core.perform(call));
    mpv.wait_for(|ev| match ev {
        Event::SetPropertyReply {
            userdata: 12,
            result,
        } => {
            result.unwrap();
            Some(())
        }
        _ => None,
    });
    assert_eq!(number(mpv.get::<Double>("volume").unwrap()), 60.0);

    let call = mpv.mpv.command_async(13, &["expand-text", "ok"]).unwrap();
    done(mpv.core.perform(call));
    let node = mpv.wait_for(|ev| match ev {
        Event::CommandReply {
            userdata: 13,
            result,
        } => Some(result.unwrap()),
        _ => None,
    });
    assert_eq!(node, Node::String("ok".into()));
}

#[test]
fn async_read_of_a_missing_property_replies_with_the_error() {
    let mut mpv = headless();
    let call = mpv.mpv.get_property_async::<i64>(14, "this-property-does-not-exist").unwrap();
    done(mpv.core.perform(call));
    let result = mpv.wait_for(|ev| match ev {
        Event::GetPropertyReply { userdata: 14, result } => Some(result),
        _ => None,
    });
    assert_eq!(result.unwrap_err(), Error::PropertyNotFound);
}

#[test]
fn secondary_client_handles() {
    let mut player = headless();
    let call = player.mpv.create_client(Some("helper")).unwrap();
    let raw = match player.core.perform(call) {
        Returned::Handle(raw) => raw,
        _ => unreachable!(),
    };
    let client = player.mpv.client_created(raw).unwrap();
    match player.core.perform(client.client_name()) {
        Returned::Text(Some(name)) => assert!(name.to_string_lossy().starts_with("helper")),
        _ => unreachable!(),
    }
    let id = |core: &mut Core, handle: &Handle| match core.perform(handle.client_id()) {
        Returned::Number(id) => id,
        _ => unreachable!(),
    };
    let ids = (id(&mut player.core, &client), id(&mut player.core, &player.mpv));
    assert_ne!(ids.0, ids.1);
    // The client controls the same core.
    set(&mut player.core, &client, "volume", double(20.0)).unwrap();
    let volume = get::<Double>(&mut player.core, &player.mpv, "volume").unwrap();
    assert_eq!(number(volume), 20.0);
    // Detaching it leaves the player running.
    player.core.perform(client.destroy());
    assert_eq!(player.core.handles.len(), 1);
    player.core.perform(player.mpv.terminate());
    assert!(player.core.handles.is_empty());
}

#[test]
fn poll_event_from_shared_reference() {
    let mut player = headless();
    let call = player.mpv.observe_property(21, "volume", Format::Double).unwrap();
    done(player.core.perform(call));
    let shared: &Mpv = &player.mpv;
    let drained = matches!(
        poll(&mut player.core, shared),
        Some(Event::PropertyChange { userdata: 21, .. })
    );
    assert!(drained, "no event drained via &self");

    // Empty queue: poll reports none.
    while poll(&mut player.core, shared).is_some() {}
    assert!(poll(&mut player.core, shared).is_none());
}
