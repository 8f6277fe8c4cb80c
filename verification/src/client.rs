//! Client handles: the player, the instance that is being configured before it
//! becomes one, and the clients connected to a player.
//!
//! Every method of [`Handle`] gives the [`Call`] that libmpv has to receive;
//! the functions beside it read what the call returned.

use core::marker::PhantomData;
use core::ops::Deref;

use vstd::prelude::*;
use vstd::utf8::encode_utf8;

use crate::call::{Call, Cleanup, Finished, NodeArg, PropertyArg};
use crate::cstring;
use crate::cstring::{cstr, cstr_args, cstr_opt, CArgs, CString};
use crate::error;
use crate::error::{check, Error, Result};
use crate::node;
use crate::node::{Node, NodeStorage};
use crate::property::{Format, GetProperty, SetProperty};
use crate::slot;
use crate::slot::{CallbackSlot, Pending, SlotAction, SlotState};
use crate::stream_cb::ProtocolRegistry;
use crate::sys;
use crate::sys::{mpv_handle, mpv_node, Double};

verus! {

/// The client API version that `version` stands for, as `(major, minor)`.
pub fn client_api_version(version: u64) -> (pair: (u16, u16))
    ensures
        pair.0 == (version >> 16u64) as u16,
        pair.1 == (version & 0xffff) as u16,
{
    (
        #[verifier::truncate]
        ((version >> 16u64) as u16),
        #[verifier::truncate]
        ((version & 0xffff) as u16),
    )
}

/// The pair that a version number was made from is what it stands for.
pub proof fn law_version_round_trip(major: u16, minor: u16)
    ensures
        (sys::make_version(major as u64, minor as u64) >> 16u64) as u16 == major,
        (sys::make_version(major as u64, minor as u64) & 0xffff) as u16 == minor,
{
    let a = major as u64;
    let b = minor as u64;
    assert((((a << 16u64) | b) >> 16u64) == a && (((a << 16u64) | b) & 0xffff) == b) by (bit_vector)
        requires
            a < 0x1_0000,
            b < 0x1_0000,
    ;
}

/// Whether a request is refused exactly if a string of it holds a NUL.
pub open spec fn refused_iff(r: Result<Call>, nul: bool) -> bool {
    &&& r is Err <==> nul
    &&& r matches Err(e) ==> e == Error::InteriorNul
}

/// Whether `c` is the C string of `s`.
pub open spec fn c_string_of(c: CString, s: Seq<char>) -> bool {
    c@ == encode_utf8(s)
}

/// A libmpv client handle: the API surface shared by [`Mpv`], [`Client`],
/// and [`Builder`].
///
/// You never own a bare `Handle`; you reach it through `Deref` from those
/// types.
///
/// `W` holds the wakeup callback of the handle: a
/// [`CallbackSlot`](crate::slot::CallbackSlot), or what shares one with
/// libmpv.
#[derive(Debug)]
pub struct Handle<W> {
    raw: mpv_handle,
    wakeup: W,
}

impl<W: Default> Handle<W> {
    /// The handle at `raw`, with a new wakeup slot; none for null.
    pub(crate) fn from_raw(raw: mpv_handle) -> (r: Option<Handle<W>>)
        ensures
            r is Some <==> raw.addr != 0,
            r matches Some(handle) ==> is_new(handle, raw),
    {
        if raw.addr != 0 {
            Some(Handle { raw, wakeup: W::default() })
        } else {
            None
        }
    }
}

/// Whether `handle` is the one at `raw`, with a new wakeup slot.
pub open spec fn is_new<W: Default>(handle: Handle<W>, raw: mpv_handle) -> bool {
    handle.spec_raw() == raw && call_ensures(W::default, (), handle.spec_wakeup())
}

impl<W> Handle<W> {
    /// The address of the `mpv_handle`.
    pub closed spec fn spec_raw(self) -> mpv_handle {
        self.raw
    }

    /// The wakeup slot.
    pub closed spec fn spec_wakeup(self) -> W {
        self.wakeup
    }

    #[verifier::type_invariant]
    closed spec fn not_null(self) -> bool {
        self.raw.addr != 0
    }

    /// The wakeup slot.
    pub fn wakeup_slot(&self) -> (wakeup: &W)
        ensures
            *wakeup == self.spec_wakeup(),
    {
        &self.wakeup
    }

    /// The raw `mpv_handle`, which is never null.
    pub fn as_raw(&self) -> (raw: mpv_handle)
        ensures
            raw == self.spec_raw(),
            raw.addr != 0,
    {
        proof {
            use_type_invariant(self);
        }
        self.raw
    }

    /// Asks for the unique name of this client handle.
    pub fn client_name(&self) -> (call: Call)
        ensures
            call == (Call::ClientName { ctx: self.spec_raw() }),
    {
        Call::ClientName { ctx: self.raw }
    }

    /// Asks for the unique, never-reused ID of this client handle.
    pub fn client_id(&self) -> (call: Call)
        ensures
            call == (Call::ClientId { ctx: self.spec_raw() }),
    {
        Call::ClientId { ctx: self.raw }
    }

    /// Asks for the internal real time in nanoseconds.
    pub fn get_time_ns(&self) -> (call: Call)
        ensures
            call == (Call::GetTimeNs { ctx: self.spec_raw() }),
    {
        Call::GetTimeNs { ctx: self.raw }
    }

    /// Asks for the internal real time in microseconds.
    pub fn get_time_us(&self) -> (call: Call)
        ensures
            call == (Call::GetTimeUs { ctx: self.spec_raw() }),
    {
        Call::GetTimeUs { ctx: self.raw }
    }

    /// Load a config file. `path` is none if it is not Unicode, which is
    /// refused as an invalid parameter.
    pub fn load_config_file(&self, path: Option<&str>) -> (r: Result<Call>)
        ensures
            path is None ==> r == Err::<Call, Error>(Error::InvalidParameter),
            path matches Some(p) ==> refused_iff(r, cstring::has_nul(p@)),
            r matches Ok(call) ==> (call matches Call::LoadConfigFile { ctx, filename } && ctx
                == self.spec_raw() && c_string_of(filename, path->0@)),
    {
        match path {
            Some(path) => match cstr(path) {
                Ok(filename) => Ok(Call::LoadConfigFile { ctx: self.raw, filename }),
                Err(e) => Err(e),
            },
            None => Err(Error::InvalidParameter),
        }
    }

    /// Read a property. `T` selects the format; [`GetProperty::get_from`]
    /// reads the reply.
    pub fn get_property<T: GetProperty>(&self, name: &str) -> (r: Result<Call>)
        ensures
            refused_iff(r, cstring::has_nul(name@)),
            r matches Ok(call) ==> (call matches Call::GetProperty { ctx, name: n, format } && ctx
                == self.spec_raw() && c_string_of(n, name@) && format == T::spec_format().code()),
    {
        match cstr(name) {
            Ok(name) => Ok(
                Call::GetProperty { ctx: self.raw, name, format: T::format().to_raw() },
            ),
            Err(e) => Err(e),
        }
    }

    /// Read a property as a human-readable OSD string; [`osd_string`] reads
    /// the reply.
    pub fn get_property_osd_string(&self, name: &str) -> (r: Result<Call>)
        ensures
            refused_iff(r, cstring::has_nul(name@)),
            r matches Ok(call) ==> (call matches Call::GetPropertyOsdString { ctx, name: n } && ctx
                == self.spec_raw() && c_string_of(n, name@)),
    {
        match cstr(name) {
            Ok(name) => Ok(Call::GetPropertyOsdString { ctx: self.raw, name }),
            Err(e) => Err(e),
        }
    }

    /// Set a property (or an option, including on an uninitialized
    /// [`Builder`] handle).
    pub fn set_property<V: SetProperty>(&self, name: &str, value: V) -> (r: Result<Call>)
        ensures
            refused_iff(r, cstring::has_nul(name@) || value.refused()),
            r matches Ok(call) ==> value.set_by(call, self.spec_raw(), encode_utf8(name@)),
    {
        match cstr(name) {
            Ok(name) => value.set_on(self.raw, name),
            Err(e) => Err(e),
        }
    }

    /// Delete a property (equivalent to the `del` command).
    pub fn del_property(&self, name: &str) -> (r: Result<Call>)
        ensures
            refused_iff(r, cstring::has_nul(name@)),
            r matches Ok(call) ==> (call matches Call::DelProperty { ctx, name: n } && ctx
                == self.spec_raw() && c_string_of(n, name@)),
    {
        match cstr(name) {
            Ok(name) => Ok(Call::DelProperty { ctx: self.raw, name }),
            Err(e) => Err(e),
        }
    }

    /// Read a property asynchronously; the result arrives as
    /// [`Event::GetPropertyReply`](crate::event::Event::GetPropertyReply)
    /// carrying `userdata`. `T` selects the format the reply is decoded with,
    /// exactly as in [`get_property`](Handle::get_property).
    pub fn get_property_async<T: GetProperty>(&self, userdata: u64, name: &str) -> (r: Result<Call>)
        ensures
            refused_iff(r, cstring::has_nul(name@)),
            r matches Ok(call) ==> (call matches Call::GetPropertyAsync {
                ctx,
                userdata: u,
                name: n,
                format,
            } && ctx == self.spec_raw() && u == userdata && c_string_of(n, name@) && format
                == T::spec_format().code()),
    {
        match cstr(name) {
            Ok(name) => Ok(
                Call::GetPropertyAsync {
                    ctx: self.raw,
                    userdata,
                    name,
                    format: T::format().to_raw(),
                },
            ),
            Err(e) => Err(e),
        }
    }

    /// Set a property asynchronously; the result arrives as
    /// [`Event::SetPropertyReply`](crate::event::Event::SetPropertyReply)
    /// carrying `userdata`.
    pub fn set_property_async<V: Into<Node>>(&self, userdata: u64, name: &str, value: V) -> (r:
        Result<Call>)
        ensures
            cstring::has_nul(name@) ==> refused_iff(r, true),
            !cstring::has_nul(name@) ==> exists|node: Node| #[trigger]
                call_ensures(V::into, (value,), node) && refused_iff(r, node@.has_interior_nul())
                    && (r matches Ok(call) ==> (call matches Call::SetPropertyAsync {
                    ctx,
                    userdata: u,
                    name: n,
                    format,
                    data: PropertyArg::Node(arg),
                } && ctx == self.spec_raw() && u == userdata && c_string_of(n, name@) && format
                    == Format::Node.code() && arg.encodes(node@))),
    {
        match cstr(name) {
            Ok(name) => {
                let node: Node = value.into();
                match NodeArg::new(&node) {
                    Ok(arg) => Ok(
                        Call::SetPropertyAsync {
                            ctx: self.raw,
                            userdata,
                            name,
                            format: sys::MPV_FORMAT_NODE,
                            data: PropertyArg::Node(arg),
                        },
                    ),
                    Err(e) => Err(e),
                }
            },
            Err(e) => Err(e),
        }
    }

    /// Get [`Event::PropertyChange`](crate::event::Event::PropertyChange)
    /// notifications (carrying `userdata`) whenever the property changes, plus
    /// one initial notification. [`Format::Empty`] omits the value from the
    /// events.
    pub fn observe_property(&self, userdata: u64, name: &str, format: Format) -> (r: Result<Call>)
        ensures
            refused_iff(r, cstring::has_nul(name@)),
            r matches Ok(call) ==> (call matches Call::ObserveProperty {
                ctx,
                userdata: u,
                name: n,
                format: f,
            } && ctx == self.spec_raw() && u == userdata && c_string_of(n, name@) && f
                == format.code()),
    {
        match cstr(name) {
            Ok(name) => Ok(
                Call::ObserveProperty { ctx: self.raw, userdata, name, format: format.to_raw() },
            ),
            Err(e) => Err(e),
        }
    }

    /// Undo all [`observe_property`](Handle::observe_property) registrations
    /// that used `userdata`; [`removed`] reads how many were removed.
    pub fn unobserve_property(&self, userdata: u64) -> (call: Call)
        ensures
            call == (Call::UnobserveProperty { ctx: self.spec_raw(), userdata }),
    {
        Call::UnobserveProperty { ctx: self.raw, userdata }
    }

    /// Run a command with pre-split arguments (no OSD or string expansion).
    pub fn command(&self, args: &[&str]) -> (r: Result<Call>)
        ensures
            refused_iff(r, cstring::any_has_nul(args@)),
            r matches Ok(call) ==> (call matches Call::Command { ctx, args: a } && ctx
                == self.spec_raw() && a.holds(args@)),
    {
        match cstr_args(args) {
            Ok(args) => Ok(Call::Command { ctx: self.raw, args }),
            Err(e) => Err(e),
        }
    }

    /// Like [`command`](Handle::command), but returns the command's result
    /// data; [`command_result`] reads the reply.
    pub fn command_ret(&self, args: &[&str]) -> (r: Result<Call>)
        ensures
            refused_iff(r, cstring::any_has_nul(args@)),
            r matches Ok(call) ==> (call matches Call::CommandRet { ctx, args: a } && ctx
                == self.spec_raw() && a.holds(args@)),
    {
        match cstr_args(args) {
            Ok(args) => Ok(Call::CommandRet { ctx: self.raw, args }),
            Err(e) => Err(e),
        }
    }

    /// Run a command given as one string, split with input.conf parsing (OSD
    /// and string expansion enabled).
    pub fn command_string(&self, command: &str) -> (r: Result<Call>)
        ensures
            refused_iff(r, cstring::has_nul(command@)),
            r matches Ok(call) ==> (call matches Call::CommandString { ctx, command: c } && ctx
                == self.spec_raw() && c_string_of(c, command@)),
    {
        match cstr(command) {
            Ok(command) => Ok(Call::CommandString { ctx: self.raw, command }),
            Err(e) => Err(e),
        }
    }

    /// Run a command asynchronously; the result arrives as
    /// [`Event::CommandReply`](crate::event::Event::CommandReply) carrying
    /// `userdata`.
    pub fn command_async(&self, userdata: u64, args: &[&str]) -> (r: Result<Call>)
        ensures
            refused_iff(r, cstring::any_has_nul(args@)),
            r matches Ok(call) ==> (call matches Call::CommandAsync { ctx, userdata: u, args: a }
                && ctx == self.spec_raw() && u == userdata && a.holds(args@)),
    {
        match cstr_args(args) {
            Ok(args) => Ok(Call::CommandAsync { ctx: self.raw, userdata, args }),
            Err(e) => Err(e),
        }
    }

    /// Run a command with structured arguments: a [`Node::Array`] of
    /// positional arguments (first element is the command name), or a
    /// [`Node::NodeMap`] of named arguments (requires a `"name"` entry).
    /// [`command_result`] reads the reply.
    pub fn command_node(&self, args: &Node) -> (r: Result<Call>)
        ensures
            refused_iff(r, args@.has_interior_nul()),
            r matches Ok(call) ==> (call matches Call::CommandNode { ctx, args: a } && ctx
                == self.spec_raw() && a.encodes(args@)),
    {
        match NodeArg::new(args) {
            Ok(args) => Ok(Call::CommandNode { ctx: self.raw, args }),
            Err(e) => Err(e),
        }
    }

    /// Like [`command_node`](Handle::command_node), but asynchronous; the
    /// result arrives as
    /// [`Event::CommandReply`](crate::event::Event::CommandReply) carrying
    /// `userdata`.
    pub fn command_node_async(&self, userdata: u64, args: &Node) -> (r: Result<Call>)
        ensures
            refused_iff(r, args@.has_interior_nul()),
            r matches Ok(call) ==> (call matches Call::CommandNodeAsync { ctx, userdata: u, args: a }
                && ctx == self.spec_raw() && u == userdata && a.encodes(args@)),
    {
        match NodeArg::new(args) {
            Ok(args) => Ok(Call::CommandNodeAsync { ctx: self.raw, userdata, args }),
            Err(e) => Err(e),
        }
    }

    /// Ask all pending async commands started with `userdata` to abort
    /// (best-effort; they still deliver an event).
    pub fn abort_async_command(&self, userdata: u64) -> (call: Call)
        ensures
            call == (Call::AbortAsyncCommand { ctx: self.spec_raw(), userdata }),
    {
        Call::AbortAsyncCommand { ctx: self.raw, userdata }
    }

    /// Enable or disable delivery of an event by its raw
    /// `sys::MPV_EVENT_*` ID. Some events can't be disabled.
    pub fn request_event(&self, event_id: i32, enable: bool) -> (call: Call)
        ensures
            call == (Call::RequestEvent {
                ctx: self.spec_raw(),
                event_id,
                enable: if enable {
                    1
                } else {
                    0
                },
            }),
    {
        let enable: i32 = if enable {
            1
        } else {
            0
        };
        Call::RequestEvent { ctx: self.raw, event_id, enable }
    }

    /// Set the minimum log level for receiving log messages. Valid levels:
    /// `"no"` (default), `"fatal"`, `"error"`, `"warn"`, `"info"`, `"v"`,
    /// `"debug"`, `"trace"`, `"terminal-default"`.
    pub fn request_log_messages(&self, min_level: &str) -> (r: Result<Call>)
        ensures
            refused_iff(r, cstring::has_nul(min_level@)),
            r matches Ok(call) ==> (call matches Call::RequestLogMessages { ctx, min_level: l }
                && ctx == self.spec_raw() && c_string_of(l, min_level@)),
    {
        match cstr(min_level) {
            Ok(min_level) => Ok(Call::RequestLogMessages { ctx: self.raw, min_level }),
            Err(e) => Err(e),
        }
    }

    /// Wait up to `timeout` seconds for the next event. Zero polls, a
    /// negative value waits indefinitely.
    /// [`Event::from_raw`](crate::event::Event::from_raw) reads the reply.
    pub fn wait_event(&self, timeout: Double) -> (call: Call)
        ensures
            call == (Call::WaitEvent { ctx: self.spec_raw(), timeout }),
    {
        Call::WaitEvent { ctx: self.raw, timeout }
    }

    /// Take the next event without waiting for one.
    pub fn poll_event(&self) -> (call: Call)
        ensures
            call == (Call::WaitEvent { ctx: self.spec_raw(), timeout: Double { bits: 0 } }),
    {
        self.wait_event(Double { bits: 0 })
    }

    /// Interrupt the current (or next) [`wait_event`](Handle::wait_event)
    /// call on this handle.
    pub fn wakeup(&self) -> (call: Call)
        ensures
            call == (Call::Wakeup { ctx: self.spec_raw() }),
    {
        Call::Wakeup { ctx: self.raw }
    }

    /// Register the wakeup callback slot, when the slot asks for it (see
    /// [`SlotAction::Register`](crate::slot::SlotAction::Register)).
    pub fn set_wakeup_callback(&self) -> (call: Call)
        ensures
            call == (Call::SetWakeupCallback { ctx: self.spec_raw(), set: true }),
    {
        Call::SetWakeupCallback { ctx: self.raw, set: true }
    }

    /// Unregister the wakeup callback slot, when the slot asks for it (see
    /// [`SlotAction::Unregister`](crate::slot::SlotAction::Unregister)).
    pub fn clear_wakeup_callback(&self) -> (call: Call)
        ensures
            call == (Call::SetWakeupCallback { ctx: self.spec_raw(), set: false }),
    {
        Call::SetWakeupCallback { ctx: self.raw, set: false }
    }

    /// Block until all pending asynchronous requests of this handle have
    /// posted their reply event.
    pub fn wait_async_requests(&self) -> (call: Call)
        ensures
            call == (Call::WaitAsyncRequests { ctx: self.spec_raw() }),
    {
        Call::WaitAsyncRequests { ctx: self.raw }
    }

    /// Register a hook handler. Invocations arrive as
    /// [`Event::Hook`](crate::event::Event::Hook) carrying `userdata` and must
    /// be answered with [`hook_continue`](Handle::hook_continue). Lower
    /// `priority` runs first; `0` is a neutral default.
    pub fn hook_add(&self, userdata: u64, name: &str, priority: i32) -> (r: Result<Call>)
        ensures
            refused_iff(r, cstring::has_nul(name@)),
            r matches Ok(call) ==> (call matches Call::HookAdd {
                ctx,
                userdata: u,
                name: n,
                priority: p,
            } && ctx == self.spec_raw() && u == userdata && c_string_of(n, name@) && p == priority),
    {
        match cstr(name) {
            Ok(name) => Ok(Call::HookAdd { ctx: self.raw, userdata, name, priority }),
            Err(e) => Err(e),
        }
    }

    /// Continue a hook, passing the `id` of its event. Must be called exactly
    /// once per hook event, from the handle that received it.
    pub fn hook_continue(&self, id: u64) -> (call: Call)
        ensures
            call == (Call::HookContinue { ctx: self.spec_raw(), id }),
    {
        Call::HookContinue { ctx: self.raw, id }
    }
}

/// What the read of an OSD string returned: the text, or null if it failed.
/// libmpv allocated the text.
pub fn osd_string(text: Option<&CString>) -> (done: Finished<String>)
    ensures
        text is None ==> done.result == Err::<String, Error>(Error::PropertyError) && done.cleanup
            == Cleanup::Nothing,
        text matches Some(c) ==> (done.result matches Ok(s) && s@ == cstring::lossy_text(c@))
            && done.cleanup == Cleanup::Free,
{
    match text {
        Some(c) => Finished { result: Ok(c.to_string_lossy()), cleanup: Cleanup::Free },
        None => Finished { result: Err(Error::PropertyError), cleanup: Cleanup::Nothing },
    }
}

/// How many observations were removed, by the call that returned `code`.
pub fn removed(code: i32) -> (r: Result<u32>)
    ensures
        r == (if code >= 0 {
            Ok(code as u32)
        } else {
            Err(Error::of_code(code))
        }),
{
    match check(code) {
        Ok(n) => Ok(n as u32),
        Err(e) => Err(e),
    }
}

/// The result data of a command that returned `code` and left `result`, whose
/// allocations are in `mem`. libmpv allocated what the result refers to.
pub fn command_result(code: i32, mem: &NodeStorage, result: &mpv_node) -> (done: Finished<Node>)
    requires
        mem.wf(),
        code >= 0 ==> mem.valid(*result),
    ensures
        code < 0 ==> done.result == Err::<Node, Error>(Error::of_code(code)) && done.cleanup
            == Cleanup::Nothing,
        code >= 0 ==> (done.result matches Ok(node) && node@ == mem.read(*result)) && done.cleanup
            == Cleanup::FreeNodeContents,
{
    match check(code) {
        Err(e) => Finished { result: Err(e), cleanup: Cleanup::Nothing },
        Ok(_) => Finished {
            result: Ok(Node::from_raw(mem, result)),
            cleanup: Cleanup::FreeNodeContents,
        },
    }
}

/// An owned mpv player instance (the main client handle).
///
/// Create one with [`Mpv::new`] for defaults, or [`Mpv::builder`] to set
/// options first. All player functionality is on the derefed [`Handle`].
///
/// `P` holds the open functions of the registered stream protocols: a
/// [`ProtocolRegistry`](crate::stream_cb::ProtocolRegistry), or what guards
/// one.
#[derive(Debug)]
pub struct Mpv<W, P> {
    inner: Handle<W>,
    protocols: P,
}

/// An uninitialized mpv instance, for setting options that must be
/// configured before the player starts (and any other initial properties).
///
/// Created by [`Mpv::builder`]; call [`build`](Builder::build) to start the
/// player. The full [`Handle`] API is available, but most of it returns
/// [`Error::Uninitialized`] until then.
#[derive(Debug)]
pub struct Builder<W> {
    inner: Handle<W>,
}

/// A secondary client handle created with [`Mpv::create_client`].
///
/// Has its own event queue, observed properties, and async request state,
/// but controls the same player.
#[derive(Debug)]
pub struct Client<'core, W, P> {
    inner: Handle<W>,
    _core: PhantomData<&'core Mpv<W, P>>,
}

impl<W, P> Deref for Mpv<W, P> {
    type Target = Handle<W>;

    fn deref(&self) -> (handle: &Handle<W>)
        ensures
            *handle == self.spec_handle(),
    {
        &self.inner
    }
}

impl<W> Deref for Builder<W> {
    type Target = Handle<W>;

    fn deref(&self) -> (handle: &Handle<W>)
        ensures
            *handle == self.spec_handle(),
    {
        &self.inner
    }
}

impl<'core, W, P> Deref for Client<'core, W, P> {
    type Target = Handle<W>;

    fn deref(&self) -> (handle: &Handle<W>)
        ensures
            *handle == self.spec_handle(),
    {
        &self.inner
    }
}

/// How far the start of a player has come.
#[derive(Debug)]
pub enum Startup<W, P> {
    /// An instance has to be created, and then initialized if `build`.
    Create { build: bool },
    /// The instance has to be initialized.
    Initialize(Builder<W>),
    /// Initializing failed; the instance has to be destroyed.
    Terminate { builder: Builder<W>, error: Error },
    /// There is an uninitialized instance.
    Created(Builder<W>),
    /// There is a player.
    Running(Mpv<W, P>),
    /// There is nothing. If there was an instance, it was destroyed, and
    /// `released` is its wakeup slot.
    Failed { error: Error, released: Option<W> },
}

/// What the call of a [`Startup`] returned.
#[derive(Debug, Clone, Copy)]
pub enum Reply {
    /// A handle, perhaps null.
    Handle(mpv_handle),
    /// A status.
    Code(i32),
    /// Nothing.
    Nothing,
}

impl<W, P> Startup<W, P> {
    /// The call that has to be made next, none when the start is over.
    pub open spec fn spec_call(self) -> Option<Call> {
        match self {
            Startup::Create { .. } => Some(Call::Create),
            Startup::Initialize(builder) => Some(
                Call::Initialize { ctx: builder.spec_handle().spec_raw() },
            ),
            Startup::Terminate { builder, .. } => Some(
                Call::TerminateDestroy { ctx: builder.spec_handle().spec_raw() },
            ),
            _ => None,
        }
    }

    /// Whether the call that has to be made next returns something like `reply`.
    pub open spec fn expects(self, reply: Reply) -> bool {
        match self {
            Startup::Create { .. } => reply is Handle,
            Startup::Initialize(_) => reply is Code,
            Startup::Terminate { .. } => reply is Nothing,
            _ => false,
        }
    }

    /// The handle that is neither owned by anyone else nor destroyed.
    pub open spec fn owned(self) -> Option<Handle<W>> {
        match self {
            Startup::Initialize(builder) => Some(builder.spec_handle()),
            Startup::Terminate { builder, .. } => Some(builder.spec_handle()),
            Startup::Created(builder) => Some(builder.spec_handle()),
            Startup::Running(mpv) => Some(mpv.spec_handle()),
            _ => None,
        }
    }

    /// The call that has to be made next, none when the start is over.
    pub fn call(&self) -> (call: Option<Call>)
        ensures
            call == self.spec_call(),
    {
        match self {
            Startup::Create { .. } => Some(Call::Create),
            Startup::Initialize(builder) => Some(Call::Initialize { ctx: builder.inner.raw }),
            Startup::Terminate { builder, .. } => Some(
                Call::TerminateDestroy { ctx: builder.inner.raw },
            ),
            _ => None,
        }
    }
}

impl<W: Default, P: Default> Startup<W, P> {
    /// Whether `next` is where the start stands after the call returned
    /// `reply`.
    pub open spec fn steps_to(self, reply: Reply, next: Startup<W, P>) -> bool {
        match (self, reply) {
            (Startup::Create { build }, Reply::Handle(raw)) => if raw.addr == 0 {
                next == Startup::<W, P>::Failed { error: Error::CreateFailed, released: None }
            } else if build {
                next matches Startup::Initialize(b) && is_new(b.spec_handle(), raw)
            } else {
                next matches Startup::Created(b) && is_new(b.spec_handle(), raw)
            },
            (Startup::Initialize(builder), Reply::Code(code)) => if code >= 0 {
                next matches Startup::Running(m) && m.spec_handle() == builder.spec_handle()
                    && call_ensures(P::default, (), m.spec_protocols())
            } else {
                next == Startup::<W, P>::Terminate { builder, error: Error::of_code(code) }
            },
            (Startup::Terminate { builder, error }, Reply::Nothing) => next == Startup::<
                W,
                P,
            >::Failed { error, released: Some(builder.spec_handle().spec_wakeup()) },
            _ => false,
        }
    }

    /// Go on after the call returned `reply`. A handle keeps its wakeup slot
    /// on the way from an instance to a player, and a player begins with new
    /// protocols.
    pub fn resume(self, reply: Reply) -> (next: Startup<W, P>)
        requires
            self.expects(reply),
        ensures
            self.steps_to(reply, next),
    {
        match (self, reply) {
            (Startup::Create { build }, Reply::Handle(raw)) => match Handle::from_raw(raw) {
                None => Startup::Failed { error: Error::CreateFailed, released: None },
                Some(inner) => if build {
                    Startup::Initialize(Builder { inner })
                } else {
                    Startup::Created(Builder { inner })
                },
            },
            (Startup::Initialize(builder), Reply::Code(code)) => match check(code) {
                Ok(_) => Startup::Running(Mpv { inner: builder.inner, protocols: P::default() }),
                Err(error) => Startup::Terminate { builder, error },
            },
            (Startup::Terminate { builder, error }, _) => Startup::Failed {
                error,
                released: Some(builder.inner.wakeup),
            },
            (done, _) => done,
        }
    }
}

impl<W: Default, P: Default> Mpv<W, P> {
    /// Create and initialize an mpv instance with default (embedding-
    /// friendly) settings: no config files, no terminal access, idle mode
    /// enabled.
    ///
    /// mpv requires the `LC_NUMERIC` locale category to be `"C"` (the
    /// default for Rust programs that don't call `setlocale`).
    pub fn new() -> (start: Startup<W, P>)
        ensures
            start == (Startup::<W, P>::Create { build: true }),
    {
        Startup::Create { build: true }
    }

    /// Create an uninitialized instance whose options can be set before the
    /// player starts.
    pub fn builder() -> (start: Startup<W, P>)
        ensures
            start == (Startup::<W, P>::Create { build: false }),
    {
        Startup::Create { build: false }
    }

    /// The client whose creation returned `raw`.
    ///
    /// The client borrows the `Mpv`, so it can't outlive the core (dropping
    /// the `Mpv` last is what terminates the player).
    pub fn client_created(&self, raw: mpv_handle) -> (r: Result<Client<'_, W, P>>)
        ensures
            raw.addr == 0 ==> r == Err::<Client<'_, W, P>, Error>(Error::CreateFailed),
            raw.addr != 0 ==> (r matches Ok(client) && is_new(client.spec_handle(), raw)),
    {
        match Handle::from_raw(raw) {
            Some(inner) => Ok(Client { inner, _core: PhantomData }),
            None => Err(Error::CreateFailed),
        }
    }
}

impl<W, P> Mpv<W, P> {
    /// The client handle of the player.
    pub closed spec fn spec_handle(self) -> Handle<W> {
        self.inner
    }

    /// The registered protocols.
    pub closed spec fn spec_protocols(self) -> P {
        self.protocols
    }

    /// The registered protocols.
    pub fn protocols(&self) -> (protocols: &P)
        ensures
            *protocols == self.spec_protocols(),
    {
        &self.protocols
    }

    /// Create an additional client handle connected to the same player core,
    /// with its own event queue, observed properties, and async state;
    /// [`client_created`](Mpv::client_created) takes the reply.
    pub fn create_client(&self, name: Option<&str>) -> (r: Result<Call>)
        ensures
            refused_iff(r, name matches Some(s) && cstring::has_nul(s@)),
            r matches Ok(call) ==> (call matches Call::CreateClient { ctx, name: n } && ctx
                == self.spec_handle().spec_raw() && client_name_is(n, name)),
    {
        self.new_client(name, false)
    }

    /// Like [`create_client`](Mpv::create_client), but the handle is a weak
    /// reference: it doesn't keep the core alive on its own and receives
    /// [`Event::Shutdown`](crate::event::Event::Shutdown) when the last strong
    /// handle goes away.
    pub fn create_weak_client(&self, name: Option<&str>) -> (r: Result<Call>)
        ensures
            refused_iff(r, name matches Some(s) && cstring::has_nul(s@)),
            r matches Ok(call) ==> (call matches Call::CreateWeakClient { ctx, name: n } && ctx
                == self.spec_handle().spec_raw() && client_name_is(n, name)),
    {
        self.new_client(name, true)
    }

    fn new_client(&self, name: Option<&str>, weak: bool) -> (r: Result<Call>)
        ensures
            refused_iff(r, name matches Some(s) && cstring::has_nul(s@)),
            !weak ==> (r matches Ok(call) ==> (call matches Call::CreateClient { ctx, name: n }
                && ctx == self.spec_handle().spec_raw() && client_name_is(n, name))),
            weak ==> (r matches Ok(call) ==> (call matches Call::CreateWeakClient { ctx, name: n }
                && ctx == self.spec_handle().spec_raw() && client_name_is(n, name))),
    {
        match cstr_opt(name) {
            Ok(name) => Ok(
                if weak {
                    Call::CreateWeakClient { ctx: self.inner.raw, name }
                } else {
                    Call::CreateClient { ctx: self.inner.raw, name }
                },
            ),
            Err(e) => Err(e),
        }
    }

    /// Register a read-only stream protocol;
    /// [`ProtocolRegistry::registered`](crate::stream_cb::ProtocolRegistry::registered)
    /// takes the reply.
    pub fn register_protocol(&self, protocol: &str) -> (r: Result<Call>)
        ensures
            refused_iff(r, cstring::has_nul(protocol@)),
            r matches Ok(call) ==> (call matches Call::StreamCbAddRo { ctx, protocol: p } && ctx
                == self.spec_handle().spec_raw() && c_string_of(p, protocol@)),
    {
        match cstr(protocol) {
            Ok(protocol) => Ok(Call::StreamCbAddRo { ctx: self.inner.raw, protocol }),
            Err(e) => Err(e),
        }
    }

    /// The call that quits the player and blocks until the core and all
    /// clients are destroyed.
    pub fn terminate(&self) -> (call: Call)
        ensures
            call == (Call::TerminateDestroy { ctx: self.spec_handle().spec_raw() }),
    {
        Call::TerminateDestroy { ctx: self.inner.raw }
    }

    /// What the player holds, for its teardown: the wakeup slot, and the
    /// protocols, which the slot has to keep until the player is destroyed
    /// (see [`CallbackSlot::teardown`](crate::slot::CallbackSlot::teardown)).
    pub fn retire(self) -> (parts: (W, P))
        ensures
            parts == (self.spec_handle().spec_wakeup(), self.spec_protocols()),
    {
        (self.inner.wakeup, self.protocols)
    }
}

/// Whether `c` is the C string of the name of a client, null for none.
pub open spec fn client_name_is(c: Option<CString>, name: Option<&str>) -> bool {
    &&& c is Some <==> name is Some
    &&& c matches Some(c) ==> c_string_of(c, name->0@)
}

impl<W> Builder<W> {
    /// The client handle of the instance.
    pub closed spec fn spec_handle(self) -> Handle<W> {
        self.inner
    }

    /// Set an initial option/property.
    pub fn set_property<V: SetProperty>(&self, name: &str, value: V) -> (r: Result<Call>)
        ensures
            refused_iff(r, cstring::has_nul(name@) || value.refused()),
            r matches Ok(call) ==> value.set_by(
                call,
                self.spec_handle().spec_raw(),
                encode_utf8(name@),
            ),
    {
        self.inner.set_property(name, value)
    }

    /// Initialize the player.
    pub fn build<P>(self) -> (start: Startup<W, P>)
        ensures
            start == Startup::<W, P>::Initialize(self),
    {
        Startup::Initialize(self)
    }

    /// The call that destroys an instance that is not going to be a player.
    pub fn terminate(&self) -> (call: Call)
        ensures
            call == (Call::TerminateDestroy { ctx: self.spec_handle().spec_raw() }),
    {
        Call::TerminateDestroy { ctx: self.inner.raw }
    }
}

impl<'core, W, P> Client<'core, W, P> {
    /// The client handle.
    pub closed spec fn spec_handle(self) -> Handle<W> {
        self.inner
    }

    /// The call that detaches this client from the player.
    pub fn destroy(&self) -> (call: Call)
        ensures
            call == (Call::Destroy { ctx: self.spec_handle().spec_raw() }),
    {
        Call::Destroy { ctx: self.inner.raw }
    }
}

/// A start never loses a handle, and never destroys one that it goes on to
/// use: a handle that was created is owned after the step, and one that was
/// owned is owned still, with its wakeup slot, unless the step was its
/// destruction; then the slot is given back.
pub proof fn law_start_keeps_handle<W: Default, P: Default>(
    start: Startup<W, P>,
    reply: Reply,
    next: Startup<W, P>,
)
    requires
        start.expects(reply),
        start.steps_to(reply, next),
    ensures
        reply matches Reply::Handle(raw) ==> if raw.addr == 0 {
            next.owned() is None
        } else {
            next.owned() matches Some(handle) && is_new(handle, raw)
        },
        start.owned() matches Some(handle) ==> if start.spec_call() == Some(
            Call::TerminateDestroy { ctx: handle.spec_raw() },
        ) {
            next.owned() is None && (next matches Startup::Failed { released, .. } && released
                == Some(handle.spec_wakeup()))
        } else {
            next.owned() == Some(handle)
        },
{
}

/// Building an instance ends with a player that has its handle, with the
/// callbacks set on it, and new protocols, or with the error of the
/// initialization after the instance was destroyed.
pub proof fn law_build<W: Default, P: Default>(
    builder: Builder<W>,
    code: i32,
    initialized: Startup<W, P>,
    terminated: Startup<W, P>,
)
    requires
        Startup::<W, P>::Initialize(builder).steps_to(Reply::Code(code), initialized),
        code < 0 ==> initialized.steps_to(Reply::Nothing, terminated),
    ensures
        code >= 0 ==> (initialized matches Startup::Running(mpv) && mpv.spec_handle()
            == builder.spec_handle() && mpv.spec_handle().spec_wakeup()
            == builder.spec_handle().spec_wakeup() && call_ensures(
            P::default,
            (),
            mpv.spec_protocols(),
        ) && initialized.spec_call() is None),
        code < 0 ==> initialized.spec_call() == Some(
            Call::TerminateDestroy { ctx: builder.spec_handle().spec_raw() },
        ) && terminated == (Startup::<W, P>::Failed {
            error: Error::of_code(code),
            released: Some(builder.spec_handle().spec_wakeup()),
        }) && terminated.spec_call() is None,
{
}

/// A player that was just built has no protocols.
pub proof fn law_new_player_has_no_protocols<W: Default, T>(
    builder: Builder<W>,
    code: i32,
    initialized: Startup<W, ProtocolRegistry<T>>,
)
    requires
        code >= 0,
        Startup::<W, ProtocolRegistry<T>>::Initialize(builder).steps_to(
            Reply::Code(code),
            initialized,
        ),
    ensures
        initialized matches Startup::Running(mpv) && mpv.spec_protocols()@ == Seq::<T>::empty(),
{
}

/// A handle that was just created has no wakeup callback.
pub proof fn law_new_handle_has_no_callback<T, K>(handle: Handle<CallbackSlot<T, K>>, raw: mpv_handle)
    requires
        is_new(handle, raw),
    ensures
        handle.spec_wakeup()@ == SlotState::<T, K>::empty(),
{
}

/// A new player is the instance that was created, initialized; if it could not
/// be created there is no further call.
pub proof fn law_new<W: Default, P: Default>(raw: mpv_handle, created: Startup<W, P>)
    requires
        (Startup::<W, P>::Create { build: true }).steps_to(Reply::Handle(raw), created),
    ensures
        raw.addr == 0 ==> created == (Startup::<W, P>::Failed {
            error: Error::CreateFailed,
            released: None,
        }) && created.spec_call() is None,
        raw.addr != 0 ==> (created matches Startup::Initialize(builder) && is_new(
            builder.spec_handle(),
            raw,
        ) && created.spec_call() == Some(Call::Initialize { ctx: raw })),
{
}

/// The open functions of the protocols outlive the player: they are given up
/// with the wakeup callback, after the player was destroyed.
pub proof fn law_protocols_outlive_player<T, P>(slot: SlotState<T, P>, protocols: P)
    requires
        slot.wf(),
        slot.idle(),
    ensures
        slot.begin(Pending::Unregister { kept: Some(protocols) }).actions() == seq![
            SlotAction::<T, P>::Unregister,
            SlotAction::Destroy,
            SlotAction::Release(slot.stored, Some(protocols)),
        ],
{
    slot::law_teardown(slot, protocols);
}

/// A version number stands for its bits above the low 16, cut to 16, and its
/// low 16; one that was made from a pair stands for that pair.
pub proof fn law_version_stands_for_its_pair(version: u64, pair: (u16, u16), made: u64)
    requires
        call_ensures(client_api_version, (version,), pair),
    ensures
        pair.0 == (version / 0x1_0000) % 0x1_0000,
        pair.1 == version % 0x1_0000,
        version < 0x1_0000_0000 ==> version == pair.0 * 0x1_0000 + pair.1,
        version < 0x1_0000_0000 && call_ensures(
            sys::MPV_MAKE_VERSION,
            (pair.0 as u64, pair.1 as u64),
            made,
        ) ==> made == version,
{
    assert({
        &&& (version >> 16u64) as u16 == (version / 0x1_0000) % 0x1_0000
        &&& (version & 0xffff) as u16 == version % 0x1_0000
    }) by (bit_vector);
    sys::law_version_is_major_and_minor(pair.0 as u64, pair.1 as u64);
}

/// A request without a text goes to the handle that it is made on, with the
/// numbers that were passed.
pub proof fn law_plain_requests_go_to_the_handle<W>(
    handle: &Handle<W>,
    raw: mpv_handle,
    call: Call,
)
    requires
        call_ensures(Handle::<W>::as_raw, (handle,), raw),
    ensures
        raw.addr != 0,
        raw == handle.spec_raw(),
        call_ensures(Handle::<W>::client_name, (handle,), call) ==> (
        call matches Call::ClientName { ctx } && ctx == raw),
        call_ensures(Handle::<W>::client_id, (handle,), call) ==> (
        call matches Call::ClientId { ctx } && ctx == raw),
        call_ensures(Handle::<W>::get_time_ns, (handle,), call) ==> (
        call matches Call::GetTimeNs { ctx } && ctx == raw),
        call_ensures(Handle::<W>::get_time_us, (handle,), call) ==> (
        call matches Call::GetTimeUs { ctx } && ctx == raw),
        call_ensures(Handle::<W>::wakeup, (handle,), call) ==> (
        call matches Call::Wakeup { ctx } && ctx == raw),
        call_ensures(Handle::<W>::wait_async_requests, (handle,), call) ==> (
        call matches Call::WaitAsyncRequests { ctx } && ctx == raw),
        call_ensures(Handle::<W>::set_wakeup_callback, (handle,), call) ==> (
        call matches Call::SetWakeupCallback { ctx, set } && ctx == raw && set),
        call_ensures(Handle::<W>::clear_wakeup_callback, (handle,), call) ==> (
        call matches Call::SetWakeupCallback { ctx, set } && ctx == raw && !set),
        forall|n: u64| #[trigger]
            call_ensures(Handle::<W>::unobserve_property, (handle, n), call) ==> (
            call matches Call::UnobserveProperty { ctx, userdata } && ctx == raw && userdata == n),
        forall|n: u64| #[trigger]
            call_ensures(Handle::<W>::abort_async_command, (handle, n), call) ==> (
            call matches Call::AbortAsyncCommand { ctx, userdata } && ctx == raw && userdata == n),
        forall|n: u64| #[trigger]
            call_ensures(Handle::<W>::hook_continue, (handle, n), call) ==> (
            call matches Call::HookContinue { ctx, id } && ctx == raw && id == n),
        forall|id: i32, on: bool| #[trigger]
            call_ensures(Handle::<W>::request_event, (handle, id, on), call) ==> (
            call matches Call::RequestEvent { ctx, event_id, enable } && ctx == raw && event_id
                == id && (on ==> enable == 1) && (!on ==> enable == 0)),
        forall|seconds: Double| #[trigger]
            call_ensures(Handle::<W>::wait_event, (handle, seconds), call) ==> (
            call matches Call::WaitEvent { ctx, timeout } && ctx == raw && timeout.bits
                == seconds.bits),
        call_ensures(Handle::<W>::poll_event, (handle,), call) ==> (
        call matches Call::WaitEvent { ctx, timeout } && ctx == raw && timeout.bits == 0),
{
}

/// A property is read through the handle, under its own name, in the format of
/// the type it is read as; only a name with a NUL is refused.
pub proof fn law_property_is_read_by_name<W, T: GetProperty>(
    handle: &Handle<W>,
    name: &str,
    r: Result<Call>,
)
    requires
        call_ensures(Handle::<W>::get_property::<T>, (handle, name), r),
    ensures
        match r {
            Ok(call) => !name@.contains('\0') && (call matches Call::GetProperty {
                ctx,
                name: to,
                format,
            }
                && ctx == handle.spec_raw()
                && to@ == encode_utf8(name@)
                && format == T::spec_format().code()),
            Err(e) => name@.contains('\0') && e == Error::InteriorNul,
        },
{
}

/// A property is requested through the handle, under its own name and number, in
/// the format of the type its reply is read as; only a name with a NUL is
/// refused.
pub proof fn law_property_is_requested_by_name<W, T: GetProperty>(
    handle: &Handle<W>,
    number: u64,
    name: &str,
    r: Result<Call>,
)
    requires
        call_ensures(Handle::<W>::get_property_async::<T>, (handle, number, name), r),
    ensures
        match r {
            Ok(call) => !name@.contains('\0') && (call matches Call::GetPropertyAsync {
                ctx,
                userdata,
                name: to,
                format,
            }
                && ctx == handle.spec_raw()
                && userdata == number
                && to@ == encode_utf8(name@)
                && format == T::spec_format().code()),
            Err(e) => name@.contains('\0') && e == Error::InteriorNul,
        },
{
}

/// A property is observed through the handle, under its own name and number, in
/// the format that was asked for; only a name with a NUL is refused.
pub proof fn law_property_is_observed_by_name<W>(
    handle: &Handle<W>,
    number: u64,
    name: &str,
    wanted: Format,
    r: Result<Call>,
)
    requires
        call_ensures(Handle::<W>::observe_property, (handle, number, name, wanted), r),
    ensures
        match r {
            Ok(call) => !name@.contains('\0') && (call matches Call::ObserveProperty {
                ctx,
                userdata,
                name: to,
                format,
            }
                && ctx == handle.spec_raw()
                && userdata == number
                && to@ == encode_utf8(name@)
                && format == wanted.code()),
            Err(e) => name@.contains('\0') && e == Error::InteriorNul,
        },
{
}

/// A property is read as OSD string through the handle, under its own name; only
/// a name with a NUL is refused.
pub proof fn law_osd_string_is_read_by_name<W>(
    handle: &Handle<W>,
    name: &str,
    r: Result<Call>,
)
    requires
        call_ensures(Handle::<W>::get_property_osd_string, (handle, name), r),
    ensures
        match r {
            Ok(call) => !name@.contains('\0') && (call matches Call::GetPropertyOsdString {
                ctx,
                name: to,
            }
                && ctx == handle.spec_raw()
                && to@ == encode_utf8(name@)),
            Err(e) => name@.contains('\0') && e == Error::InteriorNul,
        },
{
}

/// A property is deleted through the handle, under its own name; only a name
/// with a NUL is refused.
pub proof fn law_property_is_deleted_by_name<W>(
    handle: &Handle<W>,
    name: &str,
    r: Result<Call>,
)
    requires
        call_ensures(Handle::<W>::del_property, (handle, name), r),
    ensures
        match r {
            Ok(call) => !name@.contains('\0') && (call matches Call::DelProperty {
                ctx,
                name: to,
            }
                && ctx == handle.spec_raw()
                && to@ == encode_utf8(name@)),
            Err(e) => name@.contains('\0') && e == Error::InteriorNul,
        },
{
}

/// A command in one string is run through the handle as it is; only one with a
/// NUL is refused.
pub proof fn law_command_string_is_passed_on<W>(
    handle: &Handle<W>,
    text: &str,
    r: Result<Call>,
)
    requires
        call_ensures(Handle::<W>::command_string, (handle, text), r),
    ensures
        match r {
            Ok(call) => !text@.contains('\0') && (call matches Call::CommandString {
                ctx,
                command,
            }
                && ctx == handle.spec_raw()
                && command@ == encode_utf8(text@)),
            Err(e) => text@.contains('\0') && e == Error::InteriorNul,
        },
{
}

/// Log messages are requested through the handle from the level that was named;
/// only a name with a NUL is refused.
pub proof fn law_log_level_is_passed_on<W>(
    handle: &Handle<W>,
    level: &str,
    r: Result<Call>,
)
    requires
        call_ensures(Handle::<W>::request_log_messages, (handle, level), r),
    ensures
        match r {
            Ok(call) => !level@.contains('\0') && (call matches Call::RequestLogMessages {
                ctx,
                min_level,
            }
                && ctx == handle.spec_raw()
                && min_level@ == encode_utf8(level@)),
            Err(e) => level@.contains('\0') && e == Error::InteriorNul,
        },
{
}

/// A hook is added through the handle, under its own name and number, with its
/// priority; only a name with a NUL is refused.
pub proof fn law_hook_is_added_by_name<W>(
    handle: &Handle<W>,
    number: u64,
    name: &str,
    rank: i32,
    r: Result<Call>,
)
    requires
        call_ensures(Handle::<W>::hook_add, (handle, number, name, rank), r),
    ensures
        match r {
            Ok(call) => !name@.contains('\0') && (call matches Call::HookAdd {
                ctx,
                userdata,
                name: to,
                priority,
            }
                && ctx == handle.spec_raw()
                && userdata == number
                && to@ == encode_utf8(name@)
                && priority == rank),
            Err(e) => name@.contains('\0') && e == Error::InteriorNul,
        },
{
}

/// A config file is loaded through the handle from the path that was given; one
/// that is not Unicode is an invalid parameter, and one with a NUL is refused.
pub proof fn law_config_file_is_loaded_by_path<W>(
    handle: &Handle<W>,
    path: Option<&str>,
    r: Result<Call>,
)
    requires
        call_ensures(Handle::<W>::load_config_file, (handle, path), r),
    ensures
        match (path, r) {
            (None, Err(e)) => e == Error::InvalidParameter,
            (Some(p), Err(e)) => p@.contains('\0') && e == Error::InteriorNul,
            (Some(p), Ok(call)) => !p@.contains('\0') && (call matches Call::LoadConfigFile {
                ctx,
                filename,
            } && ctx == handle.spec_raw() && filename@ == encode_utf8(p@)),
            (None, Ok(_)) => false,
        },
{
}

/// Whether the C argument vector `a` is `args`: pointer `i` leads to the bytes
/// of argument `i`, and a null pointer comes behind the last.
pub open spec fn passes_args(a: CArgs, args: Seq<&str>) -> bool {
    &&& a.ptrs@.len() == args.len() + 1
    &&& a.ptrs@.last() is None
    &&& forall|i: int|
        0 <= i < args.len() ==> (#[trigger] a.ptrs@[i] matches Some(p) && p < a.owned@.len()
            && a.owned@[p as int]@ == encode_utf8(args[i]@))
}

/// A command is run through the handle with its arguments in their order, and
/// under its number if it is asynchronous; only an argument with a NUL is
/// refused.
pub proof fn law_command_passes_its_arguments<W>(
    handle: &Handle<W>,
    number: u64,
    args: &[&str],
    r: Result<Call>,
)
    requires
        args@.len() <= usize::MAX,
    ensures
        call_ensures(Handle::<W>::command, (handle, args), r) ==> match r {
            Ok(call) => call matches Call::Command { ctx, args: a } && ctx == handle.spec_raw()
                && passes_args(a, args@),
            Err(e) => e == Error::InteriorNul,
        },
        call_ensures(Handle::<W>::command_ret, (handle, args), r) ==> match r {
            Ok(call) => call matches Call::CommandRet { ctx, args: a } && ctx == handle.spec_raw()
                && passes_args(a, args@),
            Err(e) => e == Error::InteriorNul,
        },
        call_ensures(Handle::<W>::command_async, (handle, number, args), r) ==> match r {
            Ok(call) => call matches Call::CommandAsync { ctx, userdata, args: a } && ctx
                == handle.spec_raw() && userdata == number && passes_args(a, args@),
            Err(e) => e == Error::InteriorNul,
        },
        call_ensures(Handle::<W>::command, (handle, args), r) || call_ensures(
            Handle::<W>::command_ret,
            (handle, args),
            r,
        ) || call_ensures(Handle::<W>::command_async, (handle, number, args), r) ==> (r is Ok
            <==> forall|i: int|
            0 <= i < args@.len() ==> !(#[trigger] args@[i])@.contains('\0')),
{
    assert forall|a: CArgs| #[trigger] a.holds(args@) implies passes_args(a, args@) by {
        cstring::law_argument_vector_points_to_arguments(a, args@);
    }
}

/// A structured command is run through the handle with a valid representation of
/// its arguments, which reads back as them where their counts can be written,
/// and under its number if it is asynchronous; only a string or key with a NUL
/// is refused.
pub proof fn law_structured_command_passes_its_arguments<W>(
    handle: &Handle<W>,
    number: u64,
    args: &Node,
    r: Result<Call>,
)
    ensures
        call_ensures(Handle::<W>::command_node, (handle, args), r) ==> match r {
            Ok(call) => !args@.has_interior_nul() && (
            call matches Call::CommandNode { ctx, args: a } && ctx == handle.spec_raw()
                && a.storage.wf() && a.storage.valid(a.root)
                && a.storage.encodes(a.root, args@) && (args@.counts_fit() ==> a.storage.read(
                a.root,
            ) == args@)),
            Err(e) => args@.has_interior_nul() && e == Error::InteriorNul,
        },
        call_ensures(Handle::<W>::command_node_async, (handle, number, args), r) ==> match r {
            Ok(call) => !args@.has_interior_nul() && (call matches Call::CommandNodeAsync {
                ctx,
                userdata,
                args: a,
            } && ctx == handle.spec_raw() && userdata == number && a.storage.wf()
                && a.storage.valid(a.root) && a.storage.encodes(a.root, args@) && (
            args@.counts_fit() ==> a.storage.read(a.root) == args@)),
            Err(e) => args@.has_interior_nul() && e == Error::InteriorNul,
        },
{
    assert forall|a: NodeArg| #[trigger]
        a.encodes(args@) && !args@.has_interior_nul() && args@.counts_fit() implies a.storage.read(
        a.root,
    ) == args@ by {
        node::law_node_round_trip(a.storage, a.root, args@);
    }
}

/// A property is set through the handle, under its own name, to the value that
/// was passed, before and after the player starts; only a name or a value with a
/// NUL is refused.
pub proof fn law_property_is_set_by_name<W, V: SetProperty>(
    handle: &Handle<W>,
    builder: &Builder<W>,
    name: &str,
    value: V,
    r: Result<Call>,
)
    ensures
        call_ensures(Handle::<W>::set_property::<V>, (handle, name, value), r) ==> match r {
            Ok(call) => !name@.contains('\0') && !value.refused() && value.set_by(
                call,
                handle.spec_raw(),
                encode_utf8(name@),
            ),
            Err(e) => (name@.contains('\0') || value.refused()) && e == Error::InteriorNul,
        },
        call_ensures(Builder::<W>::set_property::<V>, (builder, name, value), r) ==> match r {
            Ok(call) => !name@.contains('\0') && !value.refused() && value.set_by(
                call,
                builder.spec_handle().spec_raw(),
                encode_utf8(name@),
            ),
            Err(e) => (name@.contains('\0') || value.refused()) && e == Error::InteriorNul,
        },
{
}

/// An asynchronous write goes through the handle, under its own name and number,
/// as a valid representation of the node that the value converts into; only a
/// name or a value with a NUL is refused.
pub proof fn law_asynchronous_write_passes_its_value<W, V: Into<Node>>(
    handle: &Handle<W>,
    number: u64,
    name: &str,
    value: V,
    r: Result<Call>,
)
    requires
        call_ensures(Handle::<W>::set_property_async::<V>, (handle, number, name, value), r),
    ensures
        name@.contains('\0') ==> (r matches Err(e) && e == Error::InteriorNul),
        !name@.contains('\0') ==> exists|node: Node| #[trigger]
            call_ensures(V::into, (value,), node) && match r {
                Ok(call) => !node@.has_interior_nul() && (call matches Call::SetPropertyAsync {
                    ctx,
                    userdata,
                    name: to,
                    format,
                    data: PropertyArg::Node(arg),
                } && ctx == handle.spec_raw() && userdata == number && to@ == encode_utf8(name@)
                    && format == 6 && arg.storage.wf() && arg.storage.valid(arg.root)
                    && arg.storage.encodes(arg.root, node@)),
                Err(e) => node@.has_interior_nul() && e == Error::InteriorNul,
            },
{
    if !name@.contains('\0') {
        let node = choose|node: Node| #[trigger]
            call_ensures(V::into, (value,), node) && refused_iff(r, node@.has_interior_nul()) && (
            r matches Ok(call) ==> (call matches Call::SetPropertyAsync {
                ctx,
                userdata: u,
                name: n,
                format,
                data: PropertyArg::Node(arg),
            } && ctx == handle.spec_raw() && u == number && c_string_of(n, name@) && format
                == Format::Node.code() && arg.encodes(node@)));
        assert(call_ensures(V::into, (value,), node));
    }
}

/// An OSD string is the text whose C string libmpv returned, whose memory is
/// then to be freed; null is a property error.
pub proof fn law_osd_string_is_what_was_returned(
    c: Option<&CString>,
    text: Seq<char>,
    done: Finished<String>,
)
    requires
        call_ensures(osd_string, (c,), done),
    ensures
        c is None ==> done.cleanup is Nothing && (done.result matches Err(e) && e
            == Error::PropertyError),
        c matches Some(c) ==> done.cleanup is Free && (done.result matches Ok(s) && s@
            == cstring::lossy_text(c@) && (!text.contains('\0') && c@ == encode_utf8(text) ==> s@
            == text)),
{
    if !text.contains('\0') {
        cstring::law_c_string_round_trip(text);
    }
}

/// The number of observations removed is the status itself, unless that is an
/// error.
pub proof fn law_removed_is_the_status(code: i32, r: Result<u32>)
    requires
        call_ensures(removed, (code,), r),
    ensures
        match r {
            Ok(n) => code >= 0 && n == code,
            Err(e) => code < 0 && e.code() == Some(code),
        },
{
    error::law_code_round_trip(code);
}

/// The result of a command is the value that the node libmpv left reads as, and
/// what that node refers to is then to be freed; a failure is the error of the
/// status, and leaves nothing to free.
pub proof fn law_command_result_is_what_was_left(
    code: i32,
    mem: &NodeStorage,
    result: &mpv_node,
    done: Finished<Node>,
)
    ensures
        mem.wf() && (code < 0 || mem.valid(*result)) ==> call_requires(
            command_result,
            (code, mem, result),
        ),
        call_ensures(command_result, (code, mem, result), done) ==> match done.result {
            Ok(node) => code >= 0 && node@ == mem.read(*result) && done.cleanup is FreeNodeContents,
            Err(e) => code < 0 && e.code() == Some(code) && done.cleanup is Nothing,
        },
{
    error::law_code_round_trip(code);
}

/// The player, an instance and a client give access to their own handle, and
/// the handle to its own wakeup slot.
pub proof fn law_handles_are_their_own<'core, W, P>(
    mpv: &Mpv<W, P>,
    builder: &Builder<W>,
    client: &Client<'core, W, P>,
    handle: &Handle<W>,
    wakeup: &W,
    protocols: &P,
)
    ensures
        call_ensures(<Mpv<W, P> as Deref>::deref, (mpv,), handle) ==> *handle == mpv.spec_handle(),
        call_ensures(<Builder<W> as Deref>::deref, (builder,), handle) ==> *handle
            == builder.spec_handle(),
        call_ensures(<Client<'core, W, P> as Deref>::deref, (client,), handle) ==> *handle
            == client.spec_handle(),
        call_ensures(Handle::<W>::wakeup_slot, (handle,), wakeup) ==> *wakeup
            == handle.spec_wakeup(),
        call_ensures(Mpv::<W, P>::protocols, (mpv,), protocols) ==> *protocols
            == mpv.spec_protocols(),
{
}

/// What ends a handle goes to that handle: a player and an instance are
/// terminated, a client is only detached. A player that is retired gives up its
/// own wakeup slot and protocols.
pub proof fn law_handles_end_themselves<'core, W, P>(
    mpv: &Mpv<W, P>,
    builder: &Builder<W>,
    client: &Client<'core, W, P>,
    call: Call,
    parts: (W, P),
)
    ensures
        call_ensures(Mpv::<W, P>::terminate, (mpv,), call) ==> (
        call matches Call::TerminateDestroy { ctx } && ctx == mpv.spec_handle().spec_raw()),
        call_ensures(Builder::<W>::terminate, (builder,), call) ==> (
        call matches Call::TerminateDestroy { ctx } && ctx == builder.spec_handle().spec_raw()),
        call_ensures(Client::<'core, W, P>::destroy, (client,), call) ==> (
        call matches Call::Destroy { ctx } && ctx == client.spec_handle().spec_raw()),
        call_ensures(Mpv::<W, P>::retire, (*mpv,), parts) ==> parts.0
            == mpv.spec_handle().spec_wakeup() && parts.1 == mpv.spec_protocols(),
{
}

/// A client is asked for through the player, under the name that was given or
/// under none, as a strong or a weak reference as asked; only a name with a NUL
/// is refused.
pub proof fn law_client_is_asked_for_by_name<W, P>(
    mpv: &Mpv<W, P>,
    name: Option<&str>,
    r: Result<Call>,
)
    ensures
        call_ensures(Mpv::<W, P>::create_client, (mpv, name), r) ==> match r {
            Ok(call) => call matches Call::CreateClient { ctx, name: c } && ctx
                == mpv.spec_handle().spec_raw() && match (name, c) {
                (Some(s), Some(c)) => !s@.contains('\0') && c@ == encode_utf8(s@),
                (None, None) => true,
                _ => false,
            },
            Err(e) => name is Some && name->0@.contains('\0') && e == Error::InteriorNul,
        },
        call_ensures(Mpv::<W, P>::create_weak_client, (mpv, name), r) ==> match r {
            Ok(call) => call matches Call::CreateWeakClient { ctx, name: c } && ctx
                == mpv.spec_handle().spec_raw() && match (name, c) {
                (Some(s), Some(c)) => !s@.contains('\0') && c@ == encode_utf8(s@),
                (None, None) => true,
                _ => false,
            },
            Err(e) => name is Some && name->0@.contains('\0') && e == Error::InteriorNul,
        },
{
}

/// A client is the handle that libmpv returned, with a new wakeup slot; null is
/// a failed creation.
pub proof fn law_client_is_the_handle_returned<W: Default, P: Default>(
    mpv: &Mpv<W, P>,
    raw: mpv_handle,
    r: Result<Client<'_, W, P>>,
)
    requires
        call_ensures(Mpv::<W, P>::client_created, (mpv, raw), r),
    ensures
        match r {
            Ok(client) => raw.addr != 0 && client.spec_handle().spec_raw() == raw && call_ensures(
                W::default,
                (),
                client.spec_handle().spec_wakeup(),
            ),
            Err(e) => raw.addr == 0 && e == Error::CreateFailed,
        },
{
}

/// A protocol is registered with the player under its own name; only a name with
/// a NUL is refused.
pub proof fn law_protocol_is_registered_by_name<W, P>(
    mpv: &Mpv<W, P>,
    name: &str,
    r: Result<Call>,
)
    requires
        call_ensures(Mpv::<W, P>::register_protocol, (mpv, name), r),
    ensures
        match r {
            Ok(call) => !name@.contains('\0') && (
            call matches Call::StreamCbAddRo { ctx, protocol } && ctx
                == mpv.spec_handle().spec_raw() && protocol@ == encode_utf8(name@)),
            Err(e) => name@.contains('\0') && e == Error::InteriorNul,
        },
{
}

/// Both ways to start begin by creating an instance. If that gives none, the
/// start has failed and nothing is left to do. Otherwise a player goes on to
/// initialize the instance that was created, and a builder is left with it; its
/// wakeup slot is new.
pub proof fn law_start_creates_an_instance<W: Default, P: Default>(
    new: Startup<W, P>,
    builder: Startup<W, P>,
    raw: mpv_handle,
    new_next: Startup<W, P>,
    builder_next: Startup<W, P>,
)
    requires
        call_ensures(Mpv::<W, P>::new, (), new),
        call_ensures(Mpv::<W, P>::builder, (), builder),
        call_ensures(Startup::<W, P>::resume, (new, Reply::Handle(raw)), new_next),
        call_ensures(Startup::<W, P>::resume, (builder, Reply::Handle(raw)), builder_next),
    ensures
        new.spec_call() matches Some(call) && call is Create,
        builder.spec_call() matches Some(call) && call is Create,
        call_requires(Startup::<W, P>::resume, (new, Reply::Handle(raw))),
        call_requires(Startup::<W, P>::resume, (builder, Reply::Handle(raw))),
        raw.addr == 0 ==> {
            &&& new_next matches Startup::Failed { error, released }
            &&& error == Error::CreateFailed
            &&& released is None
            &&& new_next.spec_call() is None
        },
        raw.addr == 0 ==> {
            &&& builder_next matches Startup::Failed { error, released }
            &&& error == Error::CreateFailed
            &&& released is None
            &&& builder_next.spec_call() is None
        },
        raw.addr != 0 ==> {
            &&& new_next matches Startup::Initialize(b)
            &&& b.spec_handle().spec_raw() == raw
            &&& call_ensures(W::default, (), b.spec_handle().spec_wakeup())
            &&& new_next.spec_call() == Some(Call::Initialize { ctx: raw })
        },
        raw.addr != 0 ==> {
            &&& builder_next matches Startup::Created(b)
            &&& b.spec_handle().spec_raw() == raw
            &&& call_ensures(W::default, (), b.spec_handle().spec_wakeup())
            &&& builder_next.spec_call() is None
        },
{
}

/// Building initializes the instance. Success makes it the player, with the
/// same handle and new protocols. Failure terminates the instance and ends with
/// the error of the status, giving back the wakeup slot.
pub proof fn law_build_initializes_or_terminates<W: Default, P: Default>(
    builder: Builder<W>,
    start: Startup<W, P>,
    code: i32,
    next: Startup<W, P>,
    last: Startup<W, P>,
)
    requires
        call_ensures(Builder::<W>::build::<P>, (builder,), start),
        call_ensures(Startup::<W, P>::resume, (start, Reply::Code(code)), next),
    ensures
        start.spec_call() == Some(Call::Initialize { ctx: builder.spec_handle().spec_raw() }),
        call_requires(Startup::<W, P>::resume, (start, Reply::Code(code))),
        code >= 0 ==> {
            &&& next matches Startup::Running(mpv)
            &&& mpv.spec_handle() == builder.spec_handle()
            &&& call_ensures(P::default, (), mpv.spec_protocols())
            &&& next.spec_call() is None
        },
        code < 0 ==> {
            &&& next.spec_call() == Some(
                Call::TerminateDestroy { ctx: builder.spec_handle().spec_raw() },
            )
            &&& call_requires(Startup::<W, P>::resume, (next, Reply::Nothing))
            &&& call_ensures(Startup::<W, P>::resume, (next, Reply::Nothing), last) ==> (
            last matches Startup::Failed { error, released } && error.code() == Some(code)
                && released == Some(builder.spec_handle().spec_wakeup())
                && last.spec_call() is None)
        },
{
    error::law_code_round_trip(code);
}

/// A start makes the call that its state says.
pub proof fn law_start_makes_its_call<W, P>(start: &Startup<W, P>, call: Option<Call>)
    requires
        call_ensures(Startup::<W, P>::call, (start,), call),
    ensures
        call == start.spec_call(),
        match (*start, call) {
            (Startup::Create { .. }, Some(Call::Create)) => true,
            (Startup::Initialize(b), Some(Call::Initialize { ctx })) => ctx
                == b.spec_handle().spec_raw(),
            (Startup::Terminate { builder: b, .. }, Some(Call::TerminateDestroy { ctx })) => ctx
                == b.spec_handle().spec_raw(),
            (Startup::Created(_), None) => true,
            (Startup::Running(_), None) => true,
            (Startup::Failed { .. }, None) => true,
            _ => false,
        },
{
}

} // verus!
