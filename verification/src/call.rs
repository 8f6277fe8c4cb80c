//! Calls into libmpv as values.
//!
//! The library decides which function is called with which arguments; whoever
//! holds the C library performs the [`Call`] and hands the reply back.

use vstd::prelude::*;

use crate::cstring::{CArgs, CString};
use crate::error::{Error, Result};
use crate::node;
use crate::node::{Node, NodeStorage, NodeView};
use crate::render::RenderParam;
use crate::sys::{
    mpv_event_id, mpv_format, mpv_handle, mpv_node, mpv_render_context, mpv_render_param_type,
    Double,
};

verus! {

/// A raw node to pass to libmpv, with the storage that owns its allocations.
pub struct NodeArg {
    pub storage: NodeStorage,
    pub root: mpv_node,
}

impl NodeArg {
    /// Whether this is the C representation of `v`.
    pub open spec fn encodes(self, v: NodeView) -> bool {
        self.storage.wf() && self.storage.valid(self.root) && self.storage.encodes(self.root, v)
    }
}

impl NodeArg {
    /// The C representation of `node`; fails if a string of it holds a NUL.
    pub fn new(node: &Node) -> (r: Result<NodeArg>)
        ensures
            r is Err <==> node@.has_interior_nul(),
            r matches Err(e) ==> e == Error::InteriorNul,
            r matches Ok(arg) ==> arg.encodes(node@),
    {
        let mut storage = NodeStorage::new();
        match storage.build(node) {
            Ok(root) => Ok(NodeArg { storage, root }),
            Err(e) => Err(e),
        }
    }
}

/// What the `data` argument of a property write points to.
pub enum PropertyArg {
    Flag(i32),
    Int64(i64),
    Double(Double),
    Node(NodeArg),
}

/// A call of a libmpv function with its arguments.
pub enum Call {
    /// `mpv_create`
    Create,
    /// `mpv_initialize`
    Initialize { ctx: mpv_handle },
    /// `mpv_destroy`
    Destroy { ctx: mpv_handle },
    /// `mpv_terminate_destroy`
    TerminateDestroy { ctx: mpv_handle },
    /// `mpv_create_client`
    CreateClient { ctx: mpv_handle, name: Option<CString> },
    /// `mpv_create_weak_client`
    CreateWeakClient { ctx: mpv_handle, name: Option<CString> },
    /// `mpv_client_name`
    ClientName { ctx: mpv_handle },
    /// `mpv_client_id`
    ClientId { ctx: mpv_handle },
    /// `mpv_get_time_ns`
    GetTimeNs { ctx: mpv_handle },
    /// `mpv_get_time_us`
    GetTimeUs { ctx: mpv_handle },
    /// `mpv_load_config_file`
    LoadConfigFile { ctx: mpv_handle, filename: CString },
    /// `mpv_get_property`
    GetProperty { ctx: mpv_handle, name: CString, format: mpv_format },
    /// `mpv_get_property_osd_string`
    GetPropertyOsdString { ctx: mpv_handle, name: CString },
    /// `mpv_set_property`
    SetProperty { ctx: mpv_handle, name: CString, format: mpv_format, data: PropertyArg },
    /// `mpv_set_property_string`
    SetPropertyString { ctx: mpv_handle, name: CString, data: CString },
    /// `mpv_del_property`
    DelProperty { ctx: mpv_handle, name: CString },
    /// `mpv_get_property_async`
    GetPropertyAsync { ctx: mpv_handle, userdata: u64, name: CString, format: mpv_format },
    /// `mpv_set_property_async`
    SetPropertyAsync {
        ctx: mpv_handle,
        userdata: u64,
        name: CString,
        format: mpv_format,
        data: PropertyArg,
    },
    /// `mpv_observe_property`
    ObserveProperty { ctx: mpv_handle, userdata: u64, name: CString, format: mpv_format },
    /// `mpv_unobserve_property`
    UnobserveProperty { ctx: mpv_handle, userdata: u64 },
    /// `mpv_command`
    Command { ctx: mpv_handle, args: CArgs },
    /// `mpv_command_ret`
    CommandRet { ctx: mpv_handle, args: CArgs },
    /// `mpv_command_string`
    CommandString { ctx: mpv_handle, command: CString },
    /// `mpv_command_async`
    CommandAsync { ctx: mpv_handle, userdata: u64, args: CArgs },
    /// `mpv_command_node`
    CommandNode { ctx: mpv_handle, args: NodeArg },
    /// `mpv_command_node_async`
    CommandNodeAsync { ctx: mpv_handle, userdata: u64, args: NodeArg },
    /// `mpv_abort_async_command`
    AbortAsyncCommand { ctx: mpv_handle, userdata: u64 },
    /// `mpv_request_event`
    RequestEvent { ctx: mpv_handle, event_id: mpv_event_id, enable: i32 },
    /// `mpv_request_log_messages`
    RequestLogMessages { ctx: mpv_handle, min_level: CString },
    /// `mpv_wait_event`
    WaitEvent { ctx: mpv_handle, timeout: Double },
    /// `mpv_wakeup`
    Wakeup { ctx: mpv_handle },
    /// `mpv_wait_async_requests`
    WaitAsyncRequests { ctx: mpv_handle },
    /// `mpv_hook_add`
    HookAdd { ctx: mpv_handle, userdata: u64, name: CString, priority: i32 },
    /// `mpv_hook_continue`
    HookContinue { ctx: mpv_handle, id: u64 },
    /// `mpv_set_wakeup_callback`, with the callback slot or with null.
    SetWakeupCallback { ctx: mpv_handle, set: bool },
    /// `mpv_stream_cb_add_ro`
    StreamCbAddRo { ctx: mpv_handle, protocol: CString },
    /// `mpv_render_context_create`
    RenderContextCreate { mpv: mpv_handle, params: Vec<RenderParam> },
    /// `mpv_render_context_get_info`
    RenderContextGetInfo { ctx: mpv_render_context, type_: mpv_render_param_type },
    /// `mpv_render_context_set_update_callback`, with the callback slot or
    /// with null.
    RenderContextSetUpdateCallback { ctx: mpv_render_context, set: bool },
    /// `mpv_render_context_update`
    RenderContextUpdate { ctx: mpv_render_context },
    /// `mpv_render_context_render`
    RenderContextRender { ctx: mpv_render_context, params: Vec<RenderParam> },
    /// `mpv_render_context_report_swap`
    RenderContextReportSwap { ctx: mpv_render_context },
    /// `mpv_render_context_free`
    RenderContextFree { ctx: mpv_render_context },
}

/// What must be released after the value of a reply was copied.
#[derive(Debug, Clone, Copy, PartialEq, Eq, Structural)]
pub enum Cleanup {
    /// Nothing.
    Nothing,
    /// The memory of a string, with `mpv_free`.
    Free,
    /// What a node refers to, with `mpv_free_node_contents`.
    FreeNodeContents,
}

/// The outcome of a call whose reply carries a value.
#[derive(Debug)]
pub struct Finished<T> {
    pub result: Result<T>,
    pub cleanup: Cleanup,
}

/// The argument made of a node is a valid tree in a storage of its own, which
/// holds the representation of the value of the node and reads back as it where
/// its counts can be written; only a string or key with a NUL makes none.
pub proof fn law_node_argument_is_its_value(node: &Node, r: Result<NodeArg>)
    requires
        call_ensures(NodeArg::new, (node,), r),
    ensures
        r is Err <==> node@.has_interior_nul(),
        r matches Err(e) ==> e == Error::InteriorNul,
        r matches Ok(arg) ==> {
            &&& arg.encodes(node@)
            &&& arg.storage.wf()
            &&& arg.storage.valid(arg.root)
            &&& arg.storage.encodes(arg.root, node@)
            &&& node@.counts_fit() ==> arg.storage.read(arg.root) == node@
        },
{
    if let Ok(arg) = r {
        if node@.counts_fit() {
            node::law_node_round_trip(arg.storage, arg.root, node@);
        }
    }
}

/// What it is for an argument to be the representation of a value.
pub proof fn law_node_argument_encodes(arg: NodeArg, v: NodeView)
    ensures
        arg.encodes(v) <==> arg.storage.wf() && arg.storage.valid(arg.root) && arg.storage.encodes(
            arg.root,
            v,
        ),
{
}

} // verus!
