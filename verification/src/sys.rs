//! The libmpv client API as plain values: the numeric constants of the C
//! headers, and its structs with every pointer replaced by a reference into a
//! [`NodeStorage`](crate::node::NodeStorage).
//!
//! A reference is the index of an allocation of the storage, and `None` stands
//! for the null pointer. An enum of the C API is an integer alias with
//! constants, so that values added by later mpv releases stay representable.
#![allow(non_camel_case_types)]
#![allow(non_snake_case)]

use vstd::prelude::*;

verus! {

/// What `MPV_MAKE_VERSION` computes: the major version in the bits above the
/// low 16, the minor version in the bits below.
pub open spec fn make_version(major: u64, minor: u64) -> u64 {
    (major << 16u64) | minor
}

/// Build a client API version number from a major/minor pair.
pub fn MPV_MAKE_VERSION(major: u64, minor: u64) -> (version: u64)
    ensures
        version == make_version(major, minor),
{
    (major << 16u64) | minor
}

/// The client API version these values were written against.
pub const MPV_CLIENT_API_VERSION: u64 = (2u64 << 16u64) | 5u64;

/// Opaque client handle: the address that libmpv returned, `0` for null.
#[derive(Debug, Clone, Copy, PartialEq, Eq, Structural)]
pub struct mpv_handle {
    pub addr: usize,
}

/// Error codes returned by API functions. `0` and positive values always mean
/// success, negative values are always errors.
pub type mpv_error = i32;

/// No error / success.
pub const MPV_ERROR_SUCCESS: mpv_error = 0;
/// The event ringbuffer is full; the client can't receive any more events.
pub const MPV_ERROR_EVENT_QUEUE_FULL: mpv_error = -1;
/// Memory allocation failed.
pub const MPV_ERROR_NOMEM: mpv_error = -2;
/// The mpv core has not been configured and initialized yet.
pub const MPV_ERROR_UNINITIALIZED: mpv_error = -3;
/// Catch-all for invalid or unsupported parameter values.
pub const MPV_ERROR_INVALID_PARAMETER: mpv_error = -4;
/// Tried to set an option that doesn't exist.
pub const MPV_ERROR_OPTION_NOT_FOUND: mpv_error = -5;
/// Tried to set an option using an unsupported format.
pub const MPV_ERROR_OPTION_FORMAT: mpv_error = -6;
/// Setting the option failed (e.g. the value could not be parsed).
pub const MPV_ERROR_OPTION_ERROR: mpv_error = -7;
/// The accessed property doesn't exist.
pub const MPV_ERROR_PROPERTY_NOT_FOUND: mpv_error = -8;
/// Tried to get/set a property using an unsupported format.
pub const MPV_ERROR_PROPERTY_FORMAT: mpv_error = -9;
/// The property exists but is currently unavailable.
pub const MPV_ERROR_PROPERTY_UNAVAILABLE: mpv_error = -10;
/// Error getting or setting a property.
pub const MPV_ERROR_PROPERTY_ERROR: mpv_error = -11;
/// Error running a command.
pub const MPV_ERROR_COMMAND: mpv_error = -12;
/// Generic loading error (usually seen in `mpv_event_end_file.error`).
pub const MPV_ERROR_LOADING_FAILED: mpv_error = -13;
/// Initializing the audio output failed.
pub const MPV_ERROR_AO_INIT_FAILED: mpv_error = -14;
/// Initializing the video output failed.
pub const MPV_ERROR_VO_INIT_FAILED: mpv_error = -15;
/// No audio or video data to play (or no streams selected).
pub const MPV_ERROR_NOTHING_TO_PLAY: mpv_error = -16;
/// File format could not be determined, or the file was too broken to open.
pub const MPV_ERROR_UNKNOWN_FORMAT: mpv_error = -17;
/// Certain system requirements are not fulfilled.
pub const MPV_ERROR_UNSUPPORTED: mpv_error = -18;
/// The called API function is only a stub.
pub const MPV_ERROR_NOT_IMPLEMENTED: mpv_error = -19;
/// Unspecified error.
pub const MPV_ERROR_GENERIC: mpv_error = -20;

/// Data format used by the property accessors and [`mpv_node`].
pub type mpv_format = i32;

/// Invalid/empty.
pub const MPV_FORMAT_NONE: mpv_format = 0;
/// The raw property string.
pub const MPV_FORMAT_STRING: mpv_format = 1;
/// The human-readable OSD string. Read access only.
pub const MPV_FORMAT_OSD_STRING: mpv_format = 2;
/// An `int`; only `0` ("no") and `1` ("yes") are allowed.
pub const MPV_FORMAT_FLAG: mpv_format = 3;
/// An `int64_t`.
pub const MPV_FORMAT_INT64: mpv_format = 4;
/// A `double`.
pub const MPV_FORMAT_DOUBLE: mpv_format = 5;
/// An [`mpv_node`].
pub const MPV_FORMAT_NODE: mpv_format = 6;
/// Only used inside [`mpv_node`]: an array.
pub const MPV_FORMAT_NODE_ARRAY: mpv_format = 7;
/// Only used inside [`mpv_node`]: a map.
pub const MPV_FORMAT_NODE_MAP: mpv_format = 8;
/// Only used inside [`mpv_node`]: a raw, untyped byte array.
pub const MPV_FORMAT_BYTE_ARRAY: mpv_format = 9;

/// A double, held as its IEEE 754 binary64 bit pattern. `==` compares the
/// numbers, not the bits: the two zeros are equal, and a NaN equals nothing.
#[derive(Debug, Clone, Copy)]
pub struct Double {
    pub bits: u64,
}

impl Double {
    /// The bits of the absolute value.
    pub open spec fn magnitude(self) -> u64 {
        self.bits & 0x7fff_ffff_ffff_ffff
    }

    /// Whether this is not a number: the magnitude is above that of infinity.
    pub open spec fn is_nan(self) -> bool {
        self.magnitude() > 0x7ff0_0000_0000_0000
    }

    /// Whether the two are the same number: neither is a NaN, and they have the
    /// same bits or are both zero.
    pub open spec fn same_number(self, other: Double) -> bool {
        &&& !self.is_nan()
        &&& !other.is_nan()
        &&& self.bits == other.bits || (self.magnitude() == 0 && other.magnitude() == 0)
    }
}

impl PartialEq for Double {
    fn eq(&self, other: &Double) -> (same: bool) {
        let a: u64 = self.bits & 0x7fff_ffff_ffff_ffff;
        let b: u64 = other.bits & 0x7fff_ffff_ffff_ffff;
        a <= 0x7ff0_0000_0000_0000 && b <= 0x7ff0_0000_0000_0000 && (self.bits == other.bits || (a
            == 0 && b == 0))
    }
}

impl vstd::std_specs::cmp::PartialEqSpecImpl for Double {
    open spec fn obeys_eq_spec() -> bool {
        true
    }

    open spec fn eq_spec(&self, other: &Double) -> bool {
        self.same_number(*other)
    }
}

/// The value of an [`mpv_node`]: the member of the C union that was written.
#[derive(Debug, Clone, Copy, PartialEq)]
pub enum mpv_node_u {
    /// A C string of the storage.
    string(usize),
    flag(i32),
    int64(i64),
    double_(Double),
    /// An [`mpv_node_list`] of the storage.
    list(usize),
    /// An [`mpv_byte_array`] of the storage.
    ba(usize),
}

/// Generic data storage for properties, command arguments, and command
/// results.
#[derive(Debug, Clone, Copy, PartialEq)]
pub struct mpv_node {
    pub u: mpv_node_u,
    /// Says which member of `u` is valid. Unknown values are opaque.
    pub format: mpv_format,
}

/// An array or map of [`mpv_node`] values.
#[derive(Debug, Clone, Copy, PartialEq, Eq, Structural)]
pub struct mpv_node_list {
    /// Number of entries.
    pub num: i32,
    /// The node array of the storage whose first `num` nodes are the values.
    /// May be null if `num` is `0`.
    pub values: Option<usize>,
    /// For maps only: the key array of the storage whose first `num` entries
    /// are the keys.
    pub keys: Option<usize>,
}

/// A raw byte array.
#[derive(Debug, Clone, Copy, PartialEq, Eq, Structural)]
pub struct mpv_byte_array {
    /// The byte block of the storage that holds the data.
    pub data: Option<usize>,
    /// Size of the data in bytes.
    pub size: usize,
}

/// Event IDs of [`mpv_event`].
pub type mpv_event_id = i32;

/// Nothing happened (timeout or spurious wakeup).
pub const MPV_EVENT_NONE: mpv_event_id = 0;
/// The player is quitting.
pub const MPV_EVENT_SHUTDOWN: mpv_event_id = 1;
/// A log message.
pub const MPV_EVENT_LOG_MESSAGE: mpv_event_id = 2;
/// Reply to an asynchronous property read.
pub const MPV_EVENT_GET_PROPERTY_REPLY: mpv_event_id = 3;
/// Reply to an asynchronous property write (no event data).
pub const MPV_EVENT_SET_PROPERTY_REPLY: mpv_event_id = 4;
/// Reply to an asynchronous command.
pub const MPV_EVENT_COMMAND_REPLY: mpv_event_id = 5;
/// Sent before playback start of a file.
pub const MPV_EVENT_START_FILE: mpv_event_id = 6;
/// Sent after playback end of a file.
pub const MPV_EVENT_END_FILE: mpv_event_id = 7;
/// The file has been loaded and decoding starts.
pub const MPV_EVENT_FILE_LOADED: mpv_event_id = 8;
/// Idle mode was entered (deprecated upstream).
pub const MPV_EVENT_IDLE: mpv_event_id = 11;
/// Sent after a video frame was displayed (deprecated upstream).
pub const MPV_EVENT_TICK: mpv_event_id = 14;
/// Triggered by the `script-message` input command.
pub const MPV_EVENT_CLIENT_MESSAGE: mpv_event_id = 16;
/// Video was reconfigured.
pub const MPV_EVENT_VIDEO_RECONFIG: mpv_event_id = 17;
/// Audio was reconfigured.
pub const MPV_EVENT_AUDIO_RECONFIG: mpv_event_id = 18;
/// A seek was initiated.
pub const MPV_EVENT_SEEK: mpv_event_id = 20;
/// Playback was reinitialized after a discontinuity.
pub const MPV_EVENT_PLAYBACK_RESTART: mpv_event_id = 21;
/// An observed property may have changed.
pub const MPV_EVENT_PROPERTY_CHANGE: mpv_event_id = 22;
/// The event ringbuffer overflowed and at least one event was dropped.
pub const MPV_EVENT_QUEUE_OVERFLOW: mpv_event_id = 24;
/// A hook was invoked.
pub const MPV_EVENT_HOOK: mpv_event_id = 25;

/// What the `data` pointer of a property event points to, laid out as the
/// out-argument of a property read with the same format.
#[derive(Debug, Clone, Copy, PartialEq)]
pub enum mpv_property_value {
    /// A `char*`: a C string of the storage, or null.
    string(Option<usize>),
    flag(i32),
    int64(i64),
    double_(Double),
    node(mpv_node),
}

/// Event data for property replies and property changes.
#[derive(Debug, Clone, Copy, PartialEq)]
pub struct mpv_event_property {
    /// Name of the property.
    pub name: Option<usize>,
    /// Format of `data`.
    pub format: mpv_format,
    /// The property value; null when `format` is [`MPV_FORMAT_NONE`].
    pub data: Option<mpv_property_value>,
}

/// Numeric log levels. Lower values are more important.
pub type mpv_log_level = i32;

/// `"no"`: disable all messages.
pub const MPV_LOG_LEVEL_NONE: mpv_log_level = 0;
/// `"fatal"`: critical/aborting errors.
pub const MPV_LOG_LEVEL_FATAL: mpv_log_level = 10;
/// `"error"`: simple errors.
pub const MPV_LOG_LEVEL_ERROR: mpv_log_level = 20;
/// `"warn"`: possible problems.
pub const MPV_LOG_LEVEL_WARN: mpv_log_level = 30;
/// `"info"`: informational messages.
pub const MPV_LOG_LEVEL_INFO: mpv_log_level = 40;
/// `"v"`: noisy informational messages.
pub const MPV_LOG_LEVEL_V: mpv_log_level = 50;
/// `"debug"`: very noisy technical information.
pub const MPV_LOG_LEVEL_DEBUG: mpv_log_level = 60;
/// `"trace"`: extremely noisy.
pub const MPV_LOG_LEVEL_TRACE: mpv_log_level = 70;

/// Event data for [`MPV_EVENT_LOG_MESSAGE`].
#[derive(Debug, Clone, Copy, PartialEq, Eq, Structural)]
pub struct mpv_event_log_message {
    /// Module prefix identifying the sender.
    pub prefix: Option<usize>,
    /// The log level as a string.
    pub level: Option<usize>,
    /// One line of text, terminated with a newline character.
    pub text: Option<usize>,
    /// Same as `level`, as a number.
    pub log_level: mpv_log_level,
}

/// Reason codes for [`mpv_event_end_file`].
pub type mpv_end_file_reason = i32;

/// The end of the file was reached.
pub const MPV_END_FILE_REASON_EOF: mpv_end_file_reason = 0;
/// Playback was stopped by an external action.
pub const MPV_END_FILE_REASON_STOP: mpv_end_file_reason = 2;
/// Playback was stopped by the `quit` command or player shutdown.
pub const MPV_END_FILE_REASON_QUIT: mpv_end_file_reason = 3;
/// An error caused playback to abort.
pub const MPV_END_FILE_REASON_ERROR: mpv_end_file_reason = 4;
/// The file was a playlist whose entries replaced it.
pub const MPV_END_FILE_REASON_REDIRECT: mpv_end_file_reason = 5;

/// Event data for [`MPV_EVENT_START_FILE`].
#[derive(Debug, Clone, Copy, PartialEq, Eq, Structural)]
pub struct mpv_event_start_file {
    /// Playlist entry ID of the file being loaded.
    pub playlist_entry_id: i64,
}

/// Event data for [`MPV_EVENT_END_FILE`].
#[derive(Debug, Clone, Copy, PartialEq, Eq, Structural)]
pub struct mpv_event_end_file {
    /// One of the [`mpv_end_file_reason`] values.
    pub reason: mpv_end_file_reason,
    /// An error code if `reason` is [`MPV_END_FILE_REASON_ERROR`].
    pub error: i32,
    /// Playlist entry ID of the file that was played.
    pub playlist_entry_id: i64,
    /// The ID of the first entry that replaced this one, or `0`.
    pub playlist_insert_id: i64,
    /// Number of inserted playlist entries.
    pub playlist_insert_num_entries: i32,
}

/// Event data for [`MPV_EVENT_CLIENT_MESSAGE`].
#[derive(Debug, Clone, PartialEq, Eq)]
pub struct mpv_event_client_message {
    /// Number of valid entries in `args`.
    pub num_args: i32,
    /// Arbitrary sender-chosen arguments.
    pub args: Vec<Option<usize>>,
}

/// Event data for [`MPV_EVENT_HOOK`].
#[derive(Debug, Clone, Copy, PartialEq, Eq, Structural)]
pub struct mpv_event_hook {
    /// The hook name.
    pub name: Option<usize>,
    /// Internal ID that must be passed back to continue the hook.
    pub id: u64,
}

/// Event data for [`MPV_EVENT_COMMAND_REPLY`].
#[derive(Debug, Clone, Copy, PartialEq)]
pub struct mpv_event_command {
    /// Result data of the command on success.
    pub result: mpv_node,
}

/// What the `data` pointer of an [`mpv_event`] points to.
#[derive(Debug, Clone, PartialEq)]
pub enum mpv_event_data {
    null,
    log_message(mpv_event_log_message),
    property(mpv_event_property),
    command(mpv_event_command),
    start_file(mpv_event_start_file),
    end_file(mpv_event_end_file),
    client_message(mpv_event_client_message),
    hook(mpv_event_hook),
}

/// An event delivered by libmpv.
#[derive(Debug, Clone, PartialEq)]
pub struct mpv_event {
    /// The event type.
    pub event_id: mpv_event_id,
    /// For reply events: a status code, negative on failure.
    pub error: i32,
    /// The userdata of the request this event replies to.
    pub reply_userdata: u64,
    /// Event-specific data.
    pub data: mpv_event_data,
}

/// Opaque render context: the address that libmpv returned, `0` for null.
#[derive(Debug, Clone, Copy, PartialEq, Eq, Structural)]
pub struct mpv_render_context {
    pub addr: usize,
}

/// Parameter types of the render API.
pub type mpv_render_param_type = i32;

/// Terminates a parameter array.
pub const MPV_RENDER_PARAM_INVALID: mpv_render_param_type = 0;
/// The render API to use.
pub const MPV_RENDER_PARAM_API_TYPE: mpv_render_param_type = 1;
/// OpenGL init parameters.
pub const MPV_RENDER_PARAM_OPENGL_INIT_PARAMS: mpv_render_param_type = 2;
/// The GL render target.
pub const MPV_RENDER_PARAM_OPENGL_FBO: mpv_render_param_type = 3;
/// Render flipped if non-zero.
pub const MPV_RENDER_PARAM_FLIP_Y: mpv_render_param_type = 4;
/// Surface depth in bits per channel.
pub const MPV_RENDER_PARAM_DEPTH: mpv_render_param_type = 5;
/// ICC profile blob.
pub const MPV_RENDER_PARAM_ICC_PROFILE: mpv_render_param_type = 6;
/// Ambient light in lux (deprecated upstream).
pub const MPV_RENDER_PARAM_AMBIENT_LIGHT: mpv_render_param_type = 7;
/// X11 display, sometimes used for hwdec.
pub const MPV_RENDER_PARAM_X11_DISPLAY: mpv_render_param_type = 8;
/// Wayland display, sometimes used for hwdec.
pub const MPV_RENDER_PARAM_WL_DISPLAY: mpv_render_param_type = 9;
/// Enable advanced control.
pub const MPV_RENDER_PARAM_ADVANCED_CONTROL: mpv_render_param_type = 10;
/// Return information about the next frame to render.
pub const MPV_RENDER_PARAM_NEXT_FRAME_INFO: mpv_render_param_type = 11;
/// Block until the target display time if non-zero.
pub const MPV_RENDER_PARAM_BLOCK_FOR_TARGET_TIME: mpv_render_param_type = 12;
/// Skip rendering the frame if non-zero.
pub const MPV_RENDER_PARAM_SKIP_RENDERING: mpv_render_param_type = 13;
/// DRM display handles (not supported upstream any more).
pub const MPV_RENDER_PARAM_DRM_DISPLAY: mpv_render_param_type = 14;
/// DRM draw surface dimensions.
pub const MPV_RENDER_PARAM_DRM_DRAW_SURFACE_SIZE: mpv_render_param_type = 15;
/// DRM display handles.
pub const MPV_RENDER_PARAM_DRM_DISPLAY_V2: mpv_render_param_type = 16;
/// Software renderer only: target surface size.
pub const MPV_RENDER_PARAM_SW_SIZE: mpv_render_param_type = 17;
/// Software renderer only: target surface pixel format.
pub const MPV_RENDER_PARAM_SW_FORMAT: mpv_render_param_type = 18;
/// Software renderer only: target surface bytes per line.
pub const MPV_RENDER_PARAM_SW_STRIDE: mpv_render_param_type = 19;
/// Software renderer only: the first pixel of the target surface.
pub const MPV_RENDER_PARAM_SW_POINTER: mpv_render_param_type = 20;
/// Backwards-compatible alias of [`MPV_RENDER_PARAM_DRM_DRAW_SURFACE_SIZE`].
pub const MPV_RENDER_PARAM_DRM_OSD_SIZE: mpv_render_param_type =
    MPV_RENDER_PARAM_DRM_DRAW_SURFACE_SIZE;

/// [`MPV_RENDER_PARAM_API_TYPE`] value for the OpenGL backend.
pub const MPV_RENDER_API_TYPE_OPENGL: &'static str = "opengl";
/// [`MPV_RENDER_PARAM_API_TYPE`] value for the (slow) software renderer.
pub const MPV_RENDER_API_TYPE_SW: &'static str = "sw";

/// Bit flags of [`mpv_render_frame_info`].
pub type mpv_render_frame_info_flag = i32;

/// There is actually a next frame (of any kind, including redraws).
pub const MPV_RENDER_FRAME_INFO_PRESENT: mpv_render_frame_info_flag = 1;
/// The frame is a redraw request rather than a new video frame.
pub const MPV_RENDER_FRAME_INFO_REDRAW: mpv_render_frame_info_flag = 2;
/// The frame is supposed to reproduce the previous frame perfectly.
pub const MPV_RENDER_FRAME_INFO_REPEAT: mpv_render_frame_info_flag = 4;
/// The player timing code expects the render thread to block on vsync.
pub const MPV_RENDER_FRAME_INFO_BLOCK_VSYNC: mpv_render_frame_info_flag = 8;

/// Information about the next frame to be rendered.
#[derive(Debug, Clone, Copy, PartialEq, Eq, Structural)]
pub struct mpv_render_frame_info {
    /// A bitset of `MPV_RENDER_FRAME_INFO_*` flags.
    pub flags: u64,
    /// Absolute target display time in microseconds.
    pub target_time: i64,
}

/// Bit flags of what an update of the render context returns.
pub type mpv_render_update_flag = i32;

/// A new video frame must be rendered.
pub const MPV_RENDER_UPDATE_FRAME: mpv_render_update_flag = 1;

/// The other name that the C header has for [`mpv_render_update_flag`].
pub type mpv_render_context_flag = mpv_render_update_flag;

/// A GL framebuffer target for [`MPV_RENDER_PARAM_OPENGL_FBO`].
#[derive(Debug, Clone, Copy, PartialEq, Eq, Structural)]
pub struct mpv_opengl_fbo {
    pub fbo: i32,
    pub w: i32,
    pub h: i32,
    pub internal_format: i32,
}

/// A version made from a major and a minor number below `0x10000` orders as
/// the pair does, the major number first.
pub proof fn law_versions_order_as_pairs(major: u64, minor: u64, other_major: u64, other_minor: u64)
    requires
        major < 0x1_0000_0000_0000,
        other_major < 0x1_0000_0000_0000,
        minor < 0x1_0000,
        other_minor < 0x1_0000,
    ensures
        make_version(major, minor) <= make_version(other_major, other_minor) <==> (major
            < other_major || (major == other_major && minor <= other_minor)),
{
    assert((((major << 16u64) | minor) <= ((other_major << 16u64) | other_minor)) <==> (major
        < other_major || (major == other_major && minor <= other_minor))) by (bit_vector)
        requires
            major < 0x1_0000_0000_0000,
            other_major < 0x1_0000_0000_0000,
            minor < 0x1_0000,
            other_minor < 0x1_0000,
    ;
}

/// A version number is the major number times `0x10000` plus the minor number,
/// for a minor number below `0x10000`.
pub proof fn law_version_is_major_and_minor(major: u64, minor: u64)
    requires
        major < 0x1_0000_0000_0000,
        minor < 0x1_0000,
    ensures
        make_version(major, minor) == major * 0x1_0000 + minor,
        forall|version: u64| #[trigger]
            call_ensures(MPV_MAKE_VERSION, (major, minor), version) ==> version == major * 0x1_0000
                + minor,
        MPV_CLIENT_API_VERSION == 2 * 0x1_0000 + 5,
{
    assert((major << 16u64) | minor == major * 0x1_0000 + minor) by (bit_vector)
        requires
            major < 0x1_0000_0000_0000,
            minor < 0x1_0000,
    ;
    assert((2u64 << 16u64) | 5u64 == 2 * 0x1_0000 + 5) by (bit_vector);
}

/// Doubles are compared as numbers. A NaN is a pattern whose absolute value is
/// above that of infinity and equals nothing; every other double equals itself;
/// doubles with different bits are equal only as the two zeros.
pub proof fn law_numbers_equal(a: Double, b: Double)
    ensures
        forall|same: bool| #[trigger]
            call_ensures(<Double as PartialEq>::eq, (&a, &b), same) ==> same == a.same_number(b),
        a.same_number(b) <==> b.same_number(a),
        a.is_nan() <==> 0x7ff0_0000_0000_0000 < a.bits < 0x8000_0000_0000_0000 || a.bits
            > 0xfff0_0000_0000_0000,
        a.is_nan() || b.is_nan() ==> !a.same_number(b),
        !a.is_nan() ==> a.same_number(a),
        a.same_number(b) ==> a.bits == b.bits || (a.bits == 0 || a.bits == 0x8000_0000_0000_0000)
            && (b.bits == 0 || b.bits == 0x8000_0000_0000_0000),
        (a.bits == 0 || a.bits == 0x8000_0000_0000_0000) && (b.bits == 0 || b.bits
            == 0x8000_0000_0000_0000) ==> a.same_number(b),
{
    let x = a.bits;
    let y = b.bits;
    assert((x & 0x7fff_ffff_ffff_ffff) > 0x7ff0_0000_0000_0000 <==> (0x7ff0_0000_0000_0000 < x && x
        < 0x8000_0000_0000_0000) || x > 0xfff0_0000_0000_0000) by (bit_vector);
    assert((y & 0x7fff_ffff_ffff_ffff) > 0x7ff0_0000_0000_0000 <==> (0x7ff0_0000_0000_0000 < y && y
        < 0x8000_0000_0000_0000) || y > 0xfff0_0000_0000_0000) by (bit_vector);
    assert(x & 0x7fff_ffff_ffff_ffff == 0 <==> x == 0 || x == 0x8000_0000_0000_0000)
        by (bit_vector);
    assert(y & 0x7fff_ffff_ffff_ffff == 0 <==> y == 0 || y == 0x8000_0000_0000_0000)
        by (bit_vector);
}

/// The numbers that the C headers give the errors and formats.
pub proof fn law_error_and_format_numbers()
    ensures
        MPV_ERROR_SUCCESS == 0,
        MPV_ERROR_EVENT_QUEUE_FULL == -1,
        MPV_ERROR_NOMEM == -2,
        MPV_ERROR_UNINITIALIZED == -3,
        MPV_ERROR_INVALID_PARAMETER == -4,
        MPV_ERROR_OPTION_NOT_FOUND == -5,
        MPV_ERROR_OPTION_FORMAT == -6,
        MPV_ERROR_OPTION_ERROR == -7,
        MPV_ERROR_PROPERTY_NOT_FOUND == -8,
        MPV_ERROR_PROPERTY_FORMAT == -9,
        MPV_ERROR_PROPERTY_UNAVAILABLE == -10,
        MPV_ERROR_PROPERTY_ERROR == -11,
        MPV_ERROR_COMMAND == -12,
        MPV_ERROR_LOADING_FAILED == -13,
        MPV_ERROR_AO_INIT_FAILED == -14,
        MPV_ERROR_VO_INIT_FAILED == -15,
        MPV_ERROR_NOTHING_TO_PLAY == -16,
        MPV_ERROR_UNKNOWN_FORMAT == -17,
        MPV_ERROR_UNSUPPORTED == -18,
        MPV_ERROR_NOT_IMPLEMENTED == -19,
        MPV_ERROR_GENERIC == -20,
        MPV_FORMAT_NONE == 0,
        MPV_FORMAT_STRING == 1,
        MPV_FORMAT_OSD_STRING == 2,
        MPV_FORMAT_FLAG == 3,
        MPV_FORMAT_INT64 == 4,
        MPV_FORMAT_DOUBLE == 5,
        MPV_FORMAT_NODE == 6,
        MPV_FORMAT_NODE_ARRAY == 7,
        MPV_FORMAT_NODE_MAP == 8,
        MPV_FORMAT_BYTE_ARRAY == 9,
{
}

/// The numbers that the C headers give the events, log levels and reasons.
pub proof fn law_event_numbers()
    ensures
        MPV_EVENT_NONE == 0,
        MPV_EVENT_SHUTDOWN == 1,
        MPV_EVENT_LOG_MESSAGE == 2,
        MPV_EVENT_GET_PROPERTY_REPLY == 3,
        MPV_EVENT_SET_PROPERTY_REPLY == 4,
        MPV_EVENT_COMMAND_REPLY == 5,
        MPV_EVENT_START_FILE == 6,
        MPV_EVENT_END_FILE == 7,
        MPV_EVENT_FILE_LOADED == 8,
        MPV_EVENT_IDLE == 11,
        MPV_EVENT_TICK == 14,
        MPV_EVENT_CLIENT_MESSAGE == 16,
        MPV_EVENT_VIDEO_RECONFIG == 17,
        MPV_EVENT_AUDIO_RECONFIG == 18,
        MPV_EVENT_SEEK == 20,
        MPV_EVENT_PLAYBACK_RESTART == 21,
        MPV_EVENT_PROPERTY_CHANGE == 22,
        MPV_EVENT_QUEUE_OVERFLOW == 24,
        MPV_EVENT_HOOK == 25,
        MPV_LOG_LEVEL_NONE == 0,
        MPV_LOG_LEVEL_FATAL == 10,
        MPV_LOG_LEVEL_ERROR == 20,
        MPV_LOG_LEVEL_WARN == 30,
        MPV_LOG_LEVEL_INFO == 40,
        MPV_LOG_LEVEL_V == 50,
        MPV_LOG_LEVEL_DEBUG == 60,
        MPV_LOG_LEVEL_TRACE == 70,
        MPV_END_FILE_REASON_EOF == 0,
        MPV_END_FILE_REASON_STOP == 2,
        MPV_END_FILE_REASON_QUIT == 3,
        MPV_END_FILE_REASON_ERROR == 4,
        MPV_END_FILE_REASON_REDIRECT == 5,
{
}

/// The numbers that the C headers give the parameters and flags of the render
/// API, and the names of its backends.
pub proof fn law_render_numbers()
    ensures
        MPV_RENDER_PARAM_INVALID == 0,
        MPV_RENDER_PARAM_API_TYPE == 1,
        MPV_RENDER_PARAM_OPENGL_INIT_PARAMS == 2,
        MPV_RENDER_PARAM_OPENGL_FBO == 3,
        MPV_RENDER_PARAM_FLIP_Y == 4,
        MPV_RENDER_PARAM_DEPTH == 5,
        MPV_RENDER_PARAM_ICC_PROFILE == 6,
        MPV_RENDER_PARAM_AMBIENT_LIGHT == 7,
        MPV_RENDER_PARAM_X11_DISPLAY == 8,
        MPV_RENDER_PARAM_WL_DISPLAY == 9,
        MPV_RENDER_PARAM_ADVANCED_CONTROL == 10,
        MPV_RENDER_PARAM_NEXT_FRAME_INFO == 11,
        MPV_RENDER_PARAM_BLOCK_FOR_TARGET_TIME == 12,
        MPV_RENDER_PARAM_SKIP_RENDERING == 13,
        MPV_RENDER_PARAM_DRM_DISPLAY == 14,
        MPV_RENDER_PARAM_DRM_DRAW_SURFACE_SIZE == 15,
        MPV_RENDER_PARAM_DRM_DISPLAY_V2 == 16,
        MPV_RENDER_PARAM_SW_SIZE == 17,
        MPV_RENDER_PARAM_SW_FORMAT == 18,
        MPV_RENDER_PARAM_SW_STRIDE == 19,
        MPV_RENDER_PARAM_SW_POINTER == 20,
        MPV_RENDER_PARAM_DRM_OSD_SIZE == 15,
        MPV_RENDER_API_TYPE_OPENGL@ == seq!['o', 'p', 'e', 'n', 'g', 'l'],
        MPV_RENDER_API_TYPE_SW@ == seq!['s', 'w'],
        MPV_RENDER_FRAME_INFO_PRESENT == 1,
        MPV_RENDER_FRAME_INFO_REDRAW == 2,
        MPV_RENDER_FRAME_INFO_REPEAT == 4,
        MPV_RENDER_FRAME_INFO_BLOCK_VSYNC == 8,
        MPV_RENDER_UPDATE_FRAME == 1,
{
    reveal_strlit("opengl");
    reveal_strlit("sw");
}

} // verus!
