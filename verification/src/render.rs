//! The render API (embedded video rendering).
//!
//! A render context makes mpv draw video into a target the caller controls, an
//! OpenGL framebuffer or an in-memory software surface, instead of creating
//! its own window. [`RenderContext`] is generic over how it holds its player
//! core (the sealed [`CoreRef`] trait): a borrow of the [`Mpv`], or shared
//! ownership of it.

use std::sync::Arc;

use vstd::prelude::*;
use vstd::utf8::*;

use crate::call::Call;
use crate::client::Mpv;
use crate::cstring;
use crate::cstring::{cstr, CString};
use crate::error;
use crate::error::{check, Error, Result};
use crate::sealed::Sealed;
use crate::slot;
use crate::slot::{CallbackSlot, Pending, SlotAction, SlotState};
use crate::sys;
use crate::sys::{
    mpv_handle, mpv_opengl_fbo, mpv_render_context, mpv_render_frame_info, mpv_render_param_type,
};

verus! {

/// Describes an OpenGL framebuffer target.
#[derive(Debug, Clone, Copy)]
pub struct OpenGlFbo {
    /// FBO name from `glGenFramebuffers()` (complete and color-renderable),
    /// or `0` for the default framebuffer.
    pub fbo: i32,
    /// Width of the framebuffer, in pixels.
    pub width: i32,
    /// Height of the framebuffer, in pixels.
    pub height: i32,
    /// Underlying texture internal format (e.g. `GL_RGBA8`), or `0` if
    /// unknown.
    pub internal_format: i32,
}

/// Information about the next frame.
#[derive(Debug, Clone, Copy, PartialEq, Eq, Structural)]
pub struct FrameInfo {
    /// Whether a next frame exists at all (of any kind, including redraws).
    pub present: bool,
    /// The frame is a redraw request rather than a new video frame.
    pub redraw: bool,
    /// The frame is supposed to reproduce the previous frame perfectly.
    pub repeat: bool,
    /// The player expects the render thread to block on vsync (by delaying
    /// the render call or reporting the swap).
    pub block_vsync: bool,
    /// Absolute target display time in microseconds; `0` for redraws or
    /// vsync-locked timing.
    pub target_time: i64,
}

impl Default for FrameInfo {
    fn default() -> (info: FrameInfo)
        ensures
            info == (FrameInfo {
                present: false,
                redraw: false,
                repeat: false,
                block_vsync: false,
                target_time: 0,
            }),
    {
        FrameInfo {
            present: false,
            redraw: false,
            repeat: false,
            block_vsync: false,
            target_time: 0,
        }
    }
}

/// Pixel format of an in-memory surface.
///
/// A closed set on purpose: the check of the buffer size needs a known pixel
/// size.
#[derive(Debug, Clone, Copy, PartialEq, Eq, Hash, Structural)]
pub enum SwPixelFormat {
    /// `"rgb0"`: 4 bytes per pixel, R-G-B order, the `0` byte is garbage.
    Rgb0,
    /// `"bgr0"`: 4 bytes per pixel, B-G-R order, the `0` byte is garbage.
    Bgr0,
    /// `"0bgr"`: 4 bytes per pixel, garbage byte first, then B-G-R.
    ZeroBgr,
    /// `"0rgb"`: 4 bytes per pixel, garbage byte first, then R-G-B.
    ZeroRgb,
    /// `"rgb24"`: 3 bytes per pixel, R-G-B; notably slower in mpv.
    Rgb24,
}

impl SwPixelFormat {
    /// The size of a pixel.
    pub open spec fn pixel_size(self) -> nat {
        match self {
            SwPixelFormat::Rgb24 => 3,
            _ => 4,
        }
    }

    /// The name of the format in the client API.
    pub open spec fn spec_name(self) -> Seq<char> {
        match self {
            SwPixelFormat::Rgb0 => "rgb0"@,
            SwPixelFormat::Bgr0 => "bgr0"@,
            SwPixelFormat::ZeroBgr => "0bgr"@,
            SwPixelFormat::ZeroRgb => "0rgb"@,
            SwPixelFormat::Rgb24 => "rgb24"@,
        }
    }

    /// The size of a pixel in bytes.
    pub fn bytes_per_pixel(self) -> (n: usize)
        ensures
            n == self.pixel_size(),
    {
        // Exhaustive on purpose: this feeds the check of the buffer size, so
        // a future variant must state its size here.
        match self {
            SwPixelFormat::Rgb0
            | SwPixelFormat::Bgr0
            | SwPixelFormat::ZeroBgr
            | SwPixelFormat::ZeroRgb => 4,
            SwPixelFormat::Rgb24 => 3,
        }
    }

    /// The name of the format in the client API, as a C string.
    pub fn as_cstr(self) -> (c: CString)
        ensures
            c@ == encode_utf8(self.spec_name()),
    {
        proof {
            reveal_strlit("rgb0");
            reveal_strlit("bgr0");
            reveal_strlit("0bgr");
            reveal_strlit("0rgb");
            reveal_strlit("rgb24");
        }
        literal_cstr(
            match self {
                SwPixelFormat::Rgb0 => "rgb0",
                SwPixelFormat::Bgr0 => "bgr0",
                SwPixelFormat::ZeroBgr => "0bgr",
                SwPixelFormat::ZeroRgb => "0rgb",
                SwPixelFormat::Rgb24 => "rgb24",
            },
        )
    }
}

/// The C string of a text without a NUL.
fn literal_cstr(s: &str) -> (c: CString)
    requires
        !cstring::has_nul(s@),
    ensures
        c@ == encode_utf8(s@),
{
    match cstr(s) {
        Ok(c) => c,
        Err(_) => vstd::pervasive::unreached(),
    }
}

/// What the `data` of a [`RenderParam`] points to.
#[derive(Debug)]
pub enum RenderData {
    /// Null.
    Null,
    /// The name of the render API.
    ApiType(CString),
    /// The OpenGL init parameters, which hold the function that resolves GL
    /// functions by name.
    OpenGlInitParams,
    /// An `int`.
    Int(i32),
    /// A GL framebuffer.
    Fbo(mpv_opengl_fbo),
    /// The width and height of a surface.
    Size(i32, i32),
    /// The name of a pixel format.
    PixelFormat(CString),
    /// A number of bytes.
    Stride(usize),
    /// The pixels of the surface that is rendered into.
    Pixels,
}

/// A typed parameter of a render function.
#[derive(Debug)]
pub struct RenderParam {
    pub type_: mpv_render_param_type,
    pub data: RenderData,
}

/// Whether a parameter array ends with its terminator, and holds it nowhere
/// else.
pub open spec fn terminated(params: Seq<RenderParam>) -> bool {
    &&& params.len() > 0
    &&& params.last() == terminator()
    &&& forall|i: int|
        0 <= i < params.len() - 1 ==> (#[trigger] params[i]).type_ != sys::MPV_RENDER_PARAM_INVALID
}

/// The entry that ends a parameter array.
pub open spec fn terminator() -> RenderParam {
    RenderParam { type_: sys::MPV_RENDER_PARAM_INVALID, data: RenderData::Null }
}

/// An `int` parameter that holds a truth value.
pub open spec fn flag_param(type_: mpv_render_param_type, v: bool) -> RenderParam {
    RenderParam {
        type_,
        data: RenderData::Int(
            if v {
                1
            } else {
                0
            },
        ),
    }
}

/// Whether `param` selects the render API with the name `name`.
pub open spec fn selects_api(param: RenderParam, name: Seq<char>) -> bool {
    param.type_ == sys::MPV_RENDER_PARAM_API_TYPE && (param.data matches RenderData::ApiType(c)
        && c@ == encode_utf8(name))
}

/// The parameters that create an OpenGL renderer.
pub open spec fn opengl_create_params(params: Seq<RenderParam>, advanced_control: bool) -> bool {
    &&& params.len() == 4
    &&& selects_api(params[0], sys::MPV_RENDER_API_TYPE_OPENGL@)
    &&& params[1] == RenderParam {
        type_: sys::MPV_RENDER_PARAM_OPENGL_INIT_PARAMS,
        data: RenderData::OpenGlInitParams,
    }
    &&& params[2] == flag_param(sys::MPV_RENDER_PARAM_ADVANCED_CONTROL, advanced_control)
    &&& params[3] == terminator()
}

/// The parameters that create a software renderer.
pub open spec fn software_create_params(params: Seq<RenderParam>) -> bool {
    &&& params.len() == 2
    &&& selects_api(params[0], sys::MPV_RENDER_API_TYPE_SW@)
    &&& params[1] == terminator()
}

/// The parameters that render into an OpenGL framebuffer.
pub open spec fn opengl_render_params(
    params: Seq<RenderParam>,
    fbo: OpenGlFbo,
    flip_y: bool,
    block_for_target_time: bool,
) -> bool {
    &&& params.len() == 4
    &&& params[0] == RenderParam {
        type_: sys::MPV_RENDER_PARAM_OPENGL_FBO,
        data: RenderData::Fbo(
            mpv_opengl_fbo {
                fbo: fbo.fbo,
                w: fbo.width,
                h: fbo.height,
                internal_format: fbo.internal_format,
            },
        ),
    }
    &&& params[1] == flag_param(sys::MPV_RENDER_PARAM_FLIP_Y, flip_y)
    &&& params[2] == flag_param(sys::MPV_RENDER_PARAM_BLOCK_FOR_TARGET_TIME, block_for_target_time)
    &&& params[3] == terminator()
}

/// The parameters that render into a software surface.
pub open spec fn software_render_params(
    params: Seq<RenderParam>,
    width: i32,
    height: i32,
    format: SwPixelFormat,
    stride: usize,
) -> bool {
    &&& params.len() == 5
    &&& params[0] == RenderParam {
        type_: sys::MPV_RENDER_PARAM_SW_SIZE,
        data: RenderData::Size(width, height),
    }
    &&& params[1].type_ == sys::MPV_RENDER_PARAM_SW_FORMAT
    &&& params[1].data matches RenderData::PixelFormat(c) && c@ == encode_utf8(format.spec_name())
    &&& params[2] == RenderParam {
        type_: sys::MPV_RENDER_PARAM_SW_STRIDE,
        data: RenderData::Stride(stride),
    }
    &&& params[3] == RenderParam {
        type_: sys::MPV_RENDER_PARAM_SW_POINTER,
        data: RenderData::Pixels,
    }
    &&& params[4] == terminator()
}

/// Whether a surface is one that can be rendered into: its size is not
/// negative, a row holds `width` pixels, and the buffer of `len` bytes holds
/// `height` rows.
pub open spec fn surface_fits(
    width: i32,
    height: i32,
    format: SwPixelFormat,
    stride: usize,
    len: nat,
) -> bool {
    &&& width >= 0
    &&& height >= 0
    &&& width * format.pixel_size() <= stride
    &&& stride * height <= len
}

fn int_param(type_: mpv_render_param_type, v: bool) -> (param: RenderParam)
    ensures
        param == flag_param(type_, v),
{
    RenderParam {
        type_,
        data: RenderData::Int(
            if v {
                1
            } else {
                0
            },
        ),
    }
}

fn end_param() -> (param: RenderParam)
    ensures
        param == terminator(),
{
    RenderParam { type_: sys::MPV_RENDER_PARAM_INVALID, data: RenderData::Null }
}

/// How a [`RenderContext`] holds its player core: a borrow (`&Mpv`) or
/// shared ownership (`Arc<Mpv>`). Sealed: exactly those two forms exist.
pub trait CoreRef: Sealed + Sized {
    /// The client handle of the player.
    spec fn core_handle(self) -> mpv_handle;

    /// The client handle of the player.
    fn handle_ptr(&self) -> (ctx: mpv_handle)
        ensures
            ctx == self.core_handle(),
    ;
}

impl<W, P> Sealed for &Mpv<W, P> {

}

impl<W, P> Sealed for Arc<Mpv<W, P>> {

}

impl<W, P> CoreRef for &Mpv<W, P> {
    open spec fn core_handle(self) -> mpv_handle {
        self.spec_handle().spec_raw()
    }

    fn handle_ptr(&self) -> (ctx: mpv_handle) {
        self.as_raw()
    }
}

impl<W, P> CoreRef for Arc<Mpv<W, P>> {
    open spec fn core_handle(self) -> mpv_handle {
        self.spec_handle().spec_raw()
    }

    fn handle_ptr(&self) -> (ctx: mpv_handle) {
        self.as_raw()
    }
}

/// A live mpv renderer bound to a player (see the [module docs](self) for the
/// two [`CoreRef`] flavors).
///
/// `G` is the function that resolves GL functions by name, which mpv may call
/// as long as the renderer lives; `U` holds the update callback.
pub struct RenderContext<C: CoreRef, G, U> {
    raw: mpv_render_context,
    core: C,
    get_proc_address: Option<G>,
    update: U,
}

/// A [`RenderContext`] that co-owns the player through an `Arc`, for owning
/// wrappers where a borrow would make the struct self-referential.
pub type OwnedRenderContext<W, P, G, U> = RenderContext<Arc<Mpv<W, P>>, G, U>;

/// How the creation of a renderer ended.
pub enum Created<C: CoreRef, G, U> {
    /// The renderer, which keeps what it was created with.
    Ready(RenderContext<C, G, U>),
    /// libmpv failed, and retained nothing: what is given back is released.
    Failed { error: Error, get_proc_address: Option<G>, core: C },
    /// libmpv reported success without a context, against its contract.
    /// Whether it retained the function cannot be known, so that one must be
    /// leaked; the core is released.
    Broken { leaked: Option<G>, core: C },
}

/// What a renderer was created with, in the order in which it is released.
pub struct Kept<C, G> {
    pub get_proc_address: Option<G>,
    pub core: C,
}

impl<C: CoreRef, G, U> RenderContext<C, G, U> {
    /// The address of the `mpv_render_context`.
    pub closed spec fn spec_raw(self) -> mpv_render_context {
        self.raw
    }

    #[verifier::type_invariant]
    closed spec fn not_null(self) -> bool {
        self.raw.addr != 0
    }

    /// The player that the renderer is bound to.
    pub closed spec fn spec_core(self) -> C {
        self.core
    }

    /// The function that resolves GL functions by name.
    pub closed spec fn spec_get_proc_address(self) -> Option<G> {
        self.get_proc_address
    }

    /// The update callback slot.
    pub closed spec fn spec_update(self) -> U {
        self.update
    }

    /// The call that creates an OpenGL renderer for `core`.
    ///
    /// `advanced_control` enables direct rendering and GPU screenshots.
    pub fn new_opengl(core: &C, advanced_control: bool) -> (call: Call)
        ensures
            call matches Call::RenderContextCreate { mpv, params } && mpv == core.core_handle()
                && opengl_create_params(params@, advanced_control) && terminated(params@),
    {
        proof {
            reveal_strlit("opengl");
        }
        let mut params: Vec<RenderParam> = Vec::new();
        params.push(
            RenderParam {
                type_: sys::MPV_RENDER_PARAM_API_TYPE,
                data: RenderData::ApiType(literal_cstr(sys::MPV_RENDER_API_TYPE_OPENGL)),
            },
        );
        params.push(
            RenderParam {
                type_: sys::MPV_RENDER_PARAM_OPENGL_INIT_PARAMS,
                data: RenderData::OpenGlInitParams,
            },
        );
        params.push(int_param(sys::MPV_RENDER_PARAM_ADVANCED_CONTROL, advanced_control));
        params.push(end_param());
        Call::RenderContextCreate { mpv: core.handle_ptr(), params }
    }

    /// The call that creates a software renderer for `core`, which draws into
    /// caller-provided memory.
    pub fn new_software(core: &C) -> (call: Call)
        ensures
            call matches Call::RenderContextCreate { mpv, params } && mpv == core.core_handle()
                && software_create_params(params@) && terminated(params@),
    {
        proof {
            reveal_strlit("sw");
        }
        let mut params: Vec<RenderParam> = Vec::new();
        params.push(
            RenderParam {
                type_: sys::MPV_RENDER_PARAM_API_TYPE,
                data: RenderData::ApiType(literal_cstr(sys::MPV_RENDER_API_TYPE_SW)),
            },
        );
        params.push(end_param());
        Call::RenderContextCreate { mpv: core.handle_ptr(), params }
    }

    /// The renderer, if the call that creates it returned `code` and left the
    /// context `raw`. It was created with `get_proc_address`, where the
    /// backend has one, and begins with a new update slot.
    pub fn create(
        core: C,
        get_proc_address: Option<G>,
        code: i32,
        raw: mpv_render_context,
    ) -> (created: Created<C, G, U>) where U: Default
        ensures
            code < 0 ==> created == (Created::<C, G, U>::Failed {
                error: Error::of_code(code),
                get_proc_address,
                core,
            }),
            code >= 0 && raw.addr == 0 ==> created == (Created::<C, G, U>::Broken {
                leaked: get_proc_address,
                core,
            }),
            code >= 0 && raw.addr != 0 ==> (created matches Created::Ready(context)
                && context.spec_raw() == raw && context.spec_core() == core
                && context.spec_get_proc_address() == get_proc_address && call_ensures(
                U::default,
                (),
                context.spec_update(),
            )),
    {
        match check(code) {
            Err(error) => Created::Failed { error, get_proc_address, core },
            Ok(_) => if raw.addr == 0 {
                Created::Broken { leaked: get_proc_address, core }
            } else {
                Created::Ready(
                    RenderContext { raw, core, get_proc_address, update: U::default() },
                )
            },
        }
    }

    /// The raw `mpv_render_context`, which is never null. Valid as long as
    /// `self` is.
    pub fn as_raw(&self) -> (raw: mpv_render_context)
        ensures
            raw == self.spec_raw(),
            raw.addr != 0,
    {
        proof {
            use_type_invariant(self);
        }
        self.raw
    }

    /// The call that registers the update callback slot.
    pub fn set_update_callback(&self) -> (call: Call)
        ensures
            call == (Call::RenderContextSetUpdateCallback { ctx: self.spec_raw(), set: true }),
    {
        Call::RenderContextSetUpdateCallback { ctx: self.raw, set: true }
    }

    /// The call that unregisters the update callback slot.
    pub fn clear_update_callback(&self) -> (call: Call)
        ensures
            call == (Call::RenderContextSetUpdateCallback { ctx: self.spec_raw(), set: false }),
    {
        Call::RenderContextSetUpdateCallback { ctx: self.raw, set: false }
    }

    /// The call that processes pending render work after an update callback
    /// fired; [`frame_due`] reads its reply.
    pub fn update(&self) -> (call: Call)
        ensures
            call == (Call::RenderContextUpdate { ctx: self.spec_raw() }),
    {
        Call::RenderContextUpdate { ctx: self.raw }
    }

    /// The call that asks about the next frame to be rendered; [`frame_info`]
    /// reads its reply.
    pub fn next_frame_info(&self) -> (call: Call)
        ensures
            call == (Call::RenderContextGetInfo {
                ctx: self.spec_raw(),
                type_: sys::MPV_RENDER_PARAM_NEXT_FRAME_INFO,
            }),
    {
        Call::RenderContextGetInfo {
            ctx: self.raw,
            type_: sys::MPV_RENDER_PARAM_NEXT_FRAME_INFO,
        }
    }

    /// The call that renders the current frame (or redraws the previous one)
    /// into the given OpenGL framebuffer. Set `flip_y` when rendering to a
    /// target with a flipped coordinate system, such as the GL default
    /// framebuffer. With `block_for_target_time` the call blocks until the
    /// frame's target display time.
    pub fn render_opengl(
        &self,
        fbo: OpenGlFbo,
        flip_y: bool,
        block_for_target_time: bool,
    ) -> (call: Call)
        ensures
            call matches Call::RenderContextRender { ctx, params } && ctx == self.spec_raw()
                && opengl_render_params(params@, fbo, flip_y, block_for_target_time) && terminated(
                params@,
            ),
    {
        let mut params: Vec<RenderParam> = Vec::new();
        params.push(
            RenderParam {
                type_: sys::MPV_RENDER_PARAM_OPENGL_FBO,
                data: RenderData::Fbo(
                    mpv_opengl_fbo {
                        fbo: fbo.fbo,
                        w: fbo.width,
                        h: fbo.height,
                        internal_format: fbo.internal_format,
                    },
                ),
            },
        );
        params.push(int_param(sys::MPV_RENDER_PARAM_FLIP_Y, flip_y));
        params.push(
            int_param(sys::MPV_RENDER_PARAM_BLOCK_FOR_TARGET_TIME, block_for_target_time),
        );
        params.push(end_param());
        Call::RenderContextRender { ctx: self.raw, params }
    }

    /// The call that renders the current frame into an in-memory surface
    /// (software renderer only), in the given [`SwPixelFormat`]. `stride` is
    /// the byte distance between rows and must cover `width` pixels; for
    /// performance, make the stride and the buffer start multiples of 64.
    /// `pixels` must hold at least `stride * height` bytes.
    pub fn render_software(
        &self,
        width: i32,
        height: i32,
        format: SwPixelFormat,
        stride: usize,
        pixels: &[u8],
    ) -> (r: Result<Call>)
        ensures
            r is Ok <==> surface_fits(width, height, format, stride, pixels@.len()),
            r matches Err(e) ==> e == Error::InvalidParameter,
            r matches Ok(call) ==> (call matches Call::RenderContextRender { ctx, params } && ctx
                == self.spec_raw() && software_render_params(params@, width, height, format, stride)
                && terminated(params@)),
    {
        let len: usize = pixels.len();
        let rows: usize = if height > 0 {
            height as usize
        } else {
            0
        };
        let needed: usize = match stride.checked_mul(rows) {
            Some(needed) => needed,
            None => return Err(Error::InvalidParameter),
        };
        if width < 0 || height < 0 || len < needed {
            return Err(Error::InvalidParameter);
        }
        // mpv's software renderer rejects a stride below width * pixel size
        // before it touches the buffer, which together with the length check
        // above bounds every row that it writes. The check is duplicated here
        // so that the bound does not rest on the linked C library alone.

        let min_stride: usize = match (width as usize).checked_mul(format.bytes_per_pixel()) {
            Some(min_stride) => min_stride,
            None => return Err(Error::InvalidParameter),
        };
        if stride < min_stride {
            return Err(Error::InvalidParameter);
        }
        let mut params: Vec<RenderParam> = Vec::new();
        params.push(
            RenderParam {
                type_: sys::MPV_RENDER_PARAM_SW_SIZE,
                data: RenderData::Size(width, height),
            },
        );
        params.push(
            RenderParam {
                type_: sys::MPV_RENDER_PARAM_SW_FORMAT,
                data: RenderData::PixelFormat(format.as_cstr()),
            },
        );
        params.push(
            RenderParam {
                type_: sys::MPV_RENDER_PARAM_SW_STRIDE,
                data: RenderData::Stride(stride),
            },
        );
        params.push(
            RenderParam { type_: sys::MPV_RENDER_PARAM_SW_POINTER, data: RenderData::Pixels },
        );
        params.push(end_param());
        Ok(Call::RenderContextRender { ctx: self.raw, params })
    }

    /// The call that tells mpv a frame was just flipped/presented, improving
    /// frame timing. Optional, but once used, use it consistently.
    pub fn report_swap(&self) -> (call: Call)
        ensures
            call == (Call::RenderContextReportSwap { ctx: self.spec_raw() }),
    {
        Call::RenderContextReportSwap { ctx: self.raw }
    }

    /// The update callback slot.
    pub fn update_slot(&self) -> (update: &U)
        ensures
            *update == self.spec_update(),
    {
        &self.update
    }

    /// What the renderer holds, for its teardown: the update slot, and what it
    /// was created with, which the slot has to keep until the renderer is freed
    /// (see [`CallbackSlot::teardown`](crate::slot::CallbackSlot::teardown)).
    pub fn retire(self) -> (parts: (U, Kept<C, G>))
        ensures
            parts.0 == self.spec_update(),
            parts.1 == (Kept {
                get_proc_address: self.spec_get_proc_address(),
                core: self.spec_core(),
            }),
    {
        (self.update, Kept { get_proc_address: self.get_proc_address, core: self.core })
    }

    /// The call that frees the renderer.
    pub fn free(&self) -> (call: Call)
        ensures
            call == (Call::RenderContextFree { ctx: self.spec_raw() }),
    {
        Call::RenderContextFree { ctx: self.raw }
    }
}

impl<W, P, G, U> RenderContext<Arc<Mpv<W, P>>, G, U> {
    /// The player core this context keeps alive.
    pub fn player(&self) -> (core: &Arc<Mpv<W, P>>)
        ensures
            *core == self.spec_core(),
    {
        &self.core
    }
}

/// A renderer is freed while its player and the function that resolves GL
/// functions are still held; both are given up after that, with the update
/// callback.
pub proof fn law_renderer_freed_before_core<T, C, G>(
    slot: SlotState<T, Kept<C, G>>,
    kept: Kept<C, G>,
)
    requires
        slot.wf(),
        slot.idle(),
    ensures
        slot.begin(Pending::Unregister { kept: Some(kept) }).actions() == seq![
            SlotAction::<T, Kept<C, G>>::Unregister,
            SlotAction::Destroy,
            SlotAction::Release(slot.stored, Some(kept)),
        ],
{
    slot::law_teardown(slot, kept);
}

/// A renderer that was just created has no update callback.
pub proof fn law_new_renderer_has_no_callback<C: CoreRef, G, T, K>(
    context: RenderContext<C, G, CallbackSlot<T, K>>,
)
    requires
        call_ensures(CallbackSlot::<T, K>::default, (), context.spec_update()),
    ensures
        context.spec_update()@ == SlotState::<T, K>::empty(),
{
}

/// Whether the flags that an update returned say that a new frame must be
/// rendered.
pub fn frame_due(flags: u64) -> (due: bool)
    ensures
        due == (flags & (sys::MPV_RENDER_UPDATE_FRAME as u64) != 0),
{
    flags & (sys::MPV_RENDER_UPDATE_FRAME as u64) != 0
}

/// Every byte that a renderer writes into an accepted surface lies in its
/// buffer: `x` is a byte of the row `y`.
pub proof fn law_row_stays_in_buffer(
    width: i32,
    height: i32,
    format: SwPixelFormat,
    stride: usize,
    len: nat,
    x: int,
    y: int,
)
    requires
        surface_fits(width, height, format, stride, len),
        0 <= x < width * format.pixel_size(),
        0 <= y < height,
    ensures
        0 <= stride * y + x < len,
{
    assert(0 <= stride * y && stride * y + stride <= stride * height) by (nonlinear_arith)
        requires
            0 <= y,
            y + 1 <= height,
            stride >= 0,
    ;
}

/// The rows of an accepted surface do not overlap: a byte `x` of the row `y`
/// comes before the row `below`.
pub proof fn law_rows_do_not_overlap(
    width: i32,
    height: i32,
    format: SwPixelFormat,
    stride: usize,
    len: nat,
    x: int,
    y: int,
    below: int,
)
    requires
        surface_fits(width, height, format, stride, len),
        0 <= x < width * format.pixel_size(),
        0 <= y < below < height,
    ensures
        stride * y + x < stride * below,
{
    assert(stride * y + stride <= stride * below) by (nonlinear_arith)
        requires
            y + 1 <= below,
            stride >= 0,
    ;
}

/// The flags of a frame as its bits.
pub open spec fn frame_flags(present: bool, redraw: bool, repeat: bool, block_vsync: bool) -> u64 {
    (if present {
        sys::MPV_RENDER_FRAME_INFO_PRESENT as u64
    } else {
        0
    }) | (if redraw {
        sys::MPV_RENDER_FRAME_INFO_REDRAW as u64
    } else {
        0
    }) | (if repeat {
        sys::MPV_RENDER_FRAME_INFO_REPEAT as u64
    } else {
        0
    }) | (if block_vsync {
        sys::MPV_RENDER_FRAME_INFO_BLOCK_VSYNC as u64
    } else {
        0
    })
}

/// The flags of a frame are read independently of each other, and bits without
/// a meaning are ignored.
pub proof fn law_frame_flags_independent(
    present: bool,
    redraw: bool,
    repeat: bool,
    block_vsync: bool,
    other: u64,
    target_time: i64,
)
    requires
        other & 15 == 0,
    ensures
        frame_info_of(
            mpv_render_frame_info {
                flags: frame_flags(present, redraw, repeat, block_vsync) | other,
                target_time,
            },
        ) == (FrameInfo { present, redraw, repeat, block_vsync, target_time }),
{
    let flags = frame_flags(present, redraw, repeat, block_vsync) | other;
    let a: u64 = if present {
        1
    } else {
        0
    };
    let b: u64 = if redraw {
        2
    } else {
        0
    };
    let c: u64 = if repeat {
        4
    } else {
        0
    };
    let d: u64 = if block_vsync {
        8
    } else {
        0
    };
    assert({
        let all = (a | b | c | d) | other;
        &&& all & 1 == a
        &&& all & 2 == b
        &&& all & 4 == c
        &&& all & 8 == d
    }) by (bit_vector)
        requires
            a == 0 || a == 1,
            b == 0 || b == 2,
            c == 0 || c == 4,
            d == 0 || d == 8,
            other & 15 == 0,
    ;
    assert(flags == (a | b | c | d) | other);
}

/// What the raw information about a frame says.
pub open spec fn frame_info_of(info: mpv_render_frame_info) -> FrameInfo {
    FrameInfo {
        present: info.flags & (sys::MPV_RENDER_FRAME_INFO_PRESENT as u64) != 0,
        redraw: info.flags & (sys::MPV_RENDER_FRAME_INFO_REDRAW as u64) != 0,
        repeat: info.flags & (sys::MPV_RENDER_FRAME_INFO_REPEAT as u64) != 0,
        block_vsync: info.flags & (sys::MPV_RENDER_FRAME_INFO_BLOCK_VSYNC as u64) != 0,
        target_time: info.target_time,
    }
}

/// The information about the next frame, if the call that asks for it returned
/// `code` and left `info`.
pub fn frame_info(code: i32, info: mpv_render_frame_info) -> (r: Result<FrameInfo>)
    ensures
        r == (if code >= 0 {
            Ok(frame_info_of(info))
        } else {
            Err(Error::of_code(code))
        }),
{
    match check(code) {
        Err(e) => Err(e),
        Ok(_) => Ok(
            FrameInfo {
                present: info.flags & (sys::MPV_RENDER_FRAME_INFO_PRESENT as u64) != 0,
                redraw: info.flags & (sys::MPV_RENDER_FRAME_INFO_REDRAW as u64) != 0,
                repeat: info.flags & (sys::MPV_RENDER_FRAME_INFO_REPEAT as u64) != 0,
                block_vsync: info.flags & (sys::MPV_RENDER_FRAME_INFO_BLOCK_VSYNC as u64) != 0,
                target_time: info.target_time,
            },
        ),
    }
}

/// The size of a pixel is the number of its bytes, and the name of a format
/// spells them: one character for each byte of the formats with a garbage byte,
/// and the three colors with their number of bits for the one without.
pub proof fn law_pixel_formats(format: SwPixelFormat, n: usize, c: CString)
    ensures
        format is Rgb24 <==> format.pixel_size() == 3,
        !(format is Rgb24) <==> format.pixel_size() == 4,
        call_ensures(SwPixelFormat::bytes_per_pixel, (format,), n) ==> n == format.pixel_size(),
        call_ensures(SwPixelFormat::as_cstr, (format,), c) ==> c@ == encode_utf8(
            format.spec_name(),
        ),
        format is Rgb0 ==> format.spec_name() == seq!['r', 'g', 'b', '0'],
        format is Bgr0 ==> format.spec_name() == seq!['b', 'g', 'r', '0'],
        format is ZeroBgr ==> format.spec_name() == seq!['0', 'b', 'g', 'r'],
        format is ZeroRgb ==> format.spec_name() == seq!['0', 'r', 'g', 'b'],
        format is Rgb24 ==> format.spec_name() == seq!['r', 'g', 'b', '2', '4'],
{
    reveal_strlit("rgb0");
    reveal_strlit("bgr0");
    reveal_strlit("0bgr");
    reveal_strlit("0rgb");
    reveal_strlit("rgb24");
}

/// Two pixel formats share the bytes of their names only if they are the same.
pub proof fn law_pixel_format_names_distinct(a: SwPixelFormat, b: SwPixelFormat)
    ensures
        encode_utf8(a.spec_name()) == encode_utf8(b.spec_name()) <==> a == b,
{
    if encode_utf8(a.spec_name()) == encode_utf8(b.spec_name()) {
        encode_utf8_decode_utf8(a.spec_name());
        encode_utf8_decode_utf8(b.spec_name());
        let x = a.spec_name();
        let y = b.spec_name();
        reveal_strlit("rgb0");
        reveal_strlit("bgr0");
        reveal_strlit("0bgr");
        reveal_strlit("0rgb");
        reveal_strlit("rgb24");
        assert(x.len() == y.len());
        assert(x[0] == y[0]);
        assert(x[1] == y[1]);
    }
}

/// A surface is accepted exactly if its size is not negative, a row of `width`
/// pixels of 3 or 4 bytes fits in the stride, and `height` strides fit in the
/// buffer; any other is an invalid parameter.
pub proof fn law_surface_is_accepted_if_it_fits<C: CoreRef, G, U>(
    context: &RenderContext<C, G, U>,
    width: i32,
    height: i32,
    format: SwPixelFormat,
    stride: usize,
    pixels: &[u8],
    r: Result<Call>,
)
    requires
        call_ensures(
            RenderContext::<C, G, U>::render_software,
            (context, width, height, format, stride, pixels),
            r,
        ),
    ensures
        r is Ok <==> {
            &&& 0 <= width
            &&& 0 <= height
            &&& (format is Rgb24 ==> 3 * width <= stride)
            &&& (!(format is Rgb24) ==> 4 * width <= stride)
            &&& stride * height <= pixels@.len()
        },
        r matches Err(e) ==> e == Error::InvalidParameter,
        surface_fits(width, height, format, stride, pixels@.len()) <==> r is Ok,
        call_requires(
            RenderContext::<C, G, U>::render_software,
            (context, width, height, format, stride, pixels),
        ),
{
}

/// The surface that the parameters of an accepted call describe is the one that
/// was checked. A size among them has the width and height that were passed, in
/// that order; a stride is the one that was passed, a pixel format has the name
/// of the one that was passed, each under its own parameter type, and each is
/// there. So the check holds of what libmpv reads out of the parameters.
pub proof fn law_rendered_surface_is_the_one_checked<C: CoreRef, G, U>(
    context: &RenderContext<C, G, U>,
    width: i32,
    height: i32,
    format: SwPixelFormat,
    stride: usize,
    pixels: &[u8],
    call: Call,
)
    requires
        call_ensures(
            RenderContext::<C, G, U>::render_software,
            (context, width, height, format, stride, pixels),
            Ok(call),
        ),
    ensures
        call matches Call::RenderContextRender { ctx, params } && {
            &&& ctx == context.spec_raw()
            &&& describes_surface(params@, width, height, format, stride)
            &&& params@.len() > 0 && params@.last().type_ == 0 && params@.last().data is Null
            &&& forall|i: int|
                0 <= i < params@.len() && (#[trigger] params@[i]).type_ == 0 ==> i == params@.len()
                    - 1
        },
        forall|w: i32, h: i32, f: SwPixelFormat, s: usize| #[trigger]
            describes_surface(call->RenderContextRender_params@, w, h, f, s) ==> {
                &&& w == width
                &&& h == height
                &&& f == format
                &&& s == stride
                &&& surface_fits(w, h, f, s, pixels@.len())
                &&& w >= 0 && h >= 0 && w * 3 <= s && s * h <= pixels@.len()
            },
{
    let params = call->RenderContextRender_params@;
    assert(params[0].type_ == 17 && params[1].type_ == 18 && params[2].type_ == 19
        && params[3].type_ == 20);
    assert(params[1].data is PixelFormat);
    assert(describes_surface(params, width, height, format, stride));
    assert forall|w: i32, h: i32, f: SwPixelFormat, s: usize| #[trigger]
        describes_surface(params, w, h, f, s) implies w == width && h == height && f == format && s
        == stride by {
        law_pixel_format_names_distinct(f, format);
    }
    assert(width * 3 <= width * 4) by (nonlinear_arith)
        requires
            width >= 0,
    ;
}

/// Whether libmpv reads this surface out of a parameter array: there are
/// parameters of the types for the size, the format, the stride and the pixels,
/// and what each such parameter holds is that of the surface.
pub open spec fn describes_surface(
    params: Seq<RenderParam>,
    width: i32,
    height: i32,
    format: SwPixelFormat,
    stride: usize,
) -> bool {
    &&& exists|i: int| 0 <= i < params.len() && (#[trigger] params[i]).type_ == 17
    &&& exists|i: int| 0 <= i < params.len() && (#[trigger] params[i]).type_ == 18
    &&& exists|i: int| 0 <= i < params.len() && (#[trigger] params[i]).type_ == 19
    &&& exists|i: int| 0 <= i < params.len() && (#[trigger] params[i]).type_ == 20
    &&& forall|i: int|
        0 <= i < params.len() ==> match (#[trigger] params[i]).type_ {
            17 => params[i].data matches RenderData::Size(w, h) && w == width && h == height,
            18 => params[i].data matches RenderData::PixelFormat(c) && c@ == encode_utf8(
                format.spec_name(),
            ),
            19 => params[i].data matches RenderData::Stride(s) && s == stride,
            20 => params[i].data is Pixels,
            _ => params[i].type_ == 0,
        }
}

/// The framebuffer that the parameters of an OpenGL call describe has the name,
/// width, height and internal format that were passed, each in its own field,
/// and the two flags are passed on as `1` or `0`, each under its own parameter
/// type. Nothing else is passed, and the array ends with its terminator.
pub proof fn law_opengl_target_is_the_one_passed<C: CoreRef, G, U>(
    context: &RenderContext<C, G, U>,
    fbo: OpenGlFbo,
    flip_y: bool,
    block_for_target_time: bool,
    call: Call,
)
    requires
        call_ensures(
            RenderContext::<C, G, U>::render_opengl,
            (context, fbo, flip_y, block_for_target_time),
            call,
        ),
    ensures
        call matches Call::RenderContextRender { ctx, params } && {
            &&& ctx == context.spec_raw()
            &&& params@.len() == 4
            &&& exists|i: int| 0 <= i < 3 && (#[trigger] params@[i]).type_ == 3
            &&& exists|i: int| 0 <= i < 3 && (#[trigger] params@[i]).type_ == 4
            &&& exists|i: int| 0 <= i < 3 && (#[trigger] params@[i]).type_ == 12
            &&& params@[3].type_ == 0 && params@[3].data is Null
            &&& forall|i: int|
                0 <= i < 3 ==> match (#[trigger] params@[i]).data {
                    RenderData::Fbo(target) => params@[i].type_ == 3 && target.fbo == fbo.fbo
                        && target.w == fbo.width && target.h == fbo.height
                        && target.internal_format == fbo.internal_format,
                    RenderData::Int(n) => (n == 0 || n == 1) && if params@[i].type_ == 4 {
                        n == 1 <==> flip_y
                    } else {
                        params@[i].type_ == 12 && (n == 1 <==> block_for_target_time)
                    },
                    _ => false,
                }
        },
{
    let params = call->RenderContextRender_params@;
    assert(params[0].type_ == 3 && params[1].type_ == 4 && params[2].type_ == 12);
}

/// A renderer is created for the core that was passed, with the API of its
/// backend by name. Only the OpenGL one is given the function that resolves GL
/// functions, and `1` or `0` for advanced control. Both arrays end with their
/// terminator.
pub proof fn law_renderer_is_created_for_its_core<C: CoreRef, G, U>(
    core: &C,
    advanced_control: bool,
    opengl: Call,
    software: Call,
)
    ensures
        call_ensures(
            RenderContext::<C, G, U>::new_opengl,
            (core, advanced_control),
            opengl,
        ) ==> (opengl matches Call::RenderContextCreate { mpv, params } && {
            &&& mpv == core.core_handle()
            &&& params@.len() == 4
            &&& params@[0].type_ == 1
            &&& (params@[0].data matches RenderData::ApiType(c) && c@ == encode_utf8(
                seq!['o', 'p', 'e', 'n', 'g', 'l'],
            ))
            &&& params@[1].type_ == 2 && params@[1].data is OpenGlInitParams
            &&& params@[2].type_ == 10
            &&& advanced_control ==> params@[2].data == RenderData::Int(1)
            &&& !advanced_control ==> params@[2].data == RenderData::Int(0)
            &&& params@[3].type_ == 0 && params@[3].data is Null
        }),
        call_ensures(RenderContext::<C, G, U>::new_software, (core,), software) ==> (
        software matches Call::RenderContextCreate { mpv, params } && {
            &&& mpv == core.core_handle()
            &&& params@.len() == 2
            &&& params@[0].type_ == 1
            &&& (params@[0].data matches RenderData::ApiType(c) && c@ == encode_utf8(
                seq!['s', 'w'],
            ))
            &&& params@[1].type_ == 0 && params@[1].data is Null
        }),
{
    sys::law_render_numbers();
}

/// A parameter array that ends with its terminator ends where libmpv stops
/// reading it: at the first entry of the type `0`.
pub proof fn law_parameters_end_at_the_first_terminator(params: Seq<RenderParam>)
    ensures
        terminated(params) <==> params.len() > 0 && params.last().data is Null && forall|i: int|
            0 <= i < params.len() ==> ((#[trigger] params[i]).type_ == 0 <==> i == params.len()
                - 1),
{
    assert(params.len() > 0 ==> params.last() == params[params.len() - 1]);
}

/// The core of a renderer is the player that it borrows or shares.
pub proof fn law_core_is_the_player<W, P>(
    borrowed: &Mpv<W, P>,
    shared: Arc<Mpv<W, P>>,
    ctx: mpv_handle,
)
    ensures
        borrowed.core_handle() == borrowed.spec_handle().spec_raw(),
        shared.core_handle() == shared.spec_handle().spec_raw(),
        call_ensures(<&Mpv<W, P> as CoreRef>::handle_ptr, (&borrowed,), ctx) ==> ctx
            == borrowed.spec_handle().spec_raw(),
        call_ensures(<Arc<Mpv<W, P>> as CoreRef>::handle_ptr, (&shared,), ctx) ==> ctx
            == shared.spec_handle().spec_raw(),
{
}

/// Creating a renderer gives back everything that it was given: a renderer with
/// the context of libmpv, the core and the function if it succeeded, else the
/// core and the function, with the error of the status. A success without a
/// context is neither.
pub proof fn law_creation_keeps_what_it_was_given<C: CoreRef, G, U: Default>(
    core: C,
    get_proc_address: Option<G>,
    code: i32,
    raw: mpv_render_context,
    created: Created<C, G, U>,
)
    requires
        call_ensures(
            RenderContext::<C, G, U>::create,
            (core, get_proc_address, code, raw),
            created,
        ),
    ensures
        match created {
            Created::Ready(context) => {
                &&& code >= 0 && raw.addr != 0
                &&& context.spec_raw() == raw
                &&& forall|parts: (U, Kept<C, G>)| #[trigger]
                    call_ensures(RenderContext::<C, G, U>::retire, (context,), parts)
                        ==> call_ensures(U::default, (), parts.0) && parts.1.core == core
                        && parts.1.get_proc_address == get_proc_address
                &&& forall|address: mpv_render_context| #[trigger]
                    call_ensures(RenderContext::<C, G, U>::as_raw, (&context,), address) ==> address
                        == raw
                &&& forall|update: &U| #[trigger]
                    call_ensures(RenderContext::<C, G, U>::update_slot, (&context,), update)
                        ==> call_ensures(U::default, (), *update)
            },
            Created::Failed { error, get_proc_address: g, core: c } => code < 0 && error.code()
                == Some(code) && g == get_proc_address && c == core,
            Created::Broken { leaked, core: c } => code >= 0 && raw.addr == 0 && leaked
                == get_proc_address && c == core,
        },
{
    error::law_code_round_trip(code);
}

/// Every call on a renderer goes to the context of libmpv that it was created
/// with: registering its callback and taking it back, updating, asking about
/// the next frame, reporting a swap, and freeing it.
pub proof fn law_calls_go_to_the_context<C: CoreRef, G, U>(
    context: &RenderContext<C, G, U>,
    raw: mpv_render_context,
    call: Call,
)
    requires
        call_ensures(RenderContext::<C, G, U>::as_raw, (context,), raw),
    ensures
        raw.addr != 0,
        call_ensures(RenderContext::<C, G, U>::set_update_callback, (context,), call) ==> (
        call matches Call::RenderContextSetUpdateCallback { ctx, set } && ctx == raw && set),
        call_ensures(RenderContext::<C, G, U>::clear_update_callback, (context,), call) ==> (
        call matches Call::RenderContextSetUpdateCallback { ctx, set } && ctx == raw && !set),
        call_ensures(RenderContext::<C, G, U>::update, (context,), call) ==> (
        call matches Call::RenderContextUpdate { ctx } && ctx == raw),
        call_ensures(RenderContext::<C, G, U>::next_frame_info, (context,), call) ==> (
        call matches Call::RenderContextGetInfo { ctx, type_ } && ctx == raw && type_ == 11),
        call_ensures(RenderContext::<C, G, U>::report_swap, (context,), call) ==> (
        call matches Call::RenderContextReportSwap { ctx } && ctx == raw),
        call_ensures(RenderContext::<C, G, U>::free, (context,), call) ==> (
        call matches Call::RenderContextFree { ctx } && ctx == raw),
{
}

/// A renderer that shares its player hands out that player.
pub proof fn law_shared_player_is_handed_out<W, P, G, U>(
    context: &OwnedRenderContext<W, P, G, U>,
    core: &Arc<Mpv<W, P>>,
)
    requires
        call_ensures(
            RenderContext::<Arc<Mpv<W, P>>, G, U>::player,
            (context,),
            core,
        ),
    ensures
        *core == context.spec_core(),
{
}

/// A frame is due exactly if the lowest bit of the flags is set, whatever the
/// other bits are.
pub proof fn law_frame_is_due_by_the_lowest_bit(flags: u64, due: bool)
    requires
        call_ensures(frame_due, (flags,), due),
    ensures
        due <==> flags % 2 == 1,
{
    assert(flags & 1 != 0 <==> flags % 2 == 1) by (bit_vector);
}

/// Each of the four facts about a frame is one bit of its flags, counted from
/// the lowest, and its time is passed on as it is; if the call failed there is
/// the error of its status instead. Without a frame nothing is said.
pub proof fn law_frame_info_reads_its_bits(
    code: i32,
    info: mpv_render_frame_info,
    r: Result<FrameInfo>,
    none: FrameInfo,
)
    ensures
        call_ensures(frame_info, (code, info), r) ==> match r {
            Ok(frame) => {
                &&& code >= 0
                &&& frame.present <==> info.flags % 2 == 1
                &&& frame.redraw <==> (info.flags / 2) % 2 == 1
                &&& frame.repeat <==> (info.flags / 4) % 2 == 1
                &&& frame.block_vsync <==> (info.flags / 8) % 2 == 1
                &&& frame.target_time == info.target_time
            },
            Err(e) => code < 0 && e.code() == Some(code),
        },
        call_ensures(<FrameInfo as Default>::default, (), none) ==> none == frame_info_of(
            mpv_render_frame_info { flags: 0, target_time: 0 },
        ),
{
    let flags = info.flags;
    error::law_code_round_trip(code);
    assert({
        &&& flags & 1 != 0 <==> flags % 2 == 1
        &&& flags & 2 != 0 <==> (flags / 2) % 2 == 1
        &&& flags & 4 != 0 <==> (flags / 4) % 2 == 1
        &&& flags & 8 != 0 <==> (flags / 8) % 2 == 1
    }) by (bit_vector);
    assert(0u64 & 1 == 0 && 0u64 & 2 == 0 && 0u64 & 4 == 0 && 0u64 & 8 == 0) by (bit_vector);
}

} // verus!
