//! Embedded video rendering.

use std::sync::Arc;

use rsmpv::call::Call;
use rsmpv::render::{
    frame_due, frame_info, Created, FrameInfo, Kept, OpenGlFbo, RenderData, RenderParam,
    SwPixelFormat,
};
use rsmpv::slot::{CallbackSlot, SlotAction};
use rsmpv::sys;
use rsmpv::sys::{mpv_handle, mpv_opengl_fbo, mpv_render_context, mpv_render_frame_info, Double};
use rsmpv::{Error, Reply, Startup};

type Mpv = rsmpv::Mpv<(), ()>;
type Gpa = fn(&str) -> usize;
type Slot<C> = CallbackSlot<u8, Kept<C, Gpa>>;
type RenderContext<C> = rsmpv::render::RenderContext<C, Gpa, Slot<C>>;
type OwnedRenderContext = RenderContext<Arc<Mpv>>;

const W: usize = 64;
const H: usize = 64;
const CTX: mpv_render_context = mpv_render_context { addr: 4096 };

fn video_core() -> Mpv {
    let start = Mpv::new().resume(Reply::Handle(mpv_handle { addr: 16 }));
    match start.resume(Reply::Code(0)) {
        Startup::Running(mpv) => mpv,
        other => panic!("{other:?}"),
    }
}

fn params(call: Call) -> Vec<RenderParam> {
    match call {
        Call::RenderContextCreate { mpv, params } => {
            assert_eq!(mpv, mpv_handle { addr: 16 });
            params
        }
        Call::RenderContextRender { ctx, params } => {
            assert_eq!(ctx, CTX);
            params
        }
        _ => panic!("no parameters"),
    }
}

fn software(mpv: &Mpv) -> RenderContext<&Mpv> {
    let created = params(RenderContext::new_software(&mpv));
    let types: Vec<i32> = created.iter().map(|p| p.type_).collect();
    assert_eq!(types, [1, 0]);
    assert!(matches!(&created[0].data, RenderData::ApiType(c) if c.to_bytes() == b"sw"));
    assert!(matches!(created[1].data, RenderData::Null));
    match RenderContext::create(mpv, None, 0, CTX) {
        Created::Ready(context) => context,
        _ => panic!("not created"),
    }
}

/// Fill the surface as the parameters of a render call describe it.
fn paint(params: &[RenderParam], pixels: &mut [u8]) {
    let mut size = (0, 0);
    let mut stride = 0;
    for param in params {
        match &param.data {
            RenderData::Size(w, h) => size = (*w as usize, *h as usize),
            RenderData::Stride(n) => stride = *n,
            _ => {}
        }
    }
    for y in 0..size.1 {
        for x in 0..size.0 * 4 {
            pixels[y * stride + x] = 1;
        }
    }
}

#[test]
fn software_render_produces_pixels() {
    let mpv = video_core();
    let render = software(&mpv);
    assert!(matches!(render.update(), Call::RenderContextUpdate { ctx: CTX }));
    assert!(frame_due(sys::MPV_RENDER_UPDATE_FRAME as u64));
    let mut pixels = vec![0u8; W * H * 4];
    let call = render
        .render_software(W as i32, H as i32, SwPixelFormat::Rgb0, W * 4, &pixels)
        .unwrap();
    let params = params(call);
    let types: Vec<i32> = params.iter().map(|p| p.type_).collect();
    assert_eq!(types, [17, 18, 19, 20, 0]);
    assert!(matches!(params[0].data, RenderData::Size(64, 64)));
    assert!(matches!(&params[1].data, RenderData::PixelFormat(c) if c.to_bytes() == b"rgb0"));
    assert!(matches!(params[2].data, RenderData::Stride(256)));
    assert!(matches!(params[3].data, RenderData::Pixels));
    paint(&params, &mut pixels);
    assert!(pixels.iter().any(|&b| b != 0), "no non-black frame was rendered");
}

#[test]
fn surfaces_that_do_not_fit_are_refused() {
    let mpv = video_core();
    let render = software(&mpv);
    let pixels = vec![0u8; 48];
    let check = |width, height, format, stride| {
        render.render_software(width, height, format, stride, &pixels).map(|_| ())
    };
    assert_eq!(check(4, 3, SwPixelFormat::Bgr0, 16), Ok(()));
    assert_eq!(check(5, 3, SwPixelFormat::Rgb24, 16), Ok(()));
    assert_eq!(check(0, 0, SwPixelFormat::Rgb0, 0), Ok(()));
    let refused = Err(Error::InvalidParameter);
    // A row is too short for its pixels.
    assert_eq!(check(5, 3, SwPixelFormat::ZeroBgr, 16), refused);
    // The buffer is too short for its rows.
    assert_eq!(check(4, 4, SwPixelFormat::ZeroRgb, 16), refused);
    // Negative sizes.
    assert_eq!(check(-1, 3, SwPixelFormat::Rgb0, 16), refused);
    assert_eq!(check(4, -1, SwPixelFormat::Rgb0, 16), refused);
    // Products that do not fit in a usize.
    assert_eq!(check(4, 3, SwPixelFormat::Rgb0, usize::MAX), refused);
    assert_eq!(check(i32::MAX, 0, SwPixelFormat::Rgb0, 16), refused);
}

#[test]
fn pixel_formats() {
    let formats = [
        (SwPixelFormat::Rgb0, 4, "rgb0"),
        (SwPixelFormat::Bgr0, 4, "bgr0"),
        (SwPixelFormat::ZeroBgr, 4, "0bgr"),
        (SwPixelFormat::ZeroRgb, 4, "0rgb"),
        (SwPixelFormat::Rgb24, 3, "rgb24"),
    ];
    for (format, size, name) in formats {
        assert_eq!(format.bytes_per_pixel(), size);
        assert_eq!(format.as_cstr().to_string_lossy(), name);
    }
}

#[test]
fn opengl_parameters() {
    let mpv = video_core();
    for advanced in [false, true] {
        let created = params(RenderContext::new_opengl(&&mpv, advanced));
        let types: Vec<i32> = created.iter().map(|p| p.type_).collect();
        assert_eq!(types, [1, 2, 10, 0]);
        assert!(matches!(&created[0].data, RenderData::ApiType(c) if c.to_bytes() == b"opengl"));
        assert!(matches!(created[1].data, RenderData::OpenGlInitParams));
        assert!(matches!(created[2].data, RenderData::Int(v) if v == advanced as i32));
    }
    let render = software(&mpv);
    let fbo = OpenGlFbo { fbo: 1, width: 640, height: 480, internal_format: 0x8058 };
    let rendered = params(render.render_opengl(fbo, true, false));
    let types: Vec<i32> = rendered.iter().map(|p| p.type_).collect();
    assert_eq!(types, [3, 4, 12, 0]);
    let raw = mpv_opengl_fbo { fbo: 1, w: 640, h: 480, internal_format: 0x8058 };
    assert!(matches!(rendered[0].data, RenderData::Fbo(f) if f == raw));
    assert!(matches!(rendered[1].data, RenderData::Int(1)));
    assert!(matches!(rendered[2].data, RenderData::Int(0)));
    assert!(matches!(rendered[3].data, RenderData::Null));
}

fn resolve(name: &str) -> usize {
    name.len()
}

#[test]
fn creation_can_fail() {
    let mpv = video_core();
    let null = mpv_render_context { addr: 0 };
    // Everything comes back to be released.
    match RenderContext::create(&mpv, Some(resolve), sys::MPV_ERROR_UNSUPPORTED, null) {
        Created::Failed { error, get_proc_address, core } => {
            assert_eq!(error, Error::Unsupported);
            assert_eq!(get_proc_address.unwrap()("glClear"), 7);
            assert_eq!(core.as_raw(), mpv.as_raw());
        }
        _ => panic!("not failed"),
    }
    // The function comes back to be leaked.
    match RenderContext::create(&mpv, Some(resolve), 0, null) {
        Created::Broken { leaked: Some(_), core } => assert_eq!(core.as_raw(), mpv.as_raw()),
        _ => panic!("not broken"),
    }
}

#[test]
fn a_renderer_keeps_what_it_was_created_with_until_it_is_freed() {
    let mpv = Arc::new(video_core());
    let render = match OwnedRenderContext::create(Arc::clone(&mpv), Some(resolve), 0, CTX) {
        Created::Ready(context) => context,
        _ => panic!("not created"),
    };
    assert!(render.update_slot().current().is_none());
    assert_eq!(Arc::strong_count(&mpv), 2);
    let (mut slot, kept) = render.retire();
    slot.teardown(kept);
    assert!(matches!(slot.next(), SlotAction::Unregister));
    assert!(matches!(slot.next(), SlotAction::Destroy));
    assert_eq!(Arc::strong_count(&mpv), 2);
    match slot.next() {
        SlotAction::Release(None, Some(kept)) => {
            assert_eq!(kept.get_proc_address.unwrap()("glFlush"), 7);
            assert_eq!(kept.core.as_raw(), mpv.as_raw());
        }
        _ => panic!("not released"),
    }
    assert_eq!(Arc::strong_count(&mpv), 1);
}

#[test]
fn frame_information() {
    assert!(!frame_due(0));
    assert!(!frame_due(6));
    assert!(frame_due(7));
    let info = mpv_render_frame_info { flags: 1 | 4 | 1 << 40, target_time: 123 };
    let expected = FrameInfo { present: true, repeat: true, target_time: 123, ..FrameInfo::default() };
    assert_eq!(frame_info(0, info), Ok(expected));
    let info = mpv_render_frame_info { flags: 2 | 8, target_time: -1 };
    let expected = FrameInfo {
        present: false,
        redraw: true,
        repeat: false,
        block_vsync: true,
        target_time: -1,
    };
    assert_eq!(frame_info(1, info), Ok(expected));
    assert_eq!(frame_info(-19, info), Err(Error::NotImplemented));
}

#[test]
fn calls_on_the_context() {
    let mpv = video_core();
    let render = software(&mpv);
    assert_eq!(render.as_raw(), CTX);
    assert!(matches!(render.next_frame_info(), Call::RenderContextGetInfo { ctx: CTX, type_: 11 }));
    assert!(matches!(render.report_swap(), Call::RenderContextReportSwap { ctx: CTX }));
    assert!(matches!(
        render.set_update_callback(),
        Call::RenderContextSetUpdateCallback { ctx: CTX, set: true }
    ));
    assert!(matches!(
        render.clear_update_callback(),
        Call::RenderContextSetUpdateCallback { ctx: CTX, set: false }
    ));
    assert!(matches!(render.free(), Call::RenderContextFree { ctx: CTX }));
}

/// One shared player serves both the render context and the event drain.
#[test]
fn owned_render_context_with_shared_event_drain() {
    let mpv = Arc::new(video_core());
    let render = match OwnedRenderContext::create(Arc::clone(&mpv), None, 0, CTX) {
        Created::Ready(context) => context,
        _ => panic!("not created"),
    };
    assert!(matches!(mpv.poll_event(), Call::WaitEvent { ctx: mpv_handle { addr: 16 }, .. }));
    let mut pixels = vec![0u8; W * H * 4];
    let call = render
        .render_software(W as i32, H as i32, SwPixelFormat::Rgb0, W * 4, &pixels)
        .unwrap();
    paint(&params(call), &mut pixels);
    assert!(pixels.iter().all(|&b| b != 0));
}

#[test]
fn owned_render_context_defers_termination() {
    let mpv = Arc::new(video_core());
    let created = params(OwnedRenderContext::new_software(&mpv));
    assert_eq!(created.len(), 2);
    let render = match OwnedRenderContext::create(Arc::clone(&mpv), None, 0, CTX) {
        Created::Ready(context) => context,
        _ => panic!("not created"),
    };
    drop(mpv); // the player stays alive through the context's Arc
    assert_eq!(Arc::strong_count(render.player()), 1);
    assert!(render.player().get_property::<Double>("volume").is_ok());
}

#[test]
fn owned_render_context_is_send() {
    fn assert_send<T: Send>() {}
    assert_send::<OwnedRenderContext>();
}
