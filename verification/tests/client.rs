//! Client handles.

use std::cell::RefCell;
use std::rc::Rc;

use rsmpv::call::{Call, Cleanup, PropertyArg};
use rsmpv::client::{osd_string, removed};
use rsmpv::cstring::CString;
use rsmpv::slot::{CallbackSlot, SlotAction};
use rsmpv::stream_cb::ProtocolRegistry;
use rsmpv::sys::{mpv_handle, Double};
use rsmpv::{Error, Format, Node, Reply, Startup};

/// A wakeup slot that the owner shares.
type Slot = Rc<RefCell<CallbackSlot<u8, ProtocolRegistry<u8>>>>;
type Mpv = rsmpv::Mpv<Slot, ProtocolRegistry<u8>>;

const RAW: mpv_handle = mpv_handle { addr: 16 };
const NULL: mpv_handle = mpv_handle { addr: 0 };

fn player() -> Mpv {
    let start = Mpv::new().resume(Reply::Handle(RAW));
    match start.resume(Reply::Code(0)) {
        Startup::Running(mpv) => mpv,
        other => panic!("{other:?}"),
    }
}

#[test]
fn a_player_is_created_and_initialized() {
    let start = Mpv::new();
    assert!(matches!(start.call(), Some(Call::Create)));
    let start = start.resume(Reply::Handle(RAW));
    assert!(matches!(start.call(), Some(Call::Initialize { ctx: RAW })));
    let start = start.resume(Reply::Code(0));
    assert!(start.call().is_none());
    match start {
        Startup::Running(mpv) => {
            assert_eq!(mpv.as_raw(), RAW);
            assert!(matches!(mpv.terminate(), Call::TerminateDestroy { ctx: RAW }));
        }
        other => panic!("{other:?}"),
    }
}

#[test]
fn creation_fails_with_null() {
    for start in [Mpv::new(), Mpv::builder()] {
        match start.resume(Reply::Handle(NULL)) {
            Startup::Failed { error: Error::CreateFailed, released: None } => {}
            other => panic!("{other:?}"),
        }
    }
}

#[test]
fn a_failed_initialization_destroys_the_instance() {
    let start = Mpv::new().resume(Reply::Handle(RAW)).resume(Reply::Code(-15));
    assert!(matches!(start.call(), Some(Call::TerminateDestroy { ctx: RAW })));
    match start.resume(Reply::Nothing) {
        Startup::Failed { error: Error::VoInitFailed, released: Some(_) } => {}
        other => panic!("{other:?}"),
    }
}

#[test]
fn a_builder_waits() {
    let builder = match Mpv::builder().resume(Reply::Handle(RAW)) {
        Startup::Created(builder) => builder,
        other => panic!("{other:?}"),
    };
    assert_eq!(builder.as_raw(), RAW);
    assert!(matches!(builder.terminate(), Call::TerminateDestroy { ctx: RAW }));
    match builder.set_property("vo", "null").unwrap() {
        Call::SetPropertyString { ctx, name, data } => {
            assert_eq!(ctx, RAW);
            assert_eq!(name.to_bytes(), b"vo");
            assert_eq!(data.to_bytes(), b"null");
        }
        _ => unreachable!(),
    }
    assert!(matches!(builder.build::<()>().call(), Some(Call::Initialize { ctx: RAW })));
}

#[test]
fn callbacks_set_on_a_builder_pass_to_the_player() {
    let builder = match Mpv::builder().resume(Reply::Handle(RAW)) {
        Startup::Created(builder) => builder,
        other => panic!("{other:?}"),
    };
    let slot = Rc::clone(builder.wakeup_slot());
    assert!(slot.borrow().current().is_none());
    slot.borrow_mut().set(7);
    while slot.borrow().busy() {
        slot.borrow_mut().next();
    }
    let start: Startup<Slot, ProtocolRegistry<u8>> = builder.build();
    let mpv = match start.resume(Reply::Code(0)) {
        Startup::Running(mpv) => mpv,
        other => panic!("{other:?}"),
    };
    assert!(Rc::ptr_eq(mpv.wakeup_slot(), &slot));
    assert_eq!(mpv.wakeup_slot().borrow().current(), Some(&7));
    assert_eq!(format!("{:?}", mpv.protocols()), format!("{:?}", ProtocolRegistry::<u8>::new()));

    // Teardown gives the protocols back after the player is destroyed.
    let (slot, protocols) = mpv.retire();
    slot.borrow_mut().teardown(protocols);
    assert!(matches!(slot.borrow_mut().next(), SlotAction::Unregister));
    assert!(matches!(slot.borrow_mut().next(), SlotAction::Destroy));
    assert!(matches!(slot.borrow_mut().next(), SlotAction::Release(Some(7), Some(_))));
    assert!(!slot.borrow().busy());
}

#[test]
fn a_failed_build_gives_the_slot_back_after_the_destruction() {
    let start = Mpv::new().resume(Reply::Handle(RAW));
    let slot = match &start {
        Startup::Initialize(builder) => Rc::clone(builder.wakeup_slot()),
        other => panic!("{other:?}"),
    };
    let start = start.resume(Reply::Code(-2));
    assert_eq!(Rc::strong_count(&slot), 2);
    match start.resume(Reply::Nothing) {
        Startup::Failed { error: Error::OutOfMemory, released: Some(released) } => {
            assert!(Rc::ptr_eq(&released, &slot));
        }
        other => panic!("{other:?}"),
    }
}

#[test]
fn clients_are_created_by_name() {
    let mpv = player();
    match mpv.create_client(Some("helper")).unwrap() {
        Call::CreateClient { ctx, name: Some(name) } => {
            assert_eq!(ctx, RAW);
            assert_eq!(name.to_bytes(), b"helper");
        }
        _ => unreachable!(),
    }
    assert!(matches!(mpv.create_client(None), Ok(Call::CreateClient { ctx: RAW, name: None })));
    assert!(matches!(
        mpv.create_weak_client(None),
        Ok(Call::CreateWeakClient { ctx: RAW, name: None })
    ));
    assert!(matches!(mpv.create_weak_client(Some("\0")), Err(Error::InteriorNul)));
    assert_eq!(mpv.client_created(NULL).unwrap_err(), Error::CreateFailed);
    let client = mpv.client_created(mpv_handle { addr: 32 }).unwrap();
    assert_eq!(client.as_raw(), mpv_handle { addr: 32 });
    // It has a wakeup slot of its own.
    assert!(!Rc::ptr_eq(client.wakeup_slot(), mpv.wakeup_slot()));
    assert!(matches!(client.destroy(), Call::Destroy { ctx: mpv_handle { addr: 32 } }));
}

#[test]
fn requests_with_a_nul_are_refused() {
    let mpv = player();
    let bad = "a\0b";
    let refused = |r: rsmpv::Result<Call>| assert!(matches!(r, Err(Error::InteriorNul)));
    refused(mpv.load_config_file(Some(bad)));
    refused(mpv.get_property::<bool>(bad));
    refused(mpv.get_property_osd_string(bad));
    refused(mpv.set_property(bad, true));
    refused(mpv.set_property("volume", bad));
    refused(mpv.del_property(bad));
    refused(mpv.get_property_async::<i64>(1, bad));
    refused(mpv.set_property_async(1, bad, 5i64));
    refused(mpv.set_property_async(1, "volume", bad));
    refused(mpv.observe_property(1, bad, Format::Flag));
    refused(mpv.command(&["loadfile", bad]));
    refused(mpv.command_ret(&[bad]));
    refused(mpv.command_string(bad));
    refused(mpv.command_async(1, &[bad]));
    refused(mpv.command_node(&Node::from(vec![bad])));
    refused(mpv.command_node_async(1, &Node::from(vec![bad])));
    refused(mpv.request_log_messages(bad));
    refused(mpv.hook_add(1, bad, 0));
}

#[test]
fn a_path_that_is_not_unicode_is_refused() {
    assert!(matches!(player().load_config_file(None), Err(Error::InvalidParameter)));
    match player().load_config_file(Some("/etc/mpv.conf")).unwrap() {
        Call::LoadConfigFile { ctx, filename } => {
            assert_eq!(ctx, RAW);
            assert_eq!(filename.to_bytes(), b"/etc/mpv.conf");
        }
        _ => unreachable!(),
    }
}

#[test]
fn requests_carry_their_arguments() {
    let mpv = player();
    match mpv.get_property_async::<String>(5, "path").unwrap() {
        Call::GetPropertyAsync { ctx, userdata: 5, name, format: 1 } => {
            assert_eq!(ctx, RAW);
            assert_eq!(name.to_bytes(), b"path");
        }
        _ => unreachable!(),
    }
    match mpv.set_property_async(6, "volume", "loud").unwrap() {
        Call::SetPropertyAsync { userdata: 6, format: 6, data: PropertyArg::Node(arg), .. } => {
            assert_eq!(Node::from_raw(&arg.storage, &arg.root), Node::from("loud"));
        }
        _ => unreachable!(),
    }
    match mpv.observe_property(7, "pause", Format::Empty).unwrap() {
        Call::ObserveProperty { userdata: 7, name, format: 0, .. } => {
            assert_eq!(name.to_bytes(), b"pause");
        }
        _ => unreachable!(),
    }
    match mpv.command_string("seek 10").unwrap() {
        Call::CommandString { command, .. } => assert_eq!(command.to_bytes(), b"seek 10"),
        _ => unreachable!(),
    }
    match mpv.command_node_async(8, &Node::from(vec!["stop"])).unwrap() {
        Call::CommandNodeAsync { userdata: 8, args, .. } => {
            assert_eq!(Node::from_raw(&args.storage, &args.root), Node::from(vec!["stop"]));
        }
        _ => unreachable!(),
    }
    match mpv.request_log_messages("warn").unwrap() {
        Call::RequestLogMessages { min_level, .. } => assert_eq!(min_level.to_bytes(), b"warn"),
        _ => unreachable!(),
    }
    match mpv.hook_add(9, "on_load", -3).unwrap() {
        Call::HookAdd { userdata: 9, name, priority: -3, .. } => {
            assert_eq!(name.to_bytes(), b"on_load");
        }
        _ => unreachable!(),
    }
    match mpv.del_property("user-data/x").unwrap() {
        Call::DelProperty { name, .. } => assert_eq!(name.to_bytes(), b"user-data/x"),
        _ => unreachable!(),
    }
}

#[test]
fn requests_without_strings() {
    let mpv = player();
    assert!(matches!(mpv.client_name(), Call::ClientName { ctx: RAW }));
    assert!(matches!(mpv.client_id(), Call::ClientId { ctx: RAW }));
    assert!(matches!(mpv.get_time_ns(), Call::GetTimeNs { ctx: RAW }));
    assert!(matches!(mpv.get_time_us(), Call::GetTimeUs { ctx: RAW }));
    assert!(matches!(
        mpv.unobserve_property(3),
        Call::UnobserveProperty { ctx: RAW, userdata: 3 }
    ));
    assert!(matches!(
        mpv.abort_async_command(4),
        Call::AbortAsyncCommand { ctx: RAW, userdata: 4 }
    ));
    assert!(matches!(
        mpv.request_event(2, true),
        Call::RequestEvent { ctx: RAW, event_id: 2, enable: 1 }
    ));
    assert!(matches!(
        mpv.request_event(2, false),
        Call::RequestEvent { ctx: RAW, event_id: 2, enable: 0 }
    ));
    assert!(matches!(mpv.wakeup(), Call::Wakeup { ctx: RAW }));
    assert!(matches!(mpv.wait_async_requests(), Call::WaitAsyncRequests { ctx: RAW }));
    assert!(matches!(mpv.hook_continue(12), Call::HookContinue { ctx: RAW, id: 12 }));
    assert!(matches!(
        mpv.set_wakeup_callback(),
        Call::SetWakeupCallback { ctx: RAW, set: true }
    ));
    assert!(matches!(
        mpv.clear_wakeup_callback(),
        Call::SetWakeupCallback { ctx: RAW, set: false }
    ));
    let forever = Double { bits: (-1.0f64).to_bits() };
    match mpv.wait_event(forever) {
        Call::WaitEvent { ctx: RAW, timeout } => assert_eq!(timeout, forever),
        _ => unreachable!(),
    }
    match mpv.poll_event() {
        Call::WaitEvent { ctx: RAW, timeout } => assert_eq!(f64::from_bits(timeout.bits), 0.0),
        _ => unreachable!(),
    }
}

#[test]
fn replies() {
    assert_eq!(removed(2), Ok(2));
    assert_eq!(removed(-4), Err(Error::InvalidParameter));
    let failed = osd_string(None);
    assert_eq!(failed.result, Err(Error::PropertyError));
    assert_eq!(failed.cleanup, Cleanup::Nothing);
    let text = CString::new(b"100%".to_vec()).unwrap();
    let read = osd_string(Some(&text));
    assert_eq!(read.result, Ok("100%".to_string()));
    assert_eq!(read.cleanup, Cleanup::Free);
}
