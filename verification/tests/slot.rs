//! Callbacks registered with libmpv.

use std::cell::{Cell, RefCell};
use std::rc::Rc;

use rsmpv::slot::{CallbackSlot, SlotAction};

/// Counts how often it is released.
struct CountDrop(Rc<Cell<usize>>);

impl Drop for CountDrop {
    fn drop(&mut self) {
        self.0.set(self.0.get() + 1);
    }
}

/// Perform the operation under way, and say what was done in order. `dispatch`
/// is called while the cell is being registered or unregistered.
fn perform<T>(
    slot: &mut CallbackSlot<T, ()>,
    mut dispatch: impl FnMut(Option<&T>),
) -> Vec<&'static str> {
    let mut log = Vec::new();
    while slot.busy() {
        match slot.next() {
            SlotAction::Leak => log.push("leak"),
            SlotAction::Register => {
                dispatch(slot.current());
                log.push("register");
            }
            SlotAction::Unregister => {
                dispatch(slot.current());
                log.push("unregister");
            }
            SlotAction::Destroy => {
                assert!(slot.current().is_none());
                log.push("destroy");
            }
            SlotAction::Release(callback, _) => {
                drop(callback);
                log.push("release");
            }
        }
    }
    log
}

#[test]
fn a_new_slot_is_empty() {
    let slot: CallbackSlot<u8, ()> = CallbackSlot::new();
    assert!(!slot.busy());
    assert!(slot.current().is_none());
}

#[test]
fn wakeup_callback_fires() {
    let woke = Rc::new(Cell::new(false));
    let woke2 = woke.clone();
    let mut slot: CallbackSlot<Box<dyn Fn()>, ()> = CallbackSlot::new();
    slot.set(Box::new(move || woke2.set(true)));
    // Registration dispatches at once.
    let log = perform(&mut slot, |callback| callback.unwrap()());
    assert_eq!(log, ["leak", "register", "release"]);
    assert!(woke.get(), "wakeup callback never fired");
}

#[test]
fn registration_finds_the_new_callback() {
    let mut slot = CallbackSlot::new();
    let seen = RefCell::new(Vec::new());
    for callback in [1, 2] {
        slot.set(callback);
        perform(&mut slot, |c| seen.borrow_mut().push(*c.unwrap()));
    }
    assert_eq!(*seen.borrow(), [1, 2]);
    // The cell is leaked once.
    slot.set(3);
    assert_eq!(perform(&mut slot, |_| ()), ["register", "release"]);
    assert_eq!(slot.current(), Some(&3));
}

#[test]
fn clearing_finds_the_old_callback() {
    let mut slot = CallbackSlot::new();
    slot.set(1);
    perform(&mut slot, |_| ());
    slot.clear();
    let mut seen = None;
    assert_eq!(perform(&mut slot, |c| seen = c.copied()), ["unregister", "release"]);
    assert_eq!(seen, Some(1));
    assert!(slot.current().is_none());
}

/// Tearing down releases the callback, and a panic in its release must not
/// skip the destruction: it comes after.
#[test]
fn panicking_wakeup_closure_drop_does_not_wedge_teardown() {
    let drops = Rc::new(Cell::new(0));
    let mut slot = CallbackSlot::new();
    slot.set(CountDrop(Rc::clone(&drops)));
    perform(&mut slot, |_| ());
    slot.teardown(());
    let log = perform(&mut slot, |callback| assert!(callback.is_some()));
    assert_eq!(log, ["unregister", "destroy", "release"]);
    assert_eq!(drops.get(), 1);
}

#[test]
fn wakeup_closure_released_once_on_drop() {
    let drops = Rc::new(Cell::new(0));
    let mut slot = CallbackSlot::new();
    slot.set(CountDrop(Rc::clone(&drops)));
    perform(&mut slot, |_| ());
    assert_eq!(drops.get(), 0);
    slot.teardown(());
    perform(&mut slot, |_| ());
    assert_eq!(drops.get(), 1);
    // And it stays released exactly once.
    drop(slot);
    assert_eq!(drops.get(), 1);
}

#[test]
fn replaced_wakeup_closures_all_released() {
    const ROUNDS: usize = 100;
    let drops = Rc::new(Cell::new(0));
    let mut slot = CallbackSlot::new();
    for i in 0..ROUNDS {
        slot.set(CountDrop(Rc::clone(&drops)));
        perform(&mut slot, |_| ());
        assert_eq!(drops.get(), i);
    }
    slot.clear();
    perform(&mut slot, |_| ());
    assert_eq!(drops.get(), ROUNDS);
    slot.teardown(());
    perform(&mut slot, |_| ());
    assert_eq!(drops.get(), ROUNDS);
}

#[test]
fn clear_wakeup_callback_breaks_arc_cycle() {
    let player = Rc::new(());
    let mut slot = CallbackSlot::new();
    slot.set(Rc::clone(&player));
    perform(&mut slot, |_| ());
    assert_eq!(Rc::strong_count(&player), 2);

    slot.clear();
    perform(&mut slot, |_| ());
    assert_eq!(Rc::strong_count(&player), 1);
}

/// What the owner held besides its callback is released after the mpv object
/// was destroyed, and after the callback.
#[test]
fn what_the_owner_keeps_outlives_the_mpv_object() {
    let callback = Rc::new(Cell::new(0));
    let kept = Rc::new(Cell::new(0));
    let mut slot = CallbackSlot::new();
    slot.set(CountDrop(Rc::clone(&callback)));
    while slot.busy() {
        slot.next();
    }
    slot.teardown(CountDrop(Rc::clone(&kept)));
    assert!(matches!(slot.next(), SlotAction::Unregister));
    assert!(matches!(slot.next(), SlotAction::Destroy));
    assert_eq!((callback.get(), kept.get()), (0, 0));
    match slot.next() {
        SlotAction::Release(removed, held) => {
            drop(removed);
            assert_eq!((callback.get(), kept.get()), (1, 0));
            drop(held);
            assert_eq!((callback.get(), kept.get()), (1, 1));
        }
        _ => panic!("not released"),
    }
    assert!(!slot.busy());
    drop(slot);
    assert_eq!((callback.get(), kept.get()), (1, 1));
}
