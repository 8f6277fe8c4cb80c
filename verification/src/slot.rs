//! The cell that holds a callback while its address is registered with
//! libmpv, used for both the client wakeup callback and the render update
//! callback.
//!
//! libmpv keeps the address of the cell and calls through it from its own
//! threads, so the order in which the cell changes and libmpv is told about it
//! matters:
//!
//! - Setting a callback stores it first and registers the cell after, because
//!   the registration may call back at once and must find the new callback.
//! - Removing a callback unregisters the cell first and empties it after, so
//!   that a dispatch before that still finds the callback it was promised.
//! - A callback that left the cell is released last of all, outside every
//!   lock: releasing it runs code of the user. When the owner is torn down
//!   that is after the mpv object was destroyed, so that a panic there cannot
//!   skip the destruction.
//! - What else the owner holds for the mpv object, such as functions that
//!   libmpv calls or a reference to the player, is kept until the object was
//!   destroyed. The owner gives it to the slot for its teardown, and gets it
//!   back to be released with the callback.
//! - The allocation of the cell is leaked once before the first registration,
//!   so that a dispatch that comes late still finds a cell.
//!
//! [`CallbackSlot`] takes these decisions; whoever owns the cell performs each
//! [`SlotAction`] before it asks for the next one.

use vstd::multiset::Multiset;
use vstd::prelude::*;

verus! {

/// What the owner of a slot has to do next.
#[derive(Debug)]
pub enum SlotAction<T, K> {
    /// Leak one reference to the cell.
    Leak,
    /// Register the cell with libmpv.
    Register,
    /// Tell libmpv to forget the cell.
    Unregister,
    /// Destroy the mpv object that the cell was registered with.
    Destroy,
    /// Release the callback that left the cell, if any, and after it what the
    /// owner held besides, if it is torn down; the operation is complete.
    Release(Option<T>, Option<K>),
}

/// How far an operation on a slot has come.
#[derive(Debug)]
pub enum Pending<T, K> {
    /// No operation is under way.
    Idle,
    /// A callback is to be stored.
    Store(T),
    /// The cell is being registered; holds the callback that was replaced.
    Registering(Option<T>),
    /// The cell is to be unregistered. If its owner is torn down, `kept` is
    /// what the owner held besides, and the mpv object is destroyed.
    Unregister { kept: Option<K> },
    /// The cell is being unregistered.
    Unregistering { kept: Option<K> },
    /// The mpv object is being destroyed; holds the callback that was removed.
    Destroying { removed: Option<T>, kept: K },
}

/// The state of a [`CallbackSlot`].
pub struct SlotState<T, K> {
    /// The callback in the cell.
    pub stored: Option<T>,
    /// Whether a reference to the cell was leaked.
    pub leaked: bool,
    /// Whether libmpv may dispatch through the cell.
    pub live: bool,
    /// The operation under way.
    pub pending: Pending<T, K>,
}

/// A callback as a multiset: itself, or nothing.
pub open spec fn one<T>(callback: Option<T>) -> Multiset<T> {
    match callback {
        Some(c) => Multiset::singleton(c),
        None => Multiset::empty(),
    }
}

impl<T, K> SlotAction<T, K> {
    /// The callbacks that performing the action releases.
    pub open spec fn released(self) -> Multiset<T> {
        match self {
            SlotAction::Release(callback, _) => one(callback),
            _ => Multiset::empty(),
        }
    }

    /// What performing the action releases of what the owner held besides.
    pub open spec fn given_up(self) -> Option<K> {
        match self {
            SlotAction::Release(_, kept) => kept,
            _ => None,
        }
    }
}

impl<T, K> SlotState<T, K> {
    /// The state of a new slot.
    pub open spec fn empty() -> SlotState<T, K> {
        SlotState { stored: None, leaked: false, live: false, pending: Pending::Idle }
    }

    /// Whether no operation is under way.
    pub open spec fn idle(self) -> bool {
        self.pending is Idle
    }

    /// Whenever libmpv may dispatch through the cell, the cell was leaked and
    /// holds a callback.
    pub open spec fn wf(self) -> bool {
        &&& self.live ==> self.stored is Some && self.leaked
        &&& self.pending is Registering ==> self.live
    }

    /// The callbacks that the slot owns.
    pub open spec fn held(self) -> Multiset<T> {
        one(self.stored).add(
            match self.pending {
                Pending::Store(c) => Multiset::singleton(c),
                Pending::Registering(c) => one(c),
                Pending::Destroying { removed, .. } => one(removed),
                _ => Multiset::empty(),
            },
        )
    }

    /// What the slot keeps of what its owner held besides the callback.
    pub open spec fn kept(self) -> Option<K> {
        match self.pending {
            Pending::Unregister { kept } => kept,
            Pending::Unregistering { kept } => kept,
            Pending::Destroying { kept, .. } => Some(kept),
            _ => None,
        }
    }

    /// The state once an operation was begun.
    pub open spec fn begin(self, pending: Pending<T, K>) -> SlotState<T, K> {
        SlotState { pending, ..self }
    }

    /// The next action of the operation under way.
    pub open spec fn action(self) -> SlotAction<T, K> {
        match self.pending {
            Pending::Idle => SlotAction::Release(None, None),
            Pending::Store(_) => if self.leaked {
                SlotAction::Register
            } else {
                SlotAction::Leak
            },
            Pending::Registering(previous) => SlotAction::Release(previous, None),
            Pending::Unregister { .. } => SlotAction::Unregister,
            Pending::Unregistering { kept: Some(_) } => SlotAction::Destroy,
            Pending::Unregistering { kept: None } => SlotAction::Release(self.stored, None),
            Pending::Destroying { removed, kept } => SlotAction::Release(removed, Some(kept)),
        }
    }

    /// The state while, and once, the next action is performed.
    pub open spec fn next(self) -> SlotState<T, K> {
        match self.pending {
            Pending::Idle => self,
            Pending::Store(callback) => if self.leaked {
                SlotState {
                    stored: Some(callback),
                    live: true,
                    pending: Pending::Registering(self.stored),
                    ..self
                }
            } else {
                SlotState { leaked: true, ..self }
            },
            Pending::Registering(_) => SlotState { pending: Pending::Idle, ..self },
            Pending::Unregister { kept } => SlotState {
                pending: Pending::Unregistering { kept },
                ..self
            },
            Pending::Unregistering { kept } => SlotState {
                stored: None,
                live: false,
                pending: match kept {
                    Some(kept) => Pending::Destroying { removed: self.stored, kept },
                    None => Pending::Idle,
                },
                ..self
            },
            Pending::Destroying { .. } => SlotState { pending: Pending::Idle, ..self },
        }
    }

    /// How many actions the operation under way still takes.
    pub open spec fn actions_left(self) -> nat {
        match self.pending {
            Pending::Idle => 0,
            Pending::Store(_) => if self.leaked {
                2
            } else {
                3
            },
            Pending::Registering(_) => 1,
            Pending::Unregister { kept: Some(_) } => 3,
            Pending::Unregister { kept: None } => 2,
            Pending::Unregistering { kept: Some(_) } => 2,
            Pending::Unregistering { kept: None } => 1,
            Pending::Destroying { .. } => 1,
        }
    }

    /// The actions of the operation under way, in order.
    pub open spec fn actions(self) -> Seq<SlotAction<T, K>>
        decreases self.actions_left(),
    {
        if self.idle() {
            Seq::empty()
        } else {
            seq![self.action()] + self.next().actions()
        }
    }

    /// The state when the operation under way is complete.
    pub open spec fn complete(self) -> SlotState<T, K>
        decreases self.actions_left(),
    {
        if self.idle() {
            self
        } else {
            self.next().complete()
        }
    }
}

/// The callbacks that performing `actions` releases.
pub open spec fn all_released<T, K>(actions: Seq<SlotAction<T, K>>) -> Multiset<T>
    decreases actions.len(),
{
    if actions.len() == 0 {
        Multiset::empty()
    } else {
        actions[0].released().add(all_released(actions.drop_first()))
    }
}

/// Owner of a callback whose cell is registered with libmpv.
#[derive(Debug)]
pub struct CallbackSlot<T, K> {
    stored: Option<T>,
    leaked: bool,
    live: bool,
    pending: Pending<T, K>,
}

impl<T, K> View for CallbackSlot<T, K> {
    type V = SlotState<T, K>;

    closed spec fn view(&self) -> SlotState<T, K> {
        SlotState {
            stored: self.stored,
            leaked: self.leaked,
            live: self.live,
            pending: self.pending,
        }
    }
}

impl<T, K> CallbackSlot<T, K> {
    /// A slot without a callback, unknown to libmpv.
    pub fn new() -> (slot: CallbackSlot<T, K>)
        ensures
            slot@ == SlotState::<T, K>::empty(),
            slot@.wf(),
    {
        CallbackSlot { stored: None, leaked: false, live: false, pending: Pending::Idle }
    }

    /// Begin to store `callback` and register the cell.
    pub fn set(&mut self, callback: T)
        requires
            old(self)@.wf(),
            old(self)@.idle(),
        ensures
            final(self)@.wf(),
            final(self)@ == old(self)@.begin(Pending::Store(callback)),
    {
        self.pending = Pending::Store(callback);
    }

    /// Begin to unregister the cell and remove its callback.
    pub fn clear(&mut self)
        requires
            old(self)@.wf(),
            old(self)@.idle(),
        ensures
            final(self)@.wf(),
            final(self)@ == old(self)@.begin(Pending::Unregister { kept: None }),
    {
        self.pending = Pending::Unregister { kept: None };
    }

    /// Begin to unregister the cell, remove its callback, and destroy the mpv
    /// object that it was registered with. `kept` is what the owner holds for
    /// that object besides the callback; the last action gives it back.
    pub fn teardown(&mut self, kept: K)
        requires
            old(self)@.wf(),
            old(self)@.idle(),
        ensures
            final(self)@.wf(),
            final(self)@ == old(self)@.begin(Pending::Unregister { kept: Some(kept) }),
    {
        self.pending = Pending::Unregister { kept: Some(kept) };
    }

    /// Whether an operation is under way.
    pub fn busy(&self) -> (busy: bool)
        ensures
            busy == !self@.idle(),
    {
        match self.pending {
            Pending::Idle => false,
            _ => true,
        }
    }

    /// The next action of the operation under way. It must be performed before
    /// this is called again.
    pub fn next(&mut self) -> (action: SlotAction<T, K>)
        requires
            old(self)@.wf(),
            !old(self)@.idle(),
        ensures
            final(self)@.wf(),
            action == old(self)@.action(),
            final(self)@ == old(self)@.next(),
    {
        let mut pending = Pending::Idle;
        core::mem::swap(&mut pending, &mut self.pending);
        match pending {
            Pending::Idle => SlotAction::Release(None, None),
            Pending::Store(callback) => {
                if !self.leaked {
                    self.leaked = true;
                    self.pending = Pending::Store(callback);
                    SlotAction::Leak
                } else {
                    let previous = self.stored.take();
                    self.stored = Some(callback);
                    self.live = true;
                    self.pending = Pending::Registering(previous);
                    SlotAction::Register
                }
            },
            Pending::Registering(previous) => SlotAction::Release(previous, None),
            Pending::Unregister { kept } => {
                self.pending = Pending::Unregistering { kept };
                SlotAction::Unregister
            },
            Pending::Unregistering { kept } => {
                self.live = false;
                let removed = self.stored.take();
                match kept {
                    Some(kept) => {
                        self.pending = Pending::Destroying { removed, kept };
                        SlotAction::Destroy
                    },
                    None => SlotAction::Release(removed, None),
                }
            },
            Pending::Destroying { removed, kept } => SlotAction::Release(removed, Some(kept)),
        }
    }

    /// The callback that a dispatch through the cell invokes.
    pub fn current(&self) -> (callback: Option<&T>)
        ensures
            callback == (match self@.stored {
                Some(c) => Some(&c),
                None => None,
            }),
            self@.wf() && self@.live ==> callback is Some,
    {
        self.stored.as_ref()
    }
}

impl<T, K> Default for CallbackSlot<T, K> {
    fn default() -> (slot: CallbackSlot<T, K>)
        ensures
            slot@ == SlotState::<T, K>::empty(),
            slot@.wf(),
    {
        CallbackSlot::new()
    }
}

/// Setting a callback stores it before the cell is registered, leaks the cell
/// before its first registration only, and releases the callback it replaced
/// last.
pub proof fn law_set<T, K>(slot: SlotState<T, K>, callback: T)
    requires
        slot.wf(),
        slot.idle(),
    ensures
        ({
            let begun = slot.begin(Pending::Store(callback));
            let end = begun.complete();
            &&& begun.actions() == (if slot.leaked {
                seq![]
            } else {
                seq![SlotAction::<T, K>::Leak]
            }) + seq![SlotAction::Register, SlotAction::Release(slot.stored, None)]
            &&& end == SlotState::<T, K> {
                stored: Some(callback),
                leaked: true,
                live: true,
                pending: Pending::Idle,
            }
            // While the cell is registered, a dispatch finds the new callback.
            &&& (if slot.leaked {
                begun.next()
            } else {
                begun.next().next()
            }).stored == Some(callback)
        }),
{
    reveal_with_fuel(SlotState::actions, 5);
    reveal_with_fuel(SlotState::complete, 5);
    let begun = slot.begin(Pending::Store(callback));
    assert(begun.actions() =~= (if slot.leaked {
        seq![]
    } else {
        seq![SlotAction::<T, K>::Leak]
    }) + seq![SlotAction::Register, SlotAction::Release(slot.stored, None)]);
}

/// Removing a callback unregisters the cell while it still holds the callback,
/// and releases the callback last.
pub proof fn law_clear<T, K>(slot: SlotState<T, K>)
    requires
        slot.wf(),
        slot.idle(),
    ensures
        ({
            let begun = slot.begin(Pending::Unregister { kept: None });
            &&& begun.actions() == seq![
                SlotAction::<T, K>::Unregister,
                SlotAction::Release(slot.stored, None),
            ]
            &&& begun.next().stored == slot.stored
            &&& begun.complete() == SlotState::<T, K> { stored: None, live: false, ..slot }
        }),
{
    reveal_with_fuel(SlotState::actions, 4);
    reveal_with_fuel(SlotState::complete, 4);
    let begun = slot.begin(Pending::Unregister { kept: None });
    assert(begun.actions() =~= seq![
        SlotAction::<T, K>::Unregister,
        SlotAction::Release(slot.stored, None),
    ]);
}

/// Tearing the owner down unregisters the cell while it still holds the
/// callback, destroys the mpv object when the cell is empty, and releases the
/// callback, and what the owner held besides, only after that.
pub proof fn law_teardown<T, K>(slot: SlotState<T, K>, kept: K)
    requires
        slot.wf(),
        slot.idle(),
    ensures
        ({
            let begun = slot.begin(Pending::Unregister { kept: Some(kept) });
            &&& begun.actions() == seq![
                SlotAction::<T, K>::Unregister,
                SlotAction::Destroy,
                SlotAction::Release(slot.stored, Some(kept)),
            ]
            &&& begun.next().stored == slot.stored
            &&& begun.next().next().stored is None
            // While the mpv object is being destroyed, everything is still held.
            &&& begun.next().next().held() == one(slot.stored)
            &&& begun.next().next().kept() == Some(kept)
            &&& begun.complete() == SlotState::<T, K> { stored: None, live: false, ..slot }
        }),
{
    reveal_with_fuel(SlotState::actions, 5);
    reveal_with_fuel(SlotState::complete, 5);
    let begun = slot.begin(Pending::Unregister { kept: Some(kept) });
    assert(begun.actions() =~= seq![
        SlotAction::<T, K>::Unregister,
        SlotAction::Destroy,
        SlotAction::Release(slot.stored, Some(kept)),
    ]);
    assert(begun.next().next().held() =~= one(slot.stored));
}

/// What the owner held besides the callback is given up only when the mpv
/// object was destroyed, by the action after that, and until then the slot
/// keeps it.
pub proof fn law_kept_until_destroyed<T, K>(slot: SlotState<T, K>)
    ensures
        slot.action().given_up() is Some ==> slot.pending is Destroying && slot.action().given_up()
            == slot.kept(),
        slot.next().pending is Destroying ==> slot.action() is Destroy,
        slot.action().given_up() is None ==> slot.next().kept() == slot.kept(),
        slot.action().given_up() is Some ==> slot.next().kept() is None,
{
}

/// No action loses or duplicates a callback: what the slot owned is what it
/// still owns, with what the action releases.
pub proof fn law_action_conserves_callbacks<T, K>(slot: SlotState<T, K>)
    ensures
        slot.next().held().add(slot.action().released()) =~= slot.held(),
{
}

/// A complete operation conserves the callbacks, and ends with the slot idle
/// and well-formed.
pub proof fn law_operation_conserves_callbacks<T, K>(slot: SlotState<T, K>)
    requires
        slot.wf(),
    ensures
        slot.complete().wf(),
        slot.complete().idle(),
        slot.complete().held().add(all_released(slot.actions())) =~= slot.held(),
    decreases slot.actions_left(),
{
    if !slot.idle() {
        law_action_conserves_callbacks(slot);
        law_operation_conserves_callbacks(slot.next());
        let rest = slot.next().actions();
        assert(slot.actions().drop_first() =~= rest);
        assert(slot.actions()[0] == slot.action());
    }
}

/// An operation of the owner of a slot, short of its teardown.
pub enum SlotOp<T> {
    /// Set a callback, in place of the one before.
    Replace(T),
    /// Remove the callback.
    Clear,
}

impl<T> SlotOp<T> {
    /// What the operation begins with.
    pub open spec fn pending<K>(self) -> Pending<T, K> {
        match self {
            SlotOp::Replace(callback) => Pending::Store(callback),
            SlotOp::Clear => Pending::Unregister { kept: None },
        }
    }

    /// The callbacks that the operation hands to the slot.
    pub open spec fn given(self) -> Multiset<T> {
        match self {
            SlotOp::Replace(callback) => Multiset::singleton(callback),
            SlotOp::Clear => Multiset::empty(),
        }
    }
}

/// The state of `slot` after each of `ops` was performed in turn.
pub open spec fn after_ops<T, K>(slot: SlotState<T, K>, ops: Seq<SlotOp<T>>) -> SlotState<T, K>
    decreases ops.len(),
{
    if ops.len() == 0 {
        slot
    } else {
        after_ops(slot, ops.drop_last()).begin(ops.last().pending()).complete()
    }
}

/// The callbacks that are released while each of `ops` is performed in turn.
pub open spec fn released_by_ops<T, K>(slot: SlotState<T, K>, ops: Seq<SlotOp<T>>) -> Multiset<T>
    decreases ops.len(),
{
    if ops.len() == 0 {
        Multiset::empty()
    } else {
        released_by_ops(slot, ops.drop_last()).add(
            all_released(after_ops(slot, ops.drop_last()).begin(ops.last().pending()).actions()),
        )
    }
}

/// The callbacks that `ops` hand to a slot.
pub open spec fn given_by_ops<T>(ops: Seq<SlotOp<T>>) -> Multiset<T>
    decreases ops.len(),
{
    if ops.len() == 0 {
        Multiset::empty()
    } else {
        given_by_ops(ops.drop_last()).add(ops.last().given())
    }
}

/// Operations performed in turn conserve the callbacks, and leave the slot
/// idle and well-formed.
proof fn lemma_ops_conserve<T, K>(slot: SlotState<T, K>, ops: Seq<SlotOp<T>>)
    requires
        slot.wf(),
        slot.idle(),
    ensures
        after_ops(slot, ops).wf(),
        after_ops(slot, ops).idle(),
        after_ops(slot, ops).held().add(released_by_ops(slot, ops)) =~= slot.held().add(
            given_by_ops(ops),
        ),
    decreases ops.len(),
{
    if ops.len() > 0 {
        let init = ops.drop_last();
        lemma_ops_conserve(slot, init);
        let before = after_ops(slot, init);
        let begun = before.begin(ops.last().pending());
        law_operation_conserves_callbacks(begun);
        assert(begun.held() =~= before.held().add(ops.last().given()));
        let left = after_ops(slot, ops).held().add(released_by_ops(slot, ops));
        let right = slot.held().add(given_by_ops(ops));
        assert forall|c: T| left.count(c) == right.count(c) by {
            let kept = before.held().add(released_by_ops(slot, init));
            assert(kept.count(c) == slot.held().add(given_by_ops(init)).count(c));
            assert(begun.complete().held().add(all_released(begun.actions())).count(c)
                == begun.held().count(c));
        }
        assert(left =~= right);
    }
}

/// Every callback that was ever set is released exactly once by the time the
/// owner is torn down, however the callbacks were replaced and removed.
pub proof fn law_every_callback_released_once<T, K>(ops: Seq<SlotOp<T>>, kept: K)
    ensures
        ({
            let used = after_ops(SlotState::<T, K>::empty(), ops);
            let torn_down = used.begin(Pending::Unregister { kept: Some(kept) });
            &&& torn_down.complete().held() =~= Multiset::empty()
            &&& released_by_ops(SlotState::<T, K>::empty(), ops).add(
                all_released(torn_down.actions()),
            ) =~= given_by_ops(ops)
        }),
{
    let empty = SlotState::<T, K>::empty();
    lemma_ops_conserve(empty, ops);
    let used = after_ops(empty, ops);
    let torn_down = used.begin(Pending::Unregister { kept: Some(kept) });
    law_operation_conserves_callbacks(torn_down);
    law_teardown(used, kept);
    assert(torn_down.held() =~= used.held());
    assert(empty.held() =~= Multiset::empty());
    let left = released_by_ops(empty, ops).add(all_released(torn_down.actions()));
    assert forall|c: T| left.count(c) == given_by_ops(ops).count(c) by {
        assert(used.held().add(released_by_ops(empty, ops)).count(c) == empty.held().add(
            given_by_ops(ops),
        ).count(c));
        assert(torn_down.complete().held().add(all_released(torn_down.actions())).count(c)
            == torn_down.held().count(c));
    }
    assert(left =~= given_by_ops(ops));
}

/// What a slot holds, and whether libmpv may dispatch through it, depends on
/// the last operation alone.
pub proof fn law_last_operation_decides<T, K>(ops: Seq<SlotOp<T>>, op: SlotOp<T>)
    ensures
        after_ops(SlotState::<T, K>::empty(), ops.push(op)).stored == (match op {
            SlotOp::Replace(callback) => Some(callback),
            SlotOp::Clear => None,
        }),
        after_ops(SlotState::<T, K>::empty(), ops.push(op)).live == (op is Replace),
{
    let empty = SlotState::<T, K>::empty();
    lemma_ops_conserve(empty, ops);
    assert(ops.push(op).drop_last() =~= ops);
    let before = after_ops(empty, ops);
    match op {
        SlotOp::Replace(callback) => law_set(before, callback),
        SlotOp::Clear => law_clear(before),
    }
}

/// Each operation begins by noting what it is to do and changes nothing else; a
/// slot is busy until it is done, and a dispatch invokes the callback in the
/// cell.
pub proof fn law_operations_begin<T, K>()
    ensures
        forall|slot: CallbackSlot<T, K>| #[trigger]
            call_ensures(CallbackSlot::<T, K>::new, (), slot) ==> slot@.stored is None
                && !slot@.leaked && !slot@.live && slot@.pending is Idle,
        forall|slot: CallbackSlot<T, K>| #[trigger]
            call_ensures(<CallbackSlot<T, K> as Default>::default, (), slot)
                ==> slot@.stored is None && !slot@.leaked && !slot@.live && slot@.pending is Idle,
        forall|slot: &mut CallbackSlot<T, K>, callback: T| #[trigger]
            call_ensures(CallbackSlot::<T, K>::set, (slot, callback), ()) ==> final(slot)@
                == (SlotState::<T, K> {
                stored: slot@.stored,
                leaked: slot@.leaked,
                live: slot@.live,
                pending: Pending::Store(callback),
            }),
        forall|slot: &mut CallbackSlot<T, K>| #[trigger]
            call_ensures(CallbackSlot::<T, K>::clear, (slot,), ()) ==> final(slot)@ == (SlotState::<
                T,
                K,
            > {
                stored: slot@.stored,
                leaked: slot@.leaked,
                live: slot@.live,
                pending: Pending::Unregister { kept: None },
            }),
        forall|slot: &mut CallbackSlot<T, K>, kept: K| #[trigger]
            call_ensures(CallbackSlot::<T, K>::teardown, (slot, kept), ()) ==> final(slot)@
                == (SlotState::<T, K> {
                stored: slot@.stored,
                leaked: slot@.leaked,
                live: slot@.live,
                pending: Pending::Unregister { kept: Some(kept) },
            }),
        forall|slot: &CallbackSlot<T, K>, busy: bool| #[trigger]
            call_ensures(CallbackSlot::<T, K>::busy, (slot,), busy) ==> (busy <==> !(
            slot@.pending is Idle)),
        forall|slot: &CallbackSlot<T, K>, callback: Option<&T>| #[trigger]
            call_ensures(CallbackSlot::<T, K>::current, (slot,), callback) ==> {
                &&& callback is Some <==> slot@.stored is Some
                &&& callback matches Some(c) ==> slot@.stored == Some(*c)
            },
        forall|slot: &mut CallbackSlot<T, K>, action: SlotAction<T, K>| #[trigger]
            call_ensures(CallbackSlot::<T, K>::next, (slot,), action) ==> action == slot@.action()
                && final(slot)@ == slot@.next(),
        forall|slot: &mut CallbackSlot<T, K>, callback: T|
            slot@.wf() && slot@.pending is Idle ==> #[trigger] call_requires(
                CallbackSlot::<T, K>::set,
                (slot, callback),
            ),
        forall|slot: &mut CallbackSlot<T, K>|
            slot@.wf() && slot@.pending is Idle ==> #[trigger] call_requires(
                CallbackSlot::<T, K>::clear,
                (slot,),
            ),
        forall|slot: &mut CallbackSlot<T, K>, kept: K|
            slot@.wf() && slot@.pending is Idle ==> #[trigger] call_requires(
                CallbackSlot::<T, K>::teardown,
                (slot, kept),
            ),
        forall|slot: &mut CallbackSlot<T, K>|
            slot@.wf() && !(slot@.pending is Idle) ==> #[trigger] call_requires(
                CallbackSlot::<T, K>::next,
                (slot,),
            ),
{
}

/// Setting a callback on a slot whose cell was never leaked takes three
/// actions: the cell is leaked, then registered with the callback in it, and
/// then the callback that was there before is released. From the registration
/// on a dispatch finds the new callback.
pub proof fn law_first_callback_is_set_in_three_actions<T, K>()
    ensures
        forall|
            one: &mut CallbackSlot<T, K>,
            two: &mut CallbackSlot<T, K>,
            three: &mut CallbackSlot<T, K>,
            four: &mut CallbackSlot<T, K>,
            callback: T,
            a: SlotAction<T, K>,
            b: SlotAction<T, K>,
            c: SlotAction<T, K>,
        |
            #[trigger] call_ensures(CallbackSlot::<T, K>::set, (one, callback), ()) && *two
                == *final(one) && #[trigger] call_ensures(CallbackSlot::<T, K>::next, (two,), a)
                && *three == *final(two) && #[trigger] call_ensures(
                CallbackSlot::<T, K>::next,
                (three,),
                b,
            ) && *four == *final(three) && #[trigger] call_ensures(
                CallbackSlot::<T, K>::next,
                (four,),
                c,
            ) && !one@.leaked ==> {
                &&& a is Leak
                &&& final(two)@.stored == one@.stored
                &&& b is Register
                &&& final(three)@.stored == Some(callback)
                &&& c == SlotAction::<T, K>::Release(one@.stored, None)
                &&& final(four)@.stored == Some(callback)
                &&& final(four)@.leaked && final(four)@.live && final(four)@.pending is Idle
            },
{
}

/// Setting a callback on a slot whose cell was leaked takes two actions: the
/// cell is registered with the callback in it, and then the callback that was
/// there before is released.
pub proof fn law_next_callback_is_set_in_two_actions<T, K>()
    ensures
        forall|
            one: &mut CallbackSlot<T, K>,
            two: &mut CallbackSlot<T, K>,
            three: &mut CallbackSlot<T, K>,
            callback: T,
            a: SlotAction<T, K>,
            b: SlotAction<T, K>,
        |
            #[trigger] call_ensures(CallbackSlot::<T, K>::set, (one, callback), ()) && *two
                == *final(one) && #[trigger] call_ensures(CallbackSlot::<T, K>::next, (two,), a)
                && *three == *final(two) && #[trigger] call_ensures(
                CallbackSlot::<T, K>::next,
                (three,),
                b,
            ) && one@.leaked ==> {
                &&& a is Register
                &&& final(two)@.stored == Some(callback)
                &&& b == SlotAction::<T, K>::Release(one@.stored, None)
                &&& final(three)@.stored == Some(callback)
                &&& final(three)@.leaked && final(three)@.live && final(three)@.pending is Idle
            },
{
}

/// Removing a callback takes two actions: the cell is unregistered with the
/// callback still in it, and then the callback is released, out of the cell.
pub proof fn law_callback_is_removed_in_two_actions<T, K>()
    ensures
        forall|
            one: &mut CallbackSlot<T, K>,
            two: &mut CallbackSlot<T, K>,
            three: &mut CallbackSlot<T, K>,
            a: SlotAction<T, K>,
            b: SlotAction<T, K>,
        |
            #[trigger] call_ensures(CallbackSlot::<T, K>::clear, (one,), ()) && *two == *final(one)
                && #[trigger] call_ensures(CallbackSlot::<T, K>::next, (two,), a) && *three
                == *final(two) && #[trigger] call_ensures(
                CallbackSlot::<T, K>::next,
                (three,),
                b,
            ) ==> {
                &&& a is Unregister
                &&& final(two)@.stored == one@.stored
                &&& b == SlotAction::<T, K>::Release(one@.stored, None)
                &&& final(three)@.stored is None && !final(three)@.live
                &&& final(three)@.leaked == one@.leaked && final(three)@.pending is Idle
            },
{
}

/// Tearing the owner down takes three actions: the cell is unregistered with
/// the callback still in it, the mpv object is destroyed with the cell empty,
/// and then the callback is released with what the owner held besides.
pub proof fn law_owner_is_torn_down_in_three_actions<T, K>()
    ensures
        forall|
            one: &mut CallbackSlot<T, K>,
            two: &mut CallbackSlot<T, K>,
            three: &mut CallbackSlot<T, K>,
            four: &mut CallbackSlot<T, K>,
            kept: K,
            a: SlotAction<T, K>,
            b: SlotAction<T, K>,
            c: SlotAction<T, K>,
        |
            #[trigger] call_ensures(CallbackSlot::<T, K>::teardown, (one, kept), ()) && *two
                == *final(one) && #[trigger] call_ensures(CallbackSlot::<T, K>::next, (two,), a)
                && *three == *final(two) && #[trigger] call_ensures(
                CallbackSlot::<T, K>::next,
                (three,),
                b,
            ) && *four == *final(three) && #[trigger] call_ensures(
                CallbackSlot::<T, K>::next,
                (four,),
                c,
            ) ==> {
                &&& a is Unregister
                &&& final(two)@.stored == one@.stored
                &&& b is Destroy
                &&& final(three)@.stored is None && !final(three)@.live
                &&& c == SlotAction::Release(one@.stored, Some(kept))
                &&& final(four)@.stored is None && !final(four)@.live
                &&& final(four)@.pending is Idle
            },
{
}

/// libmpv may dispatch through the cell from its registration until it was
/// unregistered, and a cell that was leaked stays so.
pub proof fn law_cell_is_live_while_registered<T, K>(slot: SlotState<T, K>)
    requires
        slot.wf(),
        !slot.idle(),
    ensures
        slot.action() is Register ==> slot.next().live && slot.leaked,
        slot.action() is Leak ==> !slot.leaked && slot.next().leaked && slot.next().live
            == slot.live,
        slot.action() is Unregister ==> slot.next().live == slot.live && slot.next().stored
            == slot.stored,
        slot.action() is Destroy ==> !slot.next().live && slot.next().stored is None,
        slot.leaked ==> slot.next().leaked,
        slot.next().wf(),
{
}

/// A slot is well-formed exactly if a dispatch that libmpv may make finds a
/// cell that was leaked, with a callback in it.
pub proof fn law_dispatch_finds_a_callback<T, K>(slot: SlotState<T, K>)
    ensures
        slot.wf() && slot.live ==> slot.stored is Some && slot.leaked,
        slot.idle() && (slot.live ==> slot.stored is Some && slot.leaked) ==> slot.wf(),
{
}

} // verus!
