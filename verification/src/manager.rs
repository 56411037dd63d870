//! The manager of the registered hotkeys.
//!
//! The manager makes no native call itself. Each operation hands back a
//! [`Step`]: the native calls to make, in order, and either the result or a
//! [`Pending`] that stands for an operation waiting for the reply to the
//! last of them. [`GlobalHotKeyManager::resume`] takes the reply and hands
//! back the next step.

use crate::error::Error;
use crate::ffi::event_mask_bit;
use crate::ffi::four_char_code;
use crate::ffi::kEventClassKeyboard;
use crate::ffi::kEventHotKeyPressed;
use crate::ffi::kEventHotKeyReleased;
use crate::ffi::noErr;
use crate::ffi::CFMachPortRef;
use crate::ffi::CGEventTapLocation;
use crate::ffi::CGEventTapOptions;
use crate::ffi::CGEventTapPlacement;
use crate::ffi::CGEventType;
use crate::ffi::EventHandlerRef;
use crate::ffi::EventHotKeyID;
use crate::ffi::EventTypeSpec;
use crate::ffi::NativeCall;
use crate::ffi::NativeReply;
use crate::ffi::OSStatus;
use crate::hotkey::HotKey;
use crate::laws::lemma_register_all_keeps_valid;
use crate::laws::lemma_resume_keeps_valid;
use crate::laws::lemma_unregister_all_keeps_valid;
use crate::media_keys::MediaKeySet;
use crate::model;
use crate::model::after;
use crate::model::EventTap;
use crate::model::HotKeyWrapper;
use crate::model::ManagerState;
use crate::model::Outcome;
use crate::model::PendingView;
use crate::model::ProgressView;
use crate::model::Stage;
use crate::translation::abstract_modifiers_to_native;
use crate::translation::is_media_key;
use crate::translation::key_to_scancode;
use core::cmp::Ordering;
use std::collections::BTreeMap;
use vstd::prelude::*;
use vstd::std_specs::btree::axiom_increasing_seq_meaning;
use vstd::std_specs::btree::increasing_seq;
use vstd::std_specs::cmp::OrdSpec;
use vstd::std_specs::iter::IteratorSpec;

verus! {

broadcast use vstd::std_specs::btree::group_btree_axioms;

/// An operation that waits for the reply to a native call.
///
/// It is handed out in a [`Step`] and handed back, with the reply, to
/// [`GlobalHotKeyManager::resume`].
pub struct Pending {
    hotkey: HotKey,
    queue: Vec<HotKey>,
    cursor: usize,
    stage: Stage,
}

impl View for Pending {
    type V = PendingView;

    closed spec fn view(&self) -> PendingView {
        PendingView {
            hotkey: self.hotkey,
            rest: if self.cursor <= self.queue@.len() {
                self.queue@.skip(self.cursor as int)
            } else {
                Seq::empty()
            },
            stage: self.stage,
        }
    }
}

impl Pending {
    #[verifier::type_invariant]
    closed spec fn inv(&self) -> bool {
        &&& self.hotkey.wf()
        &&& forall|i: int| 0 <= i < self.queue@.len() ==> (#[trigger] self.queue@[i]).wf()
        &&& self@.valid()
    }

    /// The hotkey that the operation is at.
    pub fn hotkey(&self) -> (hotkey: HotKey)
        ensures
            hotkey == self@.hotkey,
    {
        self.hotkey
    }

    /// The native call whose reply the operation waits for.
    pub fn stage(&self) -> (stage: Stage)
        ensures
            stage == self@.stage,
    {
        self.stage
    }
}

/// How an operation goes on after the native calls of a step.
pub enum Progress {
    /// It is over, with this result.
    Done(Result<(), Error>),
    /// It waits for the reply to the last of the calls.
    Await(Pending),
}

impl View for Progress {
    type V = ProgressView;

    open spec fn view(&self) -> ProgressView {
        match self {
            Progress::Done(result) => ProgressView::Done(*result),
            Progress::Await(pending) => ProgressView::Await(pending@),
        }
    }
}

/// One step of an operation: the native calls to make, in order, and how
/// the operation goes on after them.
pub struct Step {
    pub calls: Vec<NativeCall>,
    pub next: Progress,
}

/// The outcome that a step comes to, with the state that the manager is
/// left in.
pub open spec fn outcome(state: ManagerState, step: Step) -> Outcome {
    Outcome { state, calls: step.calls@, next: step.next@ }
}

/// Keeps the registered hotkeys and decides which native calls register
/// them, unregister them and watch for media keys.
pub struct GlobalHotKeyManager {
    event_handler_ptr: Option<EventHandlerRef>,
    hotkeys: BTreeMap<u32, HotKeyWrapper>,
    event_tap: Option<EventTap>,
    media_hotkeys: MediaKeySet,
}

impl View for GlobalHotKeyManager {
    type V = ManagerState;

    closed spec fn view(&self) -> ManagerState {
        ManagerState {
            event_handler: self.event_handler_ptr,
            hotkeys: self.hotkeys@,
            event_tap: self.event_tap,
            media_hotkeys: self.media_hotkeys@,
        }
    }
}

/// A copy of `hotkeys` as a vector.
fn copy_hotkeys(hotkeys: &[HotKey]) -> (queue: Vec<HotKey>)
    ensures
        queue@ == hotkeys@,
        forall|i: int| 0 <= i < queue@.len() ==> (#[trigger] queue@[i]).wf(),
{
    let mut queue: Vec<HotKey> = Vec::new();
    let mut i: usize = 0;
    while i < hotkeys.len()
        invariant
            i <= hotkeys@.len(),
            queue@ == hotkeys@.take(i as int),
            forall|j: int| 0 <= j < queue@.len() ==> (#[trigger] queue@[j]).wf(),
        decreases hotkeys@.len() - i,
    {
        let hotkey = hotkeys[i];
        proof {
            use_type_invariant(&hotkey);
        }
        queue.push(hotkey);
        assert(hotkeys@.take(i as int).push(hotkeys@[i as int]) =~= hotkeys@.take(i as int + 1));
        i = i + 1;
    }
    assert(hotkeys@.take(hotkeys@.len() as int) =~= hotkeys@);
    queue
}

/// No hotkey with an identifier from `from` up to, but without, `to` is
/// registered, so none is withdrawn.
proof fn lemma_withdrawal_skips(hotkeys: Map<u32, HotKeyWrapper>, from: nat, to: nat)
    requires
        from <= to,
        forall|id: u32| from <= id < to ==> !hotkeys.contains_key(id),
    ensures
        model::withdrawal_calls(hotkeys, from) == model::withdrawal_calls(hotkeys, to),
    decreases to - from,
{
    if from < to {
        if from < 0x1_0000_0000 {
            assert(!hotkeys.contains_key(from as u32));
            lemma_withdrawal_skips(hotkeys, from + 1, to);
            assert(Seq::<NativeCall>::empty() + model::withdrawal_calls(hotkeys, from + 1)
                =~= model::withdrawal_calls(hotkeys, from + 1));
        } else {
            reveal_with_fuel(model::withdrawal_calls, 2);
        }
    }
}

/// Identifiers that come in increasing order, as a `BTreeMap` lists its
/// keys, come in the order of the numbers: each is below the next.
proof fn lemma_increasing_identifiers(ids: Seq<u32>)
    requires
        increasing_seq(ids),
    ensures
        forall|i: int, j: int| 0 <= i < j < ids.len() ==> ids[i] < ids[j],
{
    broadcast use vstd::laws_cmp::group_laws_cmp;

    axiom_increasing_seq_meaning(ids);
    assert forall|i: int, j: int| 0 <= i < j < ids.len() implies ids[i] < ids[j] by {
        assert(ids[i].cmp_spec(&ids[j]) == Ordering::Less);
    }
}

/// The hotkeys withdrawn from `from` on are those of a list that holds, in
/// increasing order, the identifiers from `from` on under which a hotkey is
/// registered, one call for each identifier of the list.
proof fn lemma_withdrawal_of_listing(hotkeys: Map<u32, HotKeyWrapper>, ids: Seq<u32>, from: nat)
    requires
        forall|i: int, j: int| 0 <= i < j < ids.len() ==> ids[i] < ids[j],
        forall|i: int| 0 <= i < ids.len() ==> hotkeys.contains_key(#[trigger] ids[i]) && from <= ids[i],
        forall|id: u32| hotkeys.contains_key(id) && from <= id ==> ids.contains(id),
    ensures
        model::withdrawal_calls(hotkeys, from) == Seq::new(
            ids.len(),
            |i: int| NativeCall::UnregisterEventHotKey { hotkey: hotkeys[ids[i]].ptr },
        ),
    decreases ids.len(),
{
    let listed = Seq::new(
        ids.len(),
        |i: int| NativeCall::UnregisterEventHotKey { hotkey: hotkeys[ids[i]].ptr },
    );
    if ids.len() == 0 {
        assert forall|id: u32| from <= id < 0x1_0000_0000 implies !hotkeys.contains_key(id) by {
            if hotkeys.contains_key(id) {
                assert(ids.contains(id));
            }
        }
        if from <= 0x1_0000_0000 {
            lemma_withdrawal_skips(hotkeys, from, 0x1_0000_0000);
        }
        assert(model::withdrawal_calls(hotkeys, from) =~= listed);
    } else {
        let first = ids[0];
        let later = ids.drop_first();
        assert forall|id: u32| from <= id < first implies !hotkeys.contains_key(id) by {
            if hotkeys.contains_key(id) {
                assert(ids.contains(id));
                let i = choose|i: int| 0 <= i < ids.len() && ids[i] == id;
                assert(ids[0] <= ids[i]);
            }
        }
        lemma_withdrawal_skips(hotkeys, from, first as nat);
        assert forall|i: int| 0 <= i < later.len() implies hotkeys.contains_key(
            #[trigger] later[i],
        ) && first + 1 <= later[i] by {
            assert(later[i] == ids[i + 1]);
            assert(ids[0] < ids[i + 1]);
        }
        assert forall|id: u32| hotkeys.contains_key(id) && first + 1 <= id implies later.contains(
            id,
        ) by {
            assert(hotkeys.contains_key(ids[0]) && from <= ids[0]);
            assert(ids.contains(id));
            let i = choose|i: int| 0 <= i < ids.len() && ids[i] == id;
            assert(later[i - 1] == id);
        }
        assert forall|i: int, j: int| 0 <= i < j < later.len() implies later[i] < later[j] by {
            assert(later[i] == ids[i + 1] && later[j] == ids[j + 1]);
        }
        lemma_withdrawal_of_listing(hotkeys, later, first as nat + 1);
        let rest = Seq::new(
            later.len(),
            |i: int| NativeCall::UnregisterEventHotKey { hotkey: hotkeys[later[i]].ptr },
        );
        assert(seq![NativeCall::UnregisterEventHotKey { hotkey: hotkeys[first].ptr }] + rest
            =~= listed);
    }
}

/// The native calls that withdraw every hotkey of `hotkeys`, in the order
/// of the identifiers.
fn withdraw_all(hotkeys: &BTreeMap<u32, HotKeyWrapper>) -> (calls: Vec<NativeCall>)
    ensures
        calls@ == model::withdrawal_calls(hotkeys@, 0),
{
    let mut calls: Vec<NativeCall> = Vec::new();
    let entries = hotkeys.iter();
    let ghost listed = entries.remaining();
    let ghost ids: Seq<u32> = choose|ids: Seq<u32>|
        increasing_seq(ids) && ids.len() == listed.len() && (forall|i: int|
            0 <= i < ids.len() ==> ids[i] == *(#[trigger] listed[i]).0);
    proof {
        lemma_increasing_identifiers(ids);
        assert forall|id: u32| hotkeys@.contains_key(id) implies ids.contains(id) by {
            assert(listed.contains((&id, &hotkeys@[id])));
            let i = choose|i: int| 0 <= i < listed.len() && listed[i] == (&id, &hotkeys@[id]);
            assert(ids[i] == id);
        }
        assert forall|i: int| 0 <= i < ids.len() implies hotkeys@.contains_key(
            #[trigger] ids[i],
        ) by {
            assert(ids[i] == *listed[i].0);
        }
        lemma_withdrawal_of_listing(hotkeys@, ids, 0);
    }
    for entry in walk: entries
        invariant
            calls@.len() == walk.index(),
            walk.seq() == listed,
            forall|i: int|
                0 <= i < calls@.len() ==> calls@[i] == (NativeCall::UnregisterEventHotKey {
                    hotkey: (#[trigger] listed[i]).1.ptr,
                }),
    {
        calls.push(NativeCall::UnregisterEventHotKey { hotkey: entry.1.ptr });
    }
    proof {
        assert forall|i: int| 0 <= i < calls@.len() implies calls@[i]
            == (NativeCall::UnregisterEventHotKey { hotkey: hotkeys@[ids[i]].ptr }) by {
            assert(ids[i] == *listed[i].0);
            assert(hotkeys@[*listed[i].0] == *listed[i].1);
        }
        assert(calls@ =~= model::withdrawal_calls(hotkeys@, 0));
    }
    calls
}

impl GlobalHotKeyManager {
    /// The two kinds of notification to install the native handler for,
    /// before the manager is made: a hotkey pressed, a hotkey released.
    pub fn handled_event_types() -> (types: (EventTypeSpec, EventTypeSpec))
        ensures
            types == model::handled_event_types(),
    {
        let pressed_event_type = EventTypeSpec {
            eventClass: kEventClassKeyboard,
            eventKind: kEventHotKeyPressed,
        };
        let released_event_type = EventTypeSpec {
            eventClass: kEventClassKeyboard,
            eventKind: kEventHotKeyReleased,
        };
        (pressed_event_type, released_event_type)
    }

    /// Makes the manager, once the native handler was asked to be installed.
    ///
    /// `status` is what the installation returned and `handler` the handler
    /// it gave; `os_error` is the code of the last error of the operating
    /// system, which the error holds where the installation failed.
    pub fn new(status: OSStatus, handler: EventHandlerRef, os_error: i32) -> (manager: Result<
        Self,
        Error,
    >)
        ensures
            match model::new_manager(status, handler, os_error) {
                Ok(state) => manager is Ok && manager->Ok_0@ == state,
                Err(error) => manager is Err && manager->Err_0 == error,
            },
            manager matches Ok(made) ==> made@.valid(),
    {
        if status != noErr {
            return Err(Error::OsError(os_error));
        }
        Ok(
            Self {
                event_handler_ptr: Some(handler),
                hotkeys: BTreeMap::new(),
                event_tap: None,
                media_hotkeys: MediaKeySet::new(),
            },
        )
    }

    /// Registers `hotkey`. See [`model::register_all`] for what is done.
    pub fn register(&mut self, hotkey: HotKey) -> (step: Step)
        ensures
            outcome(final(self)@, step) == model::register_all(old(self)@, seq![hotkey]),
            old(self)@.valid() ==> outcome(final(self)@, step).valid(),
    {
        let mut queue: Vec<HotKey> = Vec::new();
        queue.push(hotkey);
        proof {
            use_type_invariant(&hotkey);
            assert(queue@ =~= seq![hotkey]);
            assert(queue@.skip(0) =~= queue@);
            if self@.valid() {
                lemma_register_all_keeps_valid(self@, queue@);
            }
        }
        let step = self.register_from(queue, 0, Vec::new());
        proof {
            let goal = model::register_all(old(self)@, seq![hotkey]);
            assert(Seq::<NativeCall>::empty() + goal.calls =~= goal.calls);
        }
        step
    }

    /// Unregisters `hotkey`. See [`model::unregister_all`] for what is done.
    pub fn unregister(&mut self, hotkey: HotKey) -> (step: Step)
        ensures
            outcome(final(self)@, step) == model::unregister_all(old(self)@, seq![hotkey]),
            old(self)@.valid() ==> outcome(final(self)@, step).valid(),
    {
        let mut queue: Vec<HotKey> = Vec::new();
        queue.push(hotkey);
        proof {
            use_type_invariant(&hotkey);
            assert(queue@ =~= seq![hotkey]);
            assert(queue@.skip(0) =~= queue@);
            if self@.valid() {
                lemma_unregister_all_keeps_valid(self@, queue@);
            }
        }
        let step = self.unregister_from(queue, 0, Vec::new());
        proof {
            let goal = model::unregister_all(old(self)@, seq![hotkey]);
            assert(Seq::<NativeCall>::empty() + goal.calls =~= goal.calls);
        }
        step
    }

    /// Registers the hotkeys of `hotkeys` one after the other and stops at
    /// the first that fails; those registered before it stay registered.
    pub fn register_all(&mut self, hotkeys: &[HotKey]) -> (step: Step)
        ensures
            outcome(final(self)@, step) == model::register_all(old(self)@, hotkeys@),
            old(self)@.valid() ==> outcome(final(self)@, step).valid(),
    {
        let queue = copy_hotkeys(hotkeys);
        proof {
            assert(queue@.skip(0) =~= queue@);
            if self@.valid() {
                lemma_register_all_keeps_valid(self@, queue@);
            }
        }
        let step = self.register_from(queue, 0, Vec::new());
        proof {
            let goal = model::register_all(old(self)@, hotkeys@);
            assert(Seq::<NativeCall>::empty() + goal.calls =~= goal.calls);
        }
        step
    }

    /// Unregisters the hotkeys of `hotkeys` one after the other and stops at
    /// the first that fails; those unregistered before it stay
    /// unregistered.
    pub fn unregister_all(&mut self, hotkeys: &[HotKey]) -> (step: Step)
        ensures
            outcome(final(self)@, step) == model::unregister_all(old(self)@, hotkeys@),
            old(self)@.valid() ==> outcome(final(self)@, step).valid(),
    {
        let queue = copy_hotkeys(hotkeys);
        proof {
            assert(queue@.skip(0) =~= queue@);
            if self@.valid() {
                lemma_unregister_all_keeps_valid(self@, queue@);
            }
        }
        let step = self.unregister_from(queue, 0, Vec::new());
        proof {
            let goal = model::unregister_all(old(self)@, hotkeys@);
            assert(Seq::<NativeCall>::empty() + goal.calls =~= goal.calls);
        }
        step
    }

    /// Brings the waiting operation `pending` on with `reply`, the reply to
    /// the last native call of the step that handed `pending` out. See
    /// [`model::resume`] for what is done.
    pub fn resume(&mut self, pending: Pending, reply: NativeReply) -> (step: Step)
        ensures
            outcome(final(self)@, step) == model::resume(old(self)@, pending@, reply),
            pending@.valid(),
            old(self)@.valid() ==> outcome(final(self)@, step).valid(),
    {
        proof {
            use_type_invariant(&pending);
            if self@.valid() {
                lemma_resume_keeps_valid(self@, pending@, reply);
            }
        }
        let Pending { hotkey, queue, cursor, stage } = pending;
        let cursor = if cursor <= queue.len() {
            cursor
        } else {
            queue.len()
        };
        assert(queue@.skip(cursor as int) =~= pending@.rest);
        let ghost goal = model::resume(self@, pending@, reply);
        match stage {
            Stage::RegisterEventHotKey => {
                match reply {
                    NativeReply::HotKeyRegistered { status, hotkey: ptr } => {
                        if status == noErr {
                            self.hotkeys.insert(hotkey.id(), HotKeyWrapper { ptr, hotkey });
                            let step = self.register_from(queue, cursor, Vec::new());
                            assert(Seq::<NativeCall>::empty() + goal.calls =~= goal.calls);
                            return step;
                        }
                    },
                    _ => {},
                }
                Step {
                    calls: Vec::new(),
                    next: Progress::Done(Err(Error::FailedToRegister(hotkey.key()))),
                }
            },
            Stage::CGEventTapCreate => {
                match reply {
                    NativeReply::EventTap(port) => {
                        if !port.is_null() {
                            let mut calls: Vec<NativeCall> = Vec::new();
                            calls.push(
                                NativeCall::CFMachPortCreateRunLoopSource { port, order: 0 },
                            );
                            assert(calls@ =~= seq![model::source_create_call(port)]);
                            return Step {
                                calls,
                                next: Progress::Await(
                                    Pending {
                                        hotkey,
                                        queue,
                                        cursor,
                                        stage: Stage::CFMachPortCreateRunLoopSource { port },
                                    },
                                ),
                            };
                        }
                    },
                    _ => {},
                }
                Step {
                    calls: Vec::new(),
                    next: Progress::Done(Err(Error::FailedToWatchMediaKeyEvent)),
                }
            },
            Stage::CFMachPortCreateRunLoopSource { port } => {
                let mut calls: Vec<NativeCall> = Vec::new();
                match reply {
                    NativeReply::RunLoopSource(source) => {
                        if !source.is_null() {
                            if self.event_tap.is_some() {
                                calls.push(NativeCall::CFRelease { address: source.addr() });
                                Self::abandon_event_tap(port, &mut calls);
                            } else {
                                let tap = EventTap { port, source };
                                calls.push(NativeCall::CFRunLoopAddSource { source });
                                calls.push(NativeCall::CGEventTapEnable { tap: port, enable: true });
                                assert(calls@ =~= model::activation_calls(tap));
                                self.event_tap = Some(tap);
                            }
                            self.media_hotkeys.insert(hotkey);
                            return self.register_from(queue, cursor, calls);
                        }
                    },
                    _ => {},
                }
                Self::abandon_event_tap(port, &mut calls);
                assert(calls@ + Seq::<NativeCall>::empty() =~= calls@);
                Step { calls, next: Progress::Done(Err(Error::FailedToWatchMediaKeyEvent)) }
            },
            Stage::UnregisterEventHotKey => {
                let status = match reply {
                    NativeReply::Status(status) => status,
                    _ => -1,
                };
                match Self::unregister_hotkey_ptr(status, hotkey) {
                    Ok(()) => {
                        let step = self.unregister_from(queue, cursor, Vec::new());
                        assert(Seq::<NativeCall>::empty() + goal.calls =~= goal.calls);
                        step
                    },
                    Err(error) => Step { calls: Vec::new(), next: Progress::Done(Err(error)) },
                }
            },
        }
    }

    /// Tears the manager down: hands back the native calls that withdraw
    /// every standard hotkey, take the handler away and take the tap down,
    /// and leaves the manager holding nothing. Nothing can fail: the replies
    /// to the calls are not asked for. A second teardown hands back no call.
    pub fn teardown(&mut self) -> (calls: Vec<NativeCall>)
        ensures
            final(self)@ == model::teardown(old(self)@).state,
            calls@ == model::teardown(old(self)@).calls,
            final(self)@.valid(),
    {
        let mut calls = withdraw_all(&self.hotkeys);
        self.hotkeys.clear();
        let ghost withdrawn = calls@;
        if let Some(handler) = self.event_handler_ptr {
            calls.push(NativeCall::RemoveEventHandler { handler });
        }
        self.event_handler_ptr = None;
        let ghost removed = calls@;
        self.stop_watching_media_keys(&mut calls);
        self.media_hotkeys.clear();
        proof {
            assert(removed =~= withdrawn + model::handler_removal_calls(
                old(self).event_handler_ptr,
            ));
        }
        calls
    }

    /// The standard hotkey that is registered under `id`, if there is one.
    pub fn registered(&self, id: u32) -> (hotkey: Option<HotKey>)
        ensures
            hotkey == (if self@.hotkeys.contains_key(id) {
                Some(self@.hotkeys[id].hotkey)
            } else {
                None
            }),
    {
        match self.hotkeys.get(&id) {
            Some(wrapper) => Some(wrapper.hotkey),
            None => None,
        }
    }

    /// How many standard hotkeys are registered.
    pub fn len(&self) -> (n: usize)
        ensures
            n == self@.hotkeys.len(),
    {
        self.hotkeys.len()
    }

    /// The registered media hotkeys, for the callback of the event tap to
    /// look hotkeys up in.
    pub fn media_hotkeys(&self) -> (set: &MediaKeySet)
        ensures
            set@ == self@.media_hotkeys,
    {
        &self.media_hotkeys
    }

    /// The event tap and its run-loop source, while media keys are watched
    /// for.
    pub fn event_tap(&self) -> (tap: Option<EventTap>)
        ensures
            tap == self@.event_tap,
    {
        self.event_tap
    }

    /// The native handler, while it is installed.
    pub fn event_handler(&self) -> (handler: Option<EventHandlerRef>)
        ensures
            handler == self@.event_handler,
    {
        self.event_handler_ptr
    }

    /// Registers the hotkeys of `queue` from the place `start` on, after the
    /// calls of `prefix`.
    fn register_from(&mut self, queue: Vec<HotKey>, start: usize, prefix: Vec<NativeCall>) -> (step:
        Step)
        requires
            start <= queue@.len(),
            forall|i: int| 0 <= i < queue@.len() ==> (#[trigger] queue@[i]).wf(),
        ensures
            outcome(final(self)@, step) == after(
                prefix@,
                model::register_all(old(self)@, queue@.skip(start as int)),
            ),
    {
        let ghost goal = after(prefix@, model::register_all(self@, queue@.skip(start as int)));
        let mut cursor = start;
        let mut calls = prefix;
        while cursor < queue.len()
            invariant
                cursor <= queue@.len(),
                goal == after(
                    prefix@,
                    model::register_all(old(self)@, queue@.skip(start as int)),
                ),
                after(calls@, model::register_all(self@, queue@.skip(cursor as int))) == goal,
                forall|i: int| 0 <= i < queue@.len() ==> (#[trigger] queue@[i]).wf(),
            decreases queue@.len() - cursor,
        {
            let hotkey = queue[cursor];
            let ghost sent = calls@;
            proof {
                assert(queue@.skip(cursor as int)[0] == hotkey);
                assert(queue@.skip(cursor as int).skip(1) =~= queue@.skip(cursor as int + 1));
            }
            match key_to_scancode(hotkey.key()) {
                Some(scan_code) => {
                    let hotkey_id = EventHotKeyID {
                        id: hotkey.id(),
                        // The characters h, t, r, s.
                        signature: four_char_code(&[0x68, 0x74, 0x72, 0x73]),
                    };
                    calls.push(
                        NativeCall::RegisterEventHotKey {
                            key_code: scan_code,
                            modifiers: abstract_modifiers_to_native(hotkey.mods()),
                            hotkey_id,
                            options: 0,
                        },
                    );
                    assert(calls@ =~= sent + seq![model::register_call(hotkey, scan_code)]);
                    return Step {
                        calls,
                        next: Progress::Await(
                            Pending {
                                hotkey,
                                queue,
                                cursor: cursor + 1,
                                stage: Stage::RegisterEventHotKey,
                            },
                        ),
                    };
                },
                None => {
                    if !is_media_key(hotkey.key()) {
                        assert(calls@ + Seq::<NativeCall>::empty() =~= calls@);
                        return Step {
                            calls,
                            next: Progress::Done(Err(Error::FailedToRegister(hotkey.key()))),
                        };
                    }
                    if self.media_hotkeys.contains(&hotkey) {
                        assert(calls@ + Seq::<NativeCall>::empty() =~= calls@);
                        return Step {
                            calls,
                            next: Progress::Done(Err(Error::AlreadyRegistered(hotkey))),
                        };
                    }
                    match self.start_watching_media_keys() {
                        Some(call) => {
                            calls.push(call);
                            assert(calls@ =~= sent + seq![model::tap_create_call()]);
                            return Step {
                                calls,
                                next: Progress::Await(
                                    Pending {
                                        hotkey,
                                        queue,
                                        cursor: cursor + 1,
                                        stage: Stage::CGEventTapCreate,
                                    },
                                ),
                            };
                        },
                        None => {
                            self.media_hotkeys.insert(hotkey);
                            cursor = cursor + 1;
                        },
                    }
                },
            }
        }
        assert(calls@ + Seq::<NativeCall>::empty() =~= calls@);
        Step { calls, next: Progress::Done(Ok(())) }
    }

    /// Unregisters the hotkeys of `queue` from the place `start` on, after
    /// the calls of `prefix`.
    fn unregister_from(&mut self, queue: Vec<HotKey>, start: usize, prefix: Vec<NativeCall>) -> (step:
        Step)
        requires
            start <= queue@.len(),
            forall|i: int| 0 <= i < queue@.len() ==> (#[trigger] queue@[i]).wf(),
        ensures
            outcome(final(self)@, step) == after(
                prefix@,
                model::unregister_all(old(self)@, queue@.skip(start as int)),
            ),
    {
        let ghost goal = after(prefix@, model::unregister_all(self@, queue@.skip(start as int)));
        let mut cursor = start;
        let mut calls = prefix;
        while cursor < queue.len()
            invariant
                cursor <= queue@.len(),
                goal == after(
                    prefix@,
                    model::unregister_all(old(self)@, queue@.skip(start as int)),
                ),
                after(calls@, model::unregister_all(self@, queue@.skip(cursor as int))) == goal,
                forall|i: int| 0 <= i < queue@.len() ==> (#[trigger] queue@[i]).wf(),
            decreases queue@.len() - cursor,
        {
            let hotkey = queue[cursor];
            let ghost sent = calls@;
            let ghost state = self@;
            proof {
                assert(queue@.skip(cursor as int)[0] == hotkey);
                assert(queue@.skip(cursor as int).skip(1) =~= queue@.skip(cursor as int + 1));
            }
            if is_media_key(hotkey.key()) {
                self.media_hotkeys.remove(&hotkey);
                if self.media_hotkeys.is_empty() {
                    self.stop_watching_media_keys(&mut calls);
                    proof {
                        let rest = model::unregister_all(self@, queue@.skip(cursor as int + 1));
                        let stop = model::deactivation_calls(state.event_tap);
                        assert(sent + (stop + rest.calls) =~= (sent + stop) + rest.calls);
                    }
                }
            } else {
                match self.hotkeys.remove(&hotkey.id()) {
                    Some(wrapper) => {
                        calls.push(NativeCall::UnregisterEventHotKey { hotkey: wrapper.ptr });
                        assert(calls@ =~= sent + seq![
                            NativeCall::UnregisterEventHotKey { hotkey: wrapper.ptr },
                        ]);
                        return Step {
                            calls,
                            next: Progress::Await(
                                Pending {
                                    hotkey,
                                    queue,
                                    cursor: cursor + 1,
                                    stage: Stage::UnregisterEventHotKey,
                                },
                            ),
                        };
                    },
                    None => {
                        assert(self.hotkeys@ =~= state.hotkeys);
                    },
                }
            }
            cursor = cursor + 1;
        }
        assert(calls@ + Seq::<NativeCall>::empty() =~= calls@);
        Step { calls, next: Progress::Done(Ok(())) }
    }

    /// What the reply to the withdrawal of `hotkey` comes to: the error that
    /// the hotkey could not be unregistered, unless the native layer
    /// reported success.
    fn unregister_hotkey_ptr(status: OSStatus, hotkey: HotKey) -> (result: Result<(), Error>)
        ensures
            result == (if status == noErr {
                Ok::<(), Error>(())
            } else {
                Err(Error::FailedToUnRegister(hotkey))
            }),
    {
        if status != noErr {
            return Err(Error::FailedToUnRegister(hotkey));
        }
        Ok(())
    }

    /// The native call that starts the watch for media keys, or `None`
    /// where the tap is installed already.
    fn start_watching_media_keys(&self) -> (call: Option<NativeCall>)
        ensures
            call == (if self@.event_tap is Some {
                None
            } else {
                Some(model::tap_create_call())
            }),
    {
        if self.event_tap.is_some() {
            return None;
        }
        let event_mask = event_mask_bit(CGEventType::SystemDefined);
        Some(
            NativeCall::CGEventTapCreate {
                tap: CGEventTapLocation::Session,
                place: CGEventTapPlacement::HeadInsertEventTap,
                options: CGEventTapOptions::Default,
                events_of_interest: event_mask,
            },
        )
    }

    /// Ends the watch for media keys: appends to `calls` the native calls
    /// that take the tap down, if it is installed, and forgets the tap.
    fn stop_watching_media_keys(&mut self, calls: &mut Vec<NativeCall>)
        ensures
            final(self)@ == (ManagerState { event_tap: None, ..old(self)@ }),
            final(calls)@ == old(calls)@ + model::deactivation_calls(old(self)@.event_tap),
    {
        let ghost sent = calls@;
        if let Some(tap) = self.event_tap {
            calls.push(NativeCall::CFRunLoopRemoveSource { source: tap.source });
            calls.push(NativeCall::CFRelease { address: tap.source.addr() });
            calls.push(NativeCall::CFMachPortInvalidate { port: tap.port });
            calls.push(NativeCall::CFRelease { address: tap.port.addr() });
            assert(calls@ =~= sent + model::deactivation_calls(Some(tap)));
        } else {
            assert(calls@ =~= sent + Seq::<NativeCall>::empty());
        }
        self.event_tap = None;
    }

    /// Appends to `calls` the native calls that give up the tap `port`,
    /// which has no source attached.
    fn abandon_event_tap(port: CFMachPortRef, calls: &mut Vec<NativeCall>)
        ensures
            final(calls)@ == old(calls)@ + model::abandon_calls(port),
    {
        let ghost sent = calls@;
        calls.push(NativeCall::CFMachPortInvalidate { port });
        calls.push(NativeCall::CFRelease { address: port.addr() });
        assert(calls@ =~= sent + model::abandon_calls(port));
    }
}

} // verus!
