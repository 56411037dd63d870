//! The manager as a state machine over plain values.
//!
//! A state holds what is registered. An operation takes a state to an
//! [`Outcome`]: the next state, the native calls to make, in order, and
//! either the result of the operation or what it waits for. Where it waits,
//! the reply to the last call brings it on, through [`resume`].

use crate::error::Error;
use crate::ffi::event_mask_bit_of;
use crate::ffi::kEventClassKeyboard;
use crate::ffi::kEventHotKeyPressed;
use crate::ffi::kEventHotKeyReleased;
use crate::ffi::noErr;
use crate::ffi::CFMachPortRef;
use crate::ffi::CFRunLoopSourceRef;
use crate::ffi::CGEventTapLocation;
use crate::ffi::CGEventTapOptions;
use crate::ffi::CGEventTapPlacement;
use crate::ffi::CGEventType;
use crate::ffi::EventHandlerRef;
use crate::ffi::EventHotKeyID;
use crate::ffi::EventHotKeyRef;
use crate::ffi::EventTypeSpec;
use crate::ffi::NativeCall;
use crate::ffi::NativeReply;
use crate::ffi::OSStatus;
use crate::ffi::HOTKEY_SIGNATURE;
use crate::hotkey::HotKey;
use crate::translation::media_key;
use crate::translation::native_modifiers_of;
use crate::translation::scancode_of;
use vstd::prelude::*;

verus! {

/// A registered standard hotkey, with the reference by which the native
/// layer knows the registration.
#[derive(Clone, Copy, Debug, PartialEq, Eq)]
pub struct HotKeyWrapper {
    pub ptr: EventHotKeyRef,
    pub hotkey: HotKey,
}

/// The event tap that watches for media keys, with its run-loop source. The
/// two are made together and given up together.
#[derive(Clone, Copy, Debug, PartialEq, Eq)]
pub struct EventTap {
    pub port: CFMachPortRef,
    pub source: CFRunLoopSourceRef,
}

/// What a manager holds.
pub struct ManagerState {
    /// The native handler for the two hotkey notifications, while it is
    /// installed.
    pub event_handler: Option<EventHandlerRef>,
    /// The registered standard hotkeys, by identifier.
    pub hotkeys: Map<u32, HotKeyWrapper>,
    /// The event tap, while media keys are watched for.
    pub event_tap: Option<EventTap>,
    /// The registered media hotkeys.
    pub media_hotkeys: Set<HotKey>,
}

/// The native call whose reply an operation waits for.
#[derive(Clone, Copy, Debug, PartialEq, Eq)]
pub enum Stage {
    RegisterEventHotKey,
    CGEventTapCreate,
    /// The tap `port` is made; its run-loop source is asked for.
    CFMachPortCreateRunLoopSource { port: CFMachPortRef },
    UnregisterEventHotKey,
}

/// An operation that waits for a reply: the hotkey it is at, the hotkeys
/// that follow, and the call it waits for.
pub struct PendingView {
    pub hotkey: HotKey,
    pub rest: Seq<HotKey>,
    pub stage: Stage,
}

/// How an operation goes on after the native calls of a step.
pub enum ProgressView {
    /// It is over, with this result.
    Done(Result<(), Error>),
    /// It waits for the reply to the last of the calls.
    Await(PendingView),
}

/// What a step of an operation comes to.
pub struct Outcome {
    pub state: ManagerState,
    pub calls: Seq<NativeCall>,
    pub next: ProgressView,
}

impl ManagerState {
    /// What holds of the state of every manager:
    ///
    /// - each standard hotkey is registered under its own identifier, and
    ///   its key has a scan code;
    /// - each media hotkey has a media key;
    /// - the tap is installed exactly while a media hotkey is registered.
    pub open spec fn valid(&self) -> bool {
        &&& self.hotkeys.dom().finite()
        &&& self.media_hotkeys.finite()
        &&& forall|id: u32| #[trigger]
            self.hotkeys.contains_key(id) ==> {
                &&& self.hotkeys[id].hotkey.wf()
                &&& self.hotkeys[id].hotkey.id() == id
                &&& scancode_of(self.hotkeys[id].hotkey.key()) is Some
            }
        &&& forall|hotkey: HotKey| #[trigger]
            self.media_hotkeys.contains(hotkey) ==> hotkey.wf() && media_key(hotkey.key())
        &&& (self.event_tap is Some <==> self.media_hotkeys != Set::<HotKey>::empty())
    }
}

impl PendingView {
    /// What holds of every waiting operation that a manager hands out: its
    /// hotkeys are well formed, and the call it waits for is one that the
    /// key of its hotkey asks for.
    pub open spec fn valid(&self) -> bool {
        &&& self.hotkey.wf()
        &&& forall|i: int| 0 <= i < self.rest.len() ==> (#[trigger] self.rest[i]).wf()
        &&& match self.stage {
            Stage::RegisterEventHotKey => scancode_of(self.hotkey.key()) is Some,
            Stage::CGEventTapCreate => media_key(self.hotkey.key()),
            Stage::CFMachPortCreateRunLoopSource { .. } => media_key(self.hotkey.key()),
            Stage::UnregisterEventHotKey => true,
        }
    }
}

impl Outcome {
    /// The state is valid, and so is the waiting operation, if there is
    /// one.
    pub open spec fn valid(&self) -> bool {
        &&& self.state.valid()
        &&& self.next matches ProgressView::Await(pending) ==> pending.valid()
    }
}

/// The state of a manager whose handler was just installed.
pub open spec fn installed(handler: EventHandlerRef) -> ManagerState {
    ManagerState {
        event_handler: Some(handler),
        hotkeys: Map::empty(),
        event_tap: None,
        media_hotkeys: Set::empty(),
    }
}

/// The state of a manager after its teardown.
pub open spec fn torn_down() -> ManagerState {
    ManagerState {
        event_handler: None,
        hotkeys: Map::empty(),
        event_tap: None,
        media_hotkeys: Set::empty(),
    }
}

/// The two kinds of notification that the manager's handler is installed
/// for: a hotkey pressed, a hotkey released.
pub open spec fn handled_event_types() -> (EventTypeSpec, EventTypeSpec) {
    (
        EventTypeSpec { eventClass: kEventClassKeyboard, eventKind: kEventHotKeyPressed },
        EventTypeSpec { eventClass: kEventClassKeyboard, eventKind: kEventHotKeyReleased },
    )
}

/// What the installation of the handler makes of a manager: the manager,
/// with nothing registered, where the native layer reported success, and
/// else the error of the operating system.
pub open spec fn new_manager(status: OSStatus, handler: EventHandlerRef, os_error: i32) -> Result<
    ManagerState,
    Error,
> {
    if status == noErr {
        Ok(installed(handler))
    } else {
        Err(Error::OsError(os_error))
    }
}

/// An operation that ends without a native call.
pub open spec fn done(state: ManagerState, result: Result<(), Error>) -> Outcome {
    Outcome { state, calls: Seq::empty(), next: ProgressView::Done(result) }
}

/// An operation that makes one native call and waits for its reply.
pub open spec fn wait(
    state: ManagerState,
    call: NativeCall,
    hotkey: HotKey,
    rest: Seq<HotKey>,
    stage: Stage,
) -> Outcome {
    Outcome {
        state,
        calls: seq![call],
        next: ProgressView::Await(PendingView { hotkey, rest, stage }),
    }
}

/// The outcome `outcome` with the calls `calls` made before its own.
pub open spec fn after(calls: Seq<NativeCall>, outcome: Outcome) -> Outcome {
    Outcome { state: outcome.state, calls: calls + outcome.calls, next: outcome.next }
}

/// The native call that registers the standard hotkey `hotkey`, whose key
/// has the scan code `scan_code`.
pub open spec fn register_call(hotkey: HotKey, scan_code: u32) -> NativeCall {
    NativeCall::RegisterEventHotKey {
        key_code: scan_code,
        modifiers: native_modifiers_of(hotkey.mods()),
        hotkey_id: EventHotKeyID { signature: HOTKEY_SIGNATURE, id: hotkey.id() },
        options: 0,
    }
}

/// The native call that creates the event tap: at the head of the session's
/// taps, as a filter, for system-defined events alone.
pub open spec fn tap_create_call() -> NativeCall {
    NativeCall::CGEventTapCreate {
        tap: CGEventTapLocation::Session,
        place: CGEventTapPlacement::HeadInsertEventTap,
        options: CGEventTapOptions::Default,
        events_of_interest: event_mask_bit_of(CGEventType::SystemDefined),
    }
}

/// The native call that creates the run-loop source of the tap `port`.
pub open spec fn source_create_call(port: CFMachPortRef) -> NativeCall {
    NativeCall::CFMachPortCreateRunLoopSource { port, order: 0 }
}

/// The native calls that put a new tap to work: attach its source to the
/// main run loop, then switch the tap on.
pub open spec fn activation_calls(tap: EventTap) -> Seq<NativeCall> {
    seq![
        NativeCall::CFRunLoopAddSource { source: tap.source },
        NativeCall::CGEventTapEnable { tap: tap.port, enable: true },
    ]
}

/// The native calls that give a tap up whose source could not be made or is
/// not wanted: stop the tap, then release it.
pub open spec fn abandon_calls(port: CFMachPortRef) -> Seq<NativeCall> {
    seq![
        NativeCall::CFMachPortInvalidate { port },
        NativeCall::CFRelease { address: port.addr },
    ]
}

/// The native calls that take the tap down, if there is one: detach the
/// source, release it, stop the tap, release it. The tap outlives its
/// source.
pub open spec fn deactivation_calls(tap: Option<EventTap>) -> Seq<NativeCall> {
    match tap {
        Some(tap) => seq![
            NativeCall::CFRunLoopRemoveSource { source: tap.source },
            NativeCall::CFRelease { address: tap.source.addr },
            NativeCall::CFMachPortInvalidate { port: tap.port },
            NativeCall::CFRelease { address: tap.port.addr },
        ],
        None => Seq::empty(),
    }
}

/// Registers the hotkeys of `hotkeys` one after the other, up to the first
/// that fails or needs a reply from the native layer.
///
/// A key with a scan code is registered with the native layer, and the
/// operation waits for the reply. A media key that is registered already
/// fails. Another media key joins the set at once where the tap is
/// installed; where it is not, the tap is asked for first. Any other key
/// fails.
pub open spec fn register_all(state: ManagerState, hotkeys: Seq<HotKey>) -> Outcome
    decreases hotkeys.len(),
{
    if hotkeys.len() == 0 {
        done(state, Ok(()))
    } else {
        let hotkey = hotkeys[0];
        let rest = hotkeys.skip(1);
        match scancode_of(hotkey.key()) {
            Some(scan_code) => wait(
                state,
                register_call(hotkey, scan_code),
                hotkey,
                rest,
                Stage::RegisterEventHotKey,
            ),
            None => if media_key(hotkey.key()) {
                if state.media_hotkeys.contains(hotkey) {
                    done(state, Err(Error::AlreadyRegistered(hotkey)))
                } else if state.event_tap is Some {
                    register_all(
                        ManagerState {
                            media_hotkeys: state.media_hotkeys.insert(hotkey),
                            ..state
                        },
                        rest,
                    )
                } else {
                    wait(state, tap_create_call(), hotkey, rest, Stage::CGEventTapCreate)
                }
            } else {
                done(state, Err(Error::FailedToRegister(hotkey.key())))
            },
        }
    }
}

/// Unregisters the hotkeys of `hotkeys` one after the other, up to the first
/// that needs a reply from the native layer.
///
/// A media key leaves the set; where that empties the set, the tap is taken
/// down. A standard hotkey that is registered leaves the registry, and the
/// native layer is asked to withdraw it. A hotkey that is not registered is
/// passed over.
pub open spec fn unregister_all(state: ManagerState, hotkeys: Seq<HotKey>) -> Outcome
    decreases hotkeys.len(),
{
    if hotkeys.len() == 0 {
        done(state, Ok(()))
    } else {
        let hotkey = hotkeys[0];
        let rest = hotkeys.skip(1);
        if media_key(hotkey.key()) {
            let media_hotkeys = state.media_hotkeys.remove(hotkey);
            if media_hotkeys == Set::<HotKey>::empty() {
                after(
                    deactivation_calls(state.event_tap),
                    unregister_all(ManagerState { media_hotkeys, event_tap: None, ..state }, rest),
                )
            } else {
                unregister_all(ManagerState { media_hotkeys, ..state }, rest)
            }
        } else if state.hotkeys.contains_key(hotkey.id()) {
            wait(
                ManagerState { hotkeys: state.hotkeys.remove(hotkey.id()), ..state },
                NativeCall::UnregisterEventHotKey { hotkey: state.hotkeys[hotkey.id()].ptr },
                hotkey,
                rest,
                Stage::UnregisterEventHotKey,
            )
        } else {
            unregister_all(state, rest)
        }
    }
}

/// Brings a waiting operation on with the reply to the call it waited for.
/// A reply of another kind than the call gives counts as a failure of the
/// call.
///
/// - A hotkey that the native layer registered enters the registry, and the
///   hotkeys that follow are registered. One that it turned down fails.
/// - A tap that was created gets its run-loop source asked for. A null tap
///   fails.
/// - A source that was created completes the tap: the source is attached,
///   the tap switched on, the media hotkey joins the set, and the hotkeys
///   that follow are registered. Where a tap is installed already, the new
///   pair is given up instead. A null source fails, and the tap made for it
///   is given up.
/// - A hotkey that the native layer withdrew is done with, and the hotkeys
///   that follow are unregistered. One that it would not withdraw fails.
pub open spec fn resume(state: ManagerState, pending: PendingView, reply: NativeReply) -> Outcome {
    let hotkey = pending.hotkey;
    match pending.stage {
        Stage::RegisterEventHotKey => match reply {
            NativeReply::HotKeyRegistered { status, hotkey: ptr } if status == noErr => {
                register_all(
                    ManagerState {
                        hotkeys: state.hotkeys.insert(hotkey.id(), HotKeyWrapper { ptr, hotkey }),
                        ..state
                    },
                    pending.rest,
                )
            },
            _ => done(state, Err(Error::FailedToRegister(hotkey.key()))),
        },
        Stage::CGEventTapCreate => match reply {
            NativeReply::EventTap(port) if !port.is_null() => wait(
                state,
                source_create_call(port),
                hotkey,
                pending.rest,
                Stage::CFMachPortCreateRunLoopSource { port },
            ),
            _ => done(state, Err(Error::FailedToWatchMediaKeyEvent)),
        },
        Stage::CFMachPortCreateRunLoopSource { port } => match reply {
            NativeReply::RunLoopSource(source) if !source.is_null() => {
                let media_hotkeys = state.media_hotkeys.insert(hotkey);
                if state.event_tap is Some {
                    after(
                        seq![NativeCall::CFRelease { address: source.addr }] + abandon_calls(port),
                        register_all(ManagerState { media_hotkeys, ..state }, pending.rest),
                    )
                } else {
                    let tap = EventTap { port, source };
                    after(
                        activation_calls(tap),
                        register_all(
                            ManagerState { media_hotkeys, event_tap: Some(tap), ..state },
                            pending.rest,
                        ),
                    )
                }
            },
            _ => after(abandon_calls(port), done(state, Err(Error::FailedToWatchMediaKeyEvent))),
        },
        Stage::UnregisterEventHotKey => match reply {
            NativeReply::Status(status) if status == noErr => unregister_all(state, pending.rest),
            _ => done(state, Err(Error::FailedToUnRegister(hotkey))),
        },
    }
}

/// How an operation on some hotkeys goes on where more hotkeys follow them.
///
/// Where the operation succeeded, the hotkeys of `more` are worked on next,
/// by `go_on`, after the calls made so far. Where it failed, it stays
/// failed, and the hotkeys of `more` are not looked at. Where it waits, the
/// hotkeys of `more` wait with it.
pub open spec fn followed_by(
    outcome: Outcome,
    more: Seq<HotKey>,
    go_on: spec_fn(ManagerState, Seq<HotKey>) -> Outcome,
) -> Outcome {
    match outcome.next {
        ProgressView::Done(Ok(())) => after(outcome.calls, go_on(outcome.state, more)),
        ProgressView::Done(Err(_)) => outcome,
        ProgressView::Await(pending) => Outcome {
            state: outcome.state,
            calls: outcome.calls,
            next: ProgressView::Await(
                PendingView { hotkey: pending.hotkey, rest: pending.rest + more, stage: pending.stage },
            ),
        },
    }
}

/// The calls that withdraw the standard hotkeys of `hotkeys` whose
/// identifier is `from` or above, in the order of the identifiers.
pub open spec fn withdrawal_calls(hotkeys: Map<u32, HotKeyWrapper>, from: nat) -> Seq<NativeCall>
    decreases 0x1_0000_0000 - from,
{
    if from >= 0x1_0000_0000 {
        Seq::empty()
    } else {
        let first = if hotkeys.contains_key(from as u32) {
            seq![NativeCall::UnregisterEventHotKey { hotkey: hotkeys[from as u32].ptr }]
        } else {
            Seq::empty()
        };
        first + withdrawal_calls(hotkeys, from + 1)
    }
}

/// The call that takes the handler away, if it is installed.
pub open spec fn handler_removal_calls(handler: Option<EventHandlerRef>) -> Seq<NativeCall> {
    match handler {
        Some(handler) => seq![NativeCall::RemoveEventHandler { handler }],
        None => Seq::empty(),
    }
}

/// Tears a manager down: every standard hotkey is withdrawn, in the order of
/// the identifiers, the handler is taken away, and the tap is taken down.
/// Nothing is waited for and nothing can fail; what is left holds nothing.
pub open spec fn teardown(state: ManagerState) -> Outcome {
    Outcome {
        state: torn_down(),
        calls: withdrawal_calls(state.hotkeys, 0) + handler_removal_calls(state.event_handler)
            + deactivation_calls(state.event_tap),
        next: ProgressView::Done(Ok(())),
    }
}

} // verus!
