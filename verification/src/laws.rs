//! What holds of the manager whatever is registered and whatever the native
//! layer replies.

use crate::error::Error;
use crate::ffi::noErr;
use crate::ffi::CFMachPortRef;
use crate::ffi::CFRunLoopSourceRef;
use crate::ffi::EventHandlerRef;
use crate::ffi::EventHotKeyRef;
use crate::ffi::NativeCall;
use crate::ffi::NativeReply;
use crate::ffi::OSStatus;
use crate::hotkey::lemma_same_id_same_hotkey;
use crate::hotkey::HotKey;
use crate::model::abandon_calls;
use crate::model::activation_calls;
use crate::model::after;
use crate::model::deactivation_calls;
use crate::model::done;
use crate::model::followed_by;
use crate::model::new_manager;
use crate::model::register_all;
use crate::model::register_call;
use crate::model::resume;
use crate::model::source_create_call;
use crate::model::tap_create_call;
use crate::model::teardown;
use crate::model::torn_down;
use crate::model::unregister_all;
use crate::model::withdrawal_calls;
use crate::model::EventTap;
use crate::model::HotKeyWrapper;
use crate::model::ManagerState;
use crate::model::Outcome;
use crate::model::PendingView;
use crate::model::ProgressView;
use crate::model::Stage;
use crate::translation::lemma_media_keys_have_no_scancode;
use crate::translation::media_key;
use crate::translation::scancode_of;
use vstd::prelude::*;

verus! {

/// A new manager is valid.
pub proof fn lemma_new_manager_is_valid(status: OSStatus, handler: EventHandlerRef, os_error: i32)
    ensures
        new_manager(status, handler, os_error) matches Ok(state) ==> state.valid(),
        new_manager(status, handler, os_error) is Ok <==> status == noErr,
{
}

/// Registering well-formed hotkeys with a valid manager leaves it valid, and
/// what it waits for is valid.
pub proof fn lemma_register_all_keeps_valid(state: ManagerState, hotkeys: Seq<HotKey>)
    requires
        state.valid(),
        forall|i: int| 0 <= i < hotkeys.len() ==> (#[trigger] hotkeys[i]).wf(),
    ensures
        register_all(state, hotkeys).valid(),
    decreases hotkeys.len(),
{
    if hotkeys.len() > 0 {
        let hotkey = hotkeys[0];
        let rest = hotkeys.skip(1);
        assert forall|i: int| 0 <= i < rest.len() implies (#[trigger] rest[i]).wf() by {
            assert(rest[i] == hotkeys[i + 1]);
        }
        if scancode_of(hotkey.key()) is None && media_key(hotkey.key())
            && !state.media_hotkeys.contains(hotkey) && state.event_tap is Some {
            let next = ManagerState {
                media_hotkeys: state.media_hotkeys.insert(hotkey),
                ..state
            };
            assert(next.media_hotkeys.contains(hotkey));
            lemma_register_all_keeps_valid(next, rest);
        }
    }
}

/// Unregistering well-formed hotkeys from a valid manager leaves it valid,
/// and what it waits for is valid.
pub proof fn lemma_unregister_all_keeps_valid(state: ManagerState, hotkeys: Seq<HotKey>)
    requires
        state.valid(),
        forall|i: int| 0 <= i < hotkeys.len() ==> (#[trigger] hotkeys[i]).wf(),
    ensures
        unregister_all(state, hotkeys).valid(),
    decreases hotkeys.len(),
{
    if hotkeys.len() > 0 {
        let hotkey = hotkeys[0];
        let rest = hotkeys.skip(1);
        assert forall|i: int| 0 <= i < rest.len() implies (#[trigger] rest[i]).wf() by {
            assert(rest[i] == hotkeys[i + 1]);
        }
        if media_key(hotkey.key()) {
            let media_hotkeys = state.media_hotkeys.remove(hotkey);
            if media_hotkeys == Set::<HotKey>::empty() {
                lemma_unregister_all_keeps_valid(
                    ManagerState { media_hotkeys, event_tap: None, ..state },
                    rest,
                );
            } else {
                assert(state.media_hotkeys != Set::<HotKey>::empty()) by {
                    let other = choose|other: HotKey| media_hotkeys.contains(other);
                    assert(media_hotkeys =~= Set::<HotKey>::empty() || media_hotkeys.contains(
                        other,
                    ));
                    assert(state.media_hotkeys.contains(other));
                }
                lemma_unregister_all_keeps_valid(ManagerState { media_hotkeys, ..state }, rest);
            }
        } else if state.hotkeys.contains_key(hotkey.id()) {
        } else {
            lemma_unregister_all_keeps_valid(state, rest);
        }
    }
}

/// Whatever the native layer replies to a valid waiting operation of a valid
/// manager, the manager stays valid, and so does what it waits for next.
pub proof fn lemma_resume_keeps_valid(state: ManagerState, pending: PendingView, reply: NativeReply)
    requires
        state.valid(),
        pending.valid(),
    ensures
        resume(state, pending, reply).valid(),
{
    let hotkey = pending.hotkey;
    match pending.stage {
        Stage::RegisterEventHotKey => {
            if let NativeReply::HotKeyRegistered { status, hotkey: ptr } = reply {
                if status == noErr {
                    let next = ManagerState {
                        hotkeys: state.hotkeys.insert(hotkey.id(), HotKeyWrapper { ptr, hotkey }),
                        ..state
                    };
                    assert(next.valid());
                    lemma_register_all_keeps_valid(next, pending.rest);
                }
            }
        },
        Stage::CGEventTapCreate => {},
        Stage::CFMachPortCreateRunLoopSource { port } => {
            if let NativeReply::RunLoopSource(source) = reply {
                if !source.is_null() {
                    let media_hotkeys = state.media_hotkeys.insert(hotkey);
                    assert(media_hotkeys.contains(hotkey));
                    if state.event_tap is Some {
                        lemma_register_all_keeps_valid(
                            ManagerState { media_hotkeys, ..state },
                            pending.rest,
                        );
                    } else {
                        lemma_register_all_keeps_valid(
                            ManagerState {
                                media_hotkeys,
                                event_tap: Some(EventTap { port, source }),
                                ..state
                            },
                            pending.rest,
                        );
                    }
                }
            }
        },
        Stage::UnregisterEventHotKey => {
            if let NativeReply::Status(status) = reply {
                if status == noErr {
                    lemma_unregister_all_keeps_valid(state, pending.rest);
                }
            }
        },
    }
}

/// A manager that was torn down is valid and holds nothing.
pub proof fn lemma_teardown_leaves_nothing(state: ManagerState)
    ensures
        teardown(state).state == torn_down(),
        teardown(state).state.valid(),
        teardown(state).next == ProgressView::Done(Ok(())),
{
}

/// In a valid manager an identifier names one thing at most: one standard
/// hotkey or one media hotkey, never both, and never two media hotkeys.
pub proof fn lemma_identifier_names_one(state: ManagerState, a: HotKey, b: HotKey)
    requires
        state.valid(),
        state.media_hotkeys.contains(a),
        a.id() == b.id(),
    ensures
        !state.hotkeys.contains_key(a.id()),
        state.media_hotkeys.contains(b) ==> a == b,
{
    if state.hotkeys.contains_key(a.id()) {
        let registered = state.hotkeys[a.id()].hotkey;
        lemma_same_id_same_hotkey(registered, a);
        lemma_media_keys_have_no_scancode(a.key());
    }
    if state.media_hotkeys.contains(b) {
        lemma_same_id_same_hotkey(a, b);
    }
}

/// A key with a scan code is no media key.
pub proof fn lemma_scancode_keys_are_not_media_keys(hotkey: HotKey)
    requires
        scancode_of(hotkey.key()) is Some,
    ensures
        !media_key(hotkey.key()),
{
    if media_key(hotkey.key()) {
        lemma_media_keys_have_no_scancode(hotkey.key());
    }
}

/// A standard hotkey that is registered and at once unregistered, the
/// native layer agreeing both times, succeeds both times, and the registry
/// is left without it: empty, where it was empty before.
pub proof fn lemma_register_then_unregister(
    state: ManagerState,
    hotkey: HotKey,
    ptr: EventHotKeyRef,
)
    requires
        scancode_of(hotkey.key()) is Some,
    ensures
        ({
            let first = register_all(state, seq![hotkey]);
            let registered = resume(
                first.state,
                first.next->Await_0,
                NativeReply::HotKeyRegistered { status: noErr, hotkey: ptr },
            );
            let second = unregister_all(registered.state, seq![hotkey]);
            let unregistered = resume(
                second.state,
                second.next->Await_0,
                NativeReply::Status(noErr),
            );
            &&& first.next is Await
            &&& first.state == state
            &&& first.calls == seq![register_call(hotkey, scancode_of(hotkey.key())->Some_0)]
            &&& registered.next == ProgressView::Done(Ok(()))
            &&& registered.calls == Seq::<NativeCall>::empty()
            &&& registered.state == (ManagerState {
                hotkeys: state.hotkeys.insert(hotkey.id(), HotKeyWrapper { ptr, hotkey }),
                ..state
            })
            &&& second.next is Await
            &&& second.calls == seq![NativeCall::UnregisterEventHotKey { hotkey: ptr }]
            &&& unregistered.next == ProgressView::Done(Ok(()))
            &&& unregistered.calls == Seq::<NativeCall>::empty()
            &&& unregistered.state == (ManagerState {
                hotkeys: state.hotkeys.remove(hotkey.id()),
                ..state
            })
            &&& !state.hotkeys.contains_key(hotkey.id()) ==> unregistered.state == state
        }),
{
    lemma_scancode_keys_are_not_media_keys(hotkey);
    let first = register_all(state, seq![hotkey]);
    let rest = seq![hotkey].skip(1);
    assert(rest.len() == 0);
    let wrapper = HotKeyWrapper { ptr, hotkey };
    let with_hotkey = ManagerState { hotkeys: state.hotkeys.insert(hotkey.id(), wrapper), ..state };
    assert(register_all(with_hotkey, rest) == done(with_hotkey, Ok(())));
    let registered = resume(
        first.state,
        first.next->Await_0,
        NativeReply::HotKeyRegistered { status: noErr, hotkey: ptr },
    );
    assert(registered.state == with_hotkey);
    let second = unregister_all(with_hotkey, seq![hotkey]);
    let without = ManagerState { hotkeys: with_hotkey.hotkeys.remove(hotkey.id()), ..with_hotkey };
    assert(without.hotkeys =~= state.hotkeys.remove(hotkey.id()));
    assert(unregister_all(without, rest) == done(without, Ok(())));
    if !state.hotkeys.contains_key(hotkey.id()) {
        assert(state.hotkeys.remove(hotkey.id()) =~= state.hotkeys);
    }
}

/// A standard hotkey is put before the native layer whatever is registered
/// already, a second time as the first time: it is the native layer that
/// turns a hotkey down. A registration that it turns down fails with
/// `FailedToRegister`, and the manager is left as it was: what was
/// registered under the identifier before stays, and nothing new enters.
pub proof fn lemma_rejected_registration_fails(
    state: ManagerState,
    hotkey: HotKey,
    reply: NativeReply,
)
    requires
        scancode_of(hotkey.key()) is Some,
        !(reply matches NativeReply::HotKeyRegistered { status, .. } && status == noErr),
    ensures
        ({
            let first = register_all(state, seq![hotkey]);
            let rejected = resume(first.state, first.next->Await_0, reply);
            &&& first.next is Await
            &&& first.state == state
            &&& first.calls == seq![register_call(hotkey, scancode_of(hotkey.key())->Some_0)]
            &&& rejected == done(state, Err(Error::FailedToRegister(hotkey.key())))
        }),
{
}

/// A hotkey whose key has no scan code and is no media key is not
/// registered: the registration fails with `FailedToRegister`, without a
/// native call, and the manager is left as it was.
pub proof fn lemma_unknown_key_fails(state: ManagerState, hotkey: HotKey)
    requires
        scancode_of(hotkey.key()) is None,
        !media_key(hotkey.key()),
    ensures
        register_all(state, seq![hotkey]) == done(
            state,
            Err(Error::FailedToRegister(hotkey.key())),
        ),
{
}

/// A media hotkey that is registered is not registered again: the
/// registration fails with `AlreadyRegistered`, without a native call, and
/// the set of media hotkeys is left as it was.
pub proof fn lemma_registered_media_hotkey_is_refused(state: ManagerState, hotkey: HotKey)
    requires
        media_key(hotkey.key()),
        state.media_hotkeys.contains(hotkey),
    ensures
        register_all(state, seq![hotkey]) == done(state, Err(Error::AlreadyRegistered(hotkey))),
{
    lemma_media_keys_have_no_scancode(hotkey.key());
}

/// A media hotkey that was just registered, whether the tap had to be
/// installed for it or not, is refused when it is registered again, and the
/// second registration changes nothing: the set holds what it held after
/// the first.
pub proof fn lemma_media_hotkey_twice(
    state: ManagerState,
    hotkey: HotKey,
    port: CFMachPortRef,
    source: CFRunLoopSourceRef,
)
    requires
        media_key(hotkey.key()),
        !state.media_hotkeys.contains(hotkey),
        !port.is_null(),
        !source.is_null(),
    ensures
        ({
            let first = register_all(state, seq![hotkey]);
            let registered = if state.event_tap is Some {
                first
            } else {
                let second = resume(first.state, first.next->Await_0, NativeReply::EventTap(port));
                resume(second.state, second.next->Await_0, NativeReply::RunLoopSource(source))
            };
            &&& registered.next == ProgressView::Done(Ok(()))
            &&& registered.state.media_hotkeys == state.media_hotkeys.insert(hotkey)
            &&& register_all(registered.state, seq![hotkey]) == done(
                registered.state,
                Err(Error::AlreadyRegistered(hotkey)),
            )
        }),
{
    if state.event_tap is Some {
        lemma_further_media_hotkey_is_silent(state, hotkey);
        let registered = register_all(state, seq![hotkey]);
        assert(registered.state.media_hotkeys.contains(hotkey));
        lemma_registered_media_hotkey_is_refused(registered.state, hotkey);
    } else {
        lemma_first_media_hotkey_activates(state, hotkey, port, source);
        let first = register_all(state, seq![hotkey]);
        let second = resume(first.state, first.next->Await_0, NativeReply::EventTap(port));
        let third = resume(second.state, second.next->Await_0, NativeReply::RunLoopSource(source));
        assert(third.state.media_hotkeys.contains(hotkey));
        lemma_registered_media_hotkey_is_refused(third.state, hotkey);
    }
}

/// The first media hotkey installs the tap, once: the tap is created, then
/// its source, then the source is attached and the tap switched on. After
/// that the hotkey is in the set and the tap is installed.
pub proof fn lemma_first_media_hotkey_activates(
    state: ManagerState,
    hotkey: HotKey,
    port: CFMachPortRef,
    source: CFRunLoopSourceRef,
)
    requires
        media_key(hotkey.key()),
        !state.media_hotkeys.contains(hotkey),
        state.event_tap is None,
        !port.is_null(),
        !source.is_null(),
    ensures
        ({
            let first = register_all(state, seq![hotkey]);
            let second = resume(first.state, first.next->Await_0, NativeReply::EventTap(port));
            let third = resume(
                second.state,
                second.next->Await_0,
                NativeReply::RunLoopSource(source),
            );
            &&& first.next is Await
            &&& first.state == state
            &&& first.calls == seq![tap_create_call()]
            &&& second.next is Await
            &&& second.state == state
            &&& second.calls == seq![source_create_call(port)]
            &&& third.next == ProgressView::Done(Ok(()))
            &&& third.calls == activation_calls(EventTap { port, source })
            &&& third.state == (ManagerState {
                media_hotkeys: state.media_hotkeys.insert(hotkey),
                event_tap: Some(EventTap { port, source }),
                ..state
            })
        }),
{
    lemma_media_keys_have_no_scancode(hotkey.key());
    let rest = seq![hotkey].skip(1);
    assert(rest.len() == 0);
    let tap = EventTap { port, source };
    let watching = ManagerState {
        media_hotkeys: state.media_hotkeys.insert(hotkey),
        event_tap: Some(tap),
        ..state
    };
    assert(register_all(watching, rest) == done(watching, Ok(())));
    assert(activation_calls(tap) + Seq::<NativeCall>::empty() =~= activation_calls(tap));
}

/// While the tap is installed, a further media hotkey joins the set without
/// a native call: the tap is not installed a second time.
pub proof fn lemma_further_media_hotkey_is_silent(state: ManagerState, hotkey: HotKey)
    requires
        media_key(hotkey.key()),
        !state.media_hotkeys.contains(hotkey),
        state.event_tap is Some,
    ensures
        register_all(state, seq![hotkey]) == done(
            ManagerState { media_hotkeys: state.media_hotkeys.insert(hotkey), ..state },
            Ok(()),
        ),
{
    lemma_media_keys_have_no_scancode(hotkey.key());
    let rest = seq![hotkey].skip(1);
    assert(rest.len() == 0);
    let next = ManagerState { media_hotkeys: state.media_hotkeys.insert(hotkey), ..state };
    assert(register_all(next, rest) == done(next, Ok(())));
}

/// A tap or a source that cannot be created fails the registration with
/// `FailedToWatchMediaKeyEvent` and leaves the manager as it was; a tap
/// whose source cannot be created is given up.
pub proof fn lemma_failed_activation_leaves_nothing(
    state: ManagerState,
    hotkey: HotKey,
    port: CFMachPortRef,
    tap_reply: NativeReply,
    source_reply: NativeReply,
)
    requires
        media_key(hotkey.key()),
        !state.media_hotkeys.contains(hotkey),
        state.event_tap is None,
        !port.is_null(),
        !(tap_reply matches NativeReply::EventTap(p) && !p.is_null()),
        !(source_reply matches NativeReply::RunLoopSource(s) && !s.is_null()),
    ensures
        ({
            let first = register_all(state, seq![hotkey]);
            let no_tap = resume(first.state, first.next->Await_0, tap_reply);
            let second = resume(first.state, first.next->Await_0, NativeReply::EventTap(port));
            let no_source = resume(second.state, second.next->Await_0, source_reply);
            &&& first.next is Await
            &&& no_tap == done(state, Err(Error::FailedToWatchMediaKeyEvent))
            &&& second.next is Await
            &&& no_source.state == state
            &&& no_source.calls == abandon_calls(port)
            &&& no_source.next == ProgressView::Done(Err(Error::FailedToWatchMediaKeyEvent))
        }),
{
    lemma_media_keys_have_no_scancode(hotkey.key());
    assert(abandon_calls(port) + Seq::<NativeCall>::empty() =~= abandon_calls(port));
}

/// Unregistering a media hotkey takes the tap down exactly when it takes
/// the last media hotkey away: then the calls are those that take the tap
/// down, and no tap is left; else there is no call and the tap stays.
pub proof fn lemma_last_media_hotkey_deactivates(state: ManagerState, hotkey: HotKey)
    requires
        media_key(hotkey.key()),
    ensures
        ({
            let left = state.media_hotkeys.remove(hotkey);
            let out = unregister_all(state, seq![hotkey]);
            &&& out.next == ProgressView::Done(Ok(()))
            &&& out.state.media_hotkeys == left
            &&& out.state.hotkeys == state.hotkeys
            &&& out.state.event_handler == state.event_handler
            &&& left == Set::<HotKey>::empty() ==> out.calls == deactivation_calls(state.event_tap)
                && out.state.event_tap is None
            &&& left != Set::<HotKey>::empty() ==> out.calls == Seq::<NativeCall>::empty()
                && out.state.event_tap == state.event_tap
        }),
{
    let rest = seq![hotkey].skip(1);
    assert(rest.len() == 0);
    let left = state.media_hotkeys.remove(hotkey);
    if left == Set::<HotKey>::empty() {
        let next = ManagerState { media_hotkeys: left, event_tap: None, ..state };
        assert(unregister_all(next, rest) == done(next, Ok(())));
        assert(deactivation_calls(state.event_tap) + Seq::<NativeCall>::empty()
            =~= deactivation_calls(state.event_tap));
    } else {
        let next = ManagerState { media_hotkeys: left, ..state };
        assert(unregister_all(next, rest) == done(next, Ok(())));
    }
}

/// A media hotkey that is registered with a manager that watches for none,
/// and at once unregistered, leaves the manager as it was: no tap stays
/// installed over an empty set. The tap that was installed is the tap that
/// is taken down.
pub proof fn lemma_media_register_then_unregister(
    state: ManagerState,
    hotkey: HotKey,
    port: CFMachPortRef,
    source: CFRunLoopSourceRef,
)
    requires
        state.valid(),
        media_key(hotkey.key()),
        state.media_hotkeys == Set::<HotKey>::empty(),
        !port.is_null(),
        !source.is_null(),
    ensures
        ({
            let first = register_all(state, seq![hotkey]);
            let second = resume(first.state, first.next->Await_0, NativeReply::EventTap(port));
            let third = resume(
                second.state,
                second.next->Await_0,
                NativeReply::RunLoopSource(source),
            );
            let last = unregister_all(third.state, seq![hotkey]);
            &&& third.next == ProgressView::Done(Ok(()))
            &&& third.state.event_tap == Some(EventTap { port, source })
            &&& last.next == ProgressView::Done(Ok(()))
            &&& last.calls == deactivation_calls(Some(EventTap { port, source }))
            &&& last.state == state
        }),
{
    lemma_first_media_hotkey_activates(state, hotkey, port, source);
    let watching = ManagerState {
        media_hotkeys: state.media_hotkeys.insert(hotkey),
        event_tap: Some(EventTap { port, source }),
        ..state
    };
    lemma_last_media_hotkey_deactivates(watching, hotkey);
    assert(watching.media_hotkeys.remove(hotkey) =~= Set::<HotKey>::empty());
}

/// No call withdraws a hotkey from a registry that holds none.
pub proof fn lemma_nothing_to_withdraw(from: nat)
    ensures
        withdrawal_calls(Map::<u32, HotKeyWrapper>::empty(), from) == Seq::<NativeCall>::empty(),
    decreases 0x1_0000_0000 - from,
{
    if from < 0x1_0000_0000 {
        lemma_nothing_to_withdraw(from + 1);
        assert(Seq::<NativeCall>::empty() + Seq::<NativeCall>::empty() =~= Seq::<
            NativeCall,
        >::empty());
    }
}

/// Each registered standard hotkey is withdrawn at teardown.
pub proof fn lemma_teardown_withdraws_each(hotkeys: Map<u32, HotKeyWrapper>, id: u32, from: nat)
    requires
        hotkeys.contains_key(id),
        from <= id,
    ensures
        withdrawal_calls(hotkeys, from).contains(
            NativeCall::UnregisterEventHotKey { hotkey: hotkeys[id].ptr },
        ),
    decreases id - from,
{
    let call = NativeCall::UnregisterEventHotKey { hotkey: hotkeys[id].ptr };
    let later = withdrawal_calls(hotkeys, from + 1);
    if from == id {
        assert((seq![call] + later)[0] == call);
    } else {
        lemma_teardown_withdraws_each(hotkeys, id, from + 1);
        let i = choose|i: int| 0 <= i < later.len() && later[i] == call;
        if hotkeys.contains_key(from as u32) {
            let first = seq![
                NativeCall::UnregisterEventHotKey { hotkey: hotkeys[from as u32].ptr },
            ];
            assert((first + later)[i + 1] == call);
        } else {
            assert((Seq::<NativeCall>::empty() + later)[i] == call);
        }
    }
}

/// Teardown gives the native calls in this order: the withdrawals of the
/// standard hotkeys, the removal of the handler, the calls that take the
/// tap down. A second teardown gives no call and changes nothing.
pub proof fn lemma_teardown_twice(state: ManagerState)
    ensures
        teardown(state).calls == withdrawal_calls(state.hotkeys, 0) + (match state.event_handler {
            Some(handler) => seq![NativeCall::RemoveEventHandler { handler }],
            None => Seq::empty(),
        }) + deactivation_calls(state.event_tap),
        teardown(teardown(state).state).calls == Seq::<NativeCall>::empty(),
        teardown(teardown(state).state).state == teardown(state).state,
{
    lemma_nothing_to_withdraw(0);
    assert(Seq::<NativeCall>::empty() + Seq::<NativeCall>::empty() + Seq::<NativeCall>::empty()
        =~= Seq::<NativeCall>::empty());
}

/// Calls made before an operation stay before it where more hotkeys follow.
proof fn lemma_after_followed_by(
    calls: Seq<NativeCall>,
    outcome: Outcome,
    more: Seq<HotKey>,
    go_on: spec_fn(ManagerState, Seq<HotKey>) -> Outcome,
)
    ensures
        followed_by(after(calls, outcome), more, go_on) == after(
            calls,
            followed_by(outcome, more, go_on),
        ),
{
    match outcome.next {
        ProgressView::Done(Ok(())) => {
            let rest = go_on(outcome.state, more);
            assert((calls + outcome.calls) + rest.calls =~= calls + (outcome.calls + rest.calls));
        },
        ProgressView::Done(Err(_)) => {},
        ProgressView::Await(_) => {},
    }
}

/// Registering some hotkeys and then more is registering them one after
/// the other: the later ones are registered after the earlier ones
/// succeeded, and not at all once one has failed, which leaves the earlier
/// ones registered.
pub proof fn lemma_register_all_in_sequence(
    state: ManagerState,
    first: Seq<HotKey>,
    more: Seq<HotKey>,
)
    ensures
        register_all(state, first + more) == followed_by(
            register_all(state, first),
            more,
            |s: ManagerState, h: Seq<HotKey>| register_all(s, h),
        ),
    decreases first.len(),
{
    let go_on = |s: ManagerState, h: Seq<HotKey>| register_all(s, h);
    if first.len() == 0 {
        assert(first + more =~= more);
        let rest = register_all(state, more);
        assert(Seq::<NativeCall>::empty() + rest.calls =~= rest.calls);
    } else {
        let hotkey = first[0];
        assert((first + more)[0] == hotkey);
        assert((first + more).skip(1) =~= first.skip(1) + more);
        if scancode_of(hotkey.key()) is None && media_key(hotkey.key())
            && !state.media_hotkeys.contains(hotkey) && state.event_tap is Some {
            let next = ManagerState {
                media_hotkeys: state.media_hotkeys.insert(hotkey),
                ..state
            };
            lemma_register_all_in_sequence(next, first.skip(1), more);
        }
    }
}

/// Unregistering some hotkeys and then more is unregistering them one after
/// the other: the later ones are unregistered after the earlier ones
/// succeeded, and not at all once one has failed.
pub proof fn lemma_unregister_all_in_sequence(
    state: ManagerState,
    first: Seq<HotKey>,
    more: Seq<HotKey>,
)
    ensures
        unregister_all(state, first + more) == followed_by(
            unregister_all(state, first),
            more,
            |s: ManagerState, h: Seq<HotKey>| unregister_all(s, h),
        ),
    decreases first.len(),
{
    let go_on = |s: ManagerState, h: Seq<HotKey>| unregister_all(s, h);
    if first.len() == 0 {
        assert(first + more =~= more);
        let rest = unregister_all(state, more);
        assert(Seq::<NativeCall>::empty() + rest.calls =~= rest.calls);
    } else {
        let hotkey = first[0];
        assert((first + more)[0] == hotkey);
        assert((first + more).skip(1) =~= first.skip(1) + more);
        if media_key(hotkey.key()) {
            let media_hotkeys = state.media_hotkeys.remove(hotkey);
            if media_hotkeys == Set::<HotKey>::empty() {
                let next = ManagerState { media_hotkeys, event_tap: None, ..state };
                lemma_unregister_all_in_sequence(next, first.skip(1), more);
                lemma_after_followed_by(
                    deactivation_calls(state.event_tap),
                    unregister_all(next, first.skip(1)),
                    more,
                    go_on,
                );
            } else {
                lemma_unregister_all_in_sequence(
                    ManagerState { media_hotkeys, ..state },
                    first.skip(1),
                    more,
                );
            }
        } else if !state.hotkeys.contains_key(hotkey.id()) {
            lemma_unregister_all_in_sequence(state, first.skip(1), more);
        }
    }
}

/// A waiting operation with more hotkeys behind it is brought on as the
/// operation without them is, and the hotkeys behind it follow: they are
/// worked on once it has succeeded, and not at all once it has failed.
pub proof fn lemma_resume_in_sequence(
    state: ManagerState,
    pending: PendingView,
    more: Seq<HotKey>,
    reply: NativeReply,
)
    ensures
        resume(
            state,
            PendingView { hotkey: pending.hotkey, rest: pending.rest + more, stage: pending.stage },
            reply,
        ) == (if pending.stage is UnregisterEventHotKey {
            followed_by(
                resume(state, pending, reply),
                more,
                |s: ManagerState, h: Seq<HotKey>| unregister_all(s, h),
            )
        } else {
            followed_by(
                resume(state, pending, reply),
                more,
                |s: ManagerState, h: Seq<HotKey>| register_all(s, h),
            )
        }),
{
    let hotkey = pending.hotkey;
    let register = |s: ManagerState, h: Seq<HotKey>| register_all(s, h);
    match pending.stage {
        Stage::RegisterEventHotKey => {
            if let NativeReply::HotKeyRegistered { status, hotkey: ptr } = reply {
                if status == noErr {
                    lemma_register_all_in_sequence(
                        ManagerState {
                            hotkeys: state.hotkeys.insert(
                                hotkey.id(),
                                HotKeyWrapper { ptr, hotkey },
                            ),
                            ..state
                        },
                        pending.rest,
                        more,
                    );
                }
            }
        },
        Stage::CGEventTapCreate => {},
        Stage::CFMachPortCreateRunLoopSource { port } => {
            if let NativeReply::RunLoopSource(source) = reply {
                if !source.is_null() {
                    let media_hotkeys = state.media_hotkeys.insert(hotkey);
                    if state.event_tap is Some {
                        let next = ManagerState { media_hotkeys, ..state };
                        lemma_register_all_in_sequence(next, pending.rest, more);
                        lemma_after_followed_by(
                            seq![NativeCall::CFRelease { address: source.addr }] + abandon_calls(
                                port,
                            ),
                            register_all(next, pending.rest),
                            more,
                            register,
                        );
                    } else {
                        let tap = EventTap { port, source };
                        let next = ManagerState { media_hotkeys, event_tap: Some(tap), ..state };
                        lemma_register_all_in_sequence(next, pending.rest, more);
                        lemma_after_followed_by(
                            activation_calls(tap),
                            register_all(next, pending.rest),
                            more,
                            register,
                        );
                    }
                }
            }
        },
        Stage::UnregisterEventHotKey => {
            if let NativeReply::Status(status) = reply {
                if status == noErr {
                    lemma_unregister_all_in_sequence(state, pending.rest, more);
                }
            }
        },
    }
}

} // verus!
