use global_hotkey::callbacks::hotkey_handler;
use global_hotkey::ffi::CFMachPortRef;
use global_hotkey::ffi::CFRunLoopSourceRef;
use global_hotkey::ffi::CGEventTapLocation;
use global_hotkey::ffi::CGEventTapOptions;
use global_hotkey::ffi::CGEventTapPlacement;
use global_hotkey::ffi::EventHandlerRef;
use global_hotkey::ffi::EventHotKeyID;
use global_hotkey::ffi::EventHotKeyRef;
use global_hotkey::ffi::NativeCall;
use global_hotkey::ffi::NativeReply;
use global_hotkey::ffi::HOTKEY_SIGNATURE;
use global_hotkey::hotkey::Code;
use global_hotkey::hotkey::HotKey;
use global_hotkey::hotkey::Modifiers;
use global_hotkey::manager::Progress;
use global_hotkey::manager::Step;
use global_hotkey::model::EventTap;
use global_hotkey::model::Stage;
use global_hotkey::translation::key_to_scancode;
use global_hotkey::Error;
use global_hotkey::GlobalHotKeyEvent;
use global_hotkey::GlobalHotKeyManager;
use global_hotkey::HotKeyState;

/// A native layer that lives in memory: it keeps what is registered with
/// it, turns down a hotkey that is registered already, and writes down
/// every call.
struct NativeLayer {
    log: Vec<NativeCall>,
    registered: Vec<(u32, usize)>,
    next_address: usize,
    refuse_tap: bool,
    refuse_source: bool,
    tap_enabled: bool,
}

impl NativeLayer {
    fn new() -> Self {
        NativeLayer {
            log: Vec::new(),
            registered: Vec::new(),
            next_address: 0x1000,
            refuse_tap: false,
            refuse_source: false,
            tap_enabled: false,
        }
    }

    fn fresh_address(&mut self) -> usize {
        self.next_address += 0x10;
        self.next_address
    }

    fn perform(&mut self, call: NativeCall) -> NativeReply {
        self.log.push(call);
        match call {
            NativeCall::RegisterEventHotKey { hotkey_id, .. } => {
                if self.registered.iter().any(|(id, _)| *id == hotkey_id.id) {
                    NativeReply::HotKeyRegistered { status: -9878, hotkey: EventHotKeyRef::null() }
                } else {
                    let address = self.fresh_address();
                    self.registered.push((hotkey_id.id, address));
                    NativeReply::HotKeyRegistered {
                        status: 0,
                        hotkey: EventHotKeyRef::from_addr(address),
                    }
                }
            }
            NativeCall::UnregisterEventHotKey { hotkey } => {
                match self.registered.iter().position(|(_, address)| *address == hotkey.addr()) {
                    Some(at) => {
                        self.registered.remove(at);
                        NativeReply::Status(0)
                    }
                    None => NativeReply::Status(-9879),
                }
            }
            NativeCall::CGEventTapCreate { .. } => {
                if self.refuse_tap {
                    NativeReply::EventTap(CFMachPortRef::null())
                } else {
                    let address = self.fresh_address();
                    NativeReply::EventTap(CFMachPortRef::from_addr(address))
                }
            }
            NativeCall::CFMachPortCreateRunLoopSource { .. } => {
                if self.refuse_source {
                    NativeReply::RunLoopSource(CFRunLoopSourceRef::null())
                } else {
                    let address = self.fresh_address();
                    NativeReply::RunLoopSource(CFRunLoopSourceRef::from_addr(address))
                }
            }
            NativeCall::CGEventTapEnable { enable, .. } => {
                self.tap_enabled = enable;
                NativeReply::Nothing
            }
            NativeCall::CFMachPortInvalidate { .. } => {
                self.tap_enabled = false;
                NativeReply::Nothing
            }
            NativeCall::RemoveEventHandler { .. } => NativeReply::Status(0),
            _ => NativeReply::Nothing,
        }
    }

    /// What the handler makes of a notification for `id`; the native layer
    /// notifies only of hotkeys that are registered with it.
    fn notify(&self, id: u32, kind: u32) -> Option<GlobalHotKeyEvent> {
        if self.registered.iter().any(|(registered, _)| *registered == id) {
            hotkey_handler(0, EventHotKeyID { signature: HOTKEY_SIGNATURE, id }, kind)
        } else {
            None
        }
    }

    fn count(&self, wanted: fn(&NativeCall) -> bool) -> usize {
        self.log.iter().filter(|call| wanted(call)).count()
    }
}

/// Makes the calls of each step and hands the reply to the last one back,
/// until the operation is over.
fn drive(
    manager: &mut GlobalHotKeyManager,
    native: &mut NativeLayer,
    first: Step,
) -> Result<(), Error> {
    let mut step = first;
    loop {
        let mut reply = NativeReply::Nothing;
        for call in step.calls.iter() {
            reply = native.perform(*call);
        }
        match step.next {
            Progress::Done(result) => return result,
            Progress::Await(pending) => step = manager.resume(pending, reply),
        }
    }
}

fn manager() -> GlobalHotKeyManager {
    GlobalHotKeyManager::new(0, EventHandlerRef::from_addr(0x500), 0).unwrap()
}

fn register(
    manager: &mut GlobalHotKeyManager,
    native: &mut NativeLayer,
    hotkey: HotKey,
) -> Result<(), Error> {
    let step = manager.register(hotkey);
    drive(manager, native, step)
}

fn unregister(
    manager: &mut GlobalHotKeyManager,
    native: &mut NativeLayer,
    hotkey: HotKey,
) -> Result<(), Error> {
    let step = manager.unregister(hotkey);
    drive(manager, native, step)
}

fn is_tap_create(call: &NativeCall) -> bool {
    matches!(call, NativeCall::CGEventTapCreate { .. })
}

fn is_invalidate(call: &NativeCall) -> bool {
    matches!(call, NativeCall::CFMachPortInvalidate { .. })
}

fn is_register(call: &NativeCall) -> bool {
    matches!(call, NativeCall::RegisterEventHotKey { .. })
}

const STANDARD_KEYS: [Code; 105] = [
    Code::KeyA,
    Code::KeyS,
    Code::KeyD,
    Code::KeyF,
    Code::KeyH,
    Code::KeyG,
    Code::KeyZ,
    Code::KeyX,
    Code::KeyC,
    Code::KeyV,
    Code::KeyB,
    Code::KeyQ,
    Code::KeyW,
    Code::KeyE,
    Code::KeyR,
    Code::KeyY,
    Code::KeyT,
    Code::Digit1,
    Code::Digit2,
    Code::Digit3,
    Code::Digit4,
    Code::Digit6,
    Code::Digit5,
    Code::Equal,
    Code::Digit9,
    Code::Digit7,
    Code::Minus,
    Code::Digit8,
    Code::Digit0,
    Code::BracketRight,
    Code::KeyO,
    Code::KeyU,
    Code::BracketLeft,
    Code::KeyI,
    Code::KeyP,
    Code::Enter,
    Code::KeyL,
    Code::KeyJ,
    Code::Quote,
    Code::KeyK,
    Code::Semicolon,
    Code::Backslash,
    Code::Comma,
    Code::Slash,
    Code::KeyN,
    Code::KeyM,
    Code::Period,
    Code::Tab,
    Code::Space,
    Code::Backquote,
    Code::Backspace,
    Code::Escape,
    Code::F17,
    Code::NumpadDecimal,
    Code::NumpadMultiply,
    Code::NumpadAdd,
    Code::NumLock,
    Code::AudioVolumeUp,
    Code::AudioVolumeDown,
    Code::AudioVolumeMute,
    Code::NumpadDivide,
    Code::NumpadEnter,
    Code::NumpadSubtract,
    Code::F18,
    Code::F19,
    Code::NumpadEqual,
    Code::Numpad0,
    Code::Numpad1,
    Code::Numpad2,
    Code::Numpad3,
    Code::Numpad4,
    Code::Numpad5,
    Code::Numpad6,
    Code::Numpad7,
    Code::F20,
    Code::Numpad8,
    Code::Numpad9,
    Code::F5,
    Code::F6,
    Code::F7,
    Code::F3,
    Code::F8,
    Code::F9,
    Code::F11,
    Code::F13,
    Code::F16,
    Code::F14,
    Code::F10,
    Code::F12,
    Code::F15,
    Code::Insert,
    Code::Home,
    Code::PageUp,
    Code::Delete,
    Code::F4,
    Code::End,
    Code::F2,
    Code::PageDown,
    Code::F1,
    Code::ArrowLeft,
    Code::ArrowRight,
    Code::ArrowDown,
    Code::ArrowUp,
    Code::CapsLock,
    Code::PrintScreen,
];

#[test]
fn new_manager_holds_the_handler_and_nothing_else() {
    let manager = GlobalHotKeyManager::new(0, EventHandlerRef::from_addr(0x500), 0).unwrap();
    assert_eq!(manager.event_handler(), Some(EventHandlerRef::from_addr(0x500)));
    assert_eq!(manager.len(), 0);
    assert!(manager.media_hotkeys().is_empty());
    assert_eq!(manager.event_tap(), None);
}

#[test]
fn new_manager_fails_with_the_os_error() {
    let made = GlobalHotKeyManager::new(-50, EventHandlerRef::null(), 13);
    assert!(matches!(made, Err(Error::OsError(13))));
}

#[test]
fn handler_is_installed_for_pressed_and_released() {
    let (pressed, released) = GlobalHotKeyManager::handled_event_types();
    assert_eq!(pressed.eventClass, 1801812322);
    assert_eq!(pressed.eventKind, 5);
    assert_eq!(released.eventClass, 1801812322);
    assert_eq!(released.eventKind, 6);
}

#[test]
fn register_then_unregister_every_standard_key() {
    for code in STANDARD_KEYS {
        assert!(key_to_scancode(code).is_some());
        let mut manager = manager();
        let mut native = NativeLayer::new();
        let hotkey = HotKey::new(Some(Modifiers::from_bits_truncate(Modifiers::SHIFT)), code);
        assert_eq!(register(&mut manager, &mut native, hotkey), Ok(()));
        assert_eq!(manager.len(), 1);
        assert_eq!(manager.registered(hotkey.id()), Some(hotkey));
        assert_eq!(unregister(&mut manager, &mut native, hotkey), Ok(()));
        assert_eq!(manager.len(), 0);
        assert_eq!(manager.registered(hotkey.id()), None);
        assert!(native.registered.is_empty());
        assert_eq!(native.log.len(), 2);
    }
}

#[test]
fn register_hands_the_native_call_out() {
    let mut manager = manager();
    let hotkey = HotKey::new(Some(Modifiers::from_bits_truncate(Modifiers::CONTROL)), Code::ArrowRight);
    let step = manager.register(hotkey);
    assert_eq!(
        step.calls,
        vec![NativeCall::RegisterEventHotKey {
            key_code: 0x7c,
            modifiers: 4096,
            hotkey_id: EventHotKeyID { signature: 0x68747273, id: 0x80051 },
            options: 0,
        }]
    );
    match step.next {
        Progress::Await(pending) => {
            assert_eq!(pending.hotkey(), hotkey);
            assert_eq!(pending.stage(), Stage::RegisterEventHotKey);
        }
        Progress::Done(_) => panic!("the registration waits for the native layer"),
    }
    assert_eq!(manager.len(), 0);
}

#[test]
fn registering_a_standard_hotkey_twice_is_turned_down() {
    let mut manager = manager();
    let mut native = NativeLayer::new();
    let hotkey = HotKey::new(None, Code::F5);
    assert_eq!(register(&mut manager, &mut native, hotkey), Ok(()));
    let first = manager.registered(hotkey.id());
    assert_eq!(
        register(&mut manager, &mut native, hotkey),
        Err(Error::FailedToRegister(Code::F5))
    );
    assert_eq!(manager.len(), 1);
    assert_eq!(manager.registered(hotkey.id()), first);
    assert_eq!(native.registered.len(), 1);
}

#[test]
fn a_reply_of_another_kind_counts_as_a_failure() {
    let mut manager = manager();
    let hotkey = HotKey::new(None, Code::F5);
    let step = manager.register(hotkey);
    let pending = match step.next {
        Progress::Await(pending) => pending,
        Progress::Done(_) => panic!("the registration waits for the native layer"),
    };
    let step = manager.resume(pending, NativeReply::Status(0));
    assert!(step.calls.is_empty());
    assert!(matches!(step.next, Progress::Done(Err(Error::FailedToRegister(Code::F5)))));
    assert_eq!(manager.len(), 0);
}

#[test]
fn registering_an_unknown_key_fails_without_a_call() {
    let mut manager = manager();
    let mut native = NativeLayer::new();
    let hotkey = HotKey::new(None, Code::BrowserBack);
    assert_eq!(
        register(&mut manager, &mut native, hotkey),
        Err(Error::FailedToRegister(Code::BrowserBack))
    );
    assert!(native.log.is_empty());
    assert_eq!(manager.len(), 0);
    assert!(manager.media_hotkeys().is_empty());
}

#[test]
fn unregistering_what_is_not_registered_succeeds_without_a_call() {
    let mut manager = manager();
    let mut native = NativeLayer::new();
    assert_eq!(unregister(&mut manager, &mut native, HotKey::new(None, Code::KeyA)), Ok(()));
    assert_eq!(
        unregister(&mut manager, &mut native, HotKey::new(None, Code::MediaPlayPause)),
        Ok(())
    );
    assert_eq!(unregister(&mut manager, &mut native, HotKey::new(None, Code::Hyper)), Ok(()));
    assert!(native.log.is_empty());
}

#[test]
fn a_withdrawal_that_is_turned_down_fails() {
    let mut manager = manager();
    let mut native = NativeLayer::new();
    let hotkey = HotKey::new(None, Code::KeyQ);
    assert_eq!(register(&mut manager, &mut native, hotkey), Ok(()));
    native.registered.clear();
    assert_eq!(
        unregister(&mut manager, &mut native, hotkey),
        Err(Error::FailedToUnRegister(hotkey))
    );
    assert_eq!(manager.len(), 0);
}

#[test]
fn registering_a_media_hotkey_twice_fails_the_second_time() {
    let mut manager = manager();
    let mut native = NativeLayer::new();
    let hotkey = HotKey::new(None, Code::MediaPlayPause);
    assert_eq!(register(&mut manager, &mut native, hotkey), Ok(()));
    assert_eq!(manager.media_hotkeys().len(), 1);
    let calls = native.log.len();
    assert_eq!(
        register(&mut manager, &mut native, hotkey),
        Err(Error::AlreadyRegistered(hotkey))
    );
    assert_eq!(manager.media_hotkeys().len(), 1);
    assert!(manager.media_hotkeys().contains(&hotkey));
    assert_eq!(native.log.len(), calls);
}

#[test]
fn the_first_media_hotkey_installs_the_tap() {
    let mut manager = manager();
    let mut native = NativeLayer::new();
    let hotkey = HotKey::new(None, Code::MediaTrackNext);
    assert_eq!(register(&mut manager, &mut native, hotkey), Ok(()));
    let tap = manager.event_tap().unwrap();
    assert_eq!(
        native.log,
        vec![
            NativeCall::CGEventTapCreate {
                tap: CGEventTapLocation::Session,
                place: CGEventTapPlacement::HeadInsertEventTap,
                options: CGEventTapOptions::Default,
                events_of_interest: 1 << 14,
            },
            NativeCall::CFMachPortCreateRunLoopSource { port: tap.port, order: 0 },
            NativeCall::CFRunLoopAddSource { source: tap.source },
            NativeCall::CGEventTapEnable { tap: tap.port, enable: true },
        ]
    );
    assert!(!tap.port.is_null());
    assert!(!tap.source.is_null());
    assert!(native.tap_enabled);
}

#[test]
fn the_tap_is_installed_once_and_taken_down_once() {
    let mut manager = manager();
    let mut native = NativeLayer::new();
    let play = HotKey::new(None, Code::MediaPlayPause);
    let next = HotKey::new(None, Code::MediaTrackNext);
    let rewind = HotKey::new(Some(Modifiers::from_bits_truncate(Modifiers::ALT)), Code::MediaRewind);

    assert_eq!(register(&mut manager, &mut native, play), Ok(()));
    assert_eq!(register(&mut manager, &mut native, next), Ok(()));
    assert_eq!(register(&mut manager, &mut native, rewind), Ok(()));
    assert_eq!(native.count(is_tap_create), 1);
    assert_eq!(manager.media_hotkeys().len(), 3);
    let tap = manager.event_tap().unwrap();

    assert_eq!(unregister(&mut manager, &mut native, next), Ok(()));
    assert_eq!(unregister(&mut manager, &mut native, play), Ok(()));
    assert_eq!(native.count(is_invalidate), 0);
    assert_eq!(manager.event_tap(), Some(tap));

    let before = native.log.len();
    assert_eq!(unregister(&mut manager, &mut native, rewind), Ok(()));
    assert_eq!(
        native.log[before..],
        [
            NativeCall::CFRunLoopRemoveSource { source: tap.source },
            NativeCall::CFRelease { address: tap.source.addr() },
            NativeCall::CFMachPortInvalidate { port: tap.port },
            NativeCall::CFRelease { address: tap.port.addr() },
        ]
    );
    assert_eq!(manager.event_tap(), None);
    assert!(manager.media_hotkeys().is_empty());
    assert!(!native.tap_enabled);

    let after = native.log.len();
    assert_eq!(unregister(&mut manager, &mut native, rewind), Ok(()));
    assert_eq!(native.log.len(), after);
}

#[test]
fn quick_register_and_unregister_of_a_media_key_leaves_no_tap() {
    let mut manager = manager();
    let mut native = NativeLayer::new();
    let hotkey = HotKey::new(None, Code::MediaFastForward);
    for round in 1..=5 {
        assert_eq!(register(&mut manager, &mut native, hotkey), Ok(()));
        assert!(manager.event_tap().is_some());
        assert_eq!(unregister(&mut manager, &mut native, hotkey), Ok(()));
        assert_eq!(manager.event_tap(), None);
        assert!(manager.media_hotkeys().is_empty());
        assert_eq!(native.count(is_tap_create), round);
        assert_eq!(native.count(is_invalidate), round);
    }
}

#[test]
fn a_tap_that_cannot_be_created_fails_the_registration() {
    let mut manager = manager();
    let mut native = NativeLayer::new();
    native.refuse_tap = true;
    let hotkey = HotKey::new(None, Code::MediaPlayPause);
    assert_eq!(
        register(&mut manager, &mut native, hotkey),
        Err(Error::FailedToWatchMediaKeyEvent)
    );
    assert_eq!(native.log.len(), 1);
    assert!(manager.media_hotkeys().is_empty());
    assert_eq!(manager.event_tap(), None);

    native.refuse_tap = false;
    assert_eq!(register(&mut manager, &mut native, hotkey), Ok(()));
    assert!(manager.media_hotkeys().contains(&hotkey));
}

#[test]
fn a_source_that_cannot_be_created_gives_the_tap_up() {
    let mut manager = manager();
    let mut native = NativeLayer::new();
    native.refuse_source = true;
    let hotkey = HotKey::new(None, Code::MediaPlayPause);
    assert_eq!(
        register(&mut manager, &mut native, hotkey),
        Err(Error::FailedToWatchMediaKeyEvent)
    );
    let port = match native.log[1] {
        NativeCall::CFMachPortCreateRunLoopSource { port, .. } => port,
        _ => panic!("the source is asked for after the tap"),
    };
    assert_eq!(
        native.log[2..],
        [
            NativeCall::CFMachPortInvalidate { port },
            NativeCall::CFRelease { address: port.addr() },
        ]
    );
    assert!(manager.media_hotkeys().is_empty());
    assert_eq!(manager.event_tap(), None);
}

#[test]
fn a_second_tap_is_given_up_where_one_is_installed() {
    let mut manager = manager();
    let play = HotKey::new(None, Code::MediaPlayPause);
    let next = HotKey::new(None, Code::MediaTrackNext);

    // Two registrations that both find no tap and both ask for one.
    let first = match manager.register(play).next {
        Progress::Await(pending) => pending,
        Progress::Done(_) => panic!("the first registration asks for the tap"),
    };
    let second = match manager.register(next).next {
        Progress::Await(pending) => pending,
        Progress::Done(_) => panic!("the second registration asks for the tap"),
    };
    let first = match manager.resume(first, NativeReply::EventTap(CFMachPortRef::from_addr(0x10))).next {
        Progress::Await(pending) => pending,
        Progress::Done(_) => panic!("the first registration asks for the source"),
    };
    let second = match manager.resume(second, NativeReply::EventTap(CFMachPortRef::from_addr(0x20))).next {
        Progress::Await(pending) => pending,
        Progress::Done(_) => panic!("the second registration asks for the source"),
    };

    let step = manager.resume(first, NativeReply::RunLoopSource(CFRunLoopSourceRef::from_addr(0x11)));
    assert!(matches!(step.next, Progress::Done(Ok(()))));
    let installed = EventTap {
        port: CFMachPortRef::from_addr(0x10),
        source: CFRunLoopSourceRef::from_addr(0x11),
    };
    assert_eq!(manager.event_tap(), Some(installed));

    let step = manager.resume(second, NativeReply::RunLoopSource(CFRunLoopSourceRef::from_addr(0x21)));
    assert!(matches!(step.next, Progress::Done(Ok(()))));
    assert_eq!(
        step.calls,
        vec![
            NativeCall::CFRelease { address: 0x21 },
            NativeCall::CFMachPortInvalidate { port: CFMachPortRef::from_addr(0x20) },
            NativeCall::CFRelease { address: 0x20 },
        ]
    );
    assert_eq!(manager.event_tap(), Some(installed));
    assert!(manager.media_hotkeys().contains(&play));
    assert!(manager.media_hotkeys().contains(&next));
}

#[test]
fn register_all_stops_at_the_first_failure() {
    let mut manager = manager();
    let mut native = NativeLayer::new();
    let up = HotKey::new(None, Code::ArrowUp);
    let unknown = HotKey::new(None, Code::Sleep);
    let down = HotKey::new(None, Code::ArrowDown);
    let step = manager.register_all(&[up, unknown, down]);
    assert_eq!(
        drive(&mut manager, &mut native, step),
        Err(Error::FailedToRegister(Code::Sleep))
    );
    assert_eq!(manager.registered(up.id()), Some(up));
    assert_eq!(manager.registered(down.id()), None);
    assert_eq!(manager.len(), 1);
    assert_eq!(native.count(is_register), 1);
}

#[test]
fn register_all_registers_standard_and_media_hotkeys() {
    let mut manager = manager();
    let mut native = NativeLayer::new();
    let hotkeys = [
        HotKey::new(None, Code::MediaPlayPause),
        HotKey::new(None, Code::KeyA),
        HotKey::new(None, Code::MediaTrackNext),
        HotKey::new(Some(Modifiers::from_bits_truncate(Modifiers::SUPER)), Code::KeyB),
    ];
    let step = manager.register_all(&hotkeys);
    assert_eq!(drive(&mut manager, &mut native, step), Ok(()));
    assert_eq!(manager.len(), 2);
    assert_eq!(manager.media_hotkeys().len(), 2);
    assert_eq!(native.count(is_tap_create), 1);
    assert_eq!(native.count(is_register), 2);

    let step = manager.unregister_all(&hotkeys);
    assert_eq!(drive(&mut manager, &mut native, step), Ok(()));
    assert_eq!(manager.len(), 0);
    assert!(manager.media_hotkeys().is_empty());
    assert_eq!(manager.event_tap(), None);
    assert!(native.registered.is_empty());
    assert_eq!(native.count(is_invalidate), 1);
}

#[test]
fn register_all_of_nothing_succeeds() {
    let mut manager = manager();
    let step = manager.register_all(&[]);
    assert!(step.calls.is_empty());
    assert!(matches!(step.next, Progress::Done(Ok(()))));
    let step = manager.unregister_all(&[]);
    assert!(step.calls.is_empty());
    assert!(matches!(step.next, Progress::Done(Ok(()))));
}

#[test]
fn unregister_all_stops_at_the_first_failure() {
    let mut manager = manager();
    let mut native = NativeLayer::new();
    let a = HotKey::new(None, Code::KeyA);
    let b = HotKey::new(None, Code::KeyB);
    let c = HotKey::new(None, Code::KeyC);
    let step = manager.register_all(&[a, b, c]);
    assert_eq!(drive(&mut manager, &mut native, step), Ok(()));
    native.registered.retain(|(id, _)| *id != b.id());
    let step = manager.unregister_all(&[a, b, c]);
    assert_eq!(drive(&mut manager, &mut native, step), Err(Error::FailedToUnRegister(b)));
    assert_eq!(manager.registered(a.id()), None);
    assert_eq!(manager.registered(c.id()), Some(c));
}

#[test]
fn teardown_withdraws_in_the_order_of_the_identifiers() {
    let mut manager = manager();
    let mut native = NativeLayer::new();
    let high = HotKey::new(Some(Modifiers::from_bits_truncate(Modifiers::SUPER)), Code::KeyA);
    let low = HotKey::new(None, Code::KeyZ);
    let middle = HotKey::new(Some(Modifiers::from_bits_truncate(Modifiers::ALT)), Code::KeyA);
    let media = HotKey::new(None, Code::MediaRewind);
    assert!(low.id() < middle.id() && middle.id() < high.id());
    let step = manager.register_all(&[high, low, media, middle]);
    assert_eq!(drive(&mut manager, &mut native, step), Ok(()));
    let handle = |id: u32| {
        let (_, address) = native.registered.iter().find(|(registered, _)| *registered == id).unwrap();
        EventHotKeyRef::from_addr(*address)
    };
    let tap = manager.event_tap().unwrap();

    let calls = manager.teardown();
    assert_eq!(
        calls,
        vec![
            NativeCall::UnregisterEventHotKey { hotkey: handle(low.id()) },
            NativeCall::UnregisterEventHotKey { hotkey: handle(middle.id()) },
            NativeCall::UnregisterEventHotKey { hotkey: handle(high.id()) },
            NativeCall::RemoveEventHandler { handler: EventHandlerRef::from_addr(0x500) },
            NativeCall::CFRunLoopRemoveSource { source: tap.source },
            NativeCall::CFRelease { address: tap.source.addr() },
            NativeCall::CFMachPortInvalidate { port: tap.port },
            NativeCall::CFRelease { address: tap.port.addr() },
        ]
    );
    assert_eq!(manager.len(), 0);
    assert!(manager.media_hotkeys().is_empty());
    assert_eq!(manager.event_tap(), None);
    assert_eq!(manager.event_handler(), None);
}

#[test]
fn a_second_teardown_gives_no_call() {
    let mut manager = manager();
    let mut native = NativeLayer::new();
    assert_eq!(register(&mut manager, &mut native, HotKey::new(None, Code::KeyA)), Ok(()));
    assert_eq!(manager.teardown().len(), 2);
    assert!(manager.teardown().is_empty());
    assert_eq!(manager.len(), 0);
}

#[test]
fn a_notification_yields_an_event_until_the_hotkey_is_unregistered() {
    let mut manager = manager();
    let mut native = NativeLayer::new();
    let up = HotKey::new(None, Code::ArrowUp);
    let right = HotKey::new(Some(Modifiers::from_bits_truncate(Modifiers::CONTROL)), Code::ArrowRight);
    assert_eq!(up.id(), 82);
    assert_eq!(right.id(), 0x80051);
    assert_eq!(register(&mut manager, &mut native, up), Ok(()));
    assert_eq!(register(&mut manager, &mut native, right), Ok(()));

    assert_eq!(
        native.notify(up.id(), 5),
        Some(GlobalHotKeyEvent { id: up.id(), state: HotKeyState::Pressed })
    );
    assert_eq!(manager.registered(right.id()), Some(right));

    assert_eq!(unregister(&mut manager, &mut native, up), Ok(()));
    assert_eq!(native.notify(up.id(), 5), None);
    assert_eq!(
        native.notify(right.id(), 6),
        Some(GlobalHotKeyEvent { id: right.id(), state: HotKeyState::Released })
    );
}

#[test]
fn register_all_stops_where_the_native_layer_turns_a_hotkey_down() {
    let mut manager = manager();
    let mut native = NativeLayer::new();
    let a = HotKey::new(None, Code::KeyA);
    let b = HotKey::new(None, Code::KeyB);
    let media = HotKey::new(None, Code::MediaRewind);
    let step = manager.register_all(&[a, media, a, b]);
    assert_eq!(
        drive(&mut manager, &mut native, step),
        Err(Error::FailedToRegister(Code::KeyA))
    );
    assert_eq!(manager.registered(a.id()), Some(a));
    assert!(manager.media_hotkeys().contains(&media));
    assert!(manager.event_tap().is_some());
    assert_eq!(manager.registered(b.id()), None);
    assert_eq!(native.count(is_register), 2);
}

#[test]
fn the_hotkeys_behind_a_waiting_one_wait_with_it() {
    let mut manager = manager();
    let a = HotKey::new(None, Code::KeyA);
    let b = HotKey::new(None, Code::KeyB);
    let step = manager.register_all(&[a, b]);
    assert_eq!(step.calls.len(), 1);
    let pending = match step.next {
        Progress::Await(pending) => pending,
        Progress::Done(_) => panic!("the first registration waits for the native layer"),
    };
    assert_eq!(pending.hotkey(), a);
    let step = manager.resume(
        pending,
        NativeReply::HotKeyRegistered { status: 0, hotkey: EventHotKeyRef::from_addr(0x40) },
    );
    assert_eq!(manager.len(), 1);
    assert_eq!(step.calls.len(), 1);
    let pending = match step.next {
        Progress::Await(pending) => pending,
        Progress::Done(_) => panic!("the second registration waits for the native layer"),
    };
    assert_eq!(pending.hotkey(), b);
    let step = manager.resume(
        pending,
        NativeReply::HotKeyRegistered { status: 0, hotkey: EventHotKeyRef::from_addr(0x50) },
    );
    assert!(step.calls.is_empty());
    assert!(matches!(step.next, Progress::Done(Ok(()))));
    assert_eq!(manager.len(), 2);
}
