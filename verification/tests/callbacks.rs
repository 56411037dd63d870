use global_hotkey::callbacks::hotkey_handler;
use global_hotkey::callbacks::media_key_event_callback;
use global_hotkey::callbacks::NSEvent;
use global_hotkey::ffi::CGEventRef;
use global_hotkey::ffi::CGEventType;
use global_hotkey::ffi::EventHotKeyID;
use global_hotkey::hotkey::Code;
use global_hotkey::hotkey::HotKey;
use global_hotkey::hotkey::Modifiers;
use global_hotkey::media_keys::MediaKeySet;
use global_hotkey::GlobalHotKeyEvent;
use global_hotkey::HotKeyState;

const KEY_DOWN: i64 = 0xA00;
const KEY_UP: i64 = 0xB00;
const COMMAND: u64 = 1 << 20;
const SHIFT: u64 = 1 << 17;

fn media_event(key_type: i64, state: i64, modifier_flags: u64) -> NSEvent {
    NSEvent { event_type: 14, subtype: 8, data1: (key_type << 16) | state, modifier_flags }
}

fn registered(hotkeys: &[HotKey]) -> MediaKeySet {
    let mut set = MediaKeySet::new();
    for hotkey in hotkeys {
        set.insert(*hotkey);
    }
    set
}

fn event() -> CGEventRef {
    CGEventRef::from_addr(0xbeef)
}

#[test]
fn a_pressed_notification_is_one_pressed_event() {
    let id = EventHotKeyID { signature: 0x68747273, id: 4711 };
    assert_eq!(
        hotkey_handler(0, id, 5),
        Some(GlobalHotKeyEvent { id: 4711, state: HotKeyState::Pressed })
    );
}

#[test]
fn a_released_notification_is_one_released_event() {
    let id = EventHotKeyID { signature: 0x68747273, id: 4711 };
    let sent = hotkey_handler(0, id, 6).unwrap();
    assert_eq!(sent.id(), 4711);
    assert_eq!(sent.state(), HotKeyState::Released);
}

#[test]
fn a_notification_of_another_kind_is_dropped() {
    let id = EventHotKeyID { signature: 0x68747273, id: 4711 };
    assert_eq!(hotkey_handler(0, id, 0), None);
    assert_eq!(hotkey_handler(0, id, 4), None);
    assert_eq!(hotkey_handler(0, id, 7), None);
}

#[test]
fn a_notification_without_an_identifier_is_dropped() {
    let id = EventHotKeyID { signature: 0, id: 0 };
    assert_eq!(hotkey_handler(-9870, id, 5), None);
    assert_eq!(hotkey_handler(1, id, 6), None);
}

#[test]
fn a_registered_media_key_is_swallowed() {
    let play = HotKey::new(None, Code::MediaPlayPause);
    let set = registered(&[play]);
    let (back, sent) = media_key_event_callback(
        CGEventType::SystemDefined,
        event(),
        Some(media_event(16, KEY_DOWN, 0)),
        &set,
    );
    assert!(back.is_null());
    assert_eq!(sent, Some(GlobalHotKeyEvent { id: play.id(), state: HotKeyState::Pressed }));

    let (back, sent) = media_key_event_callback(
        CGEventType::SystemDefined,
        event(),
        Some(media_event(16, KEY_UP, 0)),
        &set,
    );
    assert!(back.is_null());
    assert_eq!(sent, Some(GlobalHotKeyEvent { id: play.id(), state: HotKeyState::Released }));
}

#[test]
fn an_unregistered_media_key_passes_through() {
    let set = registered(&[HotKey::new(None, Code::MediaPlayPause)]);
    let decision = media_key_event_callback(
        CGEventType::SystemDefined,
        event(),
        Some(media_event(17, KEY_DOWN, 0)),
        &set,
    );
    assert_eq!(decision, (event(), None));
    let decision = media_key_event_callback(
        CGEventType::SystemDefined,
        event(),
        Some(media_event(16, KEY_DOWN, 0)),
        &MediaKeySet::new(),
    );
    assert_eq!(decision, (event(), None));
}

#[test]
fn the_modifiers_must_be_those_of_the_registered_hotkey() {
    let with_super = HotKey::new(
        Some(Modifiers::from_bits_truncate(Modifiers::SUPER | Modifiers::SHIFT)),
        Code::MediaTrackPrevious,
    );
    let set = registered(&[with_super]);
    let (back, sent) = media_key_event_callback(
        CGEventType::SystemDefined,
        event(),
        Some(media_event(18, KEY_DOWN, COMMAND | SHIFT)),
        &set,
    );
    assert!(back.is_null());
    assert_eq!(sent, Some(GlobalHotKeyEvent { id: with_super.id(), state: HotKeyState::Pressed }));

    for flags in [0, COMMAND, SHIFT, COMMAND | SHIFT | (1 << 18)] {
        let decision = media_key_event_callback(
            CGEventType::SystemDefined,
            event(),
            Some(media_event(18, KEY_DOWN, flags)),
            &set,
        );
        assert_eq!(decision, (event(), None));
    }
}

#[test]
fn flags_outside_the_four_do_not_count() {
    let play = HotKey::new(None, Code::MediaPlayPause);
    let set = registered(&[play]);
    let caps_lock: u64 = 1 << 16;
    let (back, sent) = media_key_event_callback(
        CGEventType::SystemDefined,
        event(),
        Some(media_event(16, KEY_DOWN, caps_lock | 0x100)),
        &set,
    );
    assert!(back.is_null());
    assert_eq!(sent.unwrap().id, play.id());
}

#[test]
fn every_media_key_is_told_by_its_number() {
    let keys = [
        (16, Code::MediaPlayPause),
        (17, Code::MediaTrackNext),
        (18, Code::MediaTrackPrevious),
        (19, Code::MediaFastForward),
        (20, Code::MediaRewind),
    ];
    for (number, code) in keys {
        let hotkey = HotKey::new(None, code);
        let set = registered(&[hotkey]);
        for (other, _) in keys {
            let (back, sent) = media_key_event_callback(
                CGEventType::SystemDefined,
                event(),
                Some(media_event(other, KEY_DOWN, 0)),
                &set,
            );
            if other == number {
                assert!(back.is_null());
                assert_eq!(sent.unwrap().id, hotkey.id());
            } else {
                assert_eq!(back, event());
                assert_eq!(sent, None);
            }
        }
    }
}

#[test]
fn events_of_other_categories_pass_through() {
    let set = registered(&[HotKey::new(None, Code::MediaPlayPause)]);
    for category in [CGEventType::KeyDown, CGEventType::AppKitDefined, CGEventType::TapDisabledByTimeout] {
        let decision =
            media_key_event_callback(category, event(), Some(media_event(16, KEY_DOWN, 0)), &set);
        assert_eq!(decision, (event(), None));
    }
    let decision = media_key_event_callback(CGEventType::SystemDefined, event(), None, &set);
    assert_eq!(decision, (event(), None));
}

#[test]
fn system_events_that_are_no_media_keys_pass_through() {
    let set = registered(&[HotKey::new(None, Code::MediaPlayPause)]);
    let other_subtype = NSEvent { subtype: 7, ..media_event(16, KEY_DOWN, 0) };
    let other_type = NSEvent { event_type: 13, ..media_event(16, KEY_DOWN, 0) };
    let other_key = media_event(7, KEY_DOWN, 0);
    let no_key = NSEvent { data1: 16, ..media_event(0, KEY_DOWN, 0) };
    for ns_event in [other_subtype, other_type, other_key, no_key] {
        let decision =
            media_key_event_callback(CGEventType::SystemDefined, event(), Some(ns_event), &set);
        assert_eq!(decision, (event(), None));
    }
}

#[test]
fn the_key_is_read_from_bits_16_to_31_alone() {
    let play = HotKey::new(None, Code::MediaPlayPause);
    let set = registered(&[play]);
    let (back, sent) = media_key_event_callback(
        CGEventType::SystemDefined,
        event(),
        Some(media_event(0x10000 + 16, KEY_DOWN, 0)),
        &set,
    );
    assert!(back.is_null());
    assert_eq!(sent, Some(GlobalHotKeyEvent { id: play.id(), state: HotKeyState::Pressed }));
}

#[test]
fn only_state_ten_is_pressed() {
    let play = HotKey::new(None, Code::MediaPlayPause);
    let set = registered(&[play]);
    for (state, expected) in [
        (0xA00, HotKeyState::Pressed),
        (0xA01, HotKeyState::Pressed),
        (0xAff, HotKeyState::Pressed),
        (0xB00, HotKeyState::Released),
        (0x000, HotKeyState::Released),
        (0xA0, HotKeyState::Released),
    ] {
        let (_, sent) = media_key_event_callback(
            CGEventType::SystemDefined,
            event(),
            Some(media_event(16, state, 0)),
            &set,
        );
        assert_eq!(sent.unwrap().state, expected);
    }
}
