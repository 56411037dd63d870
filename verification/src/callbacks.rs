//! What the two native callbacks decide, once the values they act on are
//! read from the native event.

use crate::code::Code;
use crate::event::GlobalHotKeyEvent;
use crate::event::HotKeyState;
use crate::ffi::kEventHotKeyPressed;
use crate::ffi::kEventHotKeyReleased;
use crate::ffi::noErr;
use crate::ffi::CGEventRef;
use crate::ffi::CGEventType;
use crate::ffi::EventHotKeyID;
use crate::ffi::EventKind;
use crate::ffi::NSInteger;
use crate::ffi::NSUInteger;
use crate::ffi::OSStatus;
use crate::ffi::NS_MEDIA_KEY_SUBTYPE;
use crate::ffi::NS_SYSTEM_DEFINED;
use crate::hotkey::lemma_new_parts;
use crate::hotkey::lemma_same_id_same_hotkey;
use crate::hotkey::HotKey;
use crate::media_keys::MediaKeySet;
use crate::modifiers::Modifiers;
use crate::translation::lemma_nx_keytype_codes;
use crate::translation::media_key;
use crate::translation::native_modifiers_to_abstract;
use crate::translation::nx_keytype_code;
use crate::translation::nx_keytype_of;
use crate::translation::NSEventModifierFlags;
use crate::translation::NX_KEYTYPE;
use vstd::prelude::*;

verus! {

/// The event that a native hotkey notification stands for.
///
/// `status` says whether the hotkey's identifier could be read from the
/// notification, `event_hotkey` is the identifier read, `event_kind` the
/// kind of the notification. A notification whose identifier could not be
/// read, or of another kind than pressed and released, stands for nothing.
pub open spec fn hotkey_notification(
    status: OSStatus,
    event_hotkey: EventHotKeyID,
    event_kind: EventKind,
) -> Option<GlobalHotKeyEvent> {
    if status != noErr {
        None
    } else if event_kind == kEventHotKeyPressed {
        Some(GlobalHotKeyEvent { id: event_hotkey.id, state: HotKeyState::Pressed })
    } else if event_kind == kEventHotKeyReleased {
        Some(GlobalHotKeyEvent { id: event_hotkey.id, state: HotKeyState::Released })
    } else {
        None
    }
}

/// Decides what the handler of the standard hotkeys sends on for one native
/// notification: the event with the identifier that the notification
/// carries, pressed or released by its kind, or nothing. It looks at no
/// registry: the identifier alone tells the event.
pub fn hotkey_handler(status: OSStatus, event_hotkey: EventHotKeyID, event_kind: EventKind) -> (event:
    Option<GlobalHotKeyEvent>)
    ensures
        event == hotkey_notification(status, event_hotkey, event_kind),
{
    if status == noErr {
        if event_kind == kEventHotKeyPressed {
            return Some(GlobalHotKeyEvent { id: event_hotkey.id, state: HotKeyState::Pressed });
        } else if event_kind == kEventHotKeyReleased {
            return Some(GlobalHotKeyEvent { id: event_hotkey.id, state: HotKeyState::Released });
        }
    }
    None
}

/// What the media-key callback reads from the `NSEvent` made of an
/// intercepted event.
#[derive(Clone, Copy, Debug, PartialEq, Eq, Structural)]
pub struct NSEvent {
    /// The type of the event.
    pub event_type: NSUInteger,
    /// The subtype of the event.
    pub subtype: u64,
    /// The first data word: the key in bits 16 to 31, the key's state in
    /// bits 8 to 15.
    pub data1: NSInteger,
    /// The modifier flags of the event.
    pub modifier_flags: NSUInteger,
}

/// The number of the key in the data word of a media-key event.
pub open spec fn key_type_of(data1: NSInteger) -> NSInteger {
    (data1 & 0xFFFF0000) >> 16
}

/// Whether the data word of a media-key event says that the key went down.
pub open spec fn key_is_pressed(data1: NSInteger) -> bool {
    (((data1 & 0x0000FFFF) & 0xFF00) >> 8) == 0xA
}

/// The hotkey that an event stands for, where it is a media-key event of a
/// key that can be watched for: the key, with the modifiers among Shift,
/// Control, Option and Command that were held.
pub open spec fn intercepted_hotkey(ns_event: NSEvent) -> Option<HotKey> {
    if ns_event.event_type == NS_SYSTEM_DEFINED && ns_event.subtype == NS_MEDIA_KEY_SUBTYPE {
        match nx_keytype_of(key_type_of(ns_event.data1)) {
            Some(nx_keytype) => Some(
                HotKey::new(
                    Some(
                        native_modifiers_to_abstract(
                            NSEventModifierFlags {
                                bits: ns_event.modifier_flags & NSEventModifierFlags::ALL,
                            },
                        ),
                    ),
                    nx_keytype_code(nx_keytype),
                ),
            ),
            None => None,
        }
    } else {
        None
    }
}

/// What becomes of an intercepted event.
///
/// An event of the system-defined category that stands for a registered
/// media hotkey is swallowed: the null reference goes back to the tap, and
/// the event of the registered hotkey, pressed or released, is sent on. Any
/// other event goes back to the tap as it came, and nothing is sent on.
pub open spec fn interception(
    ev_type: CGEventType,
    event: CGEventRef,
    ns_event: Option<NSEvent>,
    media_hotkeys: Set<HotKey>,
) -> (CGEventRef, Option<GlobalHotKeyEvent>) {
    if ev_type == CGEventType::SystemDefined && ns_event is Some && intercepted_hotkey(
        ns_event->Some_0,
    ) is Some && media_hotkeys.contains(intercepted_hotkey(ns_event->Some_0)->Some_0) {
        (
            CGEventRef::from_addr(0),
            Some(
                GlobalHotKeyEvent {
                    id: intercepted_hotkey(ns_event->Some_0)->Some_0.id(),
                    state: if key_is_pressed(ns_event->Some_0.data1) {
                        HotKeyState::Pressed
                    } else {
                        HotKeyState::Released
                    },
                },
            ),
        )
    } else {
        (event, None)
    }
}

/// Decides what the callback of the event tap does with one intercepted
/// event of the category `ev_type`.
///
/// `ns_event` holds what was read from the `NSEvent` made of the event; it
/// is looked at only for an event of the system-defined category, and
/// `None` stands for an event that was not read. The first part of the
/// result goes back to the tap: the event as it came, or the null reference
/// to swallow it. The second part is the event to send on, if any.
pub fn media_key_event_callback(
    ev_type: CGEventType,
    event: CGEventRef,
    ns_event: Option<NSEvent>,
    media_hotkeys: &MediaKeySet,
) -> (decision: (CGEventRef, Option<GlobalHotKeyEvent>))
    ensures
        decision == interception(ev_type, event, ns_event, media_hotkeys@),
{
    if ev_type != CGEventType::SystemDefined {
        return (event, None);
    }
    let ns_event = match ns_event {
        Some(ns_event) => ns_event,
        None => {
            return (event, None);
        },
    };
    if ns_event.event_type == NS_SYSTEM_DEFINED && ns_event.subtype == NS_MEDIA_KEY_SUBTYPE {
        // Key
        let data_1: NSInteger = ns_event.data1;
        let nx_keytype = match NX_KEYTYPE::try_from((data_1 & 0xFFFF0000) >> 16) {
            Ok(nx_keytype) => nx_keytype,
            Err(_) => {
                return (event, None);
            },
        };

        // Modifiers
        let mods = NSEventModifierFlags::from_bits_truncate(ns_event.modifier_flags);

        // The hotkey to look for
        let hotkey = HotKey::new(Some(Modifiers::from(mods)), Code::from(nx_keytype));

        if let Some(media_hotkey) = media_hotkeys.get(&hotkey) {
            let key_flags: NSInteger = data_1 & 0x0000FFFF;
            let is_pressed: bool = ((key_flags & 0xFF00) >> 8) == 0xA;
            let sent = GlobalHotKeyEvent {
                id: media_hotkey.id(),
                state: match is_pressed {
                    true => HotKeyState::Pressed,
                    false => HotKeyState::Released,
                },
            };

            // The hotkey is registered: the null reference stops the event here
            return (CGEventRef::null(), Some(sent));
        }
    }
    (event, None)
}

/// A native notification whose identifier could be read, of the kind
/// pressed or released, stands for one event: the one with that identifier
/// and that state. Any other notification stands for none.
pub proof fn lemma_notification_is_one_event(
    status: OSStatus,
    event_hotkey: EventHotKeyID,
    event_kind: EventKind,
)
    ensures
        status == noErr && event_kind == kEventHotKeyPressed ==> hotkey_notification(
            status,
            event_hotkey,
            event_kind,
        ) == Some(GlobalHotKeyEvent { id: event_hotkey.id, state: HotKeyState::Pressed }),
        status == noErr && event_kind == kEventHotKeyReleased ==> hotkey_notification(
            status,
            event_hotkey,
            event_kind,
        ) == Some(GlobalHotKeyEvent { id: event_hotkey.id, state: HotKeyState::Released }),
        status != noErr || (event_kind != kEventHotKeyPressed && event_kind
            != kEventHotKeyReleased) ==> hotkey_notification(status, event_hotkey, event_kind)
            is None,
{
}

/// An intercepted event that stands for a registered media hotkey is
/// swallowed, and one event is sent on, with the identifier of the
/// registered hotkey. An event that stands for no registered media hotkey
/// goes back as it came, and nothing is sent on.
pub proof fn lemma_interception_swallows_registered(
    ev_type: CGEventType,
    event: CGEventRef,
    ns_event: Option<NSEvent>,
    media_hotkeys: Set<HotKey>,
)
    ensures
        ({
            let decision = interception(ev_type, event, ns_event, media_hotkeys);
            let registered = ev_type == CGEventType::SystemDefined && ns_event is Some
                && intercepted_hotkey(ns_event->Some_0) is Some && media_hotkeys.contains(
                intercepted_hotkey(ns_event->Some_0)->Some_0,
            );
            &&& registered ==> decision.0.is_null() && decision.1 is Some
                && media_hotkeys.contains(intercepted_hotkey(ns_event->Some_0)->Some_0)
                && decision.1->Some_0.id == intercepted_hotkey(ns_event->Some_0)->Some_0.id()
                && (decision.1->Some_0.state == HotKeyState::Pressed) == key_is_pressed(
                ns_event->Some_0.data1,
            )
            &&& !registered ==> decision == (event, None::<GlobalHotKeyEvent>)
        }),
{
}

/// The data word of a media-key event holds the key in bits 16 to 31 and
/// the key's state in bits 8 to 15: the word made of a key number, a state
/// and any low byte is read back as that key, and as pressed exactly where
/// the state is ten.
pub proof fn lemma_media_key_data_word(key_type: NSInteger, state: NSInteger, low: NSInteger)
    requires
        0 <= key_type < 0x10000,
        0 <= state < 0x100,
        0 <= low < 0x100,
    ensures
        ({
            let data1: NSInteger = (key_type * 0x10000 + state * 0x100 + low) as NSInteger;
            &&& key_type_of(data1) == key_type
            &&& key_is_pressed(data1) == (state == 0xA)
        }),
{
    let data1: NSInteger = (key_type * 0x10000 + state * 0x100 + low) as NSInteger;
    assert(((data1 & 0xFFFF0000) >> 16) == key_type && ((((data1 & 0x0000FFFF) & 0xFF00) >> 8)
        == 0xA) == (state == 0xA)) by (bit_vector)
        requires
            0 <= key_type < 0x10000,
            0 <= state < 0x100,
            0 <= low < 0x100,
            data1 == key_type * 0x10000 + state * 0x100 + low,
    ;
}

/// Every media hotkey that can be registered can be intercepted: there is a
/// media-key event, for the key going down and for the key coming up, that
/// stands for exactly this hotkey. Command stands for Super, Option for
/// Alt.
pub proof fn lemma_media_hotkey_can_be_intercepted(hotkey: HotKey, pressed: bool)
    requires
        hotkey.wf(),
        media_key(hotkey.key()),
    ensures
        exists|ns_event: NSEvent|
            intercepted_hotkey(ns_event) == Some(hotkey) && key_is_pressed(ns_event.data1)
                == pressed,
{
    lemma_nx_keytype_codes(NX_KEYTYPE::Play, NX_KEYTYPE::Play, hotkey.key());
    let nx_keytype = choose|k: NX_KEYTYPE| nx_keytype_code(k) == hotkey.key();
    let state: NSInteger = if pressed {
        0xA
    } else {
        0xB
    };
    lemma_media_key_data_word(nx_keytype.spec_raw(), state, 0);
    let data1: NSInteger = (nx_keytype.spec_raw() * 0x10000 + state * 0x100 + 0) as NSInteger;
    lemma_nx_keytype_codes(nx_keytype, nx_keytype, hotkey.key());
    let m = hotkey.mods().bits;
    let flags: NSUInteger = (if m & 0x200u32 == 0x200u32 { 0x20000u64 } else { 0u64 }) | (if m
        & 0x08u32 == 0x08u32 { 0x40000u64 } else { 0u64 }) | (if m & 0x01u32 == 0x01u32 {
        0x80000u64
    } else {
        0u64
    }) | (if m & 0x2000u32 == 0x2000u32 { 0x100000u64 } else { 0u64 });
    let ns_event = NSEvent {
        event_type: NS_SYSTEM_DEFINED,
        subtype: NS_MEDIA_KEY_SUBTYPE,
        data1,
        modifier_flags: flags,
    };
    let truncated = NSEventModifierFlags { bits: flags & NSEventModifierFlags::ALL };
    let t = truncated.bits;
    let read = native_modifiers_to_abstract(truncated);
    let r = read.bits;
    let n = read.normalized().bits;
    assert(r == (if t & 0x20000u64 == 0x20000u64 { 0x200u32 } else { 0u32 }) | (if t & 0x40000u64
        == 0x40000u64 { 0x08u32 } else { 0u32 }) | (if t & 0x80000u64 == 0x80000u64 {
        0x01u32
    } else {
        0u32
    }) | (if t & 0x100000u64 == 0x100000u64 { 0x40u32 } else { 0u32 }));
    assert(n == (if r & 0x40u32 != 0 { r | 0x2000u32 } else { r }) & 0x2209u32);
    assert(n == m) by (bit_vector)
        requires
            m & !0x2209u32 == 0,
            flags == (if m & 0x200u32 == 0x200u32 { 0x20000u64 } else { 0u64 }) | (if m & 0x08u32
                == 0x08u32 { 0x40000u64 } else { 0u64 }) | (if m & 0x01u32 == 0x01u32 {
                0x80000u64
            } else {
                0u64
            }) | (if m & 0x2000u32 == 0x2000u32 { 0x100000u64 } else { 0u64 }),
            t == flags & 0x1e0000u64,
            r == (if t & 0x20000u64 == 0x20000u64 { 0x200u32 } else { 0u32 }) | (if t
                & 0x40000u64 == 0x40000u64 { 0x08u32 } else { 0u32 }) | (if t & 0x80000u64
                == 0x80000u64 { 0x01u32 } else { 0u32 }) | (if t & 0x100000u64 == 0x100000u64 {
                0x40u32
            } else {
                0u32
            }),
            n == (if r & 0x40u32 != 0 { r | 0x2000u32 } else { r }) & 0x2209u32,
    ;
    let made = HotKey::new(Some(read), hotkey.key());
    lemma_new_parts(Some(read), hotkey.key());
    assert(made.mods() == hotkey.mods());
    lemma_same_id_same_hotkey(made, hotkey);
    assert(intercepted_hotkey(ns_event) == Some(hotkey));
}

} // verus!
