//! The vocabulary of the native layer: status codes, event kinds, the
//! parameters of an event tap, references to native objects, and the native
//! calls and their replies as plain values.

use core::marker::PhantomData;
use vstd::prelude::*;

verus! {

pub type OSStatus = i32;

pub type OSType = u32;

pub type EventKind = u32;

pub type CGEventMask = u64;

pub type CFIndex = i64;

pub type NSInteger = i64;

pub type NSUInteger = u64;

/// The status of a native call that succeeded.
#[allow(non_upper_case_globals)]
pub const noErr: OSStatus = 0;

/// The event class of keyboard events, the four-character code `keyb`.
#[allow(non_upper_case_globals)]
pub const kEventClassKeyboard: OSType = 1801812322;

/// The kind of the notification that a registered hotkey went down.
#[allow(non_upper_case_globals)]
pub const kEventHotKeyPressed: EventKind = 5;

/// The kind of the notification that a registered hotkey went up.
#[allow(non_upper_case_globals)]
pub const kEventHotKeyReleased: EventKind = 6;

/// The signature under which this library registers its hotkeys, the
/// four-character code `htrs`.
pub const HOTKEY_SIGNATURE: OSType = 0x68747273;

/// The `NSEvent` type of a system-defined event.
pub const NS_SYSTEM_DEFINED: NSUInteger = 14;

/// The `NSEvent` subtype under which media keys arrive.
pub const NS_MEDIA_KEY_SUBTYPE: u64 = 8;

/// The number that four characters stand for when read as one big-endian
/// word.
pub open spec fn four_char_code_of(chars: Seq<u8>) -> int
    decreases chars.len(),
{
    if chars.len() == 0 {
        0
    } else {
        four_char_code_of(chars.drop_last()) * 256 + chars.last() as int
    }
}

/// Packs four characters into the 32-bit code that the native layer uses for
/// event classes, parameter names and signatures.
pub fn four_char_code(chars: &[u8; 4]) -> (code: OSType)
    ensures
        code == four_char_code_of(chars@),
        code == chars[0] * 0x1000000 + chars[1] * 0x10000 + chars[2] * 0x100 + chars[3],
{
    let mut res: u32 = 0;
    let mut i: usize = 0;
    proof {
        assert(chars@.take(0) =~= Seq::<u8>::empty());
    }
    while i < 4
        invariant
            i <= 4,
            chars@.len() == 4,
            res == four_char_code_of(chars@.take(i as int)),
            i == 0 ==> res == 0,
            i == 1 ==> res == chars[0],
            i == 2 ==> res == chars[0] * 0x100 + chars[1],
            i == 3 ==> res == chars[0] * 0x10000 + chars[1] * 0x100 + chars[2],
            i == 4 ==> res == chars[0] * 0x1000000 + chars[1] * 0x10000 + chars[2] * 0x100
                + chars[3],
        decreases 4 - i,
    {
        let c: u8 = chars[i];
        proof {
            let prefix = chars@.take(i as int + 1);
            assert(prefix.drop_last() =~= chars@.take(i as int));
            assert(prefix.last() == c);
        }
        res = res * 256 + c as u32;
        i = i + 1;
    }
    proof {
        assert(chars@.take(4) =~= chars@);
    }
    res
}

/// The signature of the hotkeys spells `htrs`, and the class of keyboard
/// events spells `keyb`.
pub proof fn lemma_codes_spell_their_names()
    ensures
        four_char_code_of(seq![0x68u8, 0x74u8, 0x72u8, 0x73u8]) == HOTKEY_SIGNATURE,
        four_char_code_of(seq![0x6bu8, 0x65u8, 0x79u8, 0x62u8]) == kEventClassKeyboard,
{
    reveal_with_fuel(four_char_code_of, 5);
    let htrs = seq![0x68u8, 0x74u8, 0x72u8, 0x73u8];
    assert(htrs.drop_last() =~= seq![0x68u8, 0x74u8, 0x72u8]);
    assert(htrs.drop_last().drop_last() =~= seq![0x68u8, 0x74u8]);
    assert(htrs.drop_last().drop_last().drop_last() =~= seq![0x68u8]);
    let keyb = seq![0x6bu8, 0x65u8, 0x79u8, 0x62u8];
    assert(keyb.drop_last() =~= seq![0x6bu8, 0x65u8, 0x79u8]);
    assert(keyb.drop_last().drop_last() =~= seq![0x6bu8, 0x65u8]);
    assert(keyb.drop_last().drop_last().drop_last() =~= seq![0x6bu8]);
}

/// The identifier that the native layer hands back with each notification
/// of a hotkey: the signature of whoever registered it, and a number.
#[derive(Clone, Copy, Debug, PartialEq, Eq, Structural)]
pub struct EventHotKeyID {
    pub signature: OSType,
    pub id: u32,
}

/// A class and kind of native event that a handler asks to be told of.
#[allow(non_snake_case)]
#[derive(Clone, Copy, Debug, PartialEq, Eq, Structural)]
pub struct EventTypeSpec {
    pub eventClass: OSType,
    pub eventKind: EventKind,
}

/// Where in the system an event tap listens.
#[derive(Clone, Copy, Debug, PartialEq, Eq, Structural)]
pub enum CGEventTapLocation {
    Hid,
    Session,
    AnnotatedSession,
}

impl CGEventTapLocation {
    pub open spec fn spec_raw(&self) -> u32 {
        match self {
            CGEventTapLocation::Hid => 0,
            CGEventTapLocation::Session => 1,
            CGEventTapLocation::AnnotatedSession => 2,
        }
    }

    /// The number that the native layer knows the location by.
    #[verifier::when_used_as_spec(spec_raw)]
    pub fn raw(&self) -> (r: u32)
        ensures
            r == self.spec_raw(),
    {
        match self {
            CGEventTapLocation::Hid => 0,
            CGEventTapLocation::Session => 1,
            CGEventTapLocation::AnnotatedSession => 2,
        }
    }
}

/// Where a new event tap goes in the list of the taps that are active.
#[derive(Clone, Copy, Debug, PartialEq, Eq, Structural)]
pub enum CGEventTapPlacement {
    HeadInsertEventTap,
    TailAppendEventTap,
}

impl CGEventTapPlacement {
    pub open spec fn spec_raw(&self) -> u32 {
        match self {
            CGEventTapPlacement::HeadInsertEventTap => 0,
            CGEventTapPlacement::TailAppendEventTap => 1,
        }
    }

    /// The number that the native layer knows the placement by.
    #[verifier::when_used_as_spec(spec_raw)]
    pub fn raw(&self) -> (r: u32)
        ensures
            r == self.spec_raw(),
    {
        match self {
            CGEventTapPlacement::HeadInsertEventTap => 0,
            CGEventTapPlacement::TailAppendEventTap => 1,
        }
    }
}

/// Whether an event tap may change or swallow events (`Default`) or only
/// watches them.
#[derive(Clone, Copy, Debug, PartialEq, Eq, Structural)]
pub enum CGEventTapOptions {
    Default,
    ListenOnly,
}

impl CGEventTapOptions {
    pub open spec fn spec_raw(&self) -> u32 {
        match self {
            CGEventTapOptions::Default => 0,
            CGEventTapOptions::ListenOnly => 1,
        }
    }

    /// The number that the native layer knows the option by.
    #[verifier::when_used_as_spec(spec_raw)]
    pub fn raw(&self) -> (r: u32)
        ensures
            r == self.spec_raw(),
    {
        match self {
            CGEventTapOptions::Default => 0,
            CGEventTapOptions::ListenOnly => 1,
        }
    }
}

/// The category of a low-level input event.
#[derive(Clone, Copy, Debug, PartialEq, Eq, Structural)]
pub enum CGEventType {
    Null,
    LeftMouseDown,
    LeftMouseUp,
    RightMouseDown,
    RightMouseUp,
    MouseMoved,
    LeftMouseDragged,
    RightMouseDragged,
    KeyDown,
    KeyUp,
    FlagsChanged,
    AppKitDefined,
    SystemDefined,
    ApplicationDefined,
    ScrollWheel,
    TabletPointer,
    TabletProximity,
    OtherMouseDown,
    OtherMouseUp,
    OtherMouseDragged,
    /// Not an event: the tap was switched off because it was too slow.
    TapDisabledByTimeout,
    /// Not an event: the tap was switched off by the user.
    TapDisabledByUserInput,
}

impl CGEventType {
    pub open spec fn spec_raw(&self) -> u32 {
        match self {
            CGEventType::Null => 0,
            CGEventType::LeftMouseDown => 1,
            CGEventType::LeftMouseUp => 2,
            CGEventType::RightMouseDown => 3,
            CGEventType::RightMouseUp => 4,
            CGEventType::MouseMoved => 5,
            CGEventType::LeftMouseDragged => 6,
            CGEventType::RightMouseDragged => 7,
            CGEventType::KeyDown => 10,
            CGEventType::KeyUp => 11,
            CGEventType::FlagsChanged => 12,
            CGEventType::AppKitDefined => 13,
            CGEventType::SystemDefined => 14,
            CGEventType::ApplicationDefined => 15,
            CGEventType::ScrollWheel => 22,
            CGEventType::TabletPointer => 23,
            CGEventType::TabletProximity => 24,
            CGEventType::OtherMouseDown => 25,
            CGEventType::OtherMouseUp => 26,
            CGEventType::OtherMouseDragged => 27,
            CGEventType::TapDisabledByTimeout => 0xFFFFFFFE,
            CGEventType::TapDisabledByUserInput => 0xFFFFFFFF,
        }
    }

    /// The number that the native layer knows the category by.
    #[verifier::when_used_as_spec(spec_raw)]
    pub fn raw(&self) -> (r: u32)
        ensures
            r == self.spec_raw(),
    {
        match self {
            CGEventType::Null => 0,
            CGEventType::LeftMouseDown => 1,
            CGEventType::LeftMouseUp => 2,
            CGEventType::RightMouseDown => 3,
            CGEventType::RightMouseUp => 4,
            CGEventType::MouseMoved => 5,
            CGEventType::LeftMouseDragged => 6,
            CGEventType::RightMouseDragged => 7,
            CGEventType::KeyDown => 10,
            CGEventType::KeyUp => 11,
            CGEventType::FlagsChanged => 12,
            CGEventType::AppKitDefined => 13,
            CGEventType::SystemDefined => 14,
            CGEventType::ApplicationDefined => 15,
            CGEventType::ScrollWheel => 22,
            CGEventType::TabletPointer => 23,
            CGEventType::TabletProximity => 24,
            CGEventType::OtherMouseDown => 25,
            CGEventType::OtherMouseUp => 26,
            CGEventType::OtherMouseDragged => 27,
            CGEventType::TapDisabledByTimeout => 0xFFFFFFFE,
            CGEventType::TapDisabledByUserInput => 0xFFFFFFFF,
        }
    }

    /// The category that the native layer knows by `raw`, if there is one.
    pub fn from_raw(raw: u32) -> (r: Option<CGEventType>)
        ensures
            match r {
                Some(t) => t.spec_raw() == raw,
                None => forall|t: CGEventType| t.spec_raw() != raw,
            },
    {
        match raw {
            0 => Some(CGEventType::Null),
            1 => Some(CGEventType::LeftMouseDown),
            2 => Some(CGEventType::LeftMouseUp),
            3 => Some(CGEventType::RightMouseDown),
            4 => Some(CGEventType::RightMouseUp),
            5 => Some(CGEventType::MouseMoved),
            6 => Some(CGEventType::LeftMouseDragged),
            7 => Some(CGEventType::RightMouseDragged),
            10 => Some(CGEventType::KeyDown),
            11 => Some(CGEventType::KeyUp),
            12 => Some(CGEventType::FlagsChanged),
            13 => Some(CGEventType::AppKitDefined),
            14 => Some(CGEventType::SystemDefined),
            15 => Some(CGEventType::ApplicationDefined),
            22 => Some(CGEventType::ScrollWheel),
            23 => Some(CGEventType::TabletPointer),
            24 => Some(CGEventType::TabletProximity),
            25 => Some(CGEventType::OtherMouseDown),
            26 => Some(CGEventType::OtherMouseUp),
            27 => Some(CGEventType::OtherMouseDragged),
            0xFFFFFFFE => Some(CGEventType::TapDisabledByTimeout),
            0xFFFFFFFF => Some(CGEventType::TapDisabledByUserInput),
            _ => None,
        }
    }
}

/// The mask that selects one category of events: one bit, at the place of
/// the category's number.
pub open spec fn event_mask_bit_of(event_type: CGEventType) -> CGEventMask {
    1u64 << (event_type.spec_raw() as u64)
}

/// The mask that selects the events of `event_type`. The two notices that a
/// tap was switched off have no place in a mask.
pub fn event_mask_bit(event_type: CGEventType) -> (mask: CGEventMask)
    requires
        event_type.spec_raw() < 64,
    ensures
        mask == event_mask_bit_of(event_type),
{
    1u64 << (event_type.raw() as u64)
}

/// Marks a reference to an installed native event handler.
#[derive(Clone, Copy, Debug, PartialEq, Eq, Hash)]
pub struct OpaqueEventHandlerRef {
    _unused: [u8; 0],
}

/// Marks a reference to a hotkey registered with the native layer.
#[derive(Clone, Copy, Debug, PartialEq, Eq, Hash)]
pub struct OpaqueEventHotKeyRef {
    _unused: [u8; 0],
}

/// Marks a reference to a low-level input event.
#[derive(Clone, Copy, Debug, PartialEq, Eq, Hash)]
pub enum CGEvent {
    Opaque,
}

/// Marks a reference to a run-loop source.
#[derive(Clone, Copy, Debug, PartialEq, Eq, Hash)]
pub enum CFRunLoopSource {
    Opaque,
}

/// Marks a reference to the Mach port that an event tap is.
#[derive(Clone, Copy, Debug, PartialEq, Eq, Hash)]
pub enum CFMachPort {
    Opaque,
}

/// A reference to a native object of the kind that `T` marks, held as the
/// object's address. The library never looks behind it: it keeps what the
/// native layer handed out and hands it back.
#[derive(Debug, PartialEq, Eq, Hash)]
pub struct NativeRef<T> {
    pub addr: usize,
    pub marker: PhantomData<T>,
}

impl<T> Clone for NativeRef<T> {
    fn clone(&self) -> (r: Self)
        ensures
            r == *self,
    {
        NativeRef { addr: self.addr, marker: PhantomData }
    }
}

impl<T> Copy for NativeRef<T> {

}

impl<T> NativeRef<T> {
    pub open spec fn spec_from_addr(addr: usize) -> Self {
        NativeRef { addr, marker: PhantomData }
    }

    /// The reference to the object at `addr`.
    #[verifier::when_used_as_spec(spec_from_addr)]
    pub fn from_addr(addr: usize) -> (r: Self)
        ensures
            r == Self::spec_from_addr(addr),
            r.addr == addr,
    {
        NativeRef { addr, marker: PhantomData }
    }

    /// The reference to nothing.
    pub fn null() -> (r: Self)
        ensures
            r == Self::spec_from_addr(0),
            r.addr == 0,
    {
        NativeRef { addr: 0, marker: PhantomData }
    }

    /// The address of the object.
    pub fn addr(&self) -> (r: usize)
        ensures
            r == self.addr,
    {
        self.addr
    }

    pub open spec fn spec_is_null(&self) -> bool {
        self.addr == 0
    }

    /// Whether this is the reference to nothing.
    #[verifier::when_used_as_spec(spec_is_null)]
    pub fn is_null(&self) -> (r: bool)
        ensures
            r == (self.addr == 0),
    {
        self.addr == 0
    }
}

pub type EventHandlerRef = NativeRef<OpaqueEventHandlerRef>;

pub type EventHotKeyRef = NativeRef<OpaqueEventHotKeyRef>;

pub type CGEventRef = NativeRef<CGEvent>;

pub type CFRunLoopSourceRef = NativeRef<CFRunLoopSource>;

pub type CFMachPortRef = NativeRef<CFMachPort>;

/// A call into the native layer, as a value. The library decides which calls
/// are made and in what order; whoever holds the library makes them.
///
/// Each variant is named after the native function. Where that function
/// takes the application's event target, the main run loop, the common
/// run-loop modes or the default allocator, it is called with those.
#[allow(inconsistent_fields)]
#[derive(Clone, Copy, Debug, PartialEq, Eq)]
pub enum NativeCall {
    /// Take the handler for the two hotkey notifications away.
    RemoveEventHandler { handler: EventHandlerRef },
    /// Register one hotkey. Replied to with [`NativeReply::HotKeyRegistered`].
    RegisterEventHotKey { key_code: u32, modifiers: u32, hotkey_id: EventHotKeyID, options: u32 },
    /// Withdraw one hotkey. Replied to with [`NativeReply::Status`].
    UnregisterEventHotKey { hotkey: EventHotKeyRef },
    /// Create the tap that hands every event of the categories in
    /// `events_of_interest` to the media-key callback. Replied to with
    /// [`NativeReply::EventTap`].
    CGEventTapCreate {
        tap: CGEventTapLocation,
        place: CGEventTapPlacement,
        options: CGEventTapOptions,
        events_of_interest: CGEventMask,
    },
    /// Switch a tap on or off.
    CGEventTapEnable { tap: CFMachPortRef, enable: bool },
    /// Create the run-loop source of a tap. Replied to with
    /// [`NativeReply::RunLoopSource`].
    CFMachPortCreateRunLoopSource { port: CFMachPortRef, order: CFIndex },
    /// Stop a tap from delivering anything.
    CFMachPortInvalidate { port: CFMachPortRef },
    /// Attach a source to the main run loop.
    CFRunLoopAddSource { source: CFRunLoopSourceRef },
    /// Detach a source from the main run loop.
    CFRunLoopRemoveSource { source: CFRunLoopSourceRef },
    /// Give up the library's hold on the native object at `address`.
    CFRelease { address: usize },
}

/// What the native layer answered to a call.
#[derive(Clone, Copy, Debug, PartialEq, Eq)]
pub enum NativeReply {
    /// The answer of a call that returns nothing.
    Nothing,
    /// The status that the call returned.
    Status(OSStatus),
    /// The answer to `RegisterEventHotKey`: the status, and the reference
    /// that stands for the registration where the status is `noErr`.
    HotKeyRegistered { status: OSStatus, hotkey: EventHotKeyRef },
    /// The answer to `CGEventTapCreate`: the tap, or the null reference.
    EventTap(CFMachPortRef),
    /// The answer to `CFMachPortCreateRunLoopSource`: the source, or the
    /// null reference.
    RunLoopSource(CFRunLoopSourceRef),
}

} // verus!
