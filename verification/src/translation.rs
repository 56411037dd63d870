//! Translation between the library's keys and modifiers and the numbers of
//! the native layer.

use crate::code::Code;
use crate::ffi::NSUInteger;
use crate::modifiers::Modifiers;
use vstd::prelude::*;
use vstd::std_specs::convert::FromSpecImpl;
use vstd::std_specs::convert::TryFromSpecImpl;

verus! {

/// The native modifier bit for Shift in a hotkey registration.
#[allow(non_upper_case_globals)]
pub const shiftKey: u32 = 512;

/// The native modifier bit for Command in a hotkey registration.
#[allow(non_upper_case_globals)]
pub const cmdKey: u32 = 256;

/// The native modifier bit for Option in a hotkey registration.
#[allow(non_upper_case_globals)]
pub const optionKey: u32 = 2048;

/// The native modifier bit for Control in a hotkey registration.
#[allow(non_upper_case_globals)]
pub const controlKey: u32 = 4096;

/// The native scan code of a key, where it has one. Media keys have none:
/// they are not registered by scan code but watched for.
pub open spec fn scancode_of(code: Code) -> Option<u32> {
    match code {
        Code::KeyA => Some(0x00),
        Code::KeyS => Some(0x01),
        Code::KeyD => Some(0x02),
        Code::KeyF => Some(0x03),
        Code::KeyH => Some(0x04),
        Code::KeyG => Some(0x05),
        Code::KeyZ => Some(0x06),
        Code::KeyX => Some(0x07),
        Code::KeyC => Some(0x08),
        Code::KeyV => Some(0x09),
        Code::KeyB => Some(0x0b),
        Code::KeyQ => Some(0x0c),
        Code::KeyW => Some(0x0d),
        Code::KeyE => Some(0x0e),
        Code::KeyR => Some(0x0f),
        Code::KeyY => Some(0x10),
        Code::KeyT => Some(0x11),
        Code::Digit1 => Some(0x12),
        Code::Digit2 => Some(0x13),
        Code::Digit3 => Some(0x14),
        Code::Digit4 => Some(0x15),
        Code::Digit6 => Some(0x16),
        Code::Digit5 => Some(0x17),
        Code::Equal => Some(0x18),
        Code::Digit9 => Some(0x19),
        Code::Digit7 => Some(0x1a),
        Code::Minus => Some(0x1b),
        Code::Digit8 => Some(0x1c),
        Code::Digit0 => Some(0x1d),
        Code::BracketRight => Some(0x1e),
        Code::KeyO => Some(0x1f),
        Code::KeyU => Some(0x20),
        Code::BracketLeft => Some(0x21),
        Code::KeyI => Some(0x22),
        Code::KeyP => Some(0x23),
        Code::Enter => Some(0x24),
        Code::KeyL => Some(0x25),
        Code::KeyJ => Some(0x26),
        Code::Quote => Some(0x27),
        Code::KeyK => Some(0x28),
        Code::Semicolon => Some(0x29),
        Code::Backslash => Some(0x2a),
        Code::Comma => Some(0x2b),
        Code::Slash => Some(0x2c),
        Code::KeyN => Some(0x2d),
        Code::KeyM => Some(0x2e),
        Code::Period => Some(0x2f),
        Code::Tab => Some(0x30),
        Code::Space => Some(0x31),
        Code::Backquote => Some(0x32),
        Code::Backspace => Some(0x33),
        Code::Escape => Some(0x35),
        Code::F17 => Some(0x40),
        Code::NumpadDecimal => Some(0x41),
        Code::NumpadMultiply => Some(0x43),
        Code::NumpadAdd => Some(0x45),
        Code::NumLock => Some(0x47),
        Code::AudioVolumeUp => Some(0x48),
        Code::AudioVolumeDown => Some(0x49),
        Code::AudioVolumeMute => Some(0x4a),
        Code::NumpadDivide => Some(0x4b),
        Code::NumpadEnter => Some(0x4c),
        Code::NumpadSubtract => Some(0x4e),
        Code::F18 => Some(0x4f),
        Code::F19 => Some(0x50),
        Code::NumpadEqual => Some(0x51),
        Code::Numpad0 => Some(0x52),
        Code::Numpad1 => Some(0x53),
        Code::Numpad2 => Some(0x54),
        Code::Numpad3 => Some(0x55),
        Code::Numpad4 => Some(0x56),
        Code::Numpad5 => Some(0x57),
        Code::Numpad6 => Some(0x58),
        Code::Numpad7 => Some(0x59),
        Code::F20 => Some(0x5a),
        Code::Numpad8 => Some(0x5b),
        Code::Numpad9 => Some(0x5c),
        Code::F5 => Some(0x60),
        Code::F6 => Some(0x61),
        Code::F7 => Some(0x62),
        Code::F3 => Some(0x63),
        Code::F8 => Some(0x64),
        Code::F9 => Some(0x65),
        Code::F11 => Some(0x67),
        Code::F13 => Some(0x69),
        Code::F16 => Some(0x6a),
        Code::F14 => Some(0x6b),
        Code::F10 => Some(0x6d),
        Code::F12 => Some(0x6f),
        Code::F15 => Some(0x71),
        Code::Insert => Some(0x72),
        Code::Home => Some(0x73),
        Code::PageUp => Some(0x74),
        Code::Delete => Some(0x75),
        Code::F4 => Some(0x76),
        Code::End => Some(0x77),
        Code::F2 => Some(0x78),
        Code::PageDown => Some(0x79),
        Code::F1 => Some(0x7a),
        Code::ArrowLeft => Some(0x7b),
        Code::ArrowRight => Some(0x7c),
        Code::ArrowDown => Some(0x7d),
        Code::ArrowUp => Some(0x7e),
        Code::CapsLock => Some(0x39),
        Code::PrintScreen => Some(0x46),
        _ => None,
    }
}

/// The native scan code of `code`, or `None` where the native layer has no
/// scan code for the key.
pub fn key_to_scancode(code: Code) -> (scan_code: Option<u32>)
    ensures
        scan_code == scancode_of(code),
{
    match code {
        Code::KeyA => Some(0x00),
        Code::KeyS => Some(0x01),
        Code::KeyD => Some(0x02),
        Code::KeyF => Some(0x03),
        Code::KeyH => Some(0x04),
        Code::KeyG => Some(0x05),
        Code::KeyZ => Some(0x06),
        Code::KeyX => Some(0x07),
        Code::KeyC => Some(0x08),
        Code::KeyV => Some(0x09),
        Code::KeyB => Some(0x0b),
        Code::KeyQ => Some(0x0c),
        Code::KeyW => Some(0x0d),
        Code::KeyE => Some(0x0e),
        Code::KeyR => Some(0x0f),
        Code::KeyY => Some(0x10),
        Code::KeyT => Some(0x11),
        Code::Digit1 => Some(0x12),
        Code::Digit2 => Some(0x13),
        Code::Digit3 => Some(0x14),
        Code::Digit4 => Some(0x15),
        Code::Digit6 => Some(0x16),
        Code::Digit5 => Some(0x17),
        Code::Equal => Some(0x18),
        Code::Digit9 => Some(0x19),
        Code::Digit7 => Some(0x1a),
        Code::Minus => Some(0x1b),
        Code::Digit8 => Some(0x1c),
        Code::Digit0 => Some(0x1d),
        Code::BracketRight => Some(0x1e),
        Code::KeyO => Some(0x1f),
        Code::KeyU => Some(0x20),
        Code::BracketLeft => Some(0x21),
        Code::KeyI => Some(0x22),
        Code::KeyP => Some(0x23),
        Code::Enter => Some(0x24),
        Code::KeyL => Some(0x25),
        Code::KeyJ => Some(0x26),
        Code::Quote => Some(0x27),
        Code::KeyK => Some(0x28),
        Code::Semicolon => Some(0x29),
        Code::Backslash => Some(0x2a),
        Code::Comma => Some(0x2b),
        Code::Slash => Some(0x2c),
        Code::KeyN => Some(0x2d),
        Code::KeyM => Some(0x2e),
        Code::Period => Some(0x2f),
        Code::Tab => Some(0x30),
        Code::Space => Some(0x31),
        Code::Backquote => Some(0x32),
        Code::Backspace => Some(0x33),
        Code::Escape => Some(0x35),
        Code::F17 => Some(0x40),
        Code::NumpadDecimal => Some(0x41),
        Code::NumpadMultiply => Some(0x43),
        Code::NumpadAdd => Some(0x45),
        Code::NumLock => Some(0x47),
        Code::AudioVolumeUp => Some(0x48),
        Code::AudioVolumeDown => Some(0x49),
        Code::AudioVolumeMute => Some(0x4a),
        Code::NumpadDivide => Some(0x4b),
        Code::NumpadEnter => Some(0x4c),
        Code::NumpadSubtract => Some(0x4e),
        Code::F18 => Some(0x4f),
        Code::F19 => Some(0x50),
        Code::NumpadEqual => Some(0x51),
        Code::Numpad0 => Some(0x52),
        Code::Numpad1 => Some(0x53),
        Code::Numpad2 => Some(0x54),
        Code::Numpad3 => Some(0x55),
        Code::Numpad4 => Some(0x56),
        Code::Numpad5 => Some(0x57),
        Code::Numpad6 => Some(0x58),
        Code::Numpad7 => Some(0x59),
        Code::F20 => Some(0x5a),
        Code::Numpad8 => Some(0x5b),
        Code::Numpad9 => Some(0x5c),
        Code::F5 => Some(0x60),
        Code::F6 => Some(0x61),
        Code::F7 => Some(0x62),
        Code::F3 => Some(0x63),
        Code::F8 => Some(0x64),
        Code::F9 => Some(0x65),
        Code::F11 => Some(0x67),
        Code::F13 => Some(0x69),
        Code::F16 => Some(0x6a),
        Code::F14 => Some(0x6b),
        Code::F10 => Some(0x6d),
        Code::F12 => Some(0x6f),
        Code::F15 => Some(0x71),
        Code::Insert => Some(0x72),
        Code::Home => Some(0x73),
        Code::PageUp => Some(0x74),
        Code::Delete => Some(0x75),
        Code::F4 => Some(0x76),
        Code::End => Some(0x77),
        Code::F2 => Some(0x78),
        Code::PageDown => Some(0x79),
        Code::F1 => Some(0x7a),
        Code::ArrowLeft => Some(0x7b),
        Code::ArrowRight => Some(0x7c),
        Code::ArrowDown => Some(0x7d),
        Code::ArrowUp => Some(0x7e),
        Code::CapsLock => Some(0x39),
        Code::PrintScreen => Some(0x46),
        _ => None,
    }
}

/// Whether a key is one of the five media keys that can be watched for.
pub open spec fn media_key(code: Code) -> bool {
    code == Code::MediaPlayPause || code == Code::MediaTrackNext || code
        == Code::MediaTrackPrevious || code == Code::MediaFastForward || code == Code::MediaRewind
}

/// Whether `code` is a media key: play/pause, next track, previous track,
/// fast forward or rewind.
#[verifier::when_used_as_spec(media_key)]
pub fn is_media_key(code: Code) -> (r: bool)
    ensures
        r == media_key(code),
{
    matches!(
        code,
        Code::MediaPlayPause
            | Code::MediaTrackNext
            | Code::MediaTrackPrevious
            | Code::MediaFastForward
            | Code::MediaRewind
    )
}

/// No media key has a scan code, so a key goes down one registration path
/// at most.
pub proof fn lemma_media_keys_have_no_scancode(code: Code)
    requires
        media_key(code),
    ensures
        scancode_of(code) is None,
{
}

/// Two keys with the same scan code are the same key.
pub proof fn lemma_scancode_injective(a: Code, b: Code)
    requires
        scancode_of(a) is Some,
        scancode_of(a) == scancode_of(b),
    ensures
        a == b,
{
}

/// Every scan code is below 128.
pub proof fn lemma_scancode_bounded(code: Code)
    ensures
        scancode_of(code) matches Some(sc) ==> sc < 0x80,
{
}

/// The native modifier bits with which a hotkey carrying `mods` is
/// registered: Shift, Command for Super or Meta, Option for Alt, Control.
pub open spec fn native_modifiers_of(mods: Modifiers) -> u32 {
    (if mods.has_all(Modifiers::SHIFT) {
        shiftKey
    } else {
        0u32
    }) | (if mods.has_any(Modifiers::SUPER | Modifiers::META) {
        cmdKey
    } else {
        0u32
    }) | (if mods.has_all(Modifiers::ALT) {
        optionKey
    } else {
        0u32
    }) | (if mods.has_all(Modifiers::CONTROL) {
        controlKey
    } else {
        0u32
    })
}

/// Translates a set of modifiers to the bits that the native hotkey
/// registration takes. Modifiers other than Shift, Super, Meta, Alt and
/// Control have no native bit and are dropped.
pub fn abstract_modifiers_to_native(mods: Modifiers) -> (native: u32)
    ensures
        native == native_modifiers_of(mods),
{
    let mut native: u32 = 0;
    if mods.contains(Modifiers::SHIFT) {
        native |= shiftKey;
    }
    let after_shift: u32 = native;
    if mods.intersects(Modifiers::SUPER | Modifiers::META) {
        native |= cmdKey;
    }
    let after_cmd: u32 = native;
    if mods.contains(Modifiers::ALT) {
        native |= optionKey;
    }
    let after_option: u32 = native;
    if mods.contains(Modifiers::CONTROL) {
        native |= controlKey;
    }
    proof {
        let s: u32 = if mods.has_all(Modifiers::SHIFT) { 512 } else { 0 };
        let c: u32 = if mods.has_any(Modifiers::SUPER | Modifiers::META) { 256 } else { 0 };
        let o: u32 = if mods.has_all(Modifiers::ALT) { 2048 } else { 0 };
        let k: u32 = if mods.has_all(Modifiers::CONTROL) { 4096 } else { 0 };
        assert(0u32 | s == s) by (bit_vector);
        assert(after_shift == s);
        assert(after_cmd == s | c) by {
            assert(s | 0u32 == s) by (bit_vector);
        }
        assert(after_option == (s | c) | o) by {
            assert((s | c) | 0u32 == s | c) by (bit_vector);
        }
        assert(native == ((s | c) | o) | k) by {
            assert(((s | c) | o) | 0u32 == (s | c) | o) by (bit_vector);
        }
    }
    native
}

/// The modifier flags of a native event, one bit per modifier. Only Shift,
/// Control, Option and Command are named.
#[derive(Clone, Copy, Debug, PartialEq, Eq, Structural, Hash)]
pub struct NSEventModifierFlags {
    pub bits: NSUInteger,
}

impl NSEventModifierFlags {
    #[allow(non_upper_case_globals)]
    pub const Shift: NSUInteger = 0x20000;

    #[allow(non_upper_case_globals)]
    pub const Control: NSUInteger = 0x40000;

    #[allow(non_upper_case_globals)]
    pub const Option: NSUInteger = 0x80000;

    #[allow(non_upper_case_globals)]
    pub const Command: NSUInteger = 0x100000;

    /// The four named flags together.
    pub const ALL: NSUInteger = 0x1e0000;

    /// Whether every bit of `flags` is set.
    pub open spec fn has_all(&self, flags: NSUInteger) -> bool {
        self.bits & flags == flags
    }

    /// The named flags among `bits`; other bits are dropped.
    pub fn from_bits_truncate(bits: NSUInteger) -> (r: Self)
        ensures
            r.bits == bits & Self::ALL,
    {
        NSEventModifierFlags { bits: bits & Self::ALL }
    }

    /// The bits of the flags.
    pub fn bits(&self) -> (r: NSUInteger)
        ensures
            r == self.bits,
    {
        self.bits
    }

    #[verifier::when_used_as_spec(has_all)]
    pub fn contains(&self, flags: NSUInteger) -> (r: bool)
        ensures
            r == self.has_all(flags),
    {
        self.bits & flags == flags
    }
}

/// The modifiers that native event flags stand for: Shift, Control, Option
/// as Alt, Command as Meta.
pub open spec fn native_modifiers_to_abstract(mod_flags: NSEventModifierFlags) -> Modifiers {
    Modifiers {
        bits: (if mod_flags.has_all(NSEventModifierFlags::Shift) {
            Modifiers::SHIFT
        } else {
            0u32
        }) | (if mod_flags.has_all(NSEventModifierFlags::Control) {
            Modifiers::CONTROL
        } else {
            0u32
        }) | (if mod_flags.has_all(NSEventModifierFlags::Option) {
            Modifiers::ALT
        } else {
            0u32
        }) | (if mod_flags.has_all(NSEventModifierFlags::Command) {
            Modifiers::META
        } else {
            0u32
        }),
    }
}

impl From<NSEventModifierFlags> for Modifiers {
    /// Translates the modifier flags of a native event. Flags other than
    /// Shift, Control, Option and Command are dropped.
    fn from(mod_flags: NSEventModifierFlags) -> (mods: Modifiers) {
        let mut mods = Modifiers::empty();
        if mod_flags.contains(NSEventModifierFlags::Shift) {
            mods.insert(Modifiers::SHIFT);
        }
        let after_shift: u32 = mods.bits;
        if mod_flags.contains(NSEventModifierFlags::Control) {
            mods.insert(Modifiers::CONTROL);
        }
        let after_control: u32 = mods.bits;
        if mod_flags.contains(NSEventModifierFlags::Option) {
            mods.insert(Modifiers::ALT);
        }
        let after_option: u32 = mods.bits;
        if mod_flags.contains(NSEventModifierFlags::Command) {
            mods.insert(Modifiers::META);
        }
        proof {
            let s: u32 = if mod_flags.has_all(NSEventModifierFlags::Shift) { 0x200 } else { 0 };
            let c: u32 = if mod_flags.has_all(NSEventModifierFlags::Control) { 0x08 } else { 0 };
            let o: u32 = if mod_flags.has_all(NSEventModifierFlags::Option) { 0x01 } else { 0 };
            let m: u32 = if mod_flags.has_all(NSEventModifierFlags::Command) { 0x40 } else { 0 };
            assert(0u32 | s == s) by (bit_vector);
            assert(after_shift == s);
            assert(after_control == s | c) by {
                assert(s | 0u32 == s) by (bit_vector);
            }
            assert(after_option == (s | c) | o) by {
                assert((s | c) | 0u32 == s | c) by (bit_vector);
            }
            assert(mods.bits == ((s | c) | o) | m) by {
                assert(((s | c) | o) | 0u32 == (s | c) | o) by (bit_vector);
            }
        }
        mods
    }
}

impl FromSpecImpl<NSEventModifierFlags> for Modifiers {
    open spec fn obeys_from_spec() -> bool {
        true
    }

    open spec fn from_spec(mod_flags: NSEventModifierFlags) -> Modifiers {
        native_modifiers_to_abstract(mod_flags)
    }
}

/// The media keys as the native layer numbers them in a system-defined
/// event.
#[allow(non_camel_case_types)]
#[derive(Clone, Copy, Debug, PartialEq, Eq, Structural, Hash)]
pub enum NX_KEYTYPE {
    /// Play or pause.
    Play,
    Next,
    Previous,
    Fast,
    Rewind,
}

impl NX_KEYTYPE {
    pub open spec fn spec_raw(&self) -> i64 {
        match self {
            NX_KEYTYPE::Play => 16,
            NX_KEYTYPE::Next => 17,
            NX_KEYTYPE::Previous => 18,
            NX_KEYTYPE::Fast => 19,
            NX_KEYTYPE::Rewind => 20,
        }
    }

    /// The number that the native layer knows the media key by.
    #[verifier::when_used_as_spec(spec_raw)]
    pub fn raw(&self) -> (r: i64)
        ensures
            r == self.spec_raw(),
    {
        match self {
            NX_KEYTYPE::Play => 16,
            NX_KEYTYPE::Next => 17,
            NX_KEYTYPE::Previous => 18,
            NX_KEYTYPE::Fast => 19,
            NX_KEYTYPE::Rewind => 20,
        }
    }
}

/// The media key that the native layer numbers `value`, if there is one.
pub open spec fn nx_keytype_of(value: i64) -> Option<NX_KEYTYPE> {
    if value == 16 {
        Some(NX_KEYTYPE::Play)
    } else if value == 17 {
        Some(NX_KEYTYPE::Next)
    } else if value == 18 {
        Some(NX_KEYTYPE::Previous)
    } else if value == 19 {
        Some(NX_KEYTYPE::Fast)
    } else if value == 20 {
        Some(NX_KEYTYPE::Rewind)
    } else {
        None
    }
}

impl TryFrom<i64> for NX_KEYTYPE {
    type Error = ();

    /// The media key numbered `value`; an error where `value` numbers none.
    fn try_from(value: i64) -> (r: Result<Self, Self::Error>) {
        match value {
            16 => Ok(NX_KEYTYPE::Play),
            17 => Ok(NX_KEYTYPE::Next),
            18 => Ok(NX_KEYTYPE::Previous),
            19 => Ok(NX_KEYTYPE::Fast),
            20 => Ok(NX_KEYTYPE::Rewind),
            _ => Err(()),
        }
    }
}

impl TryFromSpecImpl<i64> for NX_KEYTYPE {
    open spec fn obeys_try_from_spec() -> bool {
        true
    }

    open spec fn try_from_spec(value: i64) -> Result<Self, Self::Error> {
        match nx_keytype_of(value) {
            Some(k) => Ok(k),
            None => Err(()),
        }
    }
}

/// The key that a native media key is.
pub open spec fn nx_keytype_code(nx_keytype: NX_KEYTYPE) -> Code {
    match nx_keytype {
        NX_KEYTYPE::Play => Code::MediaPlayPause,
        NX_KEYTYPE::Next => Code::MediaTrackNext,
        NX_KEYTYPE::Previous => Code::MediaTrackPrevious,
        NX_KEYTYPE::Fast => Code::MediaFastForward,
        NX_KEYTYPE::Rewind => Code::MediaRewind,
    }
}

impl From<NX_KEYTYPE> for Code {
    fn from(nx_keytype: NX_KEYTYPE) -> (code: Code) {
        match nx_keytype {
            NX_KEYTYPE::Play => Code::MediaPlayPause,
            NX_KEYTYPE::Next => Code::MediaTrackNext,
            NX_KEYTYPE::Previous => Code::MediaTrackPrevious,
            NX_KEYTYPE::Fast => Code::MediaFastForward,
            NX_KEYTYPE::Rewind => Code::MediaRewind,
        }
    }
}

impl FromSpecImpl<NX_KEYTYPE> for Code {
    open spec fn obeys_from_spec() -> bool {
        true
    }

    open spec fn from_spec(nx_keytype: NX_KEYTYPE) -> Code {
        nx_keytype_code(nx_keytype)
    }
}

/// The keys that native media keys are, are exactly the media keys, and each
/// belongs to one native media key.
pub proof fn lemma_nx_keytype_codes(a: NX_KEYTYPE, b: NX_KEYTYPE, code: Code)
    ensures
        media_key(nx_keytype_code(a)),
        nx_keytype_code(a) == nx_keytype_code(b) ==> a == b,
        media_key(code) ==> exists|k: NX_KEYTYPE| nx_keytype_code(k) == code,
        nx_keytype_of(a.spec_raw()) == Some(a),
{
    if media_key(code) {
        let k = if code == Code::MediaPlayPause {
            NX_KEYTYPE::Play
        } else if code == Code::MediaTrackNext {
            NX_KEYTYPE::Next
        } else if code == Code::MediaTrackPrevious {
            NX_KEYTYPE::Previous
        } else if code == Code::MediaFastForward {
            NX_KEYTYPE::Fast
        } else {
            NX_KEYTYPE::Rewind
        };
        assert(nx_keytype_code(k) == code);
    }
}

/// The translation of modifiers to native bits loses nothing of the four
/// modifiers that a hotkey can carry: two normalized sets with the same
/// native bits are the same set.
pub proof fn lemma_native_modifiers_lossless(a: Modifiers, b: Modifiers)
    requires
        a.is_normalized(),
        b.is_normalized(),
        native_modifiers_of(a) == native_modifiers_of(b),
    ensures
        a == b,
{
    let x = a.bits;
    let y = b.bits;
    let nx = native_modifiers_of(a);
    let ny = native_modifiers_of(b);
    assert(nx == (if x & 0x200u32 == 0x200u32 { 512u32 } else { 0u32 }) | (if x & (0x2000u32
        | 0x40u32) != 0 { 256u32 } else { 0u32 }) | (if x & 0x01u32 == 0x01u32 { 2048u32 } else {
        0u32
    }) | (if x & 0x08u32 == 0x08u32 { 4096u32 } else { 0u32 }));
    assert(ny == (if y & 0x200u32 == 0x200u32 { 512u32 } else { 0u32 }) | (if y & (0x2000u32
        | 0x40u32) != 0 { 256u32 } else { 0u32 }) | (if y & 0x01u32 == 0x01u32 { 2048u32 } else {
        0u32
    }) | (if y & 0x08u32 == 0x08u32 { 4096u32 } else { 0u32 }));
    assert(x == y) by (bit_vector)
        requires
            x & !0x2209u32 == 0,
            y & !0x2209u32 == 0,
            nx == ny,
            nx == (if x & 0x200u32 == 0x200u32 { 512u32 } else { 0u32 }) | (if x & (0x2000u32
                | 0x40u32) != 0 { 256u32 } else { 0u32 }) | (if x & 0x01u32 == 0x01u32 {
                2048u32
            } else {
                0u32
            }) | (if x & 0x08u32 == 0x08u32 { 4096u32 } else { 0u32 }),
            ny == (if y & 0x200u32 == 0x200u32 { 512u32 } else { 0u32 }) | (if y & (0x2000u32
                | 0x40u32) != 0 { 256u32 } else { 0u32 }) | (if y & 0x01u32 == 0x01u32 {
                2048u32
            } else {
                0u32
            }) | (if y & 0x08u32 == 0x08u32 { 4096u32 } else { 0u32 }),
    ;
}

/// The translation of modifiers to native bits looks at Shift, Super, Meta,
/// Alt and Control alone, and takes Meta for Super: a set and its
/// normalized form have the same native bits.
pub proof fn lemma_native_modifiers_of_normalized(mods: Modifiers)
    ensures
        native_modifiers_of(mods.normalized()) == native_modifiers_of(mods),
{
    let x = mods.bits;
    let n = mods.normalized().bits;
    assert(n == (if x & 0x40u32 != 0 { x | 0x2000u32 } else { x }) & 0x2209u32);
    assert({
        &&& (n & 0x200u32 == 0x200u32) == (x & 0x200u32 == 0x200u32)
        &&& (n & (0x2000u32 | 0x40u32) != 0) == (x & (0x2000u32 | 0x40u32) != 0)
        &&& (n & 0x01u32 == 0x01u32) == (x & 0x01u32 == 0x01u32)
        &&& (n & 0x08u32 == 0x08u32) == (x & 0x08u32 == 0x08u32)
    }) by (bit_vector)
        requires
            n == (if x & 0x40u32 != 0 { x | 0x2000u32 } else { x }) & 0x2209u32,
    ;
}

/// The translation of native event flags to modifiers loses nothing of
/// Shift, Control, Option and Command, and drops every other flag: flags
/// that agree on the four give the same modifiers, and flags that give the
/// same modifiers agree on the four.
pub proof fn lemma_abstract_modifiers_lossless(a: NSEventModifierFlags, b: NSEventModifierFlags)
    ensures
        (a.bits & NSEventModifierFlags::ALL) == (b.bits & NSEventModifierFlags::ALL)
            <==> native_modifiers_to_abstract(a) == native_modifiers_to_abstract(b),
        native_modifiers_to_abstract(a).bits & !(Modifiers::SHIFT | Modifiers::CONTROL
            | Modifiers::ALT | Modifiers::META) == 0,
{
    let x = a.bits;
    let y = b.bits;
    let mx = native_modifiers_to_abstract(a).bits;
    let my = native_modifiers_to_abstract(b).bits;
    assert(mx == (if x & 0x20000u64 == 0x20000u64 { 0x200u32 } else { 0u32 }) | (if x & 0x40000u64
        == 0x40000u64 { 0x08u32 } else { 0u32 }) | (if x & 0x80000u64 == 0x80000u64 {
        0x01u32
    } else {
        0u32
    }) | (if x & 0x100000u64 == 0x100000u64 { 0x40u32 } else { 0u32 }));
    assert(my == (if y & 0x20000u64 == 0x20000u64 { 0x200u32 } else { 0u32 }) | (if y & 0x40000u64
        == 0x40000u64 { 0x08u32 } else { 0u32 }) | (if y & 0x80000u64 == 0x80000u64 {
        0x01u32
    } else {
        0u32
    }) | (if y & 0x100000u64 == 0x100000u64 { 0x40u32 } else { 0u32 }));
    assert(((x & 0x1e0000u64) == (y & 0x1e0000u64)) == (mx == my) && mx & !(0x200u32 | 0x08u32
        | 0x01u32 | 0x40u32) == 0) by (bit_vector)
        requires
            mx == (if x & 0x20000u64 == 0x20000u64 { 0x200u32 } else { 0u32 }) | (if x
                & 0x40000u64 == 0x40000u64 { 0x08u32 } else { 0u32 }) | (if x & 0x80000u64
                == 0x80000u64 { 0x01u32 } else { 0u32 }) | (if x & 0x100000u64 == 0x100000u64 {
                0x40u32
            } else {
                0u32
            }),
            my == (if y & 0x20000u64 == 0x20000u64 { 0x200u32 } else { 0u32 }) | (if y
                & 0x40000u64 == 0x40000u64 { 0x08u32 } else { 0u32 }) | (if y & 0x80000u64
                == 0x80000u64 { 0x01u32 } else { 0u32 }) | (if y & 0x100000u64 == 0x100000u64 {
                0x40u32
            } else {
                0u32
            }),
    ;
}

} // verus!
