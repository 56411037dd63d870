use vstd::prelude::*;

verus! {

/// The physical position of a key, named as on a US keyboard.
///
/// The variants follow the W3C UI Events `code` values.
#[derive(Clone, Copy, Debug, PartialEq, Eq, Structural, Hash)]
pub enum Code {
    Backquote,
    Backslash,
    BracketLeft,
    BracketRight,
    Comma,
    Digit0,
    Digit1,
    Digit2,
    Digit3,
    Digit4,
    Digit5,
    Digit6,
    Digit7,
    Digit8,
    Digit9,
    Equal,
    IntlBackslash,
    IntlRo,
    IntlYen,
    KeyA,
    KeyB,
    KeyC,
    KeyD,
    KeyE,
    KeyF,
    KeyG,
    KeyH,
    KeyI,
    KeyJ,
    KeyK,
    KeyL,
    KeyM,
    KeyN,
    KeyO,
    KeyP,
    KeyQ,
    KeyR,
    KeyS,
    KeyT,
    KeyU,
    KeyV,
    KeyW,
    KeyX,
    KeyY,
    KeyZ,
    Minus,
    Period,
    Quote,
    Semicolon,
    Slash,
    AltLeft,
    AltRight,
    Backspace,
    CapsLock,
    ContextMenu,
    ControlLeft,
    ControlRight,
    Enter,
    MetaLeft,
    MetaRight,
    ShiftLeft,
    ShiftRight,
    Space,
    Tab,
    Convert,
    KanaMode,
    Lang1,
    Lang2,
    Lang3,
    Lang4,
    Lang5,
    NonConvert,
    Delete,
    End,
    Help,
    Home,
    Insert,
    PageDown,
    PageUp,
    ArrowDown,
    ArrowLeft,
    ArrowRight,
    ArrowUp,
    NumLock,
    Numpad0,
    Numpad1,
    Numpad2,
    Numpad3,
    Numpad4,
    Numpad5,
    Numpad6,
    Numpad7,
    Numpad8,
    Numpad9,
    NumpadAdd,
    NumpadBackspace,
    NumpadClear,
    NumpadClearEntry,
    NumpadComma,
    NumpadDecimal,
    NumpadDivide,
    NumpadEnter,
    NumpadEqual,
    NumpadHash,
    NumpadMemoryAdd,
    NumpadMemoryClear,
    NumpadMemoryRecall,
    NumpadMemoryStore,
    NumpadMemorySubtract,
    NumpadMultiply,
    NumpadParenLeft,
    NumpadParenRight,
    NumpadStar,
    NumpadSubtract,
    Escape,
    Fn,
    FnLock,
    PrintScreen,
    ScrollLock,
    Pause,
    BrowserBack,
    BrowserFavorites,
    BrowserForward,
    BrowserHome,
    BrowserRefresh,
    BrowserSearch,
    BrowserStop,
    Eject,
    LaunchApp1,
    LaunchApp2,
    LaunchMail,
    MediaPlayPause,
    MediaSelect,
    MediaStop,
    MediaTrackNext,
    MediaTrackPrevious,
    Power,
    Sleep,
    AudioVolumeDown,
    AudioVolumeMute,
    AudioVolumeUp,
    WakeUp,
    Hyper,
    Super,
    Turbo,
    Abort,
    Resume,
    Suspend,
    Again,
    Copy,
    Cut,
    Find,
    Open,
    Paste,
    Props,
    Select,
    Undo,
    Hiragana,
    Katakana,
    Unidentified,
    F1,
    F2,
    F3,
    F4,
    F5,
    F6,
    F7,
    F8,
    F9,
    F10,
    F11,
    F12,
    F13,
    F14,
    F15,
    F16,
    F17,
    F18,
    F19,
    F20,
    F21,
    F22,
    F23,
    F24,
    F25,
    F26,
    F27,
    F28,
    F29,
    F30,
    F31,
    F32,
    F33,
    F34,
    F35,
    BrightnessDown,
    BrightnessUp,
    DisplayToggleIntExt,
    KeyboardLayoutSelect,
    LaunchAssistant,
    LaunchControlPanel,
    LaunchScreenSaver,
    MailForward,
    MailReply,
    MailSend,
    MediaFastForward,
    MediaPause,
    MediaPlay,
    MediaRecord,
    MediaRewind,
    MicrophoneMuteToggle,
    PrivacyScreenToggle,
    SelectTask,
    ShowAllWindows,
    ZoomToggle,
}

/// How many key codes there are.
pub const CODE_COUNT: u32 = 215;

impl Code {
    /// The position of the code in the declaration order above, from zero.
    pub open spec fn spec_index(&self) -> u32 {
        match self {
            Code::Backquote => 0,
            Code::Backslash => 1,
            Code::BracketLeft => 2,
            Code::BracketRight => 3,
            Code::Comma => 4,
            Code::Digit0 => 5,
            Code::Digit1 => 6,
            Code::Digit2 => 7,
            Code::Digit3 => 8,
            Code::Digit4 => 9,
            Code::Digit5 => 10,
            Code::Digit6 => 11,
            Code::Digit7 => 12,
            Code::Digit8 => 13,
            Code::Digit9 => 14,
            Code::Equal => 15,
            Code::IntlBackslash => 16,
            Code::IntlRo => 17,
            Code::IntlYen => 18,
            Code::KeyA => 19,
            Code::KeyB => 20,
            Code::KeyC => 21,
            Code::KeyD => 22,
            Code::KeyE => 23,
            Code::KeyF => 24,
            Code::KeyG => 25,
            Code::KeyH => 26,
            Code::KeyI => 27,
            Code::KeyJ => 28,
            Code::KeyK => 29,
            Code::KeyL => 30,
            Code::KeyM => 31,
            Code::KeyN => 32,
            Code::KeyO => 33,
            Code::KeyP => 34,
            Code::KeyQ => 35,
            Code::KeyR => 36,
            Code::KeyS => 37,
            Code::KeyT => 38,
            Code::KeyU => 39,
            Code::KeyV => 40,
            Code::KeyW => 41,
            Code::KeyX => 42,
            Code::KeyY => 43,
            Code::KeyZ => 44,
            Code::Minus => 45,
            Code::Period => 46,
            Code::Quote => 47,
            Code::Semicolon => 48,
            Code::Slash => 49,
            Code::AltLeft => 50,
            Code::AltRight => 51,
            Code::Backspace => 52,
            Code::CapsLock => 53,
            Code::ContextMenu => 54,
            Code::ControlLeft => 55,
            Code::ControlRight => 56,
            Code::Enter => 57,
            Code::MetaLeft => 58,
            Code::MetaRight => 59,
            Code::ShiftLeft => 60,
            Code::ShiftRight => 61,
            Code::Space => 62,
            Code::Tab => 63,
            Code::Convert => 64,
            Code::KanaMode => 65,
            Code::Lang1 => 66,
            Code::Lang2 => 67,
            Code::Lang3 => 68,
            Code::Lang4 => 69,
            Code::Lang5 => 70,
            Code::NonConvert => 71,
            Code::Delete => 72,
            Code::End => 73,
            Code::Help => 74,
            Code::Home => 75,
            Code::Insert => 76,
            Code::PageDown => 77,
            Code::PageUp => 78,
            Code::ArrowDown => 79,
            Code::ArrowLeft => 80,
            Code::ArrowRight => 81,
            Code::ArrowUp => 82,
            Code::NumLock => 83,
            Code::Numpad0 => 84,
            Code::Numpad1 => 85,
            Code::Numpad2 => 86,
            Code::Numpad3 => 87,
            Code::Numpad4 => 88,
            Code::Numpad5 => 89,
            Code::Numpad6 => 90,
            Code::Numpad7 => 91,
            Code::Numpad8 => 92,
            Code::Numpad9 => 93,
            Code::NumpadAdd => 94,
            Code::NumpadBackspace => 95,
            Code::NumpadClear => 96,
            Code::NumpadClearEntry => 97,
            Code::NumpadComma => 98,
            Code::NumpadDecimal => 99,
            Code::NumpadDivide => 100,
            Code::NumpadEnter => 101,
            Code::NumpadEqual => 102,
            Code::NumpadHash => 103,
            Code::NumpadMemoryAdd => 104,
            Code::NumpadMemoryClear => 105,
            Code::NumpadMemoryRecall => 106,
            Code::NumpadMemoryStore => 107,
            Code::NumpadMemorySubtract => 108,
            Code::NumpadMultiply => 109,
            Code::NumpadParenLeft => 110,
            Code::NumpadParenRight => 111,
            Code::NumpadStar => 112,
            Code::NumpadSubtract => 113,
            Code::Escape => 114,
            Code::Fn => 115,
            Code::FnLock => 116,
            Code::PrintScreen => 117,
            Code::ScrollLock => 118,
            Code::Pause => 119,
            Code::BrowserBack => 120,
            Code::BrowserFavorites => 121,
            Code::BrowserForward => 122,
            Code::BrowserHome => 123,
            Code::BrowserRefresh => 124,
            Code::BrowserSearch => 125,
            Code::BrowserStop => 126,
            Code::Eject => 127,
            Code::LaunchApp1 => 128,
            Code::LaunchApp2 => 129,
            Code::LaunchMail => 130,
            Code::MediaPlayPause => 131,
            Code::MediaSelect => 132,
            Code::MediaStop => 133,
            Code::MediaTrackNext => 134,
            Code::MediaTrackPrevious => 135,
            Code::Power => 136,
            Code::Sleep => 137,
            Code::AudioVolumeDown => 138,
            Code::AudioVolumeMute => 139,
            Code::AudioVolumeUp => 140,
            Code::WakeUp => 141,
            Code::Hyper => 142,
            Code::Super => 143,
            Code::Turbo => 144,
            Code::Abort => 145,
            Code::Resume => 146,
            Code::Suspend => 147,
            Code::Again => 148,
            Code::Copy => 149,
            Code::Cut => 150,
            Code::Find => 151,
            Code::Open => 152,
            Code::Paste => 153,
            Code::Props => 154,
            Code::Select => 155,
            Code::Undo => 156,
            Code::Hiragana => 157,
            Code::Katakana => 158,
            Code::Unidentified => 159,
            Code::F1 => 160,
            Code::F2 => 161,
            Code::F3 => 162,
            Code::F4 => 163,
            Code::F5 => 164,
            Code::F6 => 165,
            Code::F7 => 166,
            Code::F8 => 167,
            Code::F9 => 168,
            Code::F10 => 169,
            Code::F11 => 170,
            Code::F12 => 171,
            Code::F13 => 172,
            Code::F14 => 173,
            Code::F15 => 174,
            Code::F16 => 175,
            Code::F17 => 176,
            Code::F18 => 177,
            Code::F19 => 178,
            Code::F20 => 179,
            Code::F21 => 180,
            Code::F22 => 181,
            Code::F23 => 182,
            Code::F24 => 183,
            Code::F25 => 184,
            Code::F26 => 185,
            Code::F27 => 186,
            Code::F28 => 187,
            Code::F29 => 188,
            Code::F30 => 189,
            Code::F31 => 190,
            Code::F32 => 191,
            Code::F33 => 192,
            Code::F34 => 193,
            Code::F35 => 194,
            Code::BrightnessDown => 195,
            Code::BrightnessUp => 196,
            Code::DisplayToggleIntExt => 197,
            Code::KeyboardLayoutSelect => 198,
            Code::LaunchAssistant => 199,
            Code::LaunchControlPanel => 200,
            Code::LaunchScreenSaver => 201,
            Code::MailForward => 202,
            Code::MailReply => 203,
            Code::MailSend => 204,
            Code::MediaFastForward => 205,
            Code::MediaPause => 206,
            Code::MediaPlay => 207,
            Code::MediaRecord => 208,
            Code::MediaRewind => 209,
            Code::MicrophoneMuteToggle => 210,
            Code::PrivacyScreenToggle => 211,
            Code::SelectTask => 212,
            Code::ShowAllWindows => 213,
            Code::ZoomToggle => 214,
        }
    }

    /// The position of the code in the declaration order, from zero.
    #[verifier::when_used_as_spec(spec_index)]
    pub fn index(&self) -> (r: u32)
        ensures
            r == self.spec_index(),
            r < CODE_COUNT,
    {
        match self {
            Code::Backquote => 0,
            Code::Backslash => 1,
            Code::BracketLeft => 2,
            Code::BracketRight => 3,
            Code::Comma => 4,
            Code::Digit0 => 5,
            Code::Digit1 => 6,
            Code::Digit2 => 7,
            Code::Digit3 => 8,
            Code::Digit4 => 9,
            Code::Digit5 => 10,
            Code::Digit6 => 11,
            Code::Digit7 => 12,
            Code::Digit8 => 13,
            Code::Digit9 => 14,
            Code::Equal => 15,
            Code::IntlBackslash => 16,
            Code::IntlRo => 17,
            Code::IntlYen => 18,
            Code::KeyA => 19,
            Code::KeyB => 20,
            Code::KeyC => 21,
            Code::KeyD => 22,
            Code::KeyE => 23,
            Code::KeyF => 24,
            Code::KeyG => 25,
            Code::KeyH => 26,
            Code::KeyI => 27,
            Code::KeyJ => 28,
            Code::KeyK => 29,
            Code::KeyL => 30,
            Code::KeyM => 31,
            Code::KeyN => 32,
            Code::KeyO => 33,
            Code::KeyP => 34,
            Code::KeyQ => 35,
            Code::KeyR => 36,
            Code::KeyS => 37,
            Code::KeyT => 38,
            Code::KeyU => 39,
            Code::KeyV => 40,
            Code::KeyW => 41,
            Code::KeyX => 42,
            Code::KeyY => 43,
            Code::KeyZ => 44,
            Code::Minus => 45,
            Code::Period => 46,
            Code::Quote => 47,
            Code::Semicolon => 48,
            Code::Slash => 49,
            Code::AltLeft => 50,
            Code::AltRight => 51,
            Code::Backspace => 52,
            Code::CapsLock => 53,
            Code::ContextMenu => 54,
            Code::ControlLeft => 55,
            Code::ControlRight => 56,
            Code::Enter => 57,
            Code::MetaLeft => 58,
            Code::MetaRight => 59,
            Code::ShiftLeft => 60,
            Code::ShiftRight => 61,
            Code::Space => 62,
            Code::Tab => 63,
            Code::Convert => 64,
            Code::KanaMode => 65,
            Code::Lang1 => 66,
            Code::Lang2 => 67,
            Code::Lang3 => 68,
            Code::Lang4 => 69,
            Code::Lang5 => 70,
            Code::NonConvert => 71,
            Code::Delete => 72,
            Code::End => 73,
            Code::Help => 74,
            Code::Home => 75,
            Code::Insert => 76,
            Code::PageDown => 77,
            Code::PageUp => 78,
            Code::ArrowDown => 79,
            Code::ArrowLeft => 80,
            Code::ArrowRight => 81,
            Code::ArrowUp => 82,
            Code::NumLock => 83,
            Code::Numpad0 => 84,
            Code::Numpad1 => 85,
            Code::Numpad2 => 86,
            Code::Numpad3 => 87,
            Code::Numpad4 => 88,
            Code::Numpad5 => 89,
            Code::Numpad6 => 90,
            Code::Numpad7 => 91,
            Code::Numpad8 => 92,
            Code::Numpad9 => 93,
            Code::NumpadAdd => 94,
            Code::NumpadBackspace => 95,
            Code::NumpadClear => 96,
            Code::NumpadClearEntry => 97,
            Code::NumpadComma => 98,
            Code::NumpadDecimal => 99,
            Code::NumpadDivide => 100,
            Code::NumpadEnter => 101,
            Code::NumpadEqual => 102,
            Code::NumpadHash => 103,
            Code::NumpadMemoryAdd => 104,
            Code::NumpadMemoryClear => 105,
            Code::NumpadMemoryRecall => 106,
            Code::NumpadMemoryStore => 107,
            Code::NumpadMemorySubtract => 108,
            Code::NumpadMultiply => 109,
            Code::NumpadParenLeft => 110,
            Code::NumpadParenRight => 111,
            Code::NumpadStar => 112,
            Code::NumpadSubtract => 113,
            Code::Escape => 114,
            Code::Fn => 115,
            Code::FnLock => 116,
            Code::PrintScreen => 117,
            Code::ScrollLock => 118,
            Code::Pause => 119,
            Code::BrowserBack => 120,
            Code::BrowserFavorites => 121,
            Code::BrowserForward => 122,
            Code::BrowserHome => 123,
            Code::BrowserRefresh => 124,
            Code::BrowserSearch => 125,
            Code::BrowserStop => 126,
            Code::Eject => 127,
            Code::LaunchApp1 => 128,
            Code::LaunchApp2 => 129,
            Code::LaunchMail => 130,
            Code::MediaPlayPause => 131,
            Code::MediaSelect => 132,
            Code::MediaStop => 133,
            Code::MediaTrackNext => 134,
            Code::MediaTrackPrevious => 135,
            Code::Power => 136,
            Code::Sleep => 137,
            Code::AudioVolumeDown => 138,
            Code::AudioVolumeMute => 139,
            Code::AudioVolumeUp => 140,
            Code::WakeUp => 141,
            Code::Hyper => 142,
            Code::Super => 143,
            Code::Turbo => 144,
            Code::Abort => 145,
            Code::Resume => 146,
            Code::Suspend => 147,
            Code::Again => 148,
            Code::Copy => 149,
            Code::Cut => 150,
            Code::Find => 151,
            Code::Open => 152,
            Code::Paste => 153,
            Code::Props => 154,
            Code::Select => 155,
            Code::Undo => 156,
            Code::Hiragana => 157,
            Code::Katakana => 158,
            Code::Unidentified => 159,
            Code::F1 => 160,
            Code::F2 => 161,
            Code::F3 => 162,
            Code::F4 => 163,
            Code::F5 => 164,
            Code::F6 => 165,
            Code::F7 => 166,
            Code::F8 => 167,
            Code::F9 => 168,
            Code::F10 => 169,
            Code::F11 => 170,
            Code::F12 => 171,
            Code::F13 => 172,
            Code::F14 => 173,
            Code::F15 => 174,
            Code::F16 => 175,
            Code::F17 => 176,
            Code::F18 => 177,
            Code::F19 => 178,
            Code::F20 => 179,
            Code::F21 => 180,
            Code::F22 => 181,
            Code::F23 => 182,
            Code::F24 => 183,
            Code::F25 => 184,
            Code::F26 => 185,
            Code::F27 => 186,
            Code::F28 => 187,
            Code::F29 => 188,
            Code::F30 => 189,
            Code::F31 => 190,
            Code::F32 => 191,
            Code::F33 => 192,
            Code::F34 => 193,
            Code::F35 => 194,
            Code::BrightnessDown => 195,
            Code::BrightnessUp => 196,
            Code::DisplayToggleIntExt => 197,
            Code::KeyboardLayoutSelect => 198,
            Code::LaunchAssistant => 199,
            Code::LaunchControlPanel => 200,
            Code::LaunchScreenSaver => 201,
            Code::MailForward => 202,
            Code::MailReply => 203,
            Code::MailSend => 204,
            Code::MediaFastForward => 205,
            Code::MediaPause => 206,
            Code::MediaPlay => 207,
            Code::MediaRecord => 208,
            Code::MediaRewind => 209,
            Code::MicrophoneMuteToggle => 210,
            Code::PrivacyScreenToggle => 211,
            Code::SelectTask => 212,
            Code::ShowAllWindows => 213,
            Code::ZoomToggle => 214,
        }
    }
}

/// Two codes with the same index are the same code.
pub proof fn lemma_index_injective(a: Code, b: Code)
    requires
        a.spec_index() == b.spec_index(),
    ensures
        a == b,
{
}

/// Every index is below `CODE_COUNT`.
pub proof fn lemma_index_bounded(a: Code)
    ensures
        a.spec_index() < CODE_COUNT,
{
}

} // verus!
