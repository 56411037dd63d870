//! Process-wide keyboard shortcuts and media-key interception for macOS,
//! written as a state machine over descriptions of the native calls.
//!
//! The library decides; it makes no native call. [`GlobalHotKeyManager`]
//! hands out the native calls to make as values and takes the replies, and
//! the functions of [`callbacks`] say what the two native callbacks do with
//! the values read from a native event.
//!
//! An operation of the manager is run like this: make the calls of the
//! [`manager::Step`] it hands back, in order; where the step is done, take
//! its result; where it waits, hand the reply to the last call to
//! [`GlobalHotKeyManager::resume`] and go on with the step that comes back.
//!
//! [`model`] holds what each operation does, over plain values, and
//! [`laws`] what follows from it. [`channel`] holds the events that were
//! decided on until the listeners have read them.

pub mod callbacks;
pub mod channel;
pub mod code;
pub mod error;
pub mod event;
pub mod ffi;
pub mod hotkey;
pub mod laws;
pub mod manager;
pub mod media_keys;
pub mod model;
pub mod modifiers;
pub mod translation;

pub use crate::error::Error;
pub use crate::event::GlobalHotKeyEvent;
pub use crate::event::HotKeyState;
pub use crate::manager::GlobalHotKeyManager;
