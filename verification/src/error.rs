use crate::code::Code;
use crate::hotkey::HotKey;
use vstd::prelude::*;

verus! {

/// Why an operation of the manager failed.
#[derive(Clone, Copy, Debug, PartialEq, Eq, Structural)]
pub enum Error {
    /// Installing the native handler failed; holds the code of the last
    /// error of the operating system.
    OsError(i32),
    /// The key has no native scan code and is no media key, or the native
    /// layer turned the registration down. Holds the key.
    FailedToRegister(Code),
    /// The native layer would not withdraw a hotkey that the registry held.
    FailedToUnRegister(HotKey),
    /// The media hotkey is registered already.
    AlreadyRegistered(HotKey),
    /// The event tap or its run-loop source could not be created.
    FailedToWatchMediaKeyEvent,
}

} // verus!
