use vstd::prelude::*;

verus! {

/// Whether a hotkey went down or came up.
#[derive(Clone, Copy, Debug, PartialEq, Eq, Structural, Hash)]
pub enum HotKeyState {
    Pressed,
    Released,
}

/// The notice that the hotkey with the identifier `id` went down or came up.
#[derive(Clone, Copy, Debug, PartialEq, Eq, Structural, Hash)]
pub struct GlobalHotKeyEvent {
    pub id: u32,
    pub state: HotKeyState,
}

impl GlobalHotKeyEvent {
    /// The identifier of the hotkey.
    pub fn id(&self) -> (r: u32)
        ensures
            r == self.id,
    {
        self.id
    }

    /// Whether the hotkey went down or came up.
    pub fn state(&self) -> (r: HotKeyState)
        ensures
            r == self.state,
    {
        self.state
    }
}

} // verus!
