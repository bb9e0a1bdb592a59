//! The editing modes, the keys that reach the editor, and what handling a
//! key asks of the host.

use vstd::prelude::*;

verus! {

/// The interpretation context for incoming keys. Exactly one is active.
#[derive(Clone, Copy, PartialEq, Eq, Structural, Debug)]
pub enum EditingMode {
    Normal,
    Insert,
    Visual,
}

impl Default for EditingMode {
    /// A session starts in normal mode.
    fn default() -> (mode: Self)
        ensures
            mode == EditingMode::Normal,
    {
        EditingMode::Normal
    }
}

/// A key press as the editor sees it. Keys that no mode binds arrive as
/// `Other`.
#[derive(Clone, Copy, PartialEq, Eq, Structural, Debug)]
pub enum Key {
    Char(char),
    Enter,
    Esc,
    Backspace,
    Delete,
    Other,
}

/// What the host has to do once a key has been handled.
#[derive(PartialEq, Eq, Debug)]
pub enum Action {
    /// Nothing: the key was handled inside the editor, or ignored.
    Nothing,
    /// Send this text to the chat backend. The input line has already been
    /// cleared.
    Submit(String),
}

impl Action {
    /// The text to send, if the action is a submission.
    pub open spec fn submitted(self) -> Option<Seq<char>> {
        match self {
            Action::Nothing => None,
            Action::Submit(text) => Some(text@),
        }
    }
}

} // verus!
