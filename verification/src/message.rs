//! The messages that key presses are turned into before a model handles them.
use vstd::prelude::*;

verus! {

/// A user intent, read from the keyboard.
#[derive(Clone, Copy, Debug, PartialEq, Eq, Structural)]
pub enum Message {
    Cancel,
    DeleteAllChars,
    DeleteChar,
    EnterChar(char),
    ExecuteCommand,
    MoveCusorLeft,
    MoveCusorRight,
    SelectNext,
    SelectPrevious,
    Submit,
    Tab,
}

} // verus!
