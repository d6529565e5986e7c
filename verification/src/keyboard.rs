//! The keys the terminal program reacts to.
use vstd::prelude::*;

verus! {

/// A key press, as read from the terminal.
#[derive(Clone, Copy, Debug, PartialEq, Eq, Structural)]
pub enum Event {
    BackSlash,
    Backspace,
    Char(char),
    Down,
    Enter,
    Esc,
    Left,
    NumberOne,
    Right,
    Slash,
    Space,
    Tab,
    Up,
}

/// The key event of a typed character: the keys with a meaning of their
/// own are told apart from the other characters.
pub open spec fn event_for_char(c: char) -> Event {
    if c == '/' {
        Event::Slash
    } else if c == '\\' {
        Event::BackSlash
    } else if c == ' ' {
        Event::Space
    } else if c == '1' {
        Event::NumberOne
    } else {
        Event::Char(c)
    }
}

impl Event {
    /// The key event of a typed character.
    pub fn from_char(c: char) -> (r: Event)
        ensures
            r == event_for_char(c),
    {
        match c {
            '/' => Event::Slash,
            '\\' => Event::BackSlash,
            ' ' => Event::Space,
            '1' => Event::NumberOne,
            _ => Event::Char(c),
        }
    }
}

} // verus!
