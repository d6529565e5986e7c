//! The errors the screens report.
use vstd::prelude::*;
use crate::text::{owned, push_all};

verus! {

/// An error of a screen.
#[derive(Debug, PartialEq, Eq)]
pub enum ModelError {
    /// A command name that the screen does not know.
    UnknownAction(String),
}

impl ModelError {
    /// The text that reports the error.
    pub open spec fn message_text(&self) -> Seq<char> {
        match self {
            ModelError::UnknownAction(name) => "Unknown action: "@ + name@,
        }
    }

    /// The text that reports the error: for a command name the screen does
    /// not know, "Unknown action: " followed by the name.
    pub fn message(&self) -> (r: String)
        ensures
            r@ == self.message_text(),
    {
        match self {
            ModelError::UnknownAction(name) => {
                let mut r = owned("Unknown action: ");
                push_all(&mut r, name.as_str());
                r
            },
        }
    }
}

} // verus!
