//! What the workspace screen can be told to do.
use vstd::prelude::*;
use crate::coordinator::WorkspaceId;

verus! {

/// A signal to the workspace screen.
#[derive(Clone, Copy, Debug, PartialEq, Eq, Structural)]
pub enum Sygnal {
    Exit,
    ClearInput,
    CreateWorkspace,
    DeleteChar,
    EnterChar(char),
    EnterInputMode,
    ExitInputMode,
    ListWorkspaces,
    MoveCusorLeft,
    MoveCusorRight,
    SelectNextInput,
    UpdateWorkspace(WorkspaceId),
}

} // verus!
