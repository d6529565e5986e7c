//! A command of a workspace, as the command form receives it.
use vstd::prelude::*;
use crate::coordinator::{CommandId, WorkspaceId};

verus! {

/// A command: the workspace it belongs to, its identifier, its name and
/// the program it runs.
#[derive(Debug, PartialEq, Eq)]
pub struct Command {
    pub workspace_id: WorkspaceId,
    pub id: CommandId,
    pub name: String,
    pub program: String,
}

} // verus!
