//! Workspaces, commands and credentials as the screens show and edit them.
use vstd::prelude::*;
use crate::coordinator::{CommandId, WorkspaceId};

pub mod command;
pub mod workspace;

verus! {

/// A command on screen.
#[derive(Debug, PartialEq, Eq)]
pub struct CommandPresenter {
    pub workspace_id: WorkspaceId,
    pub id: CommandId,
    pub name: String,
    pub program: String,
}

/// A workspace on screen.
#[derive(Debug, PartialEq, Eq)]
pub struct WorkspacePresenter {
    pub id: WorkspaceId,
    pub location: String,
    pub name: String,
}

/// `CommandPresenter` as a value.
pub struct CommandPresenterView {
    pub workspace_id: WorkspaceId,
    pub id: CommandId,
    pub name: Seq<char>,
    pub program: Seq<char>,
}

impl View for CommandPresenter {
    type V = CommandPresenterView;

    open spec fn view(&self) -> CommandPresenterView {
        CommandPresenterView {
            workspace_id: self.workspace_id,
            id: self.id,
            name: self.name@,
            program: self.program@,
        }
    }
}

/// `WorkspacePresenter` as a value.
pub struct WorkspacePresenterView {
    pub id: WorkspaceId,
    pub location: Seq<char>,
    pub name: Seq<char>,
}

impl View for WorkspacePresenter {
    type V = WorkspacePresenterView;

    open spec fn view(&self) -> WorkspacePresenterView {
        WorkspacePresenterView { id: self.id, location: self.location@, name: self.name@ }
    }
}

/// Notion backup credentials on screen.
#[derive(Debug, PartialEq, Eq)]
pub struct NotionBackupCredentialsPresenter {
    pub api_key: String,
    pub commands_database_id: String,
    pub workspaces_database_id: String,
}

} // verus!
