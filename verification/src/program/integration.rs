//! The work the program asks of the storage and system services, and their
//! answers. The program decides which request to make from its state; the
//! caller performs it and hands the answer back.
use vstd::prelude::*;
use crate::program::state::{ListItem, ListItemView};

verus! {

/// Options for running a command in a new terminal.
#[derive(Clone, Copy, Debug, PartialEq, Eq, Structural)]
pub struct RunCommandOptions {
    /// Keep the shell open after the command has run.
    pub no_exit: bool,
}

/// A request to the storage, backup or system services.
#[allow(inconsistent_fields)]
#[derive(Debug, PartialEq, Eq)]
pub enum Request {
    /// List the workspaces whose name contains the text. `searching` is set
    /// when the list is reloaded while the user types the filter.
    ListWorkspaces { name_contains: String, searching: bool },
    /// List the commands of a workspace whose program contains the text.
    ListCommands { workspace_id: u128, program_contains: String, searching: bool },
    /// List the commands of a workspace again after one was deleted.
    ReloadCommands { workspace_id: u128, program_contains: String },
    GetWorkspace { id: u128 },
    GetCommand { id: u128 },
    GetNotionBackupCredentials,
    CreateWorkspace { name: String, location: String },
    UpdateWorkspace { id: u128, name: String, location: String },
    CreateCommand { workspace_id: u128, name: String, program: String },
    UpdateCommand { id: u128, name: String, program: String },
    SaveNotionBackupCredentials {
        api_key: String,
        commands_database_id: String,
        workspaces_database_id: String,
    },
    DeleteNotionBackupCredentials,
    DeleteWorkspace { id: u128 },
    DeleteCommand { id: u128 },
    BackupWorkspace { workspace_id: Option<u128> },
    BackupCommand { command_id: Option<u128> },
    BackupWorkspaces,
    BackupCommands,
    RestoreWorkspaces,
    RestoreCommands,
    CopyCommandToClipboard { command_id: Option<u128> },
    OpenTerminal { workspace_id: Option<u128> },
    RunCommand { command_id: u128, options: RunCommandOptions },
}

/// A workspace as the storage returns it.
#[derive(Debug, PartialEq, Eq)]
pub struct WorkspaceRecord {
    pub id: u128,
    pub name: String,
    pub location: Option<String>,
}

/// A command as the storage returns it.
#[derive(Debug, PartialEq, Eq)]
pub struct CommandRecord {
    pub id: u128,
    pub workspace_id: u128,
    pub name: String,
    pub program: String,
}

/// Notion backup credentials as the storage returns them.
#[derive(Debug, PartialEq, Eq)]
pub struct NotionCredentials {
    pub api_key: String,
    pub commands_database_id: String,
    pub workspaces_database_id: String,
}

/// The answer of a service to a request.
#[derive(Debug, PartialEq, Eq)]
pub enum Response {
    /// The operation succeeded and returned nothing.
    Done,
    /// The operation failed with this message.
    Failed(String),
    /// The records listed.
    Items(Vec<ListItem>),
    /// The workspace looked up, if it exists.
    Workspace(Option<WorkspaceRecord>),
    /// The command looked up, if it exists.
    Command(Option<CommandRecord>),
    /// The Notion backup credentials, if any are saved.
    NotionBackupCredentials(Option<NotionCredentials>),
}

/// A request, as a value.
#[allow(inconsistent_fields)]
pub enum RequestView {
    ListWorkspaces { name_contains: Seq<char>, searching: bool },
    ListCommands { workspace_id: u128, program_contains: Seq<char>, searching: bool },
    ReloadCommands { workspace_id: u128, program_contains: Seq<char> },
    GetWorkspace { id: u128 },
    GetCommand { id: u128 },
    GetNotionBackupCredentials,
    CreateWorkspace { name: Seq<char>, location: Seq<char> },
    UpdateWorkspace { id: u128, name: Seq<char>, location: Seq<char> },
    CreateCommand { workspace_id: u128, name: Seq<char>, program: Seq<char> },
    UpdateCommand { id: u128, name: Seq<char>, program: Seq<char> },
    SaveNotionBackupCredentials {
        api_key: Seq<char>,
        commands_database_id: Seq<char>,
        workspaces_database_id: Seq<char>,
    },
    DeleteNotionBackupCredentials,
    DeleteWorkspace { id: u128 },
    DeleteCommand { id: u128 },
    BackupWorkspace { workspace_id: Option<u128> },
    BackupCommand { command_id: Option<u128> },
    BackupWorkspaces,
    BackupCommands,
    RestoreWorkspaces,
    RestoreCommands,
    CopyCommandToClipboard { command_id: Option<u128> },
    OpenTerminal { workspace_id: Option<u128> },
    RunCommand { command_id: u128, no_exit: bool },
}

impl View for Request {
    type V = RequestView;

    open spec fn view(&self) -> RequestView {
        match self {
            Request::ListWorkspaces { name_contains, searching } =>
                RequestView::ListWorkspaces { name_contains: name_contains@, searching: *searching },
            Request::ListCommands { workspace_id, program_contains, searching } =>
                RequestView::ListCommands {
                    workspace_id: *workspace_id,
                    program_contains: program_contains@,
                    searching: *searching,
                },
            Request::ReloadCommands { workspace_id, program_contains } =>
                RequestView::ReloadCommands {
                    workspace_id: *workspace_id,
                    program_contains: program_contains@,
                },
            Request::GetWorkspace { id } => RequestView::GetWorkspace { id: *id },
            Request::GetCommand { id } => RequestView::GetCommand { id: *id },
            Request::GetNotionBackupCredentials => RequestView::GetNotionBackupCredentials,
            Request::CreateWorkspace { name, location } =>
                RequestView::CreateWorkspace { name: name@, location: location@ },
            Request::UpdateWorkspace { id, name, location } =>
                RequestView::UpdateWorkspace { id: *id, name: name@, location: location@ },
            Request::CreateCommand { workspace_id, name, program } =>
                RequestView::CreateCommand {
                    workspace_id: *workspace_id,
                    name: name@,
                    program: program@,
                },
            Request::UpdateCommand { id, name, program } =>
                RequestView::UpdateCommand { id: *id, name: name@, program: program@ },
            Request::SaveNotionBackupCredentials {
                api_key,
                commands_database_id,
                workspaces_database_id,
            } => RequestView::SaveNotionBackupCredentials {
                api_key: api_key@,
                commands_database_id: commands_database_id@,
                workspaces_database_id: workspaces_database_id@,
            },
            Request::DeleteNotionBackupCredentials => RequestView::DeleteNotionBackupCredentials,
            Request::DeleteWorkspace { id } => RequestView::DeleteWorkspace { id: *id },
            Request::DeleteCommand { id } => RequestView::DeleteCommand { id: *id },
            Request::BackupWorkspace { workspace_id } =>
                RequestView::BackupWorkspace { workspace_id: *workspace_id },
            Request::BackupCommand { command_id } =>
                RequestView::BackupCommand { command_id: *command_id },
            Request::BackupWorkspaces => RequestView::BackupWorkspaces,
            Request::BackupCommands => RequestView::BackupCommands,
            Request::RestoreWorkspaces => RequestView::RestoreWorkspaces,
            Request::RestoreCommands => RequestView::RestoreCommands,
            Request::CopyCommandToClipboard { command_id } =>
                RequestView::CopyCommandToClipboard { command_id: *command_id },
            Request::OpenTerminal { workspace_id } =>
                RequestView::OpenTerminal { workspace_id: *workspace_id },
            Request::RunCommand { command_id, options } =>
                RequestView::RunCommand { command_id: *command_id, no_exit: options.no_exit },
        }
    }
}

/// A stored workspace, as a value.
pub struct WorkspaceRecordView {
    pub id: u128,
    pub name: Seq<char>,
    pub location: Option<Seq<char>>,
}

/// A stored command, as a value.
pub struct CommandRecordView {
    pub id: u128,
    pub workspace_id: u128,
    pub name: Seq<char>,
    pub program: Seq<char>,
}

/// Notion credentials, as a value.
pub struct NotionCredentialsView {
    pub api_key: Seq<char>,
    pub commands_database_id: Seq<char>,
    pub workspaces_database_id: Seq<char>,
}

/// An answer, as a value.
pub enum ResponseView {
    Done,
    Failed(Seq<char>),
    Items(Seq<ListItemView>),
    Workspace(Option<WorkspaceRecordView>),
    Command(Option<CommandRecordView>),
    NotionBackupCredentials(Option<NotionCredentialsView>),
}

impl View for WorkspaceRecord {
    type V = WorkspaceRecordView;

    open spec fn view(&self) -> WorkspaceRecordView {
        WorkspaceRecordView {
            id: self.id,
            name: self.name@,
            location: match self.location {
                Some(l) => Some(l@),
                None => None,
            },
        }
    }
}

impl View for CommandRecord {
    type V = CommandRecordView;

    open spec fn view(&self) -> CommandRecordView {
        CommandRecordView {
            id: self.id,
            workspace_id: self.workspace_id,
            name: self.name@,
            program: self.program@,
        }
    }
}

impl View for NotionCredentials {
    type V = NotionCredentialsView;

    open spec fn view(&self) -> NotionCredentialsView {
        NotionCredentialsView {
            api_key: self.api_key@,
            commands_database_id: self.commands_database_id@,
            workspaces_database_id: self.workspaces_database_id@,
        }
    }
}

impl View for Response {
    type V = ResponseView;

    open spec fn view(&self) -> ResponseView {
        match self {
            Response::Done => ResponseView::Done,
            Response::Failed(m) => ResponseView::Failed(m@),
            Response::Items(items) => ResponseView::Items(items@.map_values(|i: ListItem| i@)),
            Response::Workspace(w) => ResponseView::Workspace(
                match w {
                    Some(w) => Some(w@),
                    None => None,
                },
            ),
            Response::Command(c) => ResponseView::Command(
                match c {
                    Some(c) => Some(c@),
                    None => None,
                },
            ),
            Response::NotionBackupCredentials(c) => ResponseView::NotionBackupCredentials(
                match c {
                    Some(c) => Some(c@),
                    None => None,
                },
            ),
        }
    }
}

impl RequestView {
    /// Requests whose failure the program reports in a notice rather than
    /// giving up.
    pub open spec fn reports_failure(self) -> bool {
        ||| self is SaveNotionBackupCredentials
        ||| self is DeleteNotionBackupCredentials
        ||| self is BackupWorkspace
        ||| self is BackupCommand
        ||| self is BackupWorkspaces
        ||| self is BackupCommands
        ||| self is RestoreWorkspaces
        ||| self is RestoreCommands
    }
}

impl Request {
    /// Whether the program reports a failure of this request in a notice.
    /// Any other failure ends the program with that error.
    pub fn reports_failure(&self) -> (r: bool)
        ensures
            r == self@.reports_failure(),
    {
        match self {
            Request::SaveNotionBackupCredentials { .. }
            | Request::DeleteNotionBackupCredentials
            | Request::BackupWorkspace { .. }
            | Request::BackupCommand { .. }
            | Request::BackupWorkspaces
            | Request::BackupCommands
            | Request::RestoreWorkspaces
            | Request::RestoreCommands => true,
            _ => false,
        }
    }
}

} // verus!
