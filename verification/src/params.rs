//! The parameters that a screen hands to the router with the route it asks for.
use vstd::prelude::*;
use vstd::std_specs::convert::FromSpecImpl;
use crate::coordinator::{default_page_size, first_page, BackupProviderKind, CommandId, Positive, WorkspaceId};
use crate::routes::{BackupCredentialsRoute, PowerShellRoute, Route, WorkspaceCommandsRoute, WorkspacesRoute};

verus! {

#[derive(Debug, PartialEq, Eq)]
pub struct CreateWorkspaceParams {
    pub name: String,
    pub location: String,
}

#[derive(Debug, PartialEq, Eq)]
pub struct CreateWorkspaceCommandParams {
    pub name: String,
    pub program: String,
    pub workspace_id: WorkspaceId,
}

#[derive(Debug, PartialEq, Eq)]
pub struct DeleteBackupCredentialsParams {
    pub kind: BackupProviderKind,
}

#[derive(Debug, PartialEq, Eq)]
pub struct DeleteCommandParams {
    pub command_id: CommandId,
    pub workspace_id: WorkspaceId,
}

#[derive(Debug, PartialEq, Eq)]
pub struct DeleteWorkspaceParams {
    pub id: WorkspaceId,
}

#[derive(Debug, PartialEq, Eq)]
pub struct EditWorkspaceParams {
    pub id: WorkspaceId,
}

#[derive(Debug, PartialEq, Eq)]
pub struct EditCommandParams {
    pub command_id: CommandId,
}

#[derive(Debug, PartialEq, Eq)]
pub struct ExportParams {
    pub kind: BackupProviderKind,
}

#[derive(Debug, PartialEq, Eq)]
pub struct ExecuteCommandParams {
    pub command_id: CommandId,
    pub powershell_no_exit: bool,
}

#[derive(Debug, PartialEq, Eq)]
pub struct ExecuteProgramParams {
    pub workspace_id: WorkspaceId,
    pub program: String,
}

#[derive(Debug, PartialEq, Eq)]
pub struct ImportParams {
    pub kind: BackupProviderKind,
}

#[derive(Debug, PartialEq, Eq)]
pub struct ListWorkspacesParams {
    pub search_query: Option<String>,
    pub page_number: Option<Positive>,
    pub page_size: Option<Positive>,
}

#[derive(Debug, PartialEq, Eq)]
pub struct ListWorkspaceCommandsParams {
    pub workspace_id: WorkspaceId,
    pub search_query: String,
    pub page_number: Option<Positive>,
    pub page_size: Option<Positive>,
    pub powershell_no_exit: bool,
}

#[derive(Debug, PartialEq, Eq)]
pub struct NewWorkspaceCommandParams {
    pub workspace_id: WorkspaceId,
}

#[derive(Debug, PartialEq, Eq)]
pub struct CopyCommandToClipboardParams {
    pub command_id: CommandId,
}

#[derive(Debug, PartialEq, Eq)]
pub struct OpenWindowsTerminalParams {
    pub workspace_id: WorkspaceId,
}

#[derive(Debug, PartialEq, Eq)]
pub struct SaveNotionBackupCredentialsParams {
    pub api_key: String,
    pub commands_database_id: String,
    pub workspaces_database_id: String,
}

#[derive(Debug, PartialEq, Eq)]
pub struct UpdateWorkspaceParams {
    pub id: WorkspaceId,
    pub name: String,
    pub location: String,
}

#[derive(Debug, PartialEq, Eq)]
pub struct UpdateWorkspaceCommandParams {
    pub command_id: CommandId,
    pub name: String,
    pub program: String,
    pub workspace_id: WorkspaceId,
}


/// An optional text, as a value.
pub open spec fn opt_string_view(s: Option<String>) -> Option<Seq<char>> {
    match s {
        Some(s) => Some(s@),
        None => None,
    }
}

/// An optional page number or size, as a value.
pub open spec fn opt_positive_view(p: Option<Positive>) -> Option<u32> {
    match p {
        Some(p) => Some(p@),
        None => None,
    }
}

/// `CreateWorkspaceParams` as a value.
pub struct CreateWorkspaceParamsView {
    pub name: Seq<char>,
    pub location: Seq<char>,
}

impl View for CreateWorkspaceParams {
    type V = CreateWorkspaceParamsView;

    open spec fn view(&self) -> CreateWorkspaceParamsView {
        CreateWorkspaceParamsView {
            name: self.name@,
            location: self.location@,
        }
    }
}

/// `CreateWorkspaceCommandParams` as a value.
pub struct CreateWorkspaceCommandParamsView {
    pub name: Seq<char>,
    pub program: Seq<char>,
    pub workspace_id: WorkspaceId,
}

impl View for CreateWorkspaceCommandParams {
    type V = CreateWorkspaceCommandParamsView;

    open spec fn view(&self) -> CreateWorkspaceCommandParamsView {
        CreateWorkspaceCommandParamsView {
            name: self.name@,
            program: self.program@,
            workspace_id: self.workspace_id,
        }
    }
}

/// `DeleteBackupCredentialsParams` as a value.
pub struct DeleteBackupCredentialsParamsView {
    pub kind: BackupProviderKind,
}

impl View for DeleteBackupCredentialsParams {
    type V = DeleteBackupCredentialsParamsView;

    open spec fn view(&self) -> DeleteBackupCredentialsParamsView {
        DeleteBackupCredentialsParamsView {
            kind: self.kind,
        }
    }
}

/// `DeleteCommandParams` as a value.
pub struct DeleteCommandParamsView {
    pub command_id: CommandId,
    pub workspace_id: WorkspaceId,
}

impl View for DeleteCommandParams {
    type V = DeleteCommandParamsView;

    open spec fn view(&self) -> DeleteCommandParamsView {
        DeleteCommandParamsView {
            command_id: self.command_id,
            workspace_id: self.workspace_id,
        }
    }
}

/// `DeleteWorkspaceParams` as a value.
pub struct DeleteWorkspaceParamsView {
    pub id: WorkspaceId,
}

impl View for DeleteWorkspaceParams {
    type V = DeleteWorkspaceParamsView;

    open spec fn view(&self) -> DeleteWorkspaceParamsView {
        DeleteWorkspaceParamsView {
            id: self.id,
        }
    }
}

/// `EditWorkspaceParams` as a value.
pub struct EditWorkspaceParamsView {
    pub id: WorkspaceId,
}

impl View for EditWorkspaceParams {
    type V = EditWorkspaceParamsView;

    open spec fn view(&self) -> EditWorkspaceParamsView {
        EditWorkspaceParamsView {
            id: self.id,
        }
    }
}

/// `EditCommandParams` as a value.
pub struct EditCommandParamsView {
    pub command_id: CommandId,
}

impl View for EditCommandParams {
    type V = EditCommandParamsView;

    open spec fn view(&self) -> EditCommandParamsView {
        EditCommandParamsView {
            command_id: self.command_id,
        }
    }
}

/// `ExportParams` as a value.
pub struct ExportParamsView {
    pub kind: BackupProviderKind,
}

impl View for ExportParams {
    type V = ExportParamsView;

    open spec fn view(&self) -> ExportParamsView {
        ExportParamsView {
            kind: self.kind,
        }
    }
}

/// `ExecuteCommandParams` as a value.
pub struct ExecuteCommandParamsView {
    pub command_id: CommandId,
    pub powershell_no_exit: bool,
}

impl View for ExecuteCommandParams {
    type V = ExecuteCommandParamsView;

    open spec fn view(&self) -> ExecuteCommandParamsView {
        ExecuteCommandParamsView {
            command_id: self.command_id,
            powershell_no_exit: self.powershell_no_exit,
        }
    }
}

/// `ExecuteProgramParams` as a value.
pub struct ExecuteProgramParamsView {
    pub workspace_id: WorkspaceId,
    pub program: Seq<char>,
}

impl View for ExecuteProgramParams {
    type V = ExecuteProgramParamsView;

    open spec fn view(&self) -> ExecuteProgramParamsView {
        ExecuteProgramParamsView {
            workspace_id: self.workspace_id,
            program: self.program@,
        }
    }
}

/// `ImportParams` as a value.
pub struct ImportParamsView {
    pub kind: BackupProviderKind,
}

impl View for ImportParams {
    type V = ImportParamsView;

    open spec fn view(&self) -> ImportParamsView {
        ImportParamsView {
            kind: self.kind,
        }
    }
}

/// `ListWorkspacesParams` as a value.
pub struct ListWorkspacesParamsView {
    pub search_query: Option<Seq<char>>,
    pub page_number: Option<u32>,
    pub page_size: Option<u32>,
}

impl View for ListWorkspacesParams {
    type V = ListWorkspacesParamsView;

    open spec fn view(&self) -> ListWorkspacesParamsView {
        ListWorkspacesParamsView {
            search_query: opt_string_view(self.search_query),
            page_number: opt_positive_view(self.page_number),
            page_size: opt_positive_view(self.page_size),
        }
    }
}

/// `ListWorkspaceCommandsParams` as a value.
pub struct ListWorkspaceCommandsParamsView {
    pub workspace_id: WorkspaceId,
    pub search_query: Seq<char>,
    pub page_number: Option<u32>,
    pub page_size: Option<u32>,
    pub powershell_no_exit: bool,
}

impl View for ListWorkspaceCommandsParams {
    type V = ListWorkspaceCommandsParamsView;

    open spec fn view(&self) -> ListWorkspaceCommandsParamsView {
        ListWorkspaceCommandsParamsView {
            workspace_id: self.workspace_id,
            search_query: self.search_query@,
            page_number: opt_positive_view(self.page_number),
            page_size: opt_positive_view(self.page_size),
            powershell_no_exit: self.powershell_no_exit,
        }
    }
}

/// `NewWorkspaceCommandParams` as a value.
pub struct NewWorkspaceCommandParamsView {
    pub workspace_id: WorkspaceId,
}

impl View for NewWorkspaceCommandParams {
    type V = NewWorkspaceCommandParamsView;

    open spec fn view(&self) -> NewWorkspaceCommandParamsView {
        NewWorkspaceCommandParamsView {
            workspace_id: self.workspace_id,
        }
    }
}

/// `CopyCommandToClipboardParams` as a value.
pub struct CopyCommandToClipboardParamsView {
    pub command_id: CommandId,
}

impl View for CopyCommandToClipboardParams {
    type V = CopyCommandToClipboardParamsView;

    open spec fn view(&self) -> CopyCommandToClipboardParamsView {
        CopyCommandToClipboardParamsView {
            command_id: self.command_id,
        }
    }
}

/// `OpenWindowsTerminalParams` as a value.
pub struct OpenWindowsTerminalParamsView {
    pub workspace_id: WorkspaceId,
}

impl View for OpenWindowsTerminalParams {
    type V = OpenWindowsTerminalParamsView;

    open spec fn view(&self) -> OpenWindowsTerminalParamsView {
        OpenWindowsTerminalParamsView {
            workspace_id: self.workspace_id,
        }
    }
}

/// `SaveNotionBackupCredentialsParams` as a value.
pub struct SaveNotionBackupCredentialsParamsView {
    pub api_key: Seq<char>,
    pub commands_database_id: Seq<char>,
    pub workspaces_database_id: Seq<char>,
}

impl View for SaveNotionBackupCredentialsParams {
    type V = SaveNotionBackupCredentialsParamsView;

    open spec fn view(&self) -> SaveNotionBackupCredentialsParamsView {
        SaveNotionBackupCredentialsParamsView {
            api_key: self.api_key@,
            commands_database_id: self.commands_database_id@,
            workspaces_database_id: self.workspaces_database_id@,
        }
    }
}

/// `UpdateWorkspaceParams` as a value.
pub struct UpdateWorkspaceParamsView {
    pub id: WorkspaceId,
    pub name: Seq<char>,
    pub location: Seq<char>,
}

impl View for UpdateWorkspaceParams {
    type V = UpdateWorkspaceParamsView;

    open spec fn view(&self) -> UpdateWorkspaceParamsView {
        UpdateWorkspaceParamsView {
            id: self.id,
            name: self.name@,
            location: self.location@,
        }
    }
}

/// `UpdateWorkspaceCommandParams` as a value.
pub struct UpdateWorkspaceCommandParamsView {
    pub command_id: CommandId,
    pub name: Seq<char>,
    pub program: Seq<char>,
    pub workspace_id: WorkspaceId,
}

impl View for UpdateWorkspaceCommandParams {
    type V = UpdateWorkspaceCommandParamsView;

    open spec fn view(&self) -> UpdateWorkspaceCommandParamsView {
        UpdateWorkspaceCommandParamsView {
            command_id: self.command_id,
            name: self.name@,
            program: self.program@,
            workspace_id: self.workspace_id,
        }
    }
}

impl Default for ListWorkspacesParams {
    /// No search, the first page, pages of the default size.
    fn default() -> (r: Self)
        ensures
            r.search_query is None,
            r.page_number matches Some(p) && p@ == 1,
            r.page_size matches Some(p) && p@ == 100,
    {
        ListWorkspacesParams {
            search_query: None,
            page_number: Some(first_page()),
            page_size: Some(default_page_size()),
        }
    }
}

impl From<CreateWorkspaceParams> for Route {
    fn from(value: CreateWorkspaceParams) -> (r: Route) {
        Route::Workspaces(WorkspacesRoute::Create(value))
    }
}

impl FromSpecImpl<CreateWorkspaceParams> for Route {
    open spec fn obeys_from_spec() -> bool {
        true
    }

    open spec fn from_spec(value: CreateWorkspaceParams) -> Route {
        Route::Workspaces(WorkspacesRoute::Create(value))
    }
}

impl From<CreateWorkspaceCommandParams> for Route {
    fn from(value: CreateWorkspaceCommandParams) -> (r: Route) {
        Route::Workspaces(WorkspacesRoute::Commands(WorkspaceCommandsRoute::Create(value)))
    }
}

impl FromSpecImpl<CreateWorkspaceCommandParams> for Route {
    open spec fn obeys_from_spec() -> bool {
        true
    }

    open spec fn from_spec(value: CreateWorkspaceCommandParams) -> Route {
        Route::Workspaces(WorkspacesRoute::Commands(WorkspaceCommandsRoute::Create(value)))
    }
}

impl From<DeleteBackupCredentialsParams> for Route {
    fn from(value: DeleteBackupCredentialsParams) -> (r: Route) {
        Route::BackupCredentials(BackupCredentialsRoute::DeleteBackupCredentials(value))
    }
}

impl FromSpecImpl<DeleteBackupCredentialsParams> for Route {
    open spec fn obeys_from_spec() -> bool {
        true
    }

    open spec fn from_spec(value: DeleteBackupCredentialsParams) -> Route {
        Route::BackupCredentials(BackupCredentialsRoute::DeleteBackupCredentials(value))
    }
}

impl From<DeleteCommandParams> for Route {
    fn from(value: DeleteCommandParams) -> (r: Route) {
        Route::Workspaces(WorkspacesRoute::Commands(WorkspaceCommandsRoute::Delete(value)))
    }
}

impl FromSpecImpl<DeleteCommandParams> for Route {
    open spec fn obeys_from_spec() -> bool {
        true
    }

    open spec fn from_spec(value: DeleteCommandParams) -> Route {
        Route::Workspaces(WorkspacesRoute::Commands(WorkspaceCommandsRoute::Delete(value)))
    }
}

impl From<DeleteWorkspaceParams> for Route {
    fn from(value: DeleteWorkspaceParams) -> (r: Route) {
        Route::Workspaces(WorkspacesRoute::Delete(value))
    }
}

impl FromSpecImpl<DeleteWorkspaceParams> for Route {
    open spec fn obeys_from_spec() -> bool {
        true
    }

    open spec fn from_spec(value: DeleteWorkspaceParams) -> Route {
        Route::Workspaces(WorkspacesRoute::Delete(value))
    }
}

impl From<EditWorkspaceParams> for Route {
    fn from(value: EditWorkspaceParams) -> (r: Route) {
        Route::Workspaces(WorkspacesRoute::Edit(value))
    }
}

impl FromSpecImpl<EditWorkspaceParams> for Route {
    open spec fn obeys_from_spec() -> bool {
        true
    }

    open spec fn from_spec(value: EditWorkspaceParams) -> Route {
        Route::Workspaces(WorkspacesRoute::Edit(value))
    }
}

impl From<ExportParams> for Route {
    fn from(value: ExportParams) -> (r: Route) {
        Route::BackupCredentials(BackupCredentialsRoute::Export(value))
    }
}

impl FromSpecImpl<ExportParams> for Route {
    open spec fn obeys_from_spec() -> bool {
        true
    }

    open spec fn from_spec(value: ExportParams) -> Route {
        Route::BackupCredentials(BackupCredentialsRoute::Export(value))
    }
}

impl From<ExecuteProgramParams> for Route {
    fn from(value: ExecuteProgramParams) -> (r: Route) {
        Route::Powershell(PowerShellRoute::ExecuteProgram(value))
    }
}

impl FromSpecImpl<ExecuteProgramParams> for Route {
    open spec fn obeys_from_spec() -> bool {
        true
    }

    open spec fn from_spec(value: ExecuteProgramParams) -> Route {
        Route::Powershell(PowerShellRoute::ExecuteProgram(value))
    }
}

impl From<ImportParams> for Route {
    fn from(value: ImportParams) -> (r: Route) {
        Route::BackupCredentials(BackupCredentialsRoute::Import(value))
    }
}

impl FromSpecImpl<ImportParams> for Route {
    open spec fn obeys_from_spec() -> bool {
        true
    }

    open spec fn from_spec(value: ImportParams) -> Route {
        Route::BackupCredentials(BackupCredentialsRoute::Import(value))
    }
}

impl From<EditCommandParams> for Route {
    fn from(value: EditCommandParams) -> (r: Route) {
        Route::Workspaces(WorkspacesRoute::Commands(WorkspaceCommandsRoute::Edit(value)))
    }
}

impl FromSpecImpl<EditCommandParams> for Route {
    open spec fn obeys_from_spec() -> bool {
        true
    }

    open spec fn from_spec(value: EditCommandParams) -> Route {
        Route::Workspaces(WorkspacesRoute::Commands(WorkspaceCommandsRoute::Edit(value)))
    }
}

impl From<ListWorkspacesParams> for Route {
    fn from(value: ListWorkspacesParams) -> (r: Route) {
        Route::Workspaces(WorkspacesRoute::List(value))
    }
}

impl FromSpecImpl<ListWorkspacesParams> for Route {
    open spec fn obeys_from_spec() -> bool {
        true
    }

    open spec fn from_spec(value: ListWorkspacesParams) -> Route {
        Route::Workspaces(WorkspacesRoute::List(value))
    }
}

impl From<ListWorkspaceCommandsParams> for Route {
    fn from(value: ListWorkspaceCommandsParams) -> (r: Route) {
        Route::Workspaces(WorkspacesRoute::Commands(WorkspaceCommandsRoute::List(value)))
    }
}

impl FromSpecImpl<ListWorkspaceCommandsParams> for Route {
    open spec fn obeys_from_spec() -> bool {
        true
    }

    open spec fn from_spec(value: ListWorkspaceCommandsParams) -> Route {
        Route::Workspaces(WorkspacesRoute::Commands(WorkspaceCommandsRoute::List(value)))
    }
}

impl From<NewWorkspaceCommandParams> for Route {
    fn from(value: NewWorkspaceCommandParams) -> (r: Route) {
        Route::Workspaces(WorkspacesRoute::Commands(WorkspaceCommandsRoute::New(value)))
    }
}

impl FromSpecImpl<NewWorkspaceCommandParams> for Route {
    open spec fn obeys_from_spec() -> bool {
        true
    }

    open spec fn from_spec(value: NewWorkspaceCommandParams) -> Route {
        Route::Workspaces(WorkspacesRoute::Commands(WorkspaceCommandsRoute::New(value)))
    }
}

impl From<SaveNotionBackupCredentialsParams> for Route {
    fn from(value: SaveNotionBackupCredentialsParams) -> (r: Route) {
        Route::BackupCredentials(BackupCredentialsRoute::SaveNotionBackupCredentials(value))
    }
}

impl FromSpecImpl<SaveNotionBackupCredentialsParams> for Route {
    open spec fn obeys_from_spec() -> bool {
        true
    }

    open spec fn from_spec(value: SaveNotionBackupCredentialsParams) -> Route {
        Route::BackupCredentials(BackupCredentialsRoute::SaveNotionBackupCredentials(value))
    }
}

impl From<UpdateWorkspaceParams> for Route {
    fn from(value: UpdateWorkspaceParams) -> (r: Route) {
        Route::Workspaces(WorkspacesRoute::Update(value))
    }
}

impl FromSpecImpl<UpdateWorkspaceParams> for Route {
    open spec fn obeys_from_spec() -> bool {
        true
    }

    open spec fn from_spec(value: UpdateWorkspaceParams) -> Route {
        Route::Workspaces(WorkspacesRoute::Update(value))
    }
}

impl From<UpdateWorkspaceCommandParams> for Route {
    fn from(value: UpdateWorkspaceCommandParams) -> (r: Route) {
        Route::Workspaces(WorkspacesRoute::Commands(WorkspaceCommandsRoute::Update(value)))
    }
}

impl FromSpecImpl<UpdateWorkspaceCommandParams> for Route {
    open spec fn obeys_from_spec() -> bool {
        true
    }

    open spec fn from_spec(value: UpdateWorkspaceCommandParams) -> Route {
        Route::Workspaces(WorkspacesRoute::Commands(WorkspaceCommandsRoute::Update(value)))
    }
}

} // verus!
