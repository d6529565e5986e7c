//! Where a screen can send the terminal next.
use vstd::prelude::*;
use vstd::std_specs::convert::FromSpecImpl;
use crate::params::{
    CopyCommandToClipboardParams,
    CopyCommandToClipboardParamsView,
    CreateWorkspaceCommandParams,
    CreateWorkspaceCommandParamsView,
    CreateWorkspaceParams,
    CreateWorkspaceParamsView,
    DeleteBackupCredentialsParams,
    DeleteBackupCredentialsParamsView,
    DeleteCommandParams,
    DeleteCommandParamsView,
    DeleteWorkspaceParams,
    DeleteWorkspaceParamsView,
    EditCommandParams,
    EditCommandParamsView,
    EditWorkspaceParams,
    EditWorkspaceParamsView,
    ExecuteCommandParams,
    ExecuteCommandParamsView,
    ExecuteProgramParams,
    ExecuteProgramParamsView,
    ExportParams,
    ExportParamsView,
    ImportParams,
    ImportParamsView,
    ListWorkspaceCommandsParams,
    ListWorkspaceCommandsParamsView,
    ListWorkspacesParams,
    ListWorkspacesParamsView,
    NewWorkspaceCommandParams,
    NewWorkspaceCommandParamsView,
    OpenWindowsTerminalParams,
    OpenWindowsTerminalParamsView,
    SaveNotionBackupCredentialsParams,
    SaveNotionBackupCredentialsParamsView,
    UpdateWorkspaceCommandParams,
    UpdateWorkspaceCommandParamsView,
    UpdateWorkspaceParams,
    UpdateWorkspaceParamsView,
};

pub mod powershell;
pub mod workspaces;

verus! {

#[derive(Debug, PartialEq, Eq)]
pub enum Route {
    BackupCredentials(BackupCredentialsRoute),
    Powershell(PowerShellRoute),
    Workspaces(WorkspacesRoute),
}

#[derive(Debug, PartialEq, Eq)]
pub enum BackupCredentialsRoute {
    List,
    ManageNotionBackupCredentials,
    SaveNotionBackupCredentials(SaveNotionBackupCredentialsParams),
    DeleteBackupCredentials(DeleteBackupCredentialsParams),
    Import(ImportParams),
    Export(ExportParams),
}

#[derive(Debug, PartialEq, Eq)]
pub enum PowerShellRoute {
    ExecuteCommand(ExecuteCommandParams),
    ExecuteProgram(ExecuteProgramParams),
    CopyToClipboard(CopyCommandToClipboardParams),
    OpenWindowsTerminal(OpenWindowsTerminalParams),
}

#[derive(Debug, PartialEq, Eq)]
pub enum WorkspacesRoute {
    Commands(WorkspaceCommandsRoute),
    Create(CreateWorkspaceParams),
    Delete(DeleteWorkspaceParams),
    Edit(EditWorkspaceParams),
    List(ListWorkspacesParams),
    New,
    Update(UpdateWorkspaceParams),
}

#[derive(Debug, PartialEq, Eq)]
pub enum WorkspaceCommandsRoute {
    Create(CreateWorkspaceCommandParams),
    Delete(DeleteCommandParams),
    Edit(EditCommandParams),
    List(ListWorkspaceCommandsParams),
    New(NewWorkspaceCommandParams),
    Update(UpdateWorkspaceCommandParams),
}

/// `Route` as a value.
pub enum RouteView {
    BackupCredentials(BackupCredentialsRouteView),
    Powershell(PowerShellRouteView),
    Workspaces(WorkspacesRouteView),
}

impl View for Route {
    type V = RouteView;

    open spec fn view(&self) -> RouteView {
        match self {
            Route::BackupCredentials(p) => RouteView::BackupCredentials(p@),
            Route::Powershell(p) => RouteView::Powershell(p@),
            Route::Workspaces(p) => RouteView::Workspaces(p@),
        }
    }
}

/// `BackupCredentialsRoute` as a value.
pub enum BackupCredentialsRouteView {
    List,
    ManageNotionBackupCredentials,
    SaveNotionBackupCredentials(SaveNotionBackupCredentialsParamsView),
    DeleteBackupCredentials(DeleteBackupCredentialsParamsView),
    Import(ImportParamsView),
    Export(ExportParamsView),
}

impl View for BackupCredentialsRoute {
    type V = BackupCredentialsRouteView;

    open spec fn view(&self) -> BackupCredentialsRouteView {
        match self {
            BackupCredentialsRoute::List => BackupCredentialsRouteView::List,
            BackupCredentialsRoute::ManageNotionBackupCredentials => BackupCredentialsRouteView::ManageNotionBackupCredentials,
            BackupCredentialsRoute::SaveNotionBackupCredentials(p) => BackupCredentialsRouteView::SaveNotionBackupCredentials(p@),
            BackupCredentialsRoute::DeleteBackupCredentials(p) => BackupCredentialsRouteView::DeleteBackupCredentials(p@),
            BackupCredentialsRoute::Import(p) => BackupCredentialsRouteView::Import(p@),
            BackupCredentialsRoute::Export(p) => BackupCredentialsRouteView::Export(p@),
        }
    }
}

/// `PowerShellRoute` as a value.
pub enum PowerShellRouteView {
    ExecuteCommand(ExecuteCommandParamsView),
    ExecuteProgram(ExecuteProgramParamsView),
    CopyToClipboard(CopyCommandToClipboardParamsView),
    OpenWindowsTerminal(OpenWindowsTerminalParamsView),
}

impl View for PowerShellRoute {
    type V = PowerShellRouteView;

    open spec fn view(&self) -> PowerShellRouteView {
        match self {
            PowerShellRoute::ExecuteCommand(p) => PowerShellRouteView::ExecuteCommand(p@),
            PowerShellRoute::ExecuteProgram(p) => PowerShellRouteView::ExecuteProgram(p@),
            PowerShellRoute::CopyToClipboard(p) => PowerShellRouteView::CopyToClipboard(p@),
            PowerShellRoute::OpenWindowsTerminal(p) => PowerShellRouteView::OpenWindowsTerminal(p@),
        }
    }
}

/// `WorkspacesRoute` as a value.
pub enum WorkspacesRouteView {
    Commands(WorkspaceCommandsRouteView),
    Create(CreateWorkspaceParamsView),
    Delete(DeleteWorkspaceParamsView),
    Edit(EditWorkspaceParamsView),
    List(ListWorkspacesParamsView),
    New,
    Update(UpdateWorkspaceParamsView),
}

impl View for WorkspacesRoute {
    type V = WorkspacesRouteView;

    open spec fn view(&self) -> WorkspacesRouteView {
        match self {
            WorkspacesRoute::Commands(p) => WorkspacesRouteView::Commands(p@),
            WorkspacesRoute::Create(p) => WorkspacesRouteView::Create(p@),
            WorkspacesRoute::Delete(p) => WorkspacesRouteView::Delete(p@),
            WorkspacesRoute::Edit(p) => WorkspacesRouteView::Edit(p@),
            WorkspacesRoute::List(p) => WorkspacesRouteView::List(p@),
            WorkspacesRoute::New => WorkspacesRouteView::New,
            WorkspacesRoute::Update(p) => WorkspacesRouteView::Update(p@),
        }
    }
}

/// `WorkspaceCommandsRoute` as a value.
pub enum WorkspaceCommandsRouteView {
    Create(CreateWorkspaceCommandParamsView),
    Delete(DeleteCommandParamsView),
    Edit(EditCommandParamsView),
    List(ListWorkspaceCommandsParamsView),
    New(NewWorkspaceCommandParamsView),
    Update(UpdateWorkspaceCommandParamsView),
}

impl View for WorkspaceCommandsRoute {
    type V = WorkspaceCommandsRouteView;

    open spec fn view(&self) -> WorkspaceCommandsRouteView {
        match self {
            WorkspaceCommandsRoute::Create(p) => WorkspaceCommandsRouteView::Create(p@),
            WorkspaceCommandsRoute::Delete(p) => WorkspaceCommandsRouteView::Delete(p@),
            WorkspaceCommandsRoute::Edit(p) => WorkspaceCommandsRouteView::Edit(p@),
            WorkspaceCommandsRoute::List(p) => WorkspaceCommandsRouteView::List(p@),
            WorkspaceCommandsRoute::New(p) => WorkspaceCommandsRouteView::New(p@),
            WorkspaceCommandsRoute::Update(p) => WorkspaceCommandsRouteView::Update(p@),
        }
    }
}

/// An optional route, as a value.
pub open spec fn route_view(r: Option<Route>) -> Option<RouteView> {
    match r {
        Some(r) => Some(r@),
        None => None,
    }
}

impl From<WorkspacesRoute> for Route {
    fn from(route: WorkspacesRoute) -> (r: Route) {
        Route::Workspaces(route)
    }
}

impl FromSpecImpl<WorkspacesRoute> for Route {
    open spec fn obeys_from_spec() -> bool {
        true
    }

    open spec fn from_spec(route: WorkspacesRoute) -> Route {
        Route::Workspaces(route)
    }
}

/// Where a screen that passes identifiers as text can send the terminal.
#[derive(Debug, PartialEq, Eq)]
pub enum ScreenRoute {
    Powershell(powershell::Route),
    Workspaces(workspaces::Route),
}

/// `ScreenRoute` as a value.
pub enum ScreenRouteView {
    Powershell(powershell::RouteView),
    Workspaces(workspaces::RouteView),
}

impl View for ScreenRoute {
    type V = ScreenRouteView;

    open spec fn view(&self) -> ScreenRouteView {
        match self {
            ScreenRoute::Powershell(r) => ScreenRouteView::Powershell(r@),
            ScreenRoute::Workspaces(r) => ScreenRouteView::Workspaces(r@),
        }
    }
}

/// The route a screen asks for, as a value.
pub open spec fn screen_route_view(r: Option<ScreenRoute>) -> Option<ScreenRouteView> {
    match r {
        Some(r) => Some(r@),
        None => None,
    }
}

} // verus!
