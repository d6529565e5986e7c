//! Page sizes of the lists, and the parameters of routes as plain records.
use vstd::prelude::*;

pub mod workspaces;

verus! {

/// How many workspaces a page lists.
pub const LIST_WORKSPACES_PAGE_SIZE: u32 = 100;

/// How many commands a page lists.
pub const LIST_WORKSPACE_COMMANDS_PAGE_SIZE: u32 = 100;

#[derive(Debug, PartialEq, Eq)]
pub struct CreateWorkspaceParameters {
    pub name: String,
    pub location: String,
}

#[derive(Debug, PartialEq, Eq)]
pub struct CreateWorkspaceCommandParameters {
    pub name: String,
    pub program: String,
    pub workspace_id: String,
}

#[derive(Debug, PartialEq, Eq)]
pub struct DeleteWorkspaceParameters {
    pub id: String,
}

#[derive(Debug, PartialEq, Eq)]
pub struct DeleteWorkspaceCommandParameters {
    pub command_id: String,
    pub workspace_id: String,
}

#[derive(Debug, PartialEq, Eq)]
pub struct EditWorkspaceParameters {
    pub id: String,
}

#[derive(Debug, PartialEq, Eq)]
pub struct EditWorkspaceCommandParameters {
    pub command_id: String,
    pub workspace_id: String,
}

#[derive(Debug, PartialEq, Eq)]
pub struct ListWorkspacesParameters {
    pub search_query: String,
    pub page_number: u32,
    pub page_size: u32,
}

#[derive(Debug, PartialEq, Eq)]
pub struct ListWorkspaceCommandsParameters {
    pub workspace_id: String,
    pub search_query: String,
    pub page_number: u32,
    pub page_size: u32,
    pub powershell_no_exit: bool,
}

#[derive(Debug, PartialEq, Eq)]
pub struct NewWorkspaceCommandParameters {
    pub workspace_id: String,
}

#[derive(Debug, PartialEq, Eq)]
pub struct CopyToClipboardParameters {
    pub command_id: String,
    pub workspace_id: String,
}

#[derive(Debug, PartialEq, Eq)]
pub struct PowerShellExecuteCommandParameters {
    pub command_id: String,
    pub workspace_id: String,
    pub powershell_no_exit: bool,
}

#[derive(Debug, PartialEq, Eq)]
pub struct OpenWindowsTerminalParameters {
    pub working_directory: String,
}

#[derive(Debug, PartialEq, Eq)]
pub struct UpdateWorkspaceParameters {
    pub id: String,
    pub name: String,
    pub location: String,
}

#[derive(Debug, PartialEq, Eq)]
pub struct UpdateWorkspaceCommandParameters {
    pub command_id: String,
    pub name: String,
    pub program: String,
    pub workspace_id: String,
}

impl Default for ListWorkspacesParameters {
    /// No search, the first page (numbered 0), pages of the workspaces size.
    fn default() -> (r: Self)
        ensures
            r.search_query@ == Seq::<char>::empty(),
            r.page_number == 0,
            r.page_size == LIST_WORKSPACES_PAGE_SIZE,
    {
        ListWorkspacesParameters {
            search_query: String::new(),
            page_number: 0,
            page_size: LIST_WORKSPACES_PAGE_SIZE,
        }
    }
}


/// `CreateWorkspaceParameters` as a value.
pub struct CreateWorkspaceParametersView {
    pub name: Seq<char>,
    pub location: Seq<char>,
}

impl View for CreateWorkspaceParameters {
    type V = CreateWorkspaceParametersView;

    open spec fn view(&self) -> CreateWorkspaceParametersView {
        CreateWorkspaceParametersView {
            name: self.name@,
            location: self.location@,
        }
    }
}

/// `CreateWorkspaceCommandParameters` as a value.
pub struct CreateWorkspaceCommandParametersView {
    pub name: Seq<char>,
    pub program: Seq<char>,
    pub workspace_id: Seq<char>,
}

impl View for CreateWorkspaceCommandParameters {
    type V = CreateWorkspaceCommandParametersView;

    open spec fn view(&self) -> CreateWorkspaceCommandParametersView {
        CreateWorkspaceCommandParametersView {
            name: self.name@,
            program: self.program@,
            workspace_id: self.workspace_id@,
        }
    }
}

/// `DeleteWorkspaceParameters` as a value.
pub struct DeleteWorkspaceParametersView {
    pub id: Seq<char>,
}

impl View for DeleteWorkspaceParameters {
    type V = DeleteWorkspaceParametersView;

    open spec fn view(&self) -> DeleteWorkspaceParametersView {
        DeleteWorkspaceParametersView {
            id: self.id@,
        }
    }
}

/// `DeleteWorkspaceCommandParameters` as a value.
pub struct DeleteWorkspaceCommandParametersView {
    pub command_id: Seq<char>,
    pub workspace_id: Seq<char>,
}

impl View for DeleteWorkspaceCommandParameters {
    type V = DeleteWorkspaceCommandParametersView;

    open spec fn view(&self) -> DeleteWorkspaceCommandParametersView {
        DeleteWorkspaceCommandParametersView {
            command_id: self.command_id@,
            workspace_id: self.workspace_id@,
        }
    }
}

/// `EditWorkspaceParameters` as a value.
pub struct EditWorkspaceParametersView {
    pub id: Seq<char>,
}

impl View for EditWorkspaceParameters {
    type V = EditWorkspaceParametersView;

    open spec fn view(&self) -> EditWorkspaceParametersView {
        EditWorkspaceParametersView {
            id: self.id@,
        }
    }
}

/// `EditWorkspaceCommandParameters` as a value.
pub struct EditWorkspaceCommandParametersView {
    pub command_id: Seq<char>,
    pub workspace_id: Seq<char>,
}

impl View for EditWorkspaceCommandParameters {
    type V = EditWorkspaceCommandParametersView;

    open spec fn view(&self) -> EditWorkspaceCommandParametersView {
        EditWorkspaceCommandParametersView {
            command_id: self.command_id@,
            workspace_id: self.workspace_id@,
        }
    }
}

/// `ListWorkspacesParameters` as a value.
pub struct ListWorkspacesParametersView {
    pub search_query: Seq<char>,
    pub page_number: u32,
    pub page_size: u32,
}

impl View for ListWorkspacesParameters {
    type V = ListWorkspacesParametersView;

    open spec fn view(&self) -> ListWorkspacesParametersView {
        ListWorkspacesParametersView {
            search_query: self.search_query@,
            page_number: self.page_number,
            page_size: self.page_size,
        }
    }
}

/// `ListWorkspaceCommandsParameters` as a value.
pub struct ListWorkspaceCommandsParametersView {
    pub workspace_id: Seq<char>,
    pub search_query: Seq<char>,
    pub page_number: u32,
    pub page_size: u32,
    pub powershell_no_exit: bool,
}

impl View for ListWorkspaceCommandsParameters {
    type V = ListWorkspaceCommandsParametersView;

    open spec fn view(&self) -> ListWorkspaceCommandsParametersView {
        ListWorkspaceCommandsParametersView {
            workspace_id: self.workspace_id@,
            search_query: self.search_query@,
            page_number: self.page_number,
            page_size: self.page_size,
            powershell_no_exit: self.powershell_no_exit,
        }
    }
}

/// `NewWorkspaceCommandParameters` as a value.
pub struct NewWorkspaceCommandParametersView {
    pub workspace_id: Seq<char>,
}

impl View for NewWorkspaceCommandParameters {
    type V = NewWorkspaceCommandParametersView;

    open spec fn view(&self) -> NewWorkspaceCommandParametersView {
        NewWorkspaceCommandParametersView {
            workspace_id: self.workspace_id@,
        }
    }
}

/// `CopyToClipboardParameters` as a value.
pub struct CopyToClipboardParametersView {
    pub command_id: Seq<char>,
    pub workspace_id: Seq<char>,
}

impl View for CopyToClipboardParameters {
    type V = CopyToClipboardParametersView;

    open spec fn view(&self) -> CopyToClipboardParametersView {
        CopyToClipboardParametersView {
            command_id: self.command_id@,
            workspace_id: self.workspace_id@,
        }
    }
}

/// `PowerShellExecuteCommandParameters` as a value.
pub struct PowerShellExecuteCommandParametersView {
    pub command_id: Seq<char>,
    pub workspace_id: Seq<char>,
    pub powershell_no_exit: bool,
}

impl View for PowerShellExecuteCommandParameters {
    type V = PowerShellExecuteCommandParametersView;

    open spec fn view(&self) -> PowerShellExecuteCommandParametersView {
        PowerShellExecuteCommandParametersView {
            command_id: self.command_id@,
            workspace_id: self.workspace_id@,
            powershell_no_exit: self.powershell_no_exit,
        }
    }
}

/// `OpenWindowsTerminalParameters` as a value.
pub struct OpenWindowsTerminalParametersView {
    pub working_directory: Seq<char>,
}

impl View for OpenWindowsTerminalParameters {
    type V = OpenWindowsTerminalParametersView;

    open spec fn view(&self) -> OpenWindowsTerminalParametersView {
        OpenWindowsTerminalParametersView {
            working_directory: self.working_directory@,
        }
    }
}

/// `UpdateWorkspaceParameters` as a value.
pub struct UpdateWorkspaceParametersView {
    pub id: Seq<char>,
    pub name: Seq<char>,
    pub location: Seq<char>,
}

impl View for UpdateWorkspaceParameters {
    type V = UpdateWorkspaceParametersView;

    open spec fn view(&self) -> UpdateWorkspaceParametersView {
        UpdateWorkspaceParametersView {
            id: self.id@,
            name: self.name@,
            location: self.location@,
        }
    }
}

/// `UpdateWorkspaceCommandParameters` as a value.
pub struct UpdateWorkspaceCommandParametersView {
    pub command_id: Seq<char>,
    pub name: Seq<char>,
    pub program: Seq<char>,
    pub workspace_id: Seq<char>,
}

impl View for UpdateWorkspaceCommandParameters {
    type V = UpdateWorkspaceCommandParametersView;

    open spec fn view(&self) -> UpdateWorkspaceCommandParametersView {
        UpdateWorkspaceCommandParametersView {
            command_id: self.command_id@,
            name: self.name@,
            program: self.program@,
            workspace_id: self.workspace_id@,
        }
    }
}

} // verus!
