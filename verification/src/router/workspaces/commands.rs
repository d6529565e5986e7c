//! The commands routes of the screens that pass identifiers as text: what
//! is shown after a command is created or deleted.
use vstd::prelude::*;
use crate::parameters::{
    workspaces::commands::list::PAGE_SIZE, ListWorkspaceCommandsParameters,
    ListWorkspaceCommandsParametersView,
};
use crate::text::owned;

verus! {

/// The commands router.
pub struct Router;

/// The first page of the commands of `workspace_id` matching `query`.
pub open spec fn first_page(workspace_id: Seq<char>, query: Seq<char>) -> ListWorkspaceCommandsParametersView {
    ListWorkspaceCommandsParametersView {
        workspace_id,
        search_query: query,
        page_number: 0,
        page_size: PAGE_SIZE,
        powershell_no_exit: false,
    }
}

impl Router {
    /// After a command is created: the commands of its workspace that run
    /// its program.
    pub fn command_created(&self, workspace_id: &str, program: &str) -> (r: ListWorkspaceCommandsParameters)
        ensures
            r@ == first_page(workspace_id@, program@),
    {
        ListWorkspaceCommandsParameters {
            workspace_id: owned(workspace_id),
            search_query: owned(program),
            page_number: 0,
            page_size: PAGE_SIZE,
            powershell_no_exit: false,
        }
    }

    /// After a command is deleted: the commands of its workspace, with no
    /// search.
    pub fn command_deleted(&self, workspace_id: &str) -> (r: ListWorkspaceCommandsParameters)
        ensures
            r@ == first_page(workspace_id@, Seq::empty()),
    {
        ListWorkspaceCommandsParameters {
            workspace_id: owned(workspace_id),
            search_query: String::new(),
            page_number: 0,
            page_size: PAGE_SIZE,
            powershell_no_exit: false,
        }
    }
}

} // verus!
