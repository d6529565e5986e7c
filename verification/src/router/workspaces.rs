//! The workspaces routes of the screens that pass identifiers as text:
//! what is shown after a change.
use vstd::prelude::*;
use crate::parameters::{
    workspaces::commands::list::PAGE_SIZE, ListWorkspaceCommandsParameters,
    ListWorkspaceCommandsParametersView,
};
use crate::text::owned;

pub mod commands;

verus! {

/// The workspaces router.
pub struct Router;

impl Router {
    /// After a workspace is saved: the first page of its commands, with no
    /// search.
    pub fn workspace_updated(&self, workspace_id: &str) -> (r: ListWorkspaceCommandsParameters)
        ensures
            r@ == (ListWorkspaceCommandsParametersView {
                workspace_id: workspace_id@,
                search_query: Seq::empty(),
                page_number: 0,
                page_size: PAGE_SIZE,
                powershell_no_exit: false,
            }),
    {
        ListWorkspaceCommandsParameters {
            workspace_id: owned(workspace_id),
            search_query: String::new(),
            page_number: 0,
            page_size: PAGE_SIZE,
            powershell_no_exit: false,
        }
    }
}

} // verus!
