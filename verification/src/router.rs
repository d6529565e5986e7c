//! What the terminal shows next for a route: the decisions the router makes
//! around the calls it hands to the coordinator.
use vstd::prelude::*;
use crate::coordinator::{Positive, WorkspaceId};
use crate::parameters::LIST_WORKSPACE_COMMANDS_PAGE_SIZE;
use crate::params::{
    ListWorkspaceCommandsParams, ListWorkspaceCommandsParamsView, ListWorkspacesParams,
    ListWorkspacesParamsView,
};
use crate::routes::{route_view, Route, RouteView, WorkspaceCommandsRouteView, WorkspacesRoute, WorkspacesRouteView};
use crate::routes::{ScreenRoute, ScreenRouteView};
use crate::text::owned;
use crate::theme::Theme;

pub mod powershell;
pub mod workspaces;

verus! {

/// The router of the terminal.
pub struct TerminalRouter {
    pub theme: Theme,
}

/// The commands of workspace `id` matching `query`, from the first page,
/// in pages of the commands page size.
pub open spec fn commands_page(id: WorkspaceId, query: Seq<char>) -> ListWorkspaceCommandsParamsView {
    ListWorkspaceCommandsParamsView {
        workspace_id: id,
        search_query: query,
        page_number: Some(1),
        page_size: Some(LIST_WORKSPACE_COMMANDS_PAGE_SIZE),
        powershell_no_exit: false,
    }
}

fn first_commands_page(id: WorkspaceId, query: String) -> (r: ListWorkspaceCommandsParams)
    ensures
        r@ == commands_page(id, query@),
{
    ListWorkspaceCommandsParams {
        workspace_id: id,
        search_query: query,
        page_number: Positive::new(1),
        page_size: Positive::new(LIST_WORKSPACE_COMMANDS_PAGE_SIZE),
        powershell_no_exit: false,
    }
}

impl TerminalRouter {
    /// How workspaces are asked for to find the first screen: one
    /// workspace, from the first page, with no search.
    pub fn first_workspace_query(&self) -> (r: ListWorkspacesParams)
        ensures
            r@ == (ListWorkspacesParamsView { search_query: Some(Seq::empty()), page_number: Some(1), page_size: Some(1) }),
    {
        ListWorkspacesParams { search_query: Some(String::new()), page_number: Positive::new(1), page_size: Positive::new(1) }
    }

    /// The first screen: the commands of the first workspace, or the form
    /// of a new workspace when there is none.
    pub fn default_route(&self, first_workspace: Option<WorkspaceId>) -> (r: Route)
        ensures
            r@ == (match first_workspace {
                Some(id) => RouteView::Workspaces(
                    WorkspacesRouteView::Commands(WorkspaceCommandsRouteView::List(commands_page(id, Seq::empty()))),
                ),
                None => RouteView::Workspaces(WorkspacesRouteView::New),
            }),
    {
        match first_workspace {
            Some(id) => Route::from(first_commands_page(id, String::new())),
            None => Route::Workspaces(WorkspacesRoute::New),
        }
    }

    /// Whether the router shows a new screen for `route`: PowerShell routes
    /// run something and leave the current screen in place.
    pub fn shows_screen(&self, route: &Route) -> (r: bool)
        ensures
            r == !(route_view(Some(*route))->0 is Powershell),
    {
        match route {
            Route::Powershell(_) => false,
            _ => true,
        }
    }

    /// After a workspace is saved: the workspaces whose name matches its
    /// new name, from the first page.
    pub fn workspace_updated(&self, name: String) -> (r: ListWorkspacesParams)
        ensures
            r@ == (ListWorkspacesParamsView {
                search_query: Some(name@),
                page_number: Some(1),
                page_size: Some(LIST_WORKSPACE_COMMANDS_PAGE_SIZE),
            }),
    {
        ListWorkspacesParams {
            search_query: Some(name),
            page_number: Positive::new(1),
            page_size: Positive::new(LIST_WORKSPACE_COMMANDS_PAGE_SIZE),
        }
    }

    /// After a command is created: the commands of its workspace that run
    /// its program.
    pub fn command_created(&self, workspace_id: WorkspaceId, program: String) -> (r: ListWorkspaceCommandsParams)
        ensures
            r@ == commands_page(workspace_id, program@),
    {
        first_commands_page(workspace_id, program)
    }

    /// After a command is deleted: the commands of its workspace, with no
    /// search.
    pub fn command_deleted(&self, workspace_id: WorkspaceId) -> (r: ListWorkspaceCommandsParams)
        ensures
            r@ == commands_page(workspace_id, Seq::empty()),
    {
        first_commands_page(workspace_id, String::new())
    }
}

/// The router of the screens that pass identifiers as text.
pub struct Router;

impl Router {
    /// The first screen: the first page of the commands of the first
    /// workspace, or the form of a new workspace when there is none.
    pub fn default_route(&self, first_workspace_id: Option<&str>) -> (r: ScreenRoute)
        ensures
            r@ == (match first_workspace_id {
                Some(id) => ScreenRouteView::Workspaces(
                    crate::routes::workspaces::RouteView::Commands(
                        crate::routes::workspaces::commands::RouteView::List(
                            workspaces::commands::first_page(id@, Seq::empty()),
                        ),
                    ),
                ),
                None => ScreenRouteView::Workspaces(crate::routes::workspaces::RouteView::New),
            }),
    {
        match first_workspace_id {
            Some(id) => ScreenRoute::Workspaces(
                crate::routes::workspaces::Route::Commands(
                    crate::routes::workspaces::commands::Route::List(
                        crate::parameters::ListWorkspaceCommandsParameters {
                            workspace_id: owned(id),
                            search_query: String::new(),
                            page_number: 0,
                            page_size: crate::parameters::workspaces::commands::list::PAGE_SIZE,
                            powershell_no_exit: false,
                        },
                    ),
                ),
            ),
            None => ScreenRoute::Workspaces(crate::routes::workspaces::Route::New),
        }
    }
}

} // verus!
