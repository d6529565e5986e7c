//! The routes of the commands screens that pass identifiers as text.
use vstd::prelude::*;
use crate::parameters::{
    workspaces::commands::{get, new},
    CreateWorkspaceCommandParameters, CreateWorkspaceCommandParametersView,
    DeleteWorkspaceCommandParameters, DeleteWorkspaceCommandParametersView,
    EditWorkspaceCommandParameters, EditWorkspaceCommandParametersView,
    ListWorkspaceCommandsParameters, ListWorkspaceCommandsParametersView,
    UpdateWorkspaceCommandParameters, UpdateWorkspaceCommandParametersView,
};

verus! {

/// Where a commands screen can send the terminal.
#[derive(Debug, PartialEq, Eq)]
pub enum Route {
    Create(CreateWorkspaceCommandParameters),
    Delete(DeleteWorkspaceCommandParameters),
    Edit(EditWorkspaceCommandParameters),
    Get(get::Parameters),
    List(ListWorkspaceCommandsParameters),
    New(new::Parameters),
    Update(UpdateWorkspaceCommandParameters),
}

/// `Route` as a value.
pub enum RouteView {
    Create(CreateWorkspaceCommandParametersView),
    Delete(DeleteWorkspaceCommandParametersView),
    Edit(EditWorkspaceCommandParametersView),
    Get(get::ParametersView),
    List(ListWorkspaceCommandsParametersView),
    New(new::ParametersView),
    Update(UpdateWorkspaceCommandParametersView),
}

impl View for Route {
    type V = RouteView;

    open spec fn view(&self) -> RouteView {
        match self {
            Route::Create(p) => RouteView::Create(p@),
            Route::Delete(p) => RouteView::Delete(p@),
            Route::Edit(p) => RouteView::Edit(p@),
            Route::Get(p) => RouteView::Get(p@),
            Route::List(p) => RouteView::List(p@),
            Route::New(p) => RouteView::New(p@),
            Route::Update(p) => RouteView::Update(p@),
        }
    }
}

} // verus!
