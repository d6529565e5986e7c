//! The routes of the workspaces screens that pass identifiers as text and
//! number pages from 0.
use vstd::prelude::*;
use crate::parameters::{
    workspaces::{create, edit, list},
    DeleteWorkspaceParameters, DeleteWorkspaceParametersView, UpdateWorkspaceParameters,
    UpdateWorkspaceParametersView,
};

pub mod commands;

verus! {

/// Where a workspaces screen can send the terminal.
#[derive(Debug, PartialEq, Eq)]
pub enum Route {
    Commands(commands::Route),
    Create(create::Parameters),
    Delete(DeleteWorkspaceParameters),
    Edit(edit::Parameters),
    Home,
    List(list::Parameters),
    New,
    Update(UpdateWorkspaceParameters),
}

/// `Route` as a value.
pub enum RouteView {
    Commands(commands::RouteView),
    Create(create::ParametersView),
    Delete(DeleteWorkspaceParametersView),
    Edit(edit::ParametersView),
    Home,
    List(list::ParametersView),
    New,
    Update(UpdateWorkspaceParametersView),
}

impl View for Route {
    type V = RouteView;

    open spec fn view(&self) -> RouteView {
        match self {
            Route::Commands(r) => RouteView::Commands(r@),
            Route::Create(p) => RouteView::Create(p@),
            Route::Delete(p) => RouteView::Delete(p@),
            Route::Edit(p) => RouteView::Edit(p@),
            Route::Home => RouteView::Home,
            Route::List(p) => RouteView::List(p@),
            Route::New => RouteView::New,
            Route::Update(p) => RouteView::Update(p@),
        }
    }
}

} // verus!
