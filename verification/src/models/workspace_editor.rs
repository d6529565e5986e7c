//! The workspace form built step by step: empty for a new workspace, or
//! holding the workspace to edit.
use vstd::prelude::*;
use crate::input::{Input, InputView};
use crate::message::Message;
use crate::models::workspace_form_model::state::{next_input, InputName};
use crate::params::{
    CreateWorkspaceParams, CreateWorkspaceParamsView, ListWorkspacesParams, ListWorkspacesParamsView,
    UpdateWorkspaceParams, UpdateWorkspaceParamsView,
};
use crate::presenters::WorkspacePresenter;
use crate::routes::{route_view, Route, RouteView, WorkspacesRouteView};
use crate::coordinator::WorkspaceId;
use crate::theme::Theme;

verus! {

/// The workspace form.
pub struct WorkspaceModel {
    active_input: InputName,
    location: Input,
    name: Input,
    redirect: Option<Route>,
    theme: Theme,
    id: Option<WorkspaceId>,
}

/// The form, as a value.
pub struct WorkspaceModelView {
    pub active_input: InputName,
    pub location: InputView,
    pub name: InputView,
    pub redirect: Option<RouteView>,
    pub theme: Theme,
    /// The workspace being edited; `None` while a new one is typed.
    pub id: Option<WorkspaceId>,
}

impl View for WorkspaceModel {
    type V = WorkspaceModelView;

    closed spec fn view(&self) -> WorkspaceModelView {
        WorkspaceModelView {
            active_input: self.active_input,
            location: self.location@,
            name: self.name@,
            redirect: route_view(self.redirect),
            theme: self.theme,
            id: self.id,
        }
    }
}

/// The focused input after `f`, the other unchanged.
pub open spec fn edit_active(s: WorkspaceModelView, f: spec_fn(InputView) -> InputView) -> WorkspaceModelView {
    match s.active_input {
        InputName::Name => WorkspaceModelView { name: f(s.name), ..s },
        InputName::Location => WorkspaceModelView { location: f(s.location), ..s },
    }
}

/// Back to the workspaces, with an empty search and the default paging.
pub open spec fn back_route() -> RouteView {
    RouteView::Workspaces(
        WorkspacesRouteView::List(
            ListWorkspacesParamsView { search_query: Some(Seq::empty()), page_number: None, page_size: None },
        ),
    )
}

/// Saving: an update of the workspace being edited, or a new workspace.
pub open spec fn submit_route(s: WorkspaceModelView) -> RouteView {
    match s.id {
        Some(id) => RouteView::Workspaces(
            WorkspacesRouteView::Update(UpdateWorkspaceParamsView { id, name: s.name.text, location: s.location.text }),
        ),
        None => RouteView::Workspaces(
            WorkspacesRouteView::Create(CreateWorkspaceParamsView { name: s.name.text, location: s.location.text }),
        ),
    }
}

/// The form after a message.
pub open spec fn update(s: WorkspaceModelView, m: Message) -> WorkspaceModelView {
    match m {
        Message::Cancel => WorkspaceModelView { redirect: Some(back_route()), ..s },
        Message::Tab => WorkspaceModelView { active_input: next_input(s.active_input), ..s },
        Message::DeleteAllChars => edit_active(s, |v: InputView| v.delete_all_chars()),
        Message::DeleteChar => edit_active(s, |v: InputView| v.delete_char()),
        Message::EnterChar(c) => edit_active(s, |v: InputView| v.enter_char(c)),
        Message::MoveCusorLeft => edit_active(s, |v: InputView| v.move_cursor_left()),
        Message::MoveCusorRight => edit_active(s, |v: InputView| v.move_cursor_right()),
        Message::Submit => WorkspaceModelView { redirect: Some(submit_route(s)), ..s },
        Message::ExecuteCommand | Message::SelectNext | Message::SelectPrevious => s,
    }
}

impl Default for WorkspaceModel {
    /// An empty form for a new workspace, the focus on the name.
    fn default() -> (r: WorkspaceModel)
        ensures
            r@.theme.is_uniform(),
            r@.active_input == InputName::Name,
            r@.name == InputView::with_text(Seq::empty()),
            r@.location == InputView::with_text(Seq::empty()),
            r@.redirect is None,
            r@.id is None,
    {
        WorkspaceModel {
            active_input: InputName::Name,
            location: Input::empty(),
            name: Input::empty(),
            redirect: None,
            theme: Theme::plain(),
            id: None,
        }
    }
}

impl WorkspaceModel {
    /// The form holding `workspace`, to edit it.
    pub fn workspace(self, workspace: WorkspacePresenter) -> (r: WorkspaceModel)
        ensures
            r@ == (WorkspaceModelView {
                name: InputView::with_text(workspace.name@),
                location: InputView::with_text(workspace.location@),
                id: Some(workspace.id),
                ..self@
            }),
    {
        let WorkspacePresenter { id, location, name } = workspace;
        WorkspaceModel { name: Input::new(name), location: Input::new(location), id: Some(id), ..self }
    }

    /// The form drawn with `theme`.
    pub fn theme(self, theme: Theme) -> (r: WorkspaceModel)
        ensures
            r@ == (WorkspaceModelView { theme, ..self@ }),
    {
        WorkspaceModel { theme, ..self }
    }

    /// The route the form asks for, handed over once.
    pub fn redirect(&mut self) -> (r: Option<Route>)
        ensures
            route_view(r) == old(self)@.redirect,
            final(self)@ == (WorkspaceModelView { redirect: None, ..old(self)@ }),
    {
        self.redirect.take()
    }

    /// The input that has the focus.
    pub fn active_input(&self) -> (r: &Input)
        ensures
            r@ == (if self@.active_input == InputName::Name { self@.name } else { self@.location }),
    {
        match self.active_input {
            InputName::Name => &self.name,
            InputName::Location => &self.location,
        }
    }

    /// Handles a message: Esc goes back, Tab moves the focus, the editing
    /// keys edit the focused input and Enter saves.
    pub fn update(&mut self, message: Message)
        ensures
            final(self)@ == update(old(self)@, message),
    {
        match message {
            Message::Cancel => {
                self.redirect = Some(
                    Route::from(
                        ListWorkspacesParams { search_query: Some(String::new()), page_number: None, page_size: None },
                    ),
                );
            },
            Message::Tab => {
                self.active_input = match self.active_input {
                    InputName::Name => InputName::Location,
                    InputName::Location => InputName::Name,
                };
            },
            Message::DeleteAllChars => match self.active_input {
                InputName::Name => self.name.delete_all_chars(),
                InputName::Location => self.location.delete_all_chars(),
            },
            Message::DeleteChar => match self.active_input {
                InputName::Name => self.name.delete_char(),
                InputName::Location => self.location.delete_char(),
            },
            Message::EnterChar(c) => match self.active_input {
                InputName::Name => self.name.enter_char(c),
                InputName::Location => self.location.enter_char(c),
            },
            Message::MoveCusorLeft => match self.active_input {
                InputName::Name => self.name.move_cursor_left(),
                InputName::Location => self.location.move_cursor_left(),
            },
            Message::MoveCusorRight => match self.active_input {
                InputName::Name => self.name.move_cursor_right(),
                InputName::Location => self.location.move_cursor_right(),
            },
            Message::Submit => self.submit(),
            Message::ExecuteCommand | Message::SelectNext | Message::SelectPrevious => {},
        }
    }

    fn submit(&mut self)
        ensures
            final(self)@ == (WorkspaceModelView { redirect: Some(submit_route(old(self)@)), ..old(self)@ }),
    {
        let route = match self.id {
            Some(id) => Route::from(
                UpdateWorkspaceParams { name: self.name.value(), location: self.location.value(), id },
            ),
            None => Route::from(CreateWorkspaceParams { name: self.name.value(), location: self.location.value() }),
        };
        self.redirect = Some(route);
    }
}

} // verus!
