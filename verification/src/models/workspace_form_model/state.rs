//! What the workspace form holds: the name and location inputs, which one
//! has the focus, and the workspace being edited, if any.
use vstd::prelude::*;
use crate::coordinator::WorkspaceId;
use crate::input::{Input, InputView};
use crate::params::{
    CreateWorkspaceParams, CreateWorkspaceParamsView, ListWorkspacesParams, ListWorkspacesParamsView,
    UpdateWorkspaceParams, UpdateWorkspaceParamsView,
};
use crate::routes::{route_view, Route, RouteView, WorkspacesRouteView};
use crate::theme::Theme;

verus! {

/// The two inputs of the form.
#[derive(Clone, Copy, Debug, PartialEq, Eq, Structural)]
pub enum InputName {
    Name,
    Location,
}

/// The state of the workspace form.
pub struct ModelState {
    active_input: InputName,
    location: Input,
    name: Input,
    redirect: Option<Route>,
    theme: Theme,
    workspace_id: Option<WorkspaceId>,
}

/// The state, as a value.
pub struct ModelStateView {
    pub active_input: InputName,
    pub location: InputView,
    pub name: InputView,
    pub redirect: Option<RouteView>,
    pub theme: Theme,
    /// The workspace being edited; `None` while a new one is typed.
    pub workspace_id: Option<WorkspaceId>,
}

impl View for ModelState {
    type V = ModelStateView;

    closed spec fn view(&self) -> ModelStateView {
        ModelStateView {
            active_input: self.active_input,
            location: self.location@,
            name: self.name@,
            redirect: route_view(self.redirect),
            theme: self.theme,
            workspace_id: self.workspace_id,
        }
    }
}

/// The focused input after `f`, the other unchanged.
pub open spec fn edit_active(s: ModelStateView, f: spec_fn(InputView) -> InputView) -> ModelStateView {
    match s.active_input {
        InputName::Name => ModelStateView { name: f(s.name), ..s },
        InputName::Location => ModelStateView { location: f(s.location), ..s },
    }
}

/// Tab moves the focus from the name to the location and back.
pub open spec fn next_input(i: InputName) -> InputName {
    match i {
        InputName::Name => InputName::Location,
        InputName::Location => InputName::Name,
    }
}

/// The first page of workspaces, with no search.
pub open spec fn list_route() -> RouteView {
    RouteView::Workspaces(
        WorkspacesRouteView::List(
            ListWorkspacesParamsView { search_query: None, page_number: Some(1), page_size: Some(100) },
        ),
    )
}

/// Creating a workspace with the name and location typed.
pub open spec fn create_route(s: ModelStateView) -> RouteView {
    RouteView::Workspaces(
        WorkspacesRouteView::Create(CreateWorkspaceParamsView { name: s.name.text, location: s.location.text }),
    )
}

/// Saving workspace `id` with the name and location typed.
pub open spec fn update_route(s: ModelStateView, id: WorkspaceId) -> RouteView {
    RouteView::Workspaces(
        WorkspacesRouteView::Update(
            UpdateWorkspaceParamsView { id, name: s.name.text, location: s.location.text },
        ),
    )
}

impl Default for ModelState {
    /// An empty form for a new workspace, the focus on the name.
    fn default() -> (r: ModelState)
        ensures
            r@.theme.is_uniform(),
            r@.active_input == InputName::Name,
            r@.name == InputView::with_text(Seq::empty()),
            r@.location == InputView::with_text(Seq::empty()),
            r@.redirect is None,
            r@.workspace_id is None,
    {
        ModelState {
            active_input: InputName::Name,
            location: Input::empty(),
            name: Input::empty(),
            redirect: None,
            theme: Theme::plain(),
            workspace_id: None,
        }
    }
}

impl ModelState {
    /// Empties the focused input.
    pub fn clear_input(&mut self)
        ensures
            final(self)@ == edit_active(old(self)@, |v: InputView| v.delete_all_chars()),
    {
        match self.active_input {
            InputName::Name => self.name.delete_all_chars(),
            InputName::Location => self.location.delete_all_chars(),
        }
    }

    /// Deletes the character before the cursor in the focused input.
    pub fn delete_char(&mut self)
        ensures
            final(self)@ == edit_active(old(self)@, |v: InputView| v.delete_char()),
    {
        match self.active_input {
            InputName::Name => self.name.delete_char(),
            InputName::Location => self.location.delete_char(),
        }
    }

    /// Types `c` into the focused input.
    pub fn enter_char(&mut self, c: char)
        ensures
            final(self)@ == edit_active(old(self)@, |v: InputView| v.enter_char(c)),
    {
        match self.active_input {
            InputName::Name => self.name.enter_char(c),
            InputName::Location => self.location.enter_char(c),
        }
    }

    /// Moves the cursor of the focused input one character left.
    pub fn move_cursor_left(&mut self)
        ensures
            final(self)@ == edit_active(old(self)@, |v: InputView| v.move_cursor_left()),
    {
        match self.active_input {
            InputName::Name => self.name.move_cursor_left(),
            InputName::Location => self.location.move_cursor_left(),
        }
    }

    /// Moves the cursor of the focused input one character right.
    pub fn move_cursor_right(&mut self)
        ensures
            final(self)@ == edit_active(old(self)@, |v: InputView| v.move_cursor_right()),
    {
        match self.active_input {
            InputName::Name => self.name.move_cursor_right(),
            InputName::Location => self.location.move_cursor_right(),
        }
    }

    /// Asks to create a workspace with the name and location typed.
    pub fn set_redirect_to_create_workspace(&mut self)
        ensures
            final(self)@ == (ModelStateView { redirect: Some(create_route(old(self)@)), ..old(self)@ }),
    {
        self.redirect = Some(
            Route::from(CreateWorkspaceParams { name: self.name.value(), location: self.location.value() }),
        );
    }

    /// Asks to save workspace `workspace_id` with the name and location typed.
    pub fn set_redirect_to_update_workspace(&mut self, workspace_id: WorkspaceId)
        ensures
            final(self)@ == (ModelStateView { redirect: Some(update_route(old(self)@, workspace_id)), ..old(self)@ }),
    {
        self.redirect = Some(
            Route::from(
                UpdateWorkspaceParams {
                    name: self.name.value(),
                    location: self.location.value(),
                    id: workspace_id,
                },
            ),
        );
    }

    /// Asks for the first page of workspaces.
    pub fn set_redirect_to_list_workspaces(&mut self)
        ensures
            final(self)@ == (ModelStateView { redirect: Some(list_route()), ..old(self)@ }),
    {
        self.redirect = Some(Route::from(ListWorkspacesParams::default()));
    }

    /// Whether the name has the focus.
    pub fn is_name_input_active(&self) -> (r: bool)
        ensures
            r == (self@.active_input == InputName::Name),
    {
        self.active_input == InputName::Name
    }

    /// Whether the location has the focus.
    pub fn is_location_input_active(&self) -> (r: bool)
        ensures
            r == (self@.active_input == InputName::Location),
    {
        self.active_input == InputName::Location
    }

    /// The route the form asks for, handed over once.
    pub fn redirect(&mut self) -> (r: Option<Route>)
        ensures
            route_view(r) == old(self)@.redirect,
            final(self)@ == (ModelStateView { redirect: None, ..old(self)@ }),
    {
        self.redirect.take()
    }

    /// Moves the focus to the other input.
    pub fn select_next_input(&mut self)
        ensures
            final(self)@ == (ModelStateView { active_input: next_input(old(self)@.active_input), ..old(self)@ }),
    {
        self.active_input = match self.active_input {
            InputName::Name => InputName::Location,
            InputName::Location => InputName::Name,
        };
    }

    /// Draws the form with `theme`.
    pub fn set_theme(&mut self, theme: Theme)
        ensures
            final(self)@ == (ModelStateView { theme, ..old(self)@ }),
    {
        self.theme = theme;
    }

    /// Records the workspace being edited.
    pub fn set_workspace_id(&mut self, workspace_id: WorkspaceId)
        ensures
            final(self)@ == (ModelStateView { workspace_id: Some(workspace_id), ..old(self)@ }),
    {
        self.workspace_id = Some(workspace_id);
    }

    /// Puts `location` in the location input, the cursor at its end.
    pub fn set_workspace_location(&mut self, location: String)
        ensures
            final(self)@ == (ModelStateView { location: InputView::with_text(location@), ..old(self)@ }),
    {
        self.location = Input::new(location);
    }

    /// Puts `name` in the name input, the cursor at its end.
    pub fn set_workspace_name(&mut self, name: String)
        ensures
            final(self)@ == (ModelStateView { name: InputView::with_text(name@), ..old(self)@ }),
    {
        self.name = Input::new(name);
    }

    /// The colours of the form.
    pub fn theme(&self) -> (r: Theme)
        ensures
            r == self@.theme,
    {
        self.theme
    }

    /// The workspace being edited, if any.
    pub fn workspace_id(&self) -> (r: Option<WorkspaceId>)
        ensures
            r == self@.workspace_id,
    {
        self.workspace_id
    }

    /// The name typed.
    pub fn workspace_name(&self) -> (r: String)
        ensures
            r@ == self@.name.text,
    {
        self.name.value()
    }

    /// The cursor of the name, as a terminal column offset.
    pub fn workspace_name_character_index(&self) -> (r: u16)
        ensures
            r == (self@.name.cursor as u16),
    {
        #[verifier::truncate]
        (self.name.character_index() as u16)
    }

    /// The location typed.
    pub fn workspace_location(&self) -> (r: String)
        ensures
            r@ == self@.location.text,
    {
        self.location.value()
    }

    /// The cursor of the location, as a terminal column offset.
    pub fn workspace_location_character_index(&self) -> (r: u16)
        ensures
            r == (self@.location.cursor as u16),
    {
        #[verifier::truncate]
        (self.location.character_index() as u16)
    }
}

} // verus!
