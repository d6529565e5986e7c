//! The workspace screen: the workspace form, and whether keys type into
//! it (input mode) or command the screen (normal mode).
use vstd::prelude::*;
use crate::coordinator::WorkspaceId;
use crate::input::InputView;
use crate::models::workspace_form_model::state::{
    create_route, edit_active, list_route, next_input, update_route, ModelState, ModelStateView,
};
use crate::routes::{route_view, Route};
use crate::theme::Theme;

verus! {

/// Whether keys command the screen or type into the form.
#[derive(Clone, Copy, Debug, PartialEq, Eq, Structural)]
pub enum ScreenMode {
    Normal,
    Input,
}

/// The workspace screen.
pub struct Screen {
    form: ModelState,
    mode: ScreenMode,
    running: bool,
}

/// The screen, as a value.
pub struct ScreenView {
    pub form: ModelStateView,
    pub mode: ScreenMode,
    pub running: bool,
}

impl View for Screen {
    type V = ScreenView;

    closed spec fn view(&self) -> ScreenView {
        ScreenView { form: self.form@, mode: self.mode, running: self.running }
    }
}

/// The screen with its form changed to `form`.
pub open spec fn with_form(s: ScreenView, form: ModelStateView) -> ScreenView {
    ScreenView { form, ..s }
}

impl Default for Screen {
    /// An empty form in normal mode, running.
    fn default() -> (r: Screen)
        ensures
            r@.mode == ScreenMode::Normal,
            r@.running,
            r@.form.name == InputView::with_text(Seq::empty()),
            r@.form.location == InputView::with_text(Seq::empty()),
            r@.form.redirect is None,
            r@.form.workspace_id is None,
            r@.form.active_input == crate::models::workspace_form_model::state::InputName::Name,
    {
        Screen { form: ModelState::default(), mode: ScreenMode::Normal, running: true }
    }
}

impl Screen {
    /// Whether keys command the screen.
    pub fn is_in_normal_mode(&self) -> (r: bool)
        ensures
            r == (self@.mode == ScreenMode::Normal),
    {
        self.mode == ScreenMode::Normal
    }

    /// Whether keys type into the form.
    pub fn is_in_input_mode(&self) -> (r: bool)
        ensures
            r == (self@.mode == ScreenMode::Input),
    {
        self.mode == ScreenMode::Input
    }

    /// Whether the screen still runs.
    pub fn is_running(&self) -> (r: bool)
        ensures
            r == self@.running,
    {
        self.running
    }

    /// The workspace being edited, if any.
    pub fn workspace_id(&self) -> (r: Option<WorkspaceId>)
        ensures
            r == self@.form.workspace_id,
    {
        self.form.workspace_id()
    }

    /// Empties the focused input.
    pub fn clear_input(&mut self)
        ensures
            final(self)@ == with_form(old(self)@, edit_active(old(self)@.form, |v: InputView| v.delete_all_chars())),
    {
        self.form.clear_input();
    }

    /// Deletes the character before the cursor in the focused input.
    pub fn delete_char(&mut self)
        ensures
            final(self)@ == with_form(old(self)@, edit_active(old(self)@.form, |v: InputView| v.delete_char())),
    {
        self.form.delete_char();
    }

    /// Types `c` into the focused input.
    pub fn enter_char(&mut self, c: char)
        ensures
            final(self)@ == with_form(old(self)@, edit_active(old(self)@.form, |v: InputView| v.enter_char(c))),
    {
        self.form.enter_char(c);
    }

    /// Moves the cursor of the focused input one character left.
    pub fn move_cursor_left(&mut self)
        ensures
            final(self)@ == with_form(old(self)@, edit_active(old(self)@.form, |v: InputView| v.move_cursor_left())),
    {
        self.form.move_cursor_left();
    }

    /// Moves the cursor of the focused input one character right.
    pub fn move_cursor_right(&mut self)
        ensures
            final(self)@ == with_form(old(self)@, edit_active(old(self)@.form, |v: InputView| v.move_cursor_right())),
    {
        self.form.move_cursor_right();
    }

    /// Moves the focus to the other input.
    pub fn select_next_input(&mut self)
        ensures
            final(self)@ == with_form(
                old(self)@,
                ModelStateView { active_input: next_input(old(self)@.form.active_input), ..old(self)@.form },
            ),
    {
        self.form.select_next_input();
    }

    /// Asks to create a workspace with what is typed.
    pub fn create_workspace(&mut self)
        ensures
            final(self)@ == with_form(
                old(self)@,
                ModelStateView { redirect: Some(create_route(old(self)@.form)), ..old(self)@.form },
            ),
    {
        self.form.set_redirect_to_create_workspace();
    }

    /// Asks to save workspace `id` with what is typed.
    pub fn update_workspace(&mut self, id: WorkspaceId)
        ensures
            final(self)@ == with_form(
                old(self)@,
                ModelStateView { redirect: Some(update_route(old(self)@.form, id)), ..old(self)@.form },
            ),
    {
        self.form.set_redirect_to_update_workspace(id);
    }

    /// Asks for the first page of workspaces.
    pub fn list_workspaces(&mut self)
        ensures
            final(self)@ == with_form(old(self)@, ModelStateView { redirect: Some(list_route()), ..old(self)@.form }),
    {
        self.form.set_redirect_to_list_workspaces();
    }

    /// Keys now type into the form.
    pub fn enter_input_mode(&mut self)
        ensures
            final(self)@ == (ScreenView { mode: ScreenMode::Input, ..old(self)@ }),
    {
        self.mode = ScreenMode::Input;
    }

    /// Keys now command the screen.
    pub fn exit_input_mode(&mut self)
        ensures
            final(self)@ == (ScreenView { mode: ScreenMode::Normal, ..old(self)@ }),
    {
        self.mode = ScreenMode::Normal;
    }

    /// Stops the screen.
    pub fn exit(&mut self)
        ensures
            final(self)@ == (ScreenView { running: false, ..old(self)@ }),
    {
        self.running = false;
    }

    /// The route the screen asks for, handed over once.
    pub fn redirect(&mut self) -> (r: Option<Route>)
        ensures
            route_view(r) == old(self)@.form.redirect,
            final(self)@ == with_form(old(self)@, ModelStateView { redirect: None, ..old(self)@.form }),
    {
        self.form.redirect()
    }

    /// Records the workspace being edited.
    pub fn set_workspace_id(&mut self, id: WorkspaceId)
        ensures
            final(self)@ == with_form(old(self)@, ModelStateView { workspace_id: Some(id), ..old(self)@.form }),
    {
        self.form.set_workspace_id(id);
    }

    /// Puts `name` in the name input.
    pub fn set_workspace_name(&mut self, name: String)
        ensures
            final(self)@ == with_form(old(self)@, ModelStateView { name: InputView::with_text(name@), ..old(self)@.form }),
    {
        self.form.set_workspace_name(name);
    }

    /// Puts `location` in the location input.
    pub fn set_workspace_location(&mut self, location: String)
        ensures
            final(self)@ == with_form(
                old(self)@,
                ModelStateView { location: InputView::with_text(location@), ..old(self)@.form },
            ),
    {
        self.form.set_workspace_location(location);
    }

    /// Draws the screen with `theme`.
    pub fn set_theme(&mut self, theme: Theme)
        ensures
            final(self)@ == with_form(old(self)@, ModelStateView { theme, ..old(self)@.form }),
    {
        self.form.set_theme(theme);
    }

    /// The form, for drawing.
    pub fn form(&self) -> (r: &ModelState)
        ensures
            r@ == self@.form,
    {
        &self.form
    }
}

} // verus!
