//! The workspace screen, with a normal mode and an input mode.
use vstd::prelude::*;
use crate::coordinator::Workspace;
use crate::input::InputView;
use crate::message::Message;
use crate::models::workspace_form_model::state::ModelStateView;
use crate::routes::{route_view, Route};
use crate::theme::Theme;
use hub::{after, create_sygnal, sygnal_for, update_screen};
use screen::{with_form, Screen, ScreenMode, ScreenView};

pub mod hub;
pub mod screen;
pub mod sygnal;

verus! {

/// The workspace screen.
pub struct WorkspaceModel(Screen);

/// The workspace to edit, if any, and how to draw the screen.
pub struct WorkspaceModelParameters {
    pub workspace: Option<Workspace>,
    pub theme: Theme,
}

impl View for WorkspaceModel {
    type V = ScreenView;

    closed spec fn view(&self) -> ScreenView {
        self.0@
    }
}

/// The screen after a message: the signal it gives is acted on, if any.
pub open spec fn update(s: ScreenView, m: Message) -> ScreenView {
    match sygnal_for(m, s) {
        Some(g) => after(g, s),
        None => s,
    }
}

impl WorkspaceModel {
    /// The screen in normal mode, its form holding the workspace to edit
    /// or empty for a new one.
    pub fn new(parameters: WorkspaceModelParameters) -> (r: WorkspaceModel)
        ensures
            r@.mode == ScreenMode::Normal,
            r@.running,
            r@.form.redirect is None,
            r@.form.theme == parameters.theme,
            match parameters.workspace {
                Some(w) => r@.form.workspace_id == Some(w.id) && r@.form.name == InputView::with_text(w.name@)
                    && r@.form.location == InputView::with_text(w.location@),
                None => r@.form.workspace_id is None && r@.form.name == InputView::with_text(Seq::empty())
                    && r@.form.location == InputView::with_text(Seq::empty()),
            },
    {
        let WorkspaceModelParameters { workspace, theme } = parameters;
        let mut screen = Screen::default();
        if let Some(workspace) = workspace {
            screen.set_workspace_id(workspace.id);
            screen.set_workspace_name(workspace.name);
            screen.set_workspace_location(workspace.location);
        }
        screen.set_theme(theme);
        WorkspaceModel(screen)
    }

    /// Whether the screen still runs.
    pub fn is_running(&self) -> (r: bool)
        ensures
            r == self@.running,
    {
        self.0.is_running()
    }

    /// The route the screen asks for, handed over once.
    pub fn redirect(&mut self) -> (r: Option<Route>)
        ensures
            route_view(r) == old(self)@.form.redirect,
            final(self)@ == with_form(old(self)@, ModelStateView { redirect: None, ..old(self)@.form }),
    {
        self.0.redirect()
    }

    /// Handles a message.
    pub fn update(&mut self, message: Message)
        ensures
            final(self)@ == update(old(self)@, message),
    {
        if let Some(sygnal) = create_sygnal(message, &self.0) {
            update_screen(sygnal, &mut self.0);
        }
    }

    /// What the screen draws from.
    pub fn screen(&self) -> (r: &Screen)
        ensures
            r@ == self@,
    {
        &self.0
    }
}

/// In normal mode no key other than Enter, Esc, `i` and `q` changes
/// anything, and typed characters never reach the form.
pub proof fn lemma_normal_mode_keys_do_not_type(s: ScreenView, c: char)
    requires
        s.mode == ScreenMode::Normal,
    ensures
        update(s, Message::EnterChar(c)).form == s.form,
        c != 'i' && c != 'q' ==> update(s, Message::EnterChar(c)) == s,
        update(s, Message::DeleteChar) == s,
        update(s, Message::DeleteAllChars) == s,
        update(s, Message::Tab) == s,
{
}

/// `i` and then Esc come back to normal mode with nothing else changed.
pub proof fn lemma_input_mode_round_trip(s: ScreenView)
    requires
        s.mode == ScreenMode::Normal,
    ensures
        update(update(s, Message::EnterChar('i')), Message::Cancel) == s,
{
}

/// Enter saves the workspace being edited, or creates a new one, with the
/// name and location as typed, whatever the mode.
pub proof fn lemma_submit_saves_what_is_typed(s: ScreenView)
    ensures
        update(s, Message::Submit).form.redirect == Some(
            match s.form.workspace_id {
                Some(id) => crate::models::workspace_form_model::state::update_route(s.form, id),
                None => crate::models::workspace_form_model::state::create_route(s.form),
            },
        ),
{
}

} // verus!
