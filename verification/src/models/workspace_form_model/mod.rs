//! The form that creates a workspace or edits one.
use vstd::prelude::*;
use crate::coordinator::Workspace;
use crate::input::InputView;
use crate::message::Message;
use crate::routes::{route_view, Route};
use crate::theme::Theme;
use dispatcher::{action_for, after, dispatch, maybe_create_action};
use state::{InputName, ModelState, ModelStateView};

pub mod dispatcher;
pub mod state;

verus! {

/// The workspace form.
pub struct WorkspaceFormModel {
    state: ModelState,
}

/// The workspace to edit, if any, and how to draw the form.
pub struct WorkspaceModelParameters {
    pub workspace: Option<Workspace>,
    pub theme: Theme,
}

impl View for WorkspaceFormModel {
    type V = ModelStateView;

    closed spec fn view(&self) -> ModelStateView {
        self.state@
    }
}

/// The form after a message: the action it asks for is done, if any.
pub open spec fn update(s: ModelStateView, m: Message) -> ModelStateView {
    match action_for(m, s) {
        Some(a) => after(a, s),
        None => s,
    }
}

impl WorkspaceFormModel {
    /// The form, holding the workspace to edit or empty for a new one.
    pub fn new(parameters: WorkspaceModelParameters) -> (r: WorkspaceFormModel)
        ensures
            r@.active_input == InputName::Name,
            r@.redirect is None,
            r@.theme == parameters.theme,
            match parameters.workspace {
                Some(w) => r@.workspace_id == Some(w.id) && r@.name == InputView::with_text(w.name@)
                    && r@.location == InputView::with_text(w.location@),
                None => r@.workspace_id is None && r@.name == InputView::with_text(Seq::empty())
                    && r@.location == InputView::with_text(Seq::empty()),
            },
    {
        let WorkspaceModelParameters { workspace, theme } = parameters;
        let mut state = ModelState::default();
        if let Some(workspace) = workspace {
            state.set_workspace_id(workspace.id);
            state.set_workspace_name(workspace.name);
            state.set_workspace_location(workspace.location);
        }
        state.set_theme(theme);
        WorkspaceFormModel { state }
    }

    /// The form never stops by itself: it leaves by asking for another route.
    pub fn is_running(&self) -> (r: bool)
        ensures
            r,
    {
        true
    }

    /// The route the form asks for, handed over once.
    pub fn redirect(&mut self) -> (r: Option<Route>)
        ensures
            route_view(r) == old(self)@.redirect,
            final(self)@ == (ModelStateView { redirect: None, ..old(self)@ }),
    {
        self.state.redirect()
    }

    /// Handles a message.
    pub fn update(&mut self, message: Message)
        ensures
            final(self)@ == update(old(self)@, message),
    {
        if let Some(action) = maybe_create_action(message, &self.state) {
            dispatch(action, &mut self.state);
        }
    }

    /// What the form draws from.
    pub fn state(&self) -> (r: &ModelState)
        ensures
            r@ == self@,
    {
        &self.state
    }
}

} // verus!
