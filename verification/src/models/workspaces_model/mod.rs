//! The list of workspaces, one page at a time, with a search.
use vstd::prelude::*;
use crate::coordinator::{Positive, Workspace};
use crate::input::InputView;
use crate::message::Message;
use crate::params::opt_positive_view;
use crate::routes::Route;
use crate::theme::Theme;
use dispatcher::{action_for, after, dispatch, maybe_create_action};
use state::{list_route, Mode, ModelState, ModelStateView};

pub mod dispatcher;
pub mod state;

verus! {

/// The screen that lists workspaces.
pub struct WorkspacesModel {
    state: ModelState,
}

/// What the screen shows first.
pub struct WorkspacesModelParameters {
    pub workspaces: Vec<Workspace>,
    pub search_query: String,
    pub page_number: Option<Positive>,
    pub page_size: Option<Positive>,
    pub theme: Theme,
}

impl View for WorkspacesModel {
    type V = ModelStateView;

    closed spec fn view(&self) -> ModelStateView {
        self.state@
    }
}

/// The screen after a message: the action it asks for is done, if any.
pub open spec fn update(s: ModelStateView, m: Message) -> ModelStateView {
    match action_for(m, s) {
        Some(a) => after(a, s),
        None => s,
    }
}

impl WorkspacesModel {
    /// The screen showing `workspaces`, the first selected; in search mode
    /// when a search was made.
    pub fn new(parameters: WorkspacesModelParameters) -> (r: WorkspacesModel)
        ensures
            r@.mode == (if parameters.search_query@.len() > 0 { Mode::Searching } else { Mode::Normal }),
            r@.search == InputView::with_text(parameters.search_query@),
            r@.theme == parameters.theme,
            r@.workspaces == parameters.workspaces@.map_values(|w: Workspace| w@),
            r@.selected == (if parameters.workspaces@.len() > 0 { Some(0usize) } else { None }),
            r@.page_number == opt_positive_view(parameters.page_number),
            r@.page_size == opt_positive_view(parameters.page_size),
            r@.redirect is None,
            r@.running,
    {
        let WorkspacesModelParameters { workspaces, search_query, page_number, page_size, theme } =
            parameters;
        let mut state = ModelState::default();
        if !search_query.as_str().is_empty() {
            state.activate_search_mode();
        }
        state.set_search_query(search_query);
        state.set_theme(theme);
        state.set_workspaces(workspaces);
        if let Some(page_number) = page_number {
            state.set_page_number(page_number);
        }
        if let Some(page_size) = page_size {
            state.set_page_size(page_size);
        }
        WorkspacesModel { state }
    }

    /// Whether the screen still runs.
    pub fn is_running(&self) -> (r: bool)
        ensures
            r == self@.running,
    {
        self.state.is_running()
    }

    /// The route the screen asks for, handed over once.
    pub fn redirect(&mut self) -> (r: Option<Route>)
        ensures
            crate::routes::route_view(r) == old(self)@.redirect,
            final(self)@ == (ModelStateView { redirect: None, ..old(self)@ }),
    {
        self.state.redirect()
    }

    /// Handles a message.
    pub fn update(&mut self, message: Message)
        ensures
            final(self)@ == update(old(self)@, message),
    {
        if let Some(action) = maybe_create_action(message, &self.state) {
            dispatch(action, &mut self.state);
        }
    }

    /// What the screen draws from.
    pub fn state(&self) -> (r: &ModelState)
        ensures
            r@ == self@,
    {
        &self.state
    }
}

/// In search mode, typing, deleting and clearing each ask for the first
/// page of workspaces matching the search as it now reads.
pub proof fn lemma_search_edits_reload_first_page(s: ModelStateView, m: Message)
    requires
        s.mode == Mode::Searching,
        m is EnterChar || m is DeleteChar || m is DeleteAllChars,
    ensures
        update(s, m).redirect == Some(list_route(update(s, m).search.text, Some(1), s.page_size)),
        update(s, m).mode == Mode::Searching,
        update(s, m).workspaces == s.workspaces,
{
}

/// In search mode, a character typed and then deleted leaves the search
/// as it was.
pub proof fn lemma_search_delete_undoes_typing(s: ModelStateView, c: char)
    requires
        s.mode == Mode::Searching,
        s.search.wf(),
        s.search.text.len() < usize::MAX,
    ensures
        update(update(s, Message::EnterChar(c)), Message::DeleteChar).search == s.search,
{
    crate::input::lemma_delete_undoes_enter(s.search, c);
}

/// Escape in search mode leaves it and lists the first page with no search;
/// in normal mode it does nothing.
pub proof fn lemma_cancel_discards_search(s: ModelStateView)
    ensures
        s.mode == Mode::Searching ==> update(s, Message::Cancel) == (ModelStateView {
            mode: Mode::Normal,
            redirect: Some(list_route(Seq::empty(), Some(1), s.page_size)),
            ..s
        }),
        s.mode == Mode::Normal ==> update(s, Message::Cancel) == s,
{
}

/// In normal mode, `q` stops the screen and changes nothing else.
pub proof fn lemma_q_stops_in_normal_mode(s: ModelStateView)
    requires
        s.mode == Mode::Normal,
    ensures
        update(s, Message::EnterChar('q')) == (ModelStateView { running: false, ..s }),
{
}

} // verus!
