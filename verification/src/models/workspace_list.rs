//! The list of workspaces whose search filters the list as it is typed:
//! `/` starts the search, Enter keeps it, Esc drops it.
use vstd::prelude::*;
use crate::coordinator::{Positive, Workspace, WorkspaceId, WorkspaceView};
use crate::input::{Input, InputView};
use crate::message::Message;
use crate::params::{
    opt_positive_view, EditWorkspaceParams, EditWorkspaceParamsView, ListWorkspaceCommandsParams,
    ListWorkspaceCommandsParamsView, ListWorkspacesParams, ListWorkspacesParamsView,
};
use crate::routes::{
    route_view, Route, RouteView, WorkspaceCommandsRouteView, WorkspacesRoute, WorkspacesRouteView,
};
use crate::selection::{next_selection, select_first, select_next};
use crate::theme::Theme;

verus! {

/// The list of workspaces.
pub struct WorkspacesModel {
    is_running: bool,
    redirect: Option<Route>,
    search: Search,
    theme: Theme,
    workspaces: Workspaces,
}

/// What the list shows first; a search query puts it in search mode.
pub struct WorkspacesModelParameters {
    pub page_number: Option<Positive>,
    pub page_size: Option<Positive>,
    pub search_query: Option<String>,
    pub theme: Theme,
    pub workspaces: Vec<Workspace>,
}

/// The search field and whether keys type into it.
struct Search {
    input: Input,
    enabled: bool,
}

/// The page of workspaces and the selected row.
struct Workspaces {
    items: Vec<Workspace>,
    page_number: Option<Positive>,
    page_size: Option<Positive>,
    selected: Option<usize>,
}

/// What the list can be asked to do.
#[derive(Clone, Copy, Debug, PartialEq, Eq, Structural)]
pub enum Action {
    Redirect(RedirectAction),
    ReloadWorkspaces,
    Search(SearchAction),
    SelectNextWorkspace,
    SelectPreviousWorkspace,
    Stop,
}

/// Where the list can send the terminal.
#[derive(Clone, Copy, Debug, PartialEq, Eq, Structural)]
pub enum RedirectAction {
    EditWorkspace(WorkspaceId),
    NewWorkspace,
    Commands(WorkspaceId),
}

/// What can be done to the search.
#[derive(Clone, Copy, Debug, PartialEq, Eq, Structural)]
pub enum SearchAction {
    Activate,
    Clear,
    Confirm,
    Deactivate,
    DeleteChar,
    EnterChar(char),
}

/// Whether keys command the list or type into the search.
#[derive(Clone, Copy, Debug, PartialEq, Eq, Structural)]
pub enum InputMode {
    Normal,
    Input,
}

/// Turns messages into actions, knowing the mode and the selected workspace.
struct MessageHandler {
    workspace_id: Option<WorkspaceId>,
    input_mode: InputMode,
}

/// The list, as a value.
pub struct WorkspacesModelView {
    pub running: bool,
    pub redirect: Option<RouteView>,
    pub search: InputView,
    pub searching: bool,
    pub theme: Theme,
    pub items: Seq<WorkspaceView>,
    pub page_number: Option<u32>,
    pub page_size: Option<u32>,
    /// The selected row, as ratatui's `ListState` holds it.
    pub selected: Option<usize>,
}

impl View for WorkspacesModel {
    type V = WorkspacesModelView;

    closed spec fn view(&self) -> WorkspacesModelView {
        WorkspacesModelView {
            running: self.is_running,
            redirect: route_view(self.redirect),
            search: self.search.input@,
            searching: self.search.enabled,
            theme: self.theme,
            items: self.workspaces.items@.map_values(|w: Workspace| w@),
            page_number: opt_positive_view(self.workspaces.page_number),
            page_size: opt_positive_view(self.workspaces.page_size),
            selected: self.workspaces.selected,
        }
    }
}

/// The mode the list is in.
pub open spec fn mode_of(s: WorkspacesModelView) -> InputMode {
    if s.searching { InputMode::Input } else { InputMode::Normal }
}

/// The workspace under the selection, if the selection is on one.
pub open spec fn selected_id(s: WorkspacesModelView) -> Option<WorkspaceId> {
    match s.selected {
        Some(i) => if i < s.items.len() { Some(s.items[i as int].id) } else { None },
        None => None,
    }
}

/// The action a message asks for, if any.
pub open spec fn action_for(m: Message, s: WorkspacesModelView) -> Option<Action> {
    let input = s.searching;
    match m {
        Message::Cancel => if input { Some(Action::Search(SearchAction::Deactivate)) } else { None },
        Message::DeleteAllChars => if input { Some(Action::Search(SearchAction::Clear)) } else { None },
        Message::DeleteChar => if input { Some(Action::Search(SearchAction::DeleteChar)) } else { None },
        Message::EnterChar(c) => if input {
            Some(Action::Search(SearchAction::EnterChar(c)))
        } else if c == '/' {
            Some(Action::Search(SearchAction::Activate))
        } else if c == 'j' {
            Some(Action::SelectNextWorkspace)
        } else if c == 'k' {
            Some(Action::SelectPreviousWorkspace)
        } else if c == 'q' {
            Some(Action::Stop)
        } else if c == 'n' {
            Some(Action::Redirect(RedirectAction::NewWorkspace))
        } else if c == 'c' {
            match selected_id(s) {
                Some(id) => Some(Action::Redirect(RedirectAction::Commands(id))),
                None => None,
            }
        } else {
            None
        },
        Message::SelectNext => if !input { Some(Action::SelectNextWorkspace) } else { None },
        Message::SelectPrevious => if !input { Some(Action::SelectPreviousWorkspace) } else { None },
        Message::Submit => if input {
            Some(Action::Search(SearchAction::Confirm))
        } else {
            match selected_id(s) {
                Some(id) => Some(Action::Redirect(RedirectAction::EditWorkspace(id))),
                None => None,
            }
        },
        Message::ExecuteCommand | Message::MoveCusorLeft | Message::MoveCusorRight | Message::Tab => None,
    }
}

/// The first page of workspaces, searching with what is typed while the
/// search is on.
pub open spec fn reloaded(s: WorkspacesModelView) -> WorkspacesModelView {
    WorkspacesModelView {
        redirect: Some(
            RouteView::Workspaces(
                WorkspacesRouteView::List(
                    ListWorkspacesParamsView {
                        search_query: if s.searching { Some(s.search.text) } else { None },
                        page_number: Some(1),
                        page_size: s.page_size,
                    },
                ),
            ),
        ),
        ..s
    }
}

/// The list after an action, and the action it leads to.
pub open spec fn step(a: Action, s: WorkspacesModelView) -> (WorkspacesModelView, Option<Action>) {
    match a {
        Action::Redirect(r) => (
            WorkspacesModelView {
                redirect: Some(
                    match r {
                        RedirectAction::EditWorkspace(id) => RouteView::Workspaces(
                            WorkspacesRouteView::Edit(EditWorkspaceParamsView { id }),
                        ),
                        RedirectAction::NewWorkspace => RouteView::Workspaces(WorkspacesRouteView::New),
                        RedirectAction::Commands(workspace_id) => RouteView::Workspaces(
                            WorkspacesRouteView::Commands(
                                WorkspaceCommandsRouteView::List(
                                    ListWorkspaceCommandsParamsView {
                                        workspace_id,
                                        search_query: Seq::empty(),
                                        page_number: None,
                                        page_size: s.page_size,
                                        powershell_no_exit: false,
                                    },
                                ),
                            ),
                        ),
                    },
                ),
                ..s
            },
            None,
        ),
        Action::ReloadWorkspaces => (reloaded(s), None),
        Action::Search(a) => match a {
            SearchAction::Activate => (WorkspacesModelView { searching: true, ..s }, None),
            SearchAction::Clear => (
                WorkspacesModelView { search: s.search.delete_all_chars(), ..s },
                Some(Action::ReloadWorkspaces),
            ),
            SearchAction::Confirm => (WorkspacesModelView { searching: false, ..s }, None),
            SearchAction::Deactivate => (
                WorkspacesModelView { searching: false, ..s },
                Some(Action::ReloadWorkspaces),
            ),
            SearchAction::DeleteChar => (
                WorkspacesModelView { search: s.search.delete_char(), ..s },
                Some(Action::ReloadWorkspaces),
            ),
            SearchAction::EnterChar(c) => (
                WorkspacesModelView { search: s.search.enter_char(c), ..s },
                Some(Action::ReloadWorkspaces),
            ),
        },
        Action::SelectNextWorkspace => next_step(s),
        Action::SelectPreviousWorkspace => (s, previous_step(s)),
        Action::Stop => (WorkspacesModelView { running: false, ..s }, None),
    }
}

/// The size of a page: the default size when none was asked for.
pub open spec fn page_size_of(s: WorkspacesModelView) -> u32 {
    match s.page_size {
        Some(p) => p,
        None => 100,
    }
}

/// Moving down: past the last row of a full page reloads the list;
/// otherwise the selection moves down.
pub open spec fn next_step(s: WorkspacesModelView) -> (WorkspacesModelView, Option<Action>) {
    if s.items.len() == 0 {
        (s, None)
    } else if s.selected matches Some(i) && i + 1 == page_size_of(s) {
        (s, Some(Action::ReloadWorkspaces))
    } else {
        (WorkspacesModelView { selected: next_selection(s.selected), ..s }, None)
    }
}

/// Moving up never moves the selection: on the second row it reloads the
/// list, elsewhere it does nothing.
pub open spec fn previous_step(s: WorkspacesModelView) -> Option<Action> {
    if s.items.len() == 0 {
        None
    } else {
        match s.selected {
            Some(i) => if i == 0 && (match s.page_number { Some(n) => n, None => 1u32 }) == 1 {
                None
            } else if i == 1 {
                Some(Action::ReloadWorkspaces)
            } else {
                None
            },
            None => None,
        }
    }
}

/// How many more steps an action can lead to.
pub open spec fn rank(a: Option<Action>) -> nat {
    match a {
        None => 0,
        Some(Action::ReloadWorkspaces) => 1,
        Some(_) => 2,
    }
}

/// An action leads at most to a reload of the list, and a reload leads to
/// nothing: a message is settled in at most two steps.
pub proof fn lemma_step_leads_at_most_to_reload(a: Action, s: WorkspacesModelView)
    ensures
        step(a, s).1 is None || step(a, s).1 == Some(Action::ReloadWorkspaces),
        step(Action::ReloadWorkspaces, s).1 is None,
        step(a, s).1 matches Some(b) ==> step(b, step(a, s).0).1 is None,
{
}

/// Leaving the search while searching turns it off and reloads the list
/// with no query, from the first page, at the same page size.
pub proof fn lemma_deactivate_reloads_without_search(s: WorkspacesModelView)
    requires
        s.searching,
    ensures
        step(Action::Search(SearchAction::Deactivate), s)
            == (WorkspacesModelView { searching: false, ..s }, Some(Action::ReloadWorkspaces)),
        step(Action::ReloadWorkspaces, WorkspacesModelView { searching: false, ..s }).0.redirect
            == Some(
            RouteView::Workspaces(
                WorkspacesRouteView::List(
                    ListWorkspacesParamsView {
                        search_query: None,
                        page_number: Some(1),
                        page_size: s.page_size,
                    },
                ),
            ),
        ),
        !step(Action::ReloadWorkspaces, WorkspacesModelView { searching: false, ..s }).0.searching,
{
}

/// The list once an action and every action it leads to are done.
pub open spec fn settle(s: WorkspacesModelView, a: Option<Action>) -> WorkspacesModelView
    decreases rank(a),
{
    match a {
        None => s,
        Some(x) => {
            let (t, n) = step(x, s);
            if rank(n) < rank(a) {
                settle(t, n)
            } else {
                t
            }
        },
    }
}

/// The list after a message.
pub open spec fn update(s: WorkspacesModelView, m: Message) -> WorkspacesModelView {
    settle(s, action_for(m, s))
}

impl Search {
    fn new(search_query: Option<String>) -> (r: Search)
        ensures
            match search_query {
                Some(q) => r.enabled && r.input@ == InputView::with_text(q@),
                None => !r.enabled && r.input@ == InputView::with_text(Seq::empty()),
            },
    {
        match search_query {
            Some(query) => Search { input: Input::new(query), enabled: true },
            None => Search { input: Input::empty(), enabled: false },
        }
    }
}

impl Workspaces {
    fn selected_id(&self) -> (r: Option<WorkspaceId>)
        ensures
            r == (match self.selected {
                Some(i) => if i < self.items@.len() { Some(self.items@[i as int].id) } else { None },
                None => None,
            }),
    {
        match self.selected {
            Some(i) => if i < self.items.len() {
                Some(self.items[i].id)
            } else {
                None
            },
            None => None,
        }
    }
}

impl MessageHandler {
    fn handle_message(self, message: Message, s: Ghost<WorkspacesModelView>) -> (r: Option<Action>)
        requires
            self.input_mode == mode_of(s@),
            self.workspace_id == selected_id(s@),
        ensures
            r == action_for(message, s@),
    {
        let input = self.input_mode == InputMode::Input;
        match message {
            Message::Cancel => if input { Some(Action::Search(SearchAction::Deactivate)) } else { None },
            Message::DeleteAllChars => if input { Some(Action::Search(SearchAction::Clear)) } else { None },
            Message::DeleteChar => if input { Some(Action::Search(SearchAction::DeleteChar)) } else { None },
            Message::EnterChar(c) => self.enter_char(c),
            Message::ExecuteCommand => None,
            Message::MoveCusorLeft => None,
            Message::MoveCusorRight => None,
            Message::SelectNext => if !input { Some(Action::SelectNextWorkspace) } else { None },
            Message::SelectPrevious => if !input { Some(Action::SelectPreviousWorkspace) } else { None },
            Message::Submit => self.submit(),
            Message::Tab => None,
        }
    }

    fn enter_char(self, c: char) -> (r: Option<Action>)
        ensures
            self.input_mode == InputMode::Input ==> r == Some(Action::Search(SearchAction::EnterChar(c))),
            self.input_mode == InputMode::Normal ==> r == (if c == '/' {
                Some(Action::Search(SearchAction::Activate))
            } else if c == 'j' {
                Some(Action::SelectNextWorkspace)
            } else if c == 'k' {
                Some(Action::SelectPreviousWorkspace)
            } else if c == 'q' {
                Some(Action::Stop)
            } else if c == 'n' {
                Some(Action::Redirect(RedirectAction::NewWorkspace))
            } else if c == 'c' {
                match self.workspace_id {
                    Some(id) => Some(Action::Redirect(RedirectAction::Commands(id))),
                    None => None,
                }
            } else {
                None
            }),
    {
        if self.input_mode == InputMode::Input {
            return Some(Action::Search(SearchAction::EnterChar(c)));
        }
        match c {
            '/' => Some(Action::Search(SearchAction::Activate)),
            'j' => Some(Action::SelectNextWorkspace),
            'k' => Some(Action::SelectPreviousWorkspace),
            'q' => Some(Action::Stop),
            'n' => Some(Action::Redirect(RedirectAction::NewWorkspace)),
            'c' => match self.workspace_id {
                Some(id) => Some(Action::Redirect(RedirectAction::Commands(id))),
                None => None,
            },
            _ => None,
        }
    }

    fn submit(self) -> (r: Option<Action>)
        ensures
            r == (match self.input_mode {
                InputMode::Input => Some(Action::Search(SearchAction::Confirm)),
                InputMode::Normal => match self.workspace_id {
                    Some(id) => Some(Action::Redirect(RedirectAction::EditWorkspace(id))),
                    None => None,
                },
            }),
    {
        match self.input_mode {
            InputMode::Normal => match self.workspace_id {
                Some(workspace_id) => Some(Action::Redirect(RedirectAction::EditWorkspace(workspace_id))),
                None => None,
            },
            InputMode::Input => Some(Action::Search(SearchAction::Confirm)),
        }
    }
}

impl WorkspacesModel {
    /// The list showing `workspaces`, the first selected; in search mode
    /// when a search query is given.
    pub fn new(parameters: WorkspacesModelParameters) -> (r: WorkspacesModel)
        ensures
            r@.running,
            r@.redirect is None,
            r@.theme == parameters.theme,
            r@.items == parameters.workspaces@.map_values(|w: Workspace| w@),
            r@.selected == (if parameters.workspaces@.len() > 0 { Some(0usize) } else { None }),
            r@.page_number == opt_positive_view(parameters.page_number),
            r@.page_size == opt_positive_view(parameters.page_size),
            match parameters.search_query {
                Some(q) => r@.searching && r@.search == InputView::with_text(q@),
                None => !r@.searching && r@.search == InputView::with_text(Seq::empty()),
            },
    {
        let WorkspacesModelParameters { workspaces, search_query, page_number, page_size, theme } =
            parameters;
        let search = Search::new(search_query);
        let selected = if workspaces.len() > 0 {
            select_first(None)
        } else {
            None
        };
        WorkspacesModel {
            is_running: true,
            redirect: None,
            search,
            theme,
            workspaces: Workspaces { items: workspaces, page_number, page_size, selected },
        }
    }

    /// Whether the list still runs.
    pub fn is_running(&self) -> (r: bool)
        ensures
            r == self@.running,
    {
        self.is_running
    }

    /// The route the list asks for, handed over once.
    pub fn redirect(&mut self) -> (r: Option<Route>)
        ensures
            route_view(r) == old(self)@.redirect,
            final(self)@ == (WorkspacesModelView { redirect: None, ..old(self)@ }),
    {
        self.redirect.take()
    }

    /// The mode the list is in.
    pub fn input_mode(&self) -> (r: InputMode)
        ensures
            r == mode_of(self@),
    {
        if self.search.enabled {
            InputMode::Input
        } else {
            InputMode::Normal
        }
    }

    /// Handles a message: the action it asks for is done, and then the
    /// action that leads to, until none is left.
    pub fn update(&mut self, message: Message)
        ensures
            final(self)@ == update(old(self)@, message),
    {
        let handler = MessageHandler {
            input_mode: self.input_mode(),
            workspace_id: self.workspaces.selected_id(),
        };
        let mut maybe_action = handler.handle_message(message, Ghost(self@));
        let ghost goal = update(old(self)@, message);
        while maybe_action.is_some()
            invariant
                settle(self@, maybe_action) == goal,
            decreases rank(maybe_action),
        {
            let action = maybe_action.unwrap();
            maybe_action = self.handle_update(action);
        }
    }

    /// Does `action` and returns the action it leads to: at most a reload,
    /// and nothing after a reload.
    pub fn handle_update(&mut self, action: Action) -> (r: Option<Action>)
        ensures
            (final(self)@, r) == step(action, old(self)@),
            rank(r) < rank(Some(action)),
            r is None || r == Some(Action::ReloadWorkspaces),
            action == Action::ReloadWorkspaces ==> r is None,
    {
        let mut next_action = None;
        match action {
            Action::Redirect(action) => match action {
                RedirectAction::EditWorkspace(id) => {
                    self.redirect = Some(Route::from(EditWorkspaceParams { id }));
                },
                RedirectAction::NewWorkspace => {
                    self.redirect = Some(Route::from(WorkspacesRoute::New));
                },
                RedirectAction::Commands(workspace_id) => {
                    self.redirect = Some(
                        Route::from(
                            ListWorkspaceCommandsParams {
                                workspace_id,
                                search_query: String::new(),
                                page_number: None,
                                page_size: self.workspaces.page_size,
                                powershell_no_exit: false,
                            },
                        ),
                    );
                },
            },
            Action::ReloadWorkspaces => self.reload(),
            Action::Search(action) => match action {
                SearchAction::Activate => {
                    self.search.enabled = true;
                },
                SearchAction::Clear => {
                    self.search.input.delete_all_chars();
                    next_action = Some(Action::ReloadWorkspaces);
                },
                SearchAction::Confirm => {
                    self.search.enabled = false;
                },
                SearchAction::Deactivate => {
                    self.search.enabled = false;
                    next_action = Some(Action::ReloadWorkspaces);
                },
                SearchAction::DeleteChar => {
                    self.search.input.delete_char();
                    next_action = Some(Action::ReloadWorkspaces);
                },
                SearchAction::EnterChar(c) => {
                    self.search.input.enter_char(c);
                    next_action = Some(Action::ReloadWorkspaces);
                },
            },
            Action::SelectNextWorkspace => {
                next_action = self.select_next_workspace();
            },
            Action::SelectPreviousWorkspace => {
                next_action = self.select_previous_workspace();
            },
            Action::Stop => {
                self.is_running = false;
            },
        }
        next_action
    }

    fn reload(&mut self)
        ensures
            final(self)@ == reloaded(old(self)@),
    {
        let search_query = if self.search.enabled {
            Some(self.search.input.value())
        } else {
            None
        };
        self.redirect = Some(
            Route::from(
                ListWorkspacesParams {
                    search_query,
                    page_number: Positive::new(1),
                    page_size: self.workspaces.page_size,
                },
            ),
        );
    }

    fn select_next_workspace(&mut self) -> (r: Option<Action>)
        ensures
            (final(self)@, r) == next_step(old(self)@),
    {
        if self.workspaces.items.len() == 0 {
            return None;
        }
        if let Some(index) = self.workspaces.selected {
            let page_size = match self.workspaces.page_size {
                Some(p) => p.get(),
                None => crate::coordinator::default_page_size().get(),
            };
            if index < usize::MAX && index + 1 == page_size as usize {
                return Some(Action::ReloadWorkspaces);
            }
        }
        self.workspaces.selected = select_next(self.workspaces.selected);
        None
    }

    fn select_previous_workspace(&self) -> (r: Option<Action>)
        ensures
            r == previous_step(self@),
    {
        if self.workspaces.items.len() == 0 {
            return None;
        }
        if let Some(index) = self.workspaces.selected {
            let page_number = match self.workspaces.page_number {
                Some(n) => n.get(),
                None => 1,
            };
            if index == 0 && page_number == 1 {
                return None;
            }
            if index == 1 {
                return Some(Action::ReloadWorkspaces);
            }
        }
        None
    }

    /// The workspaces shown.
    pub fn workspaces(&self) -> (r: &Vec<Workspace>)
        ensures
            r@.map_values(|w: Workspace| w@) == self@.items,
    {
        &self.workspaces.items
    }

    /// The selected row, as ratatui's `ListState` holds it.
    pub fn selected(&self) -> (r: Option<usize>)
        ensures
            r == self@.selected,
    {
        self.workspaces.selected
    }

    /// Takes back the selection as drawing left it.
    pub fn set_selected(&mut self, selected: Option<usize>)
        ensures
            final(self)@ == (WorkspacesModelView { selected, ..old(self)@ }),
    {
        self.workspaces.selected = selected;
    }

    /// The search field.
    pub fn search(&self) -> (r: &Input)
        ensures
            r@ == self@.search,
    {
        &self.search.input
    }

    /// The colours of the list.
    pub fn theme(&self) -> (r: Theme)
        ensures
            r == self@.theme,
    {
        self.theme
    }
}

/// Every key typed into the search, and every deletion, reloads the first
/// page with the search as it now reads.
pub proof fn lemma_search_edits_reload(s: WorkspacesModelView, m: Message)
    requires
        s.searching,
        m is EnterChar || m is DeleteChar || m is DeleteAllChars,
    ensures
        update(s, m).redirect == Some(
            RouteView::Workspaces(
                WorkspacesRouteView::List(
                    ListWorkspacesParamsView {
                        search_query: Some(update(s, m).search.text),
                        page_number: Some(1),
                        page_size: s.page_size,
                    },
                ),
            ),
        ),
        update(s, m).searching,
{
    reveal_with_fuel(settle, 3);
}

/// Esc in search mode turns the search off and reloads the first page
/// with no search; Enter turns it off and keeps the page as it is.
pub proof fn lemma_leaving_search(s: WorkspacesModelView)
    requires
        s.searching,
    ensures
        update(s, Message::Cancel) == reloaded(WorkspacesModelView { searching: false, ..s }),
        update(s, Message::Submit) == (WorkspacesModelView { searching: false, ..s }),
{
    reveal_with_fuel(settle, 3);
}

} // verus!
