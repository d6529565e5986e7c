//! What the list of workspaces holds: the page of workspaces shown, the
//! selection, the search query and the mode the screen is in.
use vstd::prelude::*;
use crate::coordinator::{default_page_size, first_page, Positive, Workspace, WorkspaceId, WorkspaceView};
use crate::input::{Input, InputView};
use crate::params::{
    opt_positive_view, EditWorkspaceParams, EditWorkspaceParamsView, ListWorkspaceCommandsParams,
    ListWorkspaceCommandsParamsView, ListWorkspacesParams, ListWorkspacesParamsView,
};
use crate::routes::{
    route_view, Route, RouteView, WorkspaceCommandsRouteView, WorkspacesRoute, WorkspacesRouteView,
};
use crate::selection::{next_selection, previous_selection, select_first, select_next, select_previous};
use crate::theme::Theme;

verus! {

/// Whether keys move around the list or type into the search.
#[derive(Clone, Copy, Debug, PartialEq, Eq, Structural)]
pub enum Mode {
    Normal,
    Searching,
}

/// The state of the list of workspaces.
pub struct ModelState {
    selected: Option<usize>,
    mode: Mode,
    page_number: Option<Positive>,
    page_size: Option<Positive>,
    redirect: Option<Route>,
    search_query: Input,
    theme: Theme,
    running: bool,
    workspaces: Vec<Workspace>,
}

/// The state, as a value.
pub struct ModelStateView {
    /// The selected row, as ratatui's `ListState` holds it.
    pub selected: Option<usize>,
    pub mode: Mode,
    pub page_number: Option<u32>,
    pub page_size: Option<u32>,
    pub redirect: Option<RouteView>,
    pub search: InputView,
    pub theme: Theme,
    pub running: bool,
    pub workspaces: Seq<WorkspaceView>,
}

impl View for ModelState {
    type V = ModelStateView;

    closed spec fn view(&self) -> ModelStateView {
        ModelStateView {
            selected: self.selected,
            mode: self.mode,
            page_number: opt_positive_view(self.page_number),
            page_size: opt_positive_view(self.page_size),
            redirect: route_view(self.redirect),
            search: self.search_query@,
            theme: self.theme,
            running: self.running,
            workspaces: self.workspaces@.map_values(|w: Workspace| w@),
        }
    }
}

/// The page shown: the first when none was asked for.
pub open spec fn page_number_of(s: ModelStateView) -> u32 {
    match s.page_number {
        Some(p) => p,
        None => 1,
    }
}

/// The size of a page: the default size when none was asked for.
pub open spec fn page_size_of(s: ModelStateView) -> u32 {
    match s.page_size {
        Some(p) => p,
        None => 100,
    }
}

/// Listing workspaces whose name matches `query`.
pub open spec fn list_route(query: Seq<char>, page_number: Option<u32>, page_size: Option<u32>) -> RouteView {
    RouteView::Workspaces(
        WorkspacesRouteView::List(
            ListWorkspacesParamsView { search_query: Some(query), page_number, page_size },
        ),
    )
}

/// The search reloads from the first page with what is typed, keeping
/// the page size that was asked for.
pub open spec fn search_reload(s: ModelStateView) -> ModelStateView {
    ModelStateView { redirect: Some(list_route(s.search.text, Some(1), s.page_size)), ..s }
}

/// The workspace under the selection, if the selection is on one.
pub open spec fn selected_id(s: ModelStateView) -> Option<WorkspaceId> {
    match s.selected {
        Some(i) => if i < s.workspaces.len() { Some(s.workspaces[i as int].id) } else { None },
        None => None,
    }
}

/// Whether the first row is selected.
pub open spec fn first_selected(s: ModelStateView) -> bool {
    s.selected == Some(0usize)
}

/// Whether the last row is selected.
pub open spec fn last_selected(s: ModelStateView) -> bool {
    match s.selected {
        Some(i) => s.workspaces.len() == i + 1,
        None => false,
    }
}

/// The next page, unless this page is not full (then there is none) or
/// its number is the largest there is.
pub open spec fn next_page(s: ModelStateView) -> ModelStateView {
    if page_size_of(s) > (s.workspaces.len() as u32) {
        s
    } else {
        ModelStateView {
            redirect: Some(
                list_route(
                    Seq::empty(),
                    if page_number_of(s) < u32::MAX { Some((page_number_of(s) + 1) as u32) } else { None },
                    Some(page_size_of(s)),
                ),
            ),
            ..s
        }
    }
}

/// The previous page, unless this is the first.
pub open spec fn previous_page(s: ModelStateView) -> ModelStateView {
    if page_number_of(s) == 1 {
        s
    } else {
        ModelStateView {
            redirect: Some(
                list_route(
                    Seq::empty(),
                    Some((page_number_of(s) - 1) as u32),
                    Some(page_size_of(s)),
                ),
            ),
            ..s
        }
    }
}

/// The commands of a workspace: no search, the first page, this page size.
pub open spec fn commands_route(s: ModelStateView, id: WorkspaceId) -> RouteView {
    RouteView::Workspaces(
        WorkspacesRouteView::Commands(
            WorkspaceCommandsRouteView::List(
                ListWorkspaceCommandsParamsView {
                    workspace_id: id,
                    search_query: Seq::empty(),
                    page_number: None,
                    page_size: Some(page_size_of(s)),
                    powershell_no_exit: false,
                },
            ),
        ),
    )
}

/// Editing a workspace.
pub open spec fn edit_route(id: WorkspaceId) -> RouteView {
    RouteView::Workspaces(WorkspacesRouteView::Edit(EditWorkspaceParamsView { id }))
}

impl Default for ModelState {
    /// Nothing listed or selected, no search, normal mode, running.
    fn default() -> (r: ModelState)
        ensures
            r@.theme.is_uniform(),
            r@.selected is None,
            r@.mode == Mode::Normal,
            r@.page_number is None,
            r@.page_size is None,
            r@.redirect is None,
            r@.search == InputView::with_text(Seq::empty()),
            r@.running,
            r@.workspaces.len() == 0,
    {
        let r = ModelState {
            selected: None,
            mode: Mode::Normal,
            page_number: None,
            page_size: None,
            redirect: None,
            search_query: Input::empty(),
            theme: Theme::plain(),
            running: true,
            workspaces: Vec::new(),
        };
        proof {
            assert(r@.workspaces =~= Seq::<WorkspaceView>::empty());
        }
        r
    }
}

impl ModelState {
    /// Starts in search mode.
    pub fn activate_search_mode(&mut self)
        ensures
            final(self)@ == (ModelStateView { mode: Mode::Searching, ..old(self)@ }),
    {
        self.mode = Mode::Searching;
    }

    /// Clears the search and reloads from the first page.
    pub fn delete_search_query(&mut self)
        ensures
            final(self)@ == search_reload(ModelStateView { search: old(self)@.search.delete_all_chars(), ..old(self)@ }),
    {
        self.search_query.delete_all_chars();
        self.reload_search();
    }

    /// Deletes a character of the search and reloads from the first page.
    pub fn edit_search_query(&mut self)
        ensures
            final(self)@ == search_reload(ModelStateView { search: old(self)@.search.delete_char(), ..old(self)@ }),
    {
        self.search_query.delete_char();
        self.reload_search();
    }

    /// Types `c` into the search and reloads from the first page.
    pub fn update_search_query(&mut self, c: char)
        ensures
            final(self)@ == search_reload(ModelStateView { search: old(self)@.search.enter_char(c), ..old(self)@ }),
    {
        self.search_query.enter_char(c);
        self.reload_search();
    }

    fn reload_search(&mut self)
        ensures
            final(self)@ == search_reload(old(self)@),
    {
        self.redirect = Some(
            Route::from(
                ListWorkspacesParams {
                    search_query: Some(self.search_query.value()),
                    page_number: first_page_number(),
                    page_size: self.page_size,
                },
            ),
        );
    }

    /// Enters search mode.
    pub fn enter_search_mode(&mut self)
        ensures
            final(self)@ == (ModelStateView { mode: Mode::Searching, ..old(self)@ }),
    {
        self.mode = Mode::Searching;
    }

    /// Leaves search mode, keeping what was searched for.
    pub fn enter_normal_mode(&mut self)
        ensures
            final(self)@ == (ModelStateView { mode: Mode::Normal, ..old(self)@ }),
    {
        self.mode = Mode::Normal;
    }

    /// Leaves search mode and lists the first page with no search.
    pub fn exit_search_mode(&mut self)
        ensures
            final(self)@ == (ModelStateView {
                mode: Mode::Normal,
                redirect: Some(list_route(Seq::empty(), Some(1), old(self)@.page_size)),
                ..old(self)@
            }),
    {
        self.mode = Mode::Normal;
        self.redirect = Some(
            Route::from(
                ListWorkspacesParams {
                    search_query: Some(String::new()),
                    page_number: first_page_number(),
                    page_size: self.page_size,
                },
            ),
        );
    }

    /// Whether keys move around the list.
    pub fn is_in_normal_mode(&self) -> (r: bool)
        ensures
            r == (self@.mode == Mode::Normal),
    {
        self.mode == Mode::Normal
    }

    /// Whether keys type into the search.
    pub fn is_in_search_mode(&self) -> (r: bool)
        ensures
            r == (self@.mode == Mode::Searching),
    {
        self.mode == Mode::Searching
    }

    /// Whether the first row is selected.
    pub fn is_first_workspace_selected(&self) -> (r: bool)
        ensures
            r == first_selected(self@),
    {
        match self.selected {
            Some(index) => index == 0,
            None => false,
        }
    }

    /// Whether the last row is selected.
    pub fn is_last_workspace_selected(&self) -> (r: bool)
        ensures
            r == last_selected(self@),
    {
        match self.selected {
            Some(index) => index < self.workspaces.len() && self.workspaces.len() - 1 == index,
            None => false,
        }
    }

    /// Whether the screen still runs.
    pub fn is_running(&self) -> (r: bool)
        ensures
            r == self@.running,
    {
        self.running
    }

    /// Moves the cursor of the search one character left.
    pub fn move_search_query_cursor_left(&mut self)
        ensures
            final(self)@ == (ModelStateView { search: old(self)@.search.move_cursor_left(), ..old(self)@ }),
    {
        self.search_query.move_cursor_left();
    }

    /// Moves the cursor of the search one character right.
    pub fn move_search_query_cursor_right(&mut self)
        ensures
            final(self)@ == (ModelStateView { search: old(self)@.search.move_cursor_right(), ..old(self)@ }),
    {
        self.search_query.move_cursor_right();
    }

    fn page_number(&self) -> (r: Positive)
        ensures
            r@ == page_number_of(self@),
    {
        match self.page_number {
            Some(p) => p,
            None => first_page(),
        }
    }

    fn page_size(&self) -> (r: Positive)
        ensures
            r@ == page_size_of(self@),
    {
        match self.page_size {
            Some(p) => p,
            None => default_page_size(),
        }
    }

    /// The route the screen asks for, handed over once.
    pub fn redirect(&mut self) -> (r: Option<Route>)
        ensures
            route_view(r) == old(self)@.redirect,
            final(self)@ == (ModelStateView { redirect: None, ..old(self)@ }),
    {
        self.redirect.take()
    }

    /// What is typed in the search.
    pub fn search(&self) -> (r: String)
        ensures
            r@ == self@.search.text,
    {
        self.search_query.value()
    }

    /// The cursor of the search, as a terminal column offset.
    pub fn search_character_index(&self) -> (r: u16)
        ensures
            r == (self@.search.cursor as u16),
    {
        #[verifier::truncate]
        (self.search_query.character_index() as u16)
    }

    /// Moves the selection down (ratatui `ListState::select_next`).
    pub fn select_next_workspace(&mut self)
        ensures
            final(self)@ == (ModelStateView { selected: next_selection(old(self)@.selected), ..old(self)@ }),
    {
        self.selected = select_next(self.selected);
    }

    /// Moves the selection up (ratatui `ListState::select_previous`).
    pub fn select_previous_workspace(&mut self)
        ensures
            final(self)@ == (ModelStateView { selected: previous_selection(old(self)@.selected), ..old(self)@ }),
    {
        self.selected = select_previous(self.selected);
    }

    /// The workspace under the selection.
    pub fn selected_workspace_id(&self) -> (r: Option<WorkspaceId>)
        ensures
            r == selected_id(self@),
    {
        match self.selected {
            Some(i) => if i < self.workspaces.len() {
                Some(self.workspaces[i].id)
            } else {
                None
            },
            None => None,
        }
    }

    /// Asks for the commands of workspace `workspace_id`.
    pub fn set_commands_redirect(&mut self, workspace_id: WorkspaceId)
        ensures
            final(self)@ == (ModelStateView { redirect: Some(commands_route(old(self)@, workspace_id)), ..old(self)@ }),
    {
        let page_size = self.page_size();
        self.redirect = Some(
            Route::from(
                ListWorkspaceCommandsParams {
                    workspace_id,
                    search_query: String::new(),
                    page_number: None,
                    page_size: Some(page_size),
                    powershell_no_exit: false,
                },
            ),
        );
    }

    /// Asks for the next page, unless this page is not full.
    pub fn set_next_page_redirect(&mut self)
        ensures
            final(self)@ == next_page(old(self)@),
    {
        let page_size = self.page_size();
        if page_size.get() > (self.workspaces.len() as u32) {
            return;
        }
        let page_number = self.page_number();
        self.redirect = Some(
            Route::from(
                ListWorkspacesParams {
                    search_query: Some(String::new()),
                    page_number: page_number.checked_add(1),
                    page_size: Some(page_size),
                },
            ),
        );
    }

    /// Asks for the form of a new workspace.
    pub fn set_new_workspace_redirect(&mut self)
        ensures
            final(self)@ == (ModelStateView { redirect: Some(RouteView::Workspaces(WorkspacesRouteView::New)), ..old(self)@ }),
    {
        self.redirect = Some(Route::Workspaces(WorkspacesRoute::New));
    }

    /// Records the page shown.
    pub fn set_page_number(&mut self, page_number: Positive)
        ensures
            final(self)@ == (ModelStateView { page_number: Some(page_number@), ..old(self)@ }),
    {
        self.page_number = Some(page_number);
    }

    /// Records the size of the pages.
    pub fn set_page_size(&mut self, page_size: Positive)
        ensures
            final(self)@ == (ModelStateView { page_size: Some(page_size@), ..old(self)@ }),
    {
        self.page_size = Some(page_size);
    }

    /// Asks for the previous page, unless this is the first.
    pub fn set_previous_page_redirect(&mut self)
        ensures
            final(self)@ == previous_page(old(self)@),
    {
        let page_number = self.page_number().get();
        if page_number == 1 {
            return;
        }
        let page_size = self.page_size();
        self.redirect = Some(
            Route::from(
                ListWorkspacesParams {
                    search_query: Some(String::new()),
                    page_number: Positive::new(page_number - 1),
                    page_size: Some(page_size),
                },
            ),
        );
    }

    /// Puts `query` in the search, the cursor at its end.
    pub fn set_search_query(&mut self, query: String)
        ensures
            final(self)@ == (ModelStateView { search: InputView::with_text(query@), ..old(self)@ }),
    {
        self.search_query = Input::new(query);
    }

    /// Draws the screen with `theme`.
    pub fn set_theme(&mut self, theme: Theme)
        ensures
            final(self)@ == (ModelStateView { theme, ..old(self)@ }),
    {
        self.theme = theme;
    }

    /// Asks to edit workspace `id`.
    pub fn set_workspace_redirect(&mut self, id: WorkspaceId)
        ensures
            final(self)@ == (ModelStateView { redirect: Some(edit_route(id)), ..old(self)@ }),
    {
        self.redirect = Some(Route::from(EditWorkspaceParams { id }));
    }

    /// Shows `workspaces`, selecting the first when there is one.
    pub fn set_workspaces(&mut self, workspaces: Vec<Workspace>)
        ensures
            final(self)@ == (ModelStateView {
                workspaces: workspaces@.map_values(|w: Workspace| w@),
                selected: if workspaces@.len() > 0 { Some(0usize) } else { old(self)@.selected },
                ..old(self)@
            }),
    {
        if workspaces.len() > 0 {
            self.selected = select_first(self.selected);
        }
        self.workspaces = workspaces;
    }

    /// Stops the screen.
    pub fn stop(&mut self)
        ensures
            final(self)@ == (ModelStateView { running: false, ..old(self)@ }),
    {
        self.running = false;
    }

    /// The colours of the screen.
    pub fn theme(&self) -> (r: Theme)
        ensures
            r == self@.theme,
    {
        self.theme
    }

    /// The workspaces shown.
    pub fn workspaces(&self) -> (r: &Vec<Workspace>)
        ensures
            r@.map_values(|w: Workspace| w@) == self@.workspaces,
    {
        &self.workspaces
    }

    /// The selected row, as ratatui's `ListState` holds it.
    pub fn workspaces_state(&self) -> (r: Option<usize>)
        ensures
            r == self@.selected,
    {
        self.selected
    }
}

/// The first page number.
fn first_page_number() -> (r: Option<Positive>)
    ensures
        r matches Some(p) && p@ == 1,
{
    Some(first_page())
}

} // verus!
