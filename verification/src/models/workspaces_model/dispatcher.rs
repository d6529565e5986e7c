//! How a message becomes an action on the list of workspaces, and what
//! each action does.
use vstd::prelude::*;
use crate::coordinator::WorkspaceId;
use crate::message::Message;
use crate::routes::{RouteView, WorkspacesRouteView};
use crate::selection::{next_selection, previous_selection};
use super::state::{
    commands_route, edit_route, first_selected, last_selected, list_route, next_page,
    previous_page, search_reload, selected_id, Mode, ModelState, ModelStateView,
};

verus! {

/// What the list of workspaces can be asked to do.
#[derive(Clone, Copy, Debug, PartialEq, Eq, Structural)]
pub enum Action {
    GoToEditWokspace(WorkspaceId),
    GoToNewWorkspaceForm,
    GoToWorkspaceCommands(WorkspaceId),
    LoadNextPage,
    LoadPreviousPage,
    Search(SearchAction),
    SelectNextWorkspace,
    SelectPreviousWorkspace,
    Stop,
}

/// What can be done to the search.
#[derive(Clone, Copy, Debug, PartialEq, Eq, Structural)]
pub enum SearchAction {
    Clear,
    DeleteChar,
    Discard,
    End,
    EnterChar(char),
    MoveCursorLeft,
    MoveCursorRight,
    Start,
}

/// Moving down: in search mode always within the page; otherwise past the
/// last row loads the next page.
pub open spec fn next_action(s: ModelStateView) -> Action {
    if s.mode == Mode::Searching {
        Action::SelectNextWorkspace
    } else if last_selected(s) {
        Action::LoadNextPage
    } else {
        Action::SelectNextWorkspace
    }
}

/// Moving up: in search mode always within the page; otherwise above the
/// first row loads the previous page.
pub open spec fn previous_action(s: ModelStateView) -> Action {
    if s.mode == Mode::Searching {
        Action::SelectPreviousWorkspace
    } else if first_selected(s) {
        Action::LoadPreviousPage
    } else {
        Action::SelectPreviousWorkspace
    }
}

/// What typing `c` asks for in normal mode.
pub open spec fn normal_key_action(c: char, s: ModelStateView) -> Option<Action> {
    if c == '/' {
        Some(Action::Search(SearchAction::Start))
    } else if c == 'c' && selected_id(s) is Some {
        Some(Action::GoToWorkspaceCommands(selected_id(s)->0))
    } else if c == 'n' {
        Some(Action::GoToNewWorkspaceForm)
    } else if c == 'q' {
        Some(Action::Stop)
    } else if c == 'e' && selected_id(s) is Some {
        Some(Action::GoToEditWokspace(selected_id(s)->0))
    } else if c == 'j' {
        Some(next_action(s))
    } else if c == 'k' {
        Some(previous_action(s))
    } else {
        None
    }
}

/// The action a message asks for, if any.
pub open spec fn action_for(m: Message, s: ModelStateView) -> Option<Action> {
    let searching = s.mode == Mode::Searching;
    match m {
        Message::Cancel => if searching { Some(Action::Search(SearchAction::Discard)) } else { None },
        Message::DeleteAllChars => if searching { Some(Action::Search(SearchAction::Clear)) } else { None },
        Message::DeleteChar => if searching { Some(Action::Search(SearchAction::DeleteChar)) } else { None },
        Message::EnterChar(c) => if searching {
            Some(Action::Search(SearchAction::EnterChar(c)))
        } else {
            normal_key_action(c, s)
        },
        Message::MoveCusorLeft => if searching { Some(Action::Search(SearchAction::MoveCursorLeft)) } else { None },
        Message::MoveCusorRight => if searching { Some(Action::Search(SearchAction::MoveCursorRight)) } else { None },
        Message::SelectNext => Some(next_action(s)),
        Message::SelectPrevious => Some(previous_action(s)),
        Message::Submit => if searching {
            Some(Action::Search(SearchAction::End))
        } else if selected_id(s) is Some {
            Some(Action::GoToEditWokspace(selected_id(s)->0))
        } else {
            None
        },
        Message::ExecuteCommand | Message::Tab => None,
    }
}

/// The state after an action.
pub open spec fn after(a: Action, s: ModelStateView) -> ModelStateView {
    match a {
        Action::Search(action) => match action {
            SearchAction::Clear => search_reload(ModelStateView { search: s.search.delete_all_chars(), ..s }),
            SearchAction::DeleteChar => search_reload(ModelStateView { search: s.search.delete_char(), ..s }),
            SearchAction::Discard => ModelStateView {
                mode: Mode::Normal,
                redirect: Some(list_route(Seq::empty(), Some(1), s.page_size)),
                ..s
            },
            SearchAction::End => ModelStateView { mode: Mode::Normal, ..s },
            SearchAction::EnterChar(c) => search_reload(ModelStateView { search: s.search.enter_char(c), ..s }),
            SearchAction::MoveCursorLeft => ModelStateView { search: s.search.move_cursor_left(), ..s },
            SearchAction::MoveCursorRight => ModelStateView { search: s.search.move_cursor_right(), ..s },
            SearchAction::Start => ModelStateView { mode: Mode::Searching, ..s },
        },
        Action::GoToEditWokspace(id) => ModelStateView { redirect: Some(edit_route(id)), ..s },
        Action::GoToNewWorkspaceForm => ModelStateView { redirect: Some(RouteView::Workspaces(WorkspacesRouteView::New)), ..s },
        Action::GoToWorkspaceCommands(id) => ModelStateView { redirect: Some(commands_route(s, id)), ..s },
        Action::LoadNextPage => next_page(s),
        Action::LoadPreviousPage => previous_page(s),
        Action::SelectNextWorkspace => ModelStateView { selected: next_selection(s.selected), ..s },
        Action::SelectPreviousWorkspace => ModelStateView { selected: previous_selection(s.selected), ..s },
        Action::Stop => ModelStateView { running: false, ..s },
    }
}

/// Does what `action` asks for.
pub fn dispatch(action: Action, state: &mut ModelState)
    ensures
        final(state)@ == after(action, old(state)@),
{
    match action {
        Action::Search(action) => match action {
            SearchAction::Clear => state.delete_search_query(),
            SearchAction::DeleteChar => state.edit_search_query(),
            SearchAction::Discard => state.exit_search_mode(),
            SearchAction::End => state.enter_normal_mode(),
            SearchAction::EnterChar(c) => state.update_search_query(c),
            SearchAction::MoveCursorLeft => state.move_search_query_cursor_left(),
            SearchAction::MoveCursorRight => state.move_search_query_cursor_right(),
            SearchAction::Start => state.enter_search_mode(),
        },
        Action::GoToEditWokspace(id) => state.set_workspace_redirect(id),
        Action::GoToNewWorkspaceForm => state.set_new_workspace_redirect(),
        Action::GoToWorkspaceCommands(id) => state.set_commands_redirect(id),
        Action::LoadNextPage => state.set_next_page_redirect(),
        Action::LoadPreviousPage => state.set_previous_page_redirect(),
        Action::SelectNextWorkspace => state.select_next_workspace(),
        Action::SelectPreviousWorkspace => state.select_previous_workspace(),
        Action::Stop => state.stop(),
    }
}

/// The action that `message` asks for in `state`, if any.
pub fn maybe_create_action(message: Message, state: &ModelState) -> (r: Option<Action>)
    ensures
        r == action_for(message, state@),
{
    match message {
        Message::Cancel => {
            if state.is_in_search_mode() {
                return Some(Action::Search(SearchAction::Discard));
            }
        },
        Message::DeleteAllChars => {
            if state.is_in_search_mode() {
                return Some(Action::Search(SearchAction::Clear));
            }
        },
        Message::DeleteChar => {
            if state.is_in_search_mode() {
                return Some(Action::Search(SearchAction::DeleteChar));
            }
        },
        Message::EnterChar(c) => {
            if state.is_in_search_mode() {
                return Some(Action::Search(SearchAction::EnterChar(c)));
            }
            if state.is_in_normal_mode() {
                if c == '/' {
                    return Some(Action::Search(SearchAction::Start));
                }
                if c == 'c' && state.is_in_normal_mode() {
                    if let Some(id) = state.selected_workspace_id() {
                        return Some(Action::GoToWorkspaceCommands(id));
                    }
                }
                if c == 'n' {
                    return Some(Action::GoToNewWorkspaceForm);
                }
                if c == 'q' {
                    return Some(Action::Stop);
                }
                if c == 'e' {
                    if let Some(id) = state.selected_workspace_id() {
                        return Some(Action::GoToEditWokspace(id));
                    }
                }
                if c == 'j' {
                    return Some(select_next(state));
                }
                if c == 'k' {
                    return Some(select_previous(state));
                }
            }
        },
        Message::MoveCusorLeft => {
            if state.is_in_search_mode() {
                return Some(Action::Search(SearchAction::MoveCursorLeft));
            }
        },
        Message::MoveCusorRight => {
            if state.is_in_search_mode() {
                return Some(Action::Search(SearchAction::MoveCursorRight));
            }
        },
        Message::SelectNext => return Some(select_next(state)),
        Message::SelectPrevious => return Some(select_previous(state)),
        Message::Submit => {
            if state.is_in_search_mode() {
                return Some(Action::Search(SearchAction::End));
            }
            if state.is_in_normal_mode() {
                if let Some(id) = state.selected_workspace_id() {
                    return Some(Action::GoToEditWokspace(id));
                }
            }
        },
        Message::ExecuteCommand | Message::Tab => {},
    }
    None
}

fn select_next(state: &ModelState) -> (r: Action)
    ensures
        r == next_action(state@),
{
    if state.is_in_search_mode() {
        return Action::SelectNextWorkspace;
    }
    if state.is_last_workspace_selected() {
        Action::LoadNextPage
    } else {
        Action::SelectNextWorkspace
    }
}

fn select_previous(state: &ModelState) -> (r: Action)
    ensures
        r == previous_action(state@),
{
    if state.is_in_search_mode() {
        return Action::SelectPreviousWorkspace;
    }
    if state.is_first_workspace_selected() {
        Action::LoadPreviousPage
    } else {
        Action::SelectPreviousWorkspace
    }
}

} // verus!
