//! How a message becomes an action on the workspace form, and what each
//! action does.
use vstd::prelude::*;
use crate::coordinator::WorkspaceId;
use crate::input::InputView;
use crate::message::Message;
use super::state::{
    create_route, edit_active, list_route, next_input, update_route, ModelState, ModelStateView,
};

verus! {

/// What the workspace form can be asked to do.
#[derive(Clone, Copy, Debug, PartialEq, Eq, Structural)]
pub enum Action {
    ClearInput,
    DeleteChar,
    EnterChar(char),
    GoToWorkspacesList,
    MoveCusorLeft,
    MoveCusorRight,
    GoToCreateWorkspace,
    GoToUpdateWorkspace(WorkspaceId),
    SelectNextInput,
}

/// The action a message asks for, if any: Enter saves the workspace being
/// edited, or creates a new one.
pub open spec fn action_for(m: Message, s: ModelStateView) -> Option<Action> {
    match m {
        Message::Cancel => Some(Action::GoToWorkspacesList),
        Message::DeleteAllChars => Some(Action::ClearInput),
        Message::DeleteChar => Some(Action::DeleteChar),
        Message::EnterChar(c) => Some(Action::EnterChar(c)),
        Message::MoveCusorLeft => Some(Action::MoveCusorLeft),
        Message::MoveCusorRight => Some(Action::MoveCusorRight),
        Message::Submit => match s.workspace_id {
            Some(id) => Some(Action::GoToUpdateWorkspace(id)),
            None => Some(Action::GoToCreateWorkspace),
        },
        Message::Tab => Some(Action::SelectNextInput),
        Message::ExecuteCommand | Message::SelectNext | Message::SelectPrevious => None,
    }
}

/// The form after an action.
pub open spec fn after(a: Action, s: ModelStateView) -> ModelStateView {
    match a {
        Action::ClearInput => edit_active(s, |v: InputView| v.delete_all_chars()),
        Action::DeleteChar => edit_active(s, |v: InputView| v.delete_char()),
        Action::EnterChar(c) => edit_active(s, |v: InputView| v.enter_char(c)),
        Action::GoToWorkspacesList => ModelStateView { redirect: Some(list_route()), ..s },
        Action::MoveCusorLeft => edit_active(s, |v: InputView| v.move_cursor_left()),
        Action::MoveCusorRight => edit_active(s, |v: InputView| v.move_cursor_right()),
        Action::SelectNextInput => ModelStateView { active_input: next_input(s.active_input), ..s },
        Action::GoToCreateWorkspace => ModelStateView { redirect: Some(create_route(s)), ..s },
        Action::GoToUpdateWorkspace(id) => ModelStateView { redirect: Some(update_route(s, id)), ..s },
    }
}

/// Does what `action` asks for.
pub fn dispatch(action: Action, state: &mut ModelState)
    ensures
        final(state)@ == after(action, old(state)@),
{
    match action {
        Action::ClearInput => state.clear_input(),
        Action::DeleteChar => state.delete_char(),
        Action::EnterChar(c) => state.enter_char(c),
        Action::GoToWorkspacesList => state.set_redirect_to_list_workspaces(),
        Action::MoveCusorLeft => state.move_cursor_left(),
        Action::MoveCusorRight => state.move_cursor_right(),
        Action::SelectNextInput => state.select_next_input(),
        Action::GoToCreateWorkspace => state.set_redirect_to_create_workspace(),
        Action::GoToUpdateWorkspace(id) => state.set_redirect_to_update_workspace(id),
    }
}

/// The action that `message` asks for in `state`, if any.
pub fn maybe_create_action(message: Message, state: &ModelState) -> (r: Option<Action>)
    ensures
        r == action_for(message, state@),
{
    match message {
        Message::Cancel => Some(Action::GoToWorkspacesList),
        Message::DeleteAllChars => Some(Action::ClearInput),
        Message::DeleteChar => Some(Action::DeleteChar),
        Message::EnterChar(c) => Some(Action::EnterChar(c)),
        Message::MoveCusorLeft => Some(Action::MoveCusorLeft),
        Message::MoveCusorRight => Some(Action::MoveCusorRight),
        Message::Submit => {
            if let Some(id) = state.workspace_id() {
                Some(Action::GoToUpdateWorkspace(id))
            } else {
                Some(Action::GoToCreateWorkspace)
            }
        },
        Message::Tab => Some(Action::SelectNextInput),
        Message::ExecuteCommand | Message::SelectNext | Message::SelectPrevious => None,
    }
}

} // verus!
