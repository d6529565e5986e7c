//! How a message becomes a signal to the workspace screen, and what each
//! signal does.
use vstd::prelude::*;
use crate::input::InputView;
use crate::message::Message;
use crate::models::workspace_form_model::state::{
    create_route, edit_active, list_route, next_input, update_route, ModelStateView,
};
use super::screen::{with_form, Screen, ScreenMode, ScreenView};
use super::sygnal::Sygnal;

verus! {

/// The signal a message gives, if any. In normal mode Esc goes back to the
/// list, `i` starts typing and `q` quits; in input mode the editing keys
/// edit the focused input and Esc stops typing. Enter saves in both.
pub open spec fn sygnal_for(m: Message, s: ScreenView) -> Option<Sygnal> {
    let normal = s.mode == ScreenMode::Normal;
    let input = s.mode == ScreenMode::Input;
    match m {
        Message::Cancel => if normal {
            Some(Sygnal::ListWorkspaces)
        } else if input {
            Some(Sygnal::ExitInputMode)
        } else {
            None
        },
        Message::DeleteAllChars => if input { Some(Sygnal::ClearInput) } else { None },
        Message::DeleteChar => if input { Some(Sygnal::DeleteChar) } else { None },
        Message::EnterChar(c) => if input {
            Some(Sygnal::EnterChar(c))
        } else if normal && c == 'i' {
            Some(Sygnal::EnterInputMode)
        } else if normal && c == 'q' {
            Some(Sygnal::Exit)
        } else {
            None
        },
        Message::MoveCusorLeft => if input { Some(Sygnal::MoveCusorLeft) } else { None },
        Message::MoveCusorRight => if input { Some(Sygnal::MoveCusorRight) } else { None },
        Message::Submit => match s.form.workspace_id {
            Some(id) => Some(Sygnal::UpdateWorkspace(id)),
            None => Some(Sygnal::CreateWorkspace),
        },
        Message::Tab => if input { Some(Sygnal::SelectNextInput) } else { None },
        Message::ExecuteCommand | Message::SelectNext | Message::SelectPrevious => None,
    }
}

/// The screen after a signal.
pub open spec fn after(g: Sygnal, s: ScreenView) -> ScreenView {
    match g {
        Sygnal::ClearInput => with_form(s, edit_active(s.form, |v: InputView| v.delete_all_chars())),
        Sygnal::CreateWorkspace => with_form(s, ModelStateView { redirect: Some(create_route(s.form)), ..s.form }),
        Sygnal::DeleteChar => with_form(s, edit_active(s.form, |v: InputView| v.delete_char())),
        Sygnal::EnterChar(c) => with_form(s, edit_active(s.form, |v: InputView| v.enter_char(c))),
        Sygnal::EnterInputMode => ScreenView { mode: ScreenMode::Input, ..s },
        Sygnal::Exit => ScreenView { running: false, ..s },
        Sygnal::ExitInputMode => ScreenView { mode: ScreenMode::Normal, ..s },
        Sygnal::ListWorkspaces => with_form(s, ModelStateView { redirect: Some(list_route()), ..s.form }),
        Sygnal::MoveCusorLeft => with_form(s, edit_active(s.form, |v: InputView| v.move_cursor_left())),
        Sygnal::MoveCusorRight => with_form(s, edit_active(s.form, |v: InputView| v.move_cursor_right())),
        Sygnal::SelectNextInput => with_form(
            s,
            ModelStateView { active_input: next_input(s.form.active_input), ..s.form },
        ),
        Sygnal::UpdateWorkspace(id) => with_form(
            s,
            ModelStateView { redirect: Some(update_route(s.form, id)), ..s.form },
        ),
    }
}

/// The signal that `message` gives on `screen`, if any.
pub fn create_sygnal(message: Message, screen: &Screen) -> (r: Option<Sygnal>)
    ensures
        r == sygnal_for(message, screen@),
{
    match message {
        Message::Cancel => {
            if screen.is_in_normal_mode() {
                return Some(Sygnal::ListWorkspaces);
            }
            if screen.is_in_input_mode() {
                return Some(Sygnal::ExitInputMode);
            }
        },
        Message::DeleteAllChars => {
            if screen.is_in_input_mode() {
                return Some(Sygnal::ClearInput);
            }
        },
        Message::DeleteChar => {
            if screen.is_in_input_mode() {
                return Some(Sygnal::DeleteChar);
            }
        },
        Message::EnterChar(c) => {
            if screen.is_in_input_mode() {
                return Some(Sygnal::EnterChar(c));
            }
            if screen.is_in_normal_mode() {
                if c == 'i' {
                    return Some(Sygnal::EnterInputMode);
                }
                if c == 'q' {
                    return Some(Sygnal::Exit);
                }
            }
        },
        Message::MoveCusorLeft => {
            if screen.is_in_input_mode() {
                return Some(Sygnal::MoveCusorLeft);
            }
        },
        Message::MoveCusorRight => {
            if screen.is_in_input_mode() {
                return Some(Sygnal::MoveCusorRight);
            }
        },
        Message::Submit => {
            if let Some(id) = screen.workspace_id() {
                return Some(Sygnal::UpdateWorkspace(id));
            } else {
                return Some(Sygnal::CreateWorkspace);
            }
        },
        Message::Tab => {
            if screen.is_in_input_mode() {
                return Some(Sygnal::SelectNextInput);
            }
        },
        Message::ExecuteCommand | Message::SelectNext | Message::SelectPrevious => {},
    }
    None
}

/// Does what `sygnal` asks for.
pub fn update_screen(sygnal: Sygnal, screen: &mut Screen)
    ensures
        final(screen)@ == after(sygnal, old(screen)@),
{
    match sygnal {
        Sygnal::ClearInput => screen.clear_input(),
        Sygnal::CreateWorkspace => screen.create_workspace(),
        Sygnal::DeleteChar => screen.delete_char(),
        Sygnal::EnterChar(c) => screen.enter_char(c),
        Sygnal::EnterInputMode => screen.enter_input_mode(),
        Sygnal::Exit => screen.exit(),
        Sygnal::ExitInputMode => screen.exit_input_mode(),
        Sygnal::ListWorkspaces => screen.list_workspaces(),
        Sygnal::MoveCusorLeft => screen.move_cursor_left(),
        Sygnal::MoveCusorRight => screen.move_cursor_right(),
        Sygnal::SelectNextInput => screen.select_next_input(),
        Sygnal::UpdateWorkspace(workspace_id) => screen.update_workspace(workspace_id),
    }
}

} // verus!
