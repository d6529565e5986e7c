use hermione_terminal::keyboard::Event;
use hermione_terminal::program::enter_terminal::{apply_response, update_state};
use hermione_terminal::program::integration::{Request, Response, RunCommandOptions};
use hermione_terminal::program::state::{Context, ListItem, Mode, NoticeKind, State};

fn item(id: u128, text: &str) -> ListItem {
    ListItem { id, text: text.to_string() }
}

fn listed_workspaces() -> State {
    let mut state = State::initial();
    let request = Request::ListWorkspaces { name_contains: String::new(), searching: false };
    let next = apply_response(&mut state, &request, Response::Items(vec![item(1, "Home"), item(2, "Work")]));
    assert_eq!(next, None);
    state
}

#[test]
fn listing_workspaces_selects_the_first() {
    let state = listed_workspaces();
    assert_eq!(state.context, Context::Workspaces);
    assert_eq!(state.workspace_id, Some(1));
    assert_eq!(state.list.items.len(), 2);
}

#[test]
fn moving_down_and_up_wraps_around_the_list() {
    let mut state = listed_workspaces();
    assert_eq!(update_state(&mut state, Event::Down), None);
    assert_eq!(state.workspace_id, Some(2));
    update_state(&mut state, Event::Char('j'));
    assert_eq!(state.workspace_id, Some(1));
    update_state(&mut state, Event::Up);
    assert_eq!(state.workspace_id, Some(2));
    update_state(&mut state, Event::Char('k'));
    assert_eq!(state.workspace_id, Some(1));
}

#[test]
fn typing_a_filter_asks_for_matching_workspaces() {
    let mut state = listed_workspaces();
    update_state(&mut state, Event::Slash);
    assert_eq!(state.mode, Mode::Input);
    let request = update_state(&mut state, Event::Char('w'));
    assert_eq!(request, Some(Request::ListWorkspaces { name_contains: "w".to_string(), searching: true }));
    let request = update_state(&mut state, Event::Backspace);
    assert_eq!(request, Some(Request::ListWorkspaces { name_contains: String::new(), searching: true }));
    update_state(&mut state, Event::Esc);
    assert_eq!(state.mode, Mode::Normal);
}

#[test]
fn right_lists_the_commands_of_the_selected_workspace() {
    let mut state = listed_workspaces();
    let request = update_state(&mut state, Event::Right);
    assert_eq!(
        request,
        Some(Request::ListCommands { workspace_id: 1, program_contains: String::new(), searching: false })
    );
    let request = request.unwrap();
    apply_response(&mut state, &request, Response::Items(vec![item(10, "cargo build")]));
    assert_eq!(state.context, Context::Commands);
    assert_eq!(state.command_id, Some(10));
    assert_eq!(
        update_state(&mut state, Event::Space),
        Some(Request::RunCommand { command_id: 10, options: RunCommandOptions { no_exit: false } })
    );
    assert_eq!(
        update_state(&mut state, Event::BackSlash),
        Some(Request::RunCommand { command_id: 10, options: RunCommandOptions { no_exit: true } })
    );
}

#[test]
fn a_new_workspace_form_creates_on_enter_and_lists_after() {
    let mut state = listed_workspaces();
    update_state(&mut state, Event::Char('n'));
    assert_eq!(state.context, Context::WorkspaceForm);
    update_state(&mut state, Event::Char('i'));
    update_state(&mut state, Event::Char('Q'));
    update_state(&mut state, Event::Tab);
    update_state(&mut state, Event::Char('/'));
    update_state(&mut state, Event::Esc);
    let request = update_state(&mut state, Event::Enter);
    assert_eq!(request, Some(Request::CreateWorkspace { name: "Q".to_string(), location: "/".to_string() }));
    let follow_up = apply_response(&mut state, &request.unwrap(), Response::Done);
    assert_eq!(follow_up, Some(Request::ListWorkspaces { name_contains: String::new(), searching: false }));
}

#[test]
fn a_failed_backup_is_reported_in_a_notice() {
    let mut state = listed_workspaces();
    let request = Request::BackupWorkspace { workspace_id: Some(1) };
    assert!(request.reports_failure());
    let follow_up = apply_response(&mut state, &request, Response::Failed("locked".to_string()));
    assert_eq!(follow_up, None);
    let notice = state.notice.as_ref().unwrap();
    assert_eq!(notice.kind, NoticeKind::Error);
    assert_eq!(notice.message, "locked");
    assert!(!Request::DeleteWorkspace { id: 1 }.reports_failure());
}

#[test]
fn backing_up_workspaces_continues_with_commands_unless_it_failed() {
    let mut state = listed_workspaces();
    assert_eq!(
        apply_response(&mut state, &Request::BackupWorkspaces, Response::Done),
        Some(Request::BackupCommands)
    );
    assert_eq!(
        apply_response(&mut state, &Request::BackupWorkspaces, Response::Failed("offline".to_string())),
        None
    );
}

#[test]
fn q_types_in_input_mode() {
    let mut state = listed_workspaces();
    update_state(&mut state, Event::Slash);
    update_state(&mut state, Event::Char('q'));
    assert_eq!(state.list.filter, "q");
}

#[test]
fn typed_characters_with_a_meaning_of_their_own() {
    assert_eq!(Event::from_char('/'), Event::Slash);
    assert_eq!(Event::from_char('\\'), Event::BackSlash);
    assert_eq!(Event::from_char(' '), Event::Space);
    assert_eq!(Event::from_char('1'), Event::NumberOne);
    assert_eq!(Event::from_char('x'), Event::Char('x'));
}
