use hermione_terminal::coordinator::{Positive, Workspace};
use hermione_terminal::message::Message;
use hermione_terminal::models::workspace_form_model::{WorkspaceFormModel, WorkspaceModelParameters as FormParameters};
use hermione_terminal::models::workspace_list::{InputMode, WorkspacesModel as FilteringList, WorkspacesModelParameters as FilteringParameters};
use hermione_terminal::models::workspace_model::{WorkspaceModel, WorkspaceModelParameters};
use hermione_terminal::models::workspaces_model::dispatcher::{dispatch, maybe_create_action, Action, SearchAction};
use hermione_terminal::models::workspaces_model::state::ModelState;
use hermione_terminal::models::workspaces_model::{WorkspacesModel, WorkspacesModelParameters};
use hermione_terminal::params::{
    CreateWorkspaceParams, EditWorkspaceParams, ListWorkspaceCommandsParams, ListWorkspacesParams, UpdateWorkspaceParams,
};
use hermione_terminal::routes::{Route, WorkspaceCommandsRoute, WorkspacesRoute};
use hermione_terminal::models::workspace_editor::WorkspaceModel as Editor;
use hermione_terminal::presenters::WorkspacePresenter;
use hermione_terminal::theme::Theme;

fn workspace(id: u128, name: &str) -> Workspace {
    Workspace { id, location: format!("C:\\{}", name), name: name.to_string() }
}

fn list(search: Option<&str>, page: Option<u32>, size: Option<u32>) -> Route {
    Route::Workspaces(WorkspacesRoute::List(ListWorkspacesParams {
        search_query: search.map(|s| s.to_string()),
        page_number: page.and_then(Positive::new),
        page_size: size.and_then(Positive::new),
    }))
}

fn screen(workspaces: Vec<Workspace>, search: &str, page: Option<u32>, size: Option<u32>) -> WorkspacesModel {
    WorkspacesModel::new(WorkspacesModelParameters {
        workspaces,
        search_query: search.to_string(),
        page_number: page.and_then(Positive::new),
        page_size: size.and_then(Positive::new),
        theme: Theme::plain(),
    })
}

#[test]
fn slash_starts_a_search_that_reloads_as_it_is_typed() {
    let mut model = screen(vec![workspace(1, "Home")], "", None, Some(20));
    assert!(model.state().is_in_normal_mode());
    model.update(Message::EnterChar('/'));
    assert!(model.state().is_in_search_mode());
    model.update(Message::EnterChar('h'));
    assert_eq!(model.redirect(), Some(list(Some("h"), Some(1), Some(20))));
    model.update(Message::DeleteAllChars);
    assert_eq!(model.redirect(), Some(list(Some(""), Some(1), Some(20))));
}

#[test]
fn a_search_query_starts_the_screen_in_search_mode() {
    let model = screen(vec![], "ho", None, None);
    assert!(model.state().is_in_search_mode());
    assert_eq!(model.state().search(), "ho");
    assert_eq!(model.state().search_character_index(), 2);
    assert_eq!(model.state().workspaces_state(), None);
}

#[test]
fn escape_discards_the_search_and_enter_keeps_it() {
    let mut model = screen(vec![workspace(1, "Home")], "ho", None, None);
    model.update(Message::Submit);
    assert!(model.state().is_in_normal_mode());
    assert_eq!(model.redirect(), None);
    assert_eq!(model.state().search(), "ho");
    model.update(Message::EnterChar('/'));
    model.update(Message::Cancel);
    assert!(model.state().is_in_normal_mode());
    assert_eq!(model.redirect(), Some(list(Some(""), Some(1), None)));
}

#[test]
fn normal_mode_keys_ask_for_routes() {
    let mut model = screen(vec![workspace(1, "Home"), workspace(2, "Work")], "", None, Some(20));
    model.update(Message::EnterChar('n'));
    assert_eq!(model.redirect(), Some(Route::Workspaces(WorkspacesRoute::New)));
    model.update(Message::EnterChar('e'));
    assert_eq!(model.redirect(), Some(Route::from(EditWorkspaceParams { id: 1 })));
    model.update(Message::EnterChar('j'));
    model.update(Message::Submit);
    assert_eq!(model.redirect(), Some(Route::from(EditWorkspaceParams { id: 2 })));
    model.update(Message::EnterChar('c'));
    assert_eq!(
        model.redirect(),
        Some(Route::Workspaces(WorkspacesRoute::Commands(WorkspaceCommandsRoute::List(ListWorkspaceCommandsParams {
            workspace_id: 2,
            search_query: String::new(),
            page_number: None,
            page_size: Positive::new(20),
            powershell_no_exit: false,
        }))))
    );
    assert!(model.is_running());
    model.update(Message::EnterChar('q'));
    assert!(!model.is_running());
}

#[test]
fn moving_past_a_full_page_loads_the_next_one() {
    let mut model = screen(vec![workspace(1, "A"), workspace(2, "B")], "", Some(3), Some(2));
    model.update(Message::SelectNext);
    assert_eq!(model.redirect(), None);
    model.update(Message::SelectNext);
    assert_eq!(model.redirect(), Some(list(Some(""), Some(4), Some(2))));
}

#[test]
fn moving_past_a_short_page_stays() {
    let mut model = screen(vec![workspace(1, "A"), workspace(2, "B")], "", None, None);
    model.update(Message::SelectNext);
    model.update(Message::SelectNext);
    assert_eq!(model.redirect(), None);
}

#[test]
fn moving_above_the_first_row_loads_the_previous_page() {
    let mut model = screen(vec![workspace(1, "A")], "", Some(2), None);
    model.update(Message::SelectPrevious);
    assert_eq!(model.redirect(), Some(list(Some(""), Some(1), Some(100))));
    let mut first = screen(vec![workspace(1, "A")], "", None, None);
    first.update(Message::SelectPrevious);
    assert_eq!(first.redirect(), None);
}

#[test]
fn actions_can_be_made_and_done_one_by_one() {
    let mut state = ModelState::default();
    assert_eq!(maybe_create_action(Message::EnterChar('/'), &state), Some(Action::Search(SearchAction::Start)));
    dispatch(Action::Search(SearchAction::Start), &mut state);
    assert_eq!(maybe_create_action(Message::EnterChar('q'), &state), Some(Action::Search(SearchAction::EnterChar('q'))));
    assert_eq!(maybe_create_action(Message::Tab, &state), None);
    dispatch(Action::Search(SearchAction::EnterChar('q')), &mut state);
    dispatch(Action::Search(SearchAction::MoveCursorLeft), &mut state);
    assert_eq!(state.search_character_index(), 0);
    dispatch(Action::Stop, &mut state);
    assert!(!state.is_running());
}

#[test]
fn workspace_form_creates_or_updates() {
    let mut new = WorkspaceFormModel::new(FormParameters { workspace: None, theme: Theme::plain() });
    assert!(new.is_running());
    new.update(Message::EnterChar('A'));
    new.update(Message::Tab);
    new.update(Message::EnterChar('/'));
    new.update(Message::Submit);
    assert_eq!(new.redirect(), Some(Route::from(CreateWorkspaceParams { name: "A".to_string(), location: "/".to_string() })));
    let mut edit = WorkspaceFormModel::new(FormParameters { workspace: Some(workspace(5, "Old")), theme: Theme::plain() });
    assert!(edit.state().is_name_input_active());
    edit.update(Message::DeleteAllChars);
    edit.update(Message::Submit);
    assert_eq!(
        edit.redirect(),
        Some(Route::from(UpdateWorkspaceParams { id: 5, name: String::new(), location: "C:\\Old".to_string() }))
    );
    edit.update(Message::Cancel);
    assert_eq!(edit.redirect(), Some(list(None, Some(1), Some(100))));
}

#[test]
fn workspace_screen_types_only_in_input_mode() {
    let mut model = WorkspaceModel::new(WorkspaceModelParameters { workspace: Some(workspace(3, "Docs")), theme: Theme::plain() });
    model.update(Message::EnterChar('x'));
    assert_eq!(model.screen().form().workspace_name(), "Docs");
    model.update(Message::EnterChar('i'));
    assert!(model.screen().is_in_input_mode());
    model.update(Message::EnterChar('x'));
    assert_eq!(model.screen().form().workspace_name(), "Docsx");
    model.update(Message::Cancel);
    assert!(model.screen().is_in_normal_mode());
    assert_eq!(model.redirect(), None);
    model.update(Message::Cancel);
    assert_eq!(model.redirect(), Some(list(None, Some(1), Some(100))));
    model.update(Message::Submit);
    assert_eq!(
        model.redirect(),
        Some(Route::from(UpdateWorkspaceParams { id: 3, name: "Docsx".to_string(), location: "C:\\Docs".to_string() }))
    );
    model.update(Message::EnterChar('q'));
    assert!(!model.is_running());
}

fn filtering(workspaces: Vec<Workspace>, search: Option<&str>, page: Option<u32>, size: Option<u32>) -> FilteringList {
    FilteringList::new(FilteringParameters {
        page_number: page.and_then(Positive::new),
        page_size: size.and_then(Positive::new),
        search_query: search.map(|s| s.to_string()),
        theme: Theme::plain(),
        workspaces,
    })
}

#[test]
fn filtering_list_reloads_as_the_search_is_typed() {
    let mut model = filtering(vec![workspace(1, "A")], None, None, Some(5));
    assert_eq!(model.input_mode(), InputMode::Normal);
    model.update(Message::EnterChar('/'));
    assert_eq!(model.input_mode(), InputMode::Input);
    assert_eq!(model.redirect(), None);
    model.update(Message::EnterChar('a'));
    assert_eq!(model.redirect(), Some(list(Some("a"), Some(1), Some(5))));
    model.update(Message::Submit);
    assert_eq!(model.input_mode(), InputMode::Normal);
    assert_eq!(model.redirect(), None);
    model.update(Message::EnterChar('/'));
    model.update(Message::Cancel);
    assert_eq!(model.redirect(), Some(list(None, Some(1), Some(5))));
}

#[test]
fn filtering_list_reloads_at_the_end_of_a_full_page() {
    let mut model = filtering(vec![workspace(1, "A"), workspace(2, "B")], None, None, Some(2));
    model.update(Message::EnterChar('j'));
    assert_eq!(model.selected(), Some(1));
    assert_eq!(model.redirect(), None);
    model.update(Message::EnterChar('j'));
    assert_eq!(model.selected(), Some(1));
    assert_eq!(model.redirect(), Some(list(None, Some(1), Some(2))));
}

#[test]
fn filtering_list_moving_up_never_moves_the_selection() {
    let mut model = filtering(vec![workspace(1, "A"), workspace(2, "B"), workspace(3, "C")], None, None, None);
    model.update(Message::SelectNext);
    model.update(Message::SelectNext);
    model.update(Message::SelectPrevious);
    assert_eq!(model.selected(), Some(2));
    assert_eq!(model.redirect(), None);
    model.set_selected(Some(1));
    model.update(Message::SelectPrevious);
    assert_eq!(model.selected(), Some(1));
    assert_eq!(model.redirect(), Some(list(None, Some(1), None)));
}

#[test]
fn filtering_list_keys_in_normal_mode() {
    let mut model = filtering(vec![workspace(9, "A")], None, None, None);
    model.update(Message::EnterChar('c'));
    assert_eq!(
        model.redirect(),
        Some(Route::Workspaces(WorkspacesRoute::Commands(WorkspaceCommandsRoute::List(ListWorkspaceCommandsParams {
            workspace_id: 9,
            search_query: String::new(),
            page_number: None,
            page_size: None,
            powershell_no_exit: false,
        }))))
    );
    model.update(Message::Submit);
    assert_eq!(model.redirect(), Some(Route::from(EditWorkspaceParams { id: 9 })));
    model.update(Message::EnterChar('n'));
    assert_eq!(model.redirect(), Some(Route::Workspaces(WorkspacesRoute::New)));
    model.update(Message::EnterChar('q'));
    assert!(!model.is_running());
}

#[test]
fn workspace_editor_creates_or_updates() {
    let mut new = Editor::default().theme(Theme::plain());
    new.update(Message::EnterChar('N'));
    new.update(Message::Submit);
    assert_eq!(new.redirect(), Some(Route::from(CreateWorkspaceParams { name: "N".to_string(), location: String::new() })));
    new.update(Message::Cancel);
    assert_eq!(new.redirect(), Some(list(Some(""), None, None)));
    let mut edit = Editor::default().workspace(WorkspacePresenter { id: 6, location: "/x".to_string(), name: "X".to_string() });
    edit.update(Message::Tab);
    assert_eq!(edit.active_input().value(), "/x");
    edit.update(Message::EnterChar('y'));
    edit.update(Message::Submit);
    assert_eq!(edit.redirect(), Some(Route::from(UpdateWorkspaceParams { id: 6, name: "X".to_string(), location: "/xy".to_string() })));
}
