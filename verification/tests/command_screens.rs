use hermione_terminal::coordinator::{Positive, Workspace};
use hermione_terminal::error::ModelError;
use hermione_terminal::message::Message;
use hermione_terminal::models::command::Command;
use hermione_terminal::models::command_model::{CommandModel, InputName};
use hermione_terminal::models::commands::action::{all_labels, Action};
use hermione_terminal::models::commands::list::{ListWorkspaceCommandsModel, ListWorkspaceCommandsModelParameters};
use hermione_terminal::models::workspace_commands_model::{WorkspaceCommandsModel, WorkspaceCommandsModelParameters};
use hermione_terminal::params::{
    CopyCommandToClipboardParams, CreateWorkspaceCommandParams, DeleteCommandParams, EditCommandParams,
    ExecuteCommandParams, ExecuteProgramParams, ListWorkspaceCommandsParams, ListWorkspacesParams,
    NewWorkspaceCommandParams, OpenWindowsTerminalParams, UpdateWorkspaceCommandParams,
};
use hermione_terminal::presenters::{CommandPresenter, WorkspacePresenter};
use hermione_terminal::routes::{PowerShellRoute, Route, WorkspaceCommandsRoute, WorkspacesRoute};
use hermione_terminal::theme::Theme;

fn workspace() -> Workspace {
    Workspace { id: 7, location: "C:\\work".to_string(), name: "Work".to_string() }
}

fn type_text<F: FnMut(Message)>(mut update: F, text: &str) {
    for c in text.chars() {
        update(Message::EnterChar(c));
    }
}

fn commands_route(params: ListWorkspaceCommandsParams) -> Route {
    Route::Workspaces(WorkspacesRoute::Commands(WorkspaceCommandsRoute::List(params)))
}

#[test]
fn command_model_creates_a_new_command() {
    let mut model = CommandModel::new(workspace()).theme(Theme::plain());
    type_text(|m| model.update(m), "Build");
    model.update(Message::Tab);
    type_text(|m| model.update(m), "cargo build");
    model.update(Message::Submit);
    assert_eq!(
        model.redirect(),
        Some(Route::Workspaces(WorkspacesRoute::Commands(WorkspaceCommandsRoute::Create(
            CreateWorkspaceCommandParams { name: "Build".to_string(), program: "cargo build".to_string(), workspace_id: 7 }
        ))))
    );
    assert_eq!(model.redirect(), None);
}

#[test]
fn command_model_updates_the_command_it_edits() {
    let command = Command { workspace_id: 7, id: 99, name: "Test".to_string(), program: "cargo test".to_string() };
    let mut model = CommandModel::new(workspace()).command(command);
    model.update(Message::DeleteChar);
    model.update(Message::Submit);
    assert_eq!(
        model.redirect(),
        Some(Route::Workspaces(WorkspacesRoute::Commands(WorkspaceCommandsRoute::Update(
            UpdateWorkspaceCommandParams { command_id: 99, name: "Tes".to_string(), program: "cargo test".to_string(), workspace_id: 7 }
        ))))
    );
}

#[test]
fn command_model_runs_the_program_and_goes_back() {
    let mut model = CommandModel::new(workspace());
    model.update(Message::Tab);
    assert_eq!(model.active_input().value(), "");
    type_text(|m| model.update(m), "ls");
    model.update(Message::ExecuteCommand);
    assert_eq!(
        model.redirect(),
        Some(Route::Powershell(PowerShellRoute::ExecuteProgram(ExecuteProgramParams { workspace_id: 7, program: "ls".to_string() })))
    );
    model.update(Message::Cancel);
    assert_eq!(
        model.redirect(),
        Some(commands_route(ListWorkspaceCommandsParams {
            workspace_id: 7,
            search_query: String::new(),
            page_number: None,
            page_size: None,
            powershell_no_exit: false,
        }))
    );
}

#[test]
fn command_model_input_names() {
    assert_eq!(InputName::Name.as_str(), "Name");
    assert_eq!(InputName::Program.as_str(), "Program");
    assert_eq!(InputName::Program.as_index(), 1);
    assert_eq!(InputName::Program.next(), InputName::Name);
}

#[test]
fn action_names_read_back_as_the_actions() {
    for action in Action::all() {
        assert_eq!(Action::parse(&action.label()), Ok(action));
        let name: String = action.into();
        assert_eq!(name, action.label());
    }
    assert_eq!(all_labels().len(), 10);
}

#[test]
fn unknown_action_names_are_reported() {
    assert_eq!(Action::parse("Launch"), Err(ModelError::UnknownAction("Launch".to_string())));
}

fn presenter(id: u128, name: &str, program: &str) -> CommandPresenter {
    CommandPresenter { workspace_id: 7, id, name: name.to_string(), program: program.to_string() }
}

fn list_model(search: &str) -> ListWorkspaceCommandsModel {
    ListWorkspaceCommandsModel::new(ListWorkspaceCommandsModelParameters {
        commands: vec![presenter(1, "Build", "cargo build"), presenter(2, "Test", "cargo test"), presenter(3, "Run", "cargo run")],
        page_number: None,
        page_size: None,
        powershell_no_exit: false,
        search_query: search.to_string(),
        workspace: WorkspacePresenter { id: 7, location: "C:\\work".to_string(), name: "Work".to_string() },
        theme: Theme::plain(),
    })
}

fn list_params(search: &str, page: Option<u32>, size: u32, no_exit: bool) -> ListWorkspaceCommandsParams {
    ListWorkspaceCommandsParams {
        workspace_id: 7,
        search_query: search.to_string(),
        page_number: page.map(|p| Positive::new(p).unwrap()),
        page_size: Positive::new(size),
        powershell_no_exit: no_exit,
    }
}

#[test]
fn typing_a_search_lists_the_matching_commands() {
    let mut model = list_model("");
    assert_eq!(model.selected(), Some(0));
    model.update(Message::EnterChar('t')).unwrap();
    assert_eq!(model.redirect(), Some(commands_route(list_params("t", Some(1), 10, false))));
    model.update(Message::DeleteChar).unwrap();
    assert_eq!(model.redirect(), Some(commands_route(list_params("", Some(1), 10, false))));
}

#[test]
fn the_search_of_the_page_fills_the_prompt() {
    let model = list_model("cargo");
    assert_eq!(model.smart_input().search(), Some("cargo".to_string()));
    let bar = model.status_bar();
    assert_eq!(bar.search, Some("cargo".to_string()));
    assert_eq!(bar.selector, Some("Build".to_string()));
    assert_eq!(bar.page, Some(1));
    assert_eq!(bar.operation, Some("List commands".to_string()));
}

#[test]
fn cancel_drops_the_search_of_the_page() {
    let mut model = list_model("cargo");
    model.update(Message::Cancel).unwrap();
    assert_eq!(model.smart_input().search(), Some(String::new()));
    assert_eq!(model.redirect(), Some(commands_route(list_params("", Some(1), 10, false))));
    let mut plain = list_model("");
    plain.update(Message::Cancel).unwrap();
    assert_eq!(plain.redirect(), None);
}

#[test]
fn executing_moves_the_command_to_the_top() {
    let mut model = list_model("");
    model.update(Message::SelectNext).unwrap();
    model.update(Message::SelectNext).unwrap();
    model.update(Message::ExecuteCommand).unwrap();
    assert_eq!(
        model.redirect(),
        Some(Route::Powershell(PowerShellRoute::ExecuteCommand(ExecuteCommandParams { command_id: 3, powershell_no_exit: false })))
    );
    let ids: Vec<u128> = model.commands().iter().map(|c| c.id).collect();
    assert_eq!(ids, vec![3, 1, 2]);
    assert_eq!(model.selected(), Some(0));
}

fn run_prompt(model: &mut ListWorkspaceCommandsModel, text: &str) -> Result<(), ModelError> {
    model.update(Message::EnterChar('>')).unwrap();
    for c in text.chars() {
        model.update(Message::EnterChar(c)).unwrap();
    }
    model.update(Message::Submit)
}

#[test]
fn prompt_commands_ask_for_their_routes() {
    let mut model = list_model("");
    run_prompt(&mut model, "Del").unwrap();
    assert_eq!(
        model.redirect(),
        Some(Route::Workspaces(WorkspacesRoute::Commands(WorkspaceCommandsRoute::Delete(DeleteCommandParams {
            command_id: 1,
            workspace_id: 7
        }))))
    );
    run_prompt(&mut model, "Ed").unwrap();
    assert_eq!(
        model.redirect(),
        Some(Route::Workspaces(WorkspacesRoute::Commands(WorkspaceCommandsRoute::Edit(EditCommandParams { command_id: 1 }))))
    );
    run_prompt(&mut model, "New").unwrap();
    assert_eq!(
        model.redirect(),
        Some(Route::Workspaces(WorkspacesRoute::Commands(WorkspaceCommandsRoute::New(NewWorkspaceCommandParams { workspace_id: 7 }))))
    );
    run_prompt(&mut model, "List").unwrap();
    assert_eq!(
        model.redirect(),
        Some(Route::Workspaces(WorkspacesRoute::List(ListWorkspacesParams {
            search_query: Some(String::new()),
            page_number: Positive::new(1),
            page_size: Positive::new(10),
        })))
    );
    run_prompt(&mut model, "Copy").unwrap();
    assert_eq!(
        model.redirect(),
        Some(Route::Powershell(PowerShellRoute::CopyToClipboard(CopyCommandToClipboardParams { command_id: 1 })))
    );
    run_prompt(&mut model, "Open").unwrap();
    assert_eq!(
        model.redirect(),
        Some(Route::Powershell(PowerShellRoute::OpenWindowsTerminal(OpenWindowsTerminalParams { workspace_id: 7 })))
    );
    assert_eq!(model.smart_input().input().value(), "");
    assert!(model.is_running());
    run_prompt(&mut model, "Exi").unwrap();
    assert!(!model.is_running());
}

#[test]
fn powershell_no_exit_is_passed_along() {
    let mut model = list_model("");
    run_prompt(&mut model, "Set").unwrap();
    assert_eq!(model.status_bar().pwsh, Some("-NoExit".to_string()));
    model.update(Message::EnterChar('b')).unwrap();
    assert_eq!(model.redirect(), Some(commands_route(list_params("b", Some(1), 10, true))));
    model.update(Message::DeleteAllChars).unwrap();
    run_prompt(&mut model, "Unset").unwrap();
    assert_eq!(model.status_bar().pwsh, None);
}

#[test]
fn enter_on_a_search_only_clears_it() {
    let mut model = list_model("");
    model.update(Message::EnterChar('x')).unwrap();
    model.redirect();
    model.update(Message::Submit).unwrap();
    assert_eq!(model.redirect(), None);
    assert_eq!(model.smart_input().input().value(), "");
}

#[test]
fn tab_completes_a_prompt_command() {
    let mut model = list_model("");
    model.update(Message::EnterChar('>')).unwrap();
    model.update(Message::EnterChar('U')).unwrap();
    model.update(Message::Tab).unwrap();
    assert_eq!(model.smart_input().input().value(), ">Unset PowerShell -NoExit");
}

#[test]
fn workspace_commands_pages_hold_the_default_size() {
    let mut model = WorkspaceCommandsModel::new(WorkspaceCommandsModelParameters {
        commands: vec![Command { workspace_id: 7, id: 5, name: "Ping".to_string(), program: "ping".to_string() }],
        page_number: None,
        page_size: None,
        powershell_no_exit: false,
        search_query: String::new(),
        workspace: workspace(),
        theme: Theme::plain(),
    });
    model.update(Message::EnterChar('p')).unwrap();
    assert_eq!(model.redirect(), Some(commands_route(list_params("p", None, 100, false))));
    let bar = model.status_bar();
    assert_eq!(bar.operation, Some("Commands".to_string()));
    assert_eq!(bar.search, Some("p".to_string()));
    assert_eq!(bar.selector, Some("Ping".to_string()));
    assert_eq!(bar.workspace, Some("Work".to_string()));
}

#[test]
fn workspace_commands_list_workspaces_asks_for_no_page() {
    let mut model = WorkspaceCommandsModel::new(WorkspaceCommandsModelParameters {
        commands: vec![],
        page_number: Positive::new(2),
        page_size: Positive::new(30),
        powershell_no_exit: false,
        search_query: String::new(),
        workspace: workspace(),
        theme: Theme::plain(),
    });
    for c in ">List".chars() {
        model.update(Message::EnterChar(c)).unwrap();
    }
    model.update(Message::Submit).unwrap();
    assert_eq!(
        model.redirect(),
        Some(Route::Workspaces(WorkspacesRoute::List(ListWorkspacesParams {
            search_query: Some(String::new()),
            page_number: None,
            page_size: Positive::new(30),
        })))
    );
    assert_eq!(model.status_bar().page, Some(2));
    assert_eq!(model.status_bar().selector, None);
}
