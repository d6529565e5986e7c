use hermione_terminal::components::command_palette::{Action as PaletteAction, Component, ComponentParameters};
use hermione_terminal::error::ModelError;
use hermione_terminal::message::Message;
use hermione_terminal::models::workspaces::commands::edit::{Model as EditCommand, ModelParameters as EditCommandParameters};
use hermione_terminal::models::workspaces::commands::get::{Model as GetCommand, ModelParameters as GetCommandParameters};
use hermione_terminal::models::workspaces::commands::list::{Action as CommandAction, Model as Commands, ModelParameters as CommandsParameters};
use hermione_terminal::models::workspaces::commands::new::{Model as NewCommand, ModelParameters as NewCommandParameters};
use hermione_terminal::models::workspaces::edit::{Model as EditWorkspace, ModelParameters as EditWorkspaceParameters};
use hermione_terminal::models::workspaces::list::{Action as WorkspaceAction, Model as Workspaces, ModelParameters as WorkspacesParameters};
use hermione_terminal::parameters::workspaces::{commands::get, edit, list};
use hermione_terminal::parameters::{
    CopyToClipboardParameters, CreateWorkspaceCommandParameters, DeleteWorkspaceCommandParameters,
    DeleteWorkspaceParameters, EditWorkspaceCommandParameters, ListWorkspaceCommandsParameters,
    OpenWindowsTerminalParameters, PowerShellExecuteCommandParameters, UpdateWorkspaceCommandParameters,
    UpdateWorkspaceParameters,
};
use hermione_terminal::presenters::{command, workspace};
use hermione_terminal::routes::{powershell, workspaces, ScreenRoute};

fn ws(id: &str, name: &str, location: Option<&str>) -> workspace::Presenter {
    workspace::Presenter { id: id.to_string(), location: location.map(|l| l.to_string()), name: name.to_string() }
}

fn cmd(id: &str, name: &str, program: &str) -> command::Presenter {
    command::Presenter { workspace_id: "w1".to_string(), id: id.to_string(), name: name.to_string(), program: program.to_string() }
}

fn commands_page(search: &str, page: u32, size: u32, no_exit: bool) -> ScreenRoute {
    ScreenRoute::Workspaces(workspaces::Route::Commands(workspaces::commands::Route::List(ListWorkspaceCommandsParameters {
        workspace_id: "w1".to_string(),
        search_query: search.to_string(),
        page_number: page,
        page_size: size,
        powershell_no_exit: no_exit,
    })))
}

fn commands(list: Vec<command::Presenter>, page: u32, size: u32, search: &str) -> Commands {
    Commands::new(CommandsParameters {
        commands: list,
        page_number: page,
        page_size: size,
        powershell_no_exit: false,
        search_query: search.to_string(),
        workspace: ws("w1", "Work", Some("C:\\work")),
    })
}

#[test]
fn commands_page_forward_at_the_end_of_a_full_page() {
    let mut model = commands(vec![cmd("c1", "A", "a"), cmd("c2", "B", "b")], 0, 2, "x");
    model.update(Message::SelectNext).unwrap();
    assert_eq!(model.selected(), Some(1));
    model.update(Message::SelectNext).unwrap();
    assert_eq!(model.redirect(), Some(commands_page("x", 1, 2, false)));
    let mut short = commands(vec![cmd("c1", "A", "a")], 0, 5, "");
    short.update(Message::SelectNext).unwrap();
    assert_eq!(short.redirect(), None);
}

#[test]
fn commands_page_back_above_the_first_row() {
    let mut model = commands(vec![cmd("c1", "A", "a")], 3, 2, "");
    model.update(Message::SelectPrevious).unwrap();
    assert_eq!(model.redirect(), Some(commands_page("", 2, 2, false)));
    let mut empty = commands(vec![], 1, 2, "");
    empty.update(Message::SelectPrevious).unwrap();
    assert_eq!(empty.redirect(), Some(commands_page("", 0, 2, false)));
    let mut first = commands(vec![cmd("c1", "A", "a")], 0, 2, "");
    first.update(Message::SelectPrevious).unwrap();
    assert_eq!(first.redirect(), None);
}

#[test]
fn commands_breadcrumbs_show_the_page() {
    let model = commands(vec![cmd("c1", "Build", "a")], 4, 2, "");
    assert_eq!(model.breadcrumbs(), vec!["List workspaces", "Work", "List commands (4)", "Build"]);
}

#[test]
fn commands_search_reloads_the_first_page() {
    let mut model = commands(vec![cmd("c1", "A", "a")], 3, 2, "");
    model.update(Message::EnterChar('g')).unwrap();
    assert_eq!(model.redirect(), Some(commands_page("g", 0, 2, false)));
}

fn toggle_and_type(model: &mut Commands, text: &str) -> Result<(), ModelError> {
    model.update(Message::Tab).unwrap();
    for c in text.chars() {
        model.update(Message::EnterChar(c)).unwrap();
    }
    model.update(Message::Submit)
}

#[test]
fn commands_prompt_actions() {
    let mut model = commands(vec![cmd("c1", "A", "a"), cmd("c2", "B", "b")], 0, 10, "");
    toggle_and_type(&mut model, "Start").unwrap();
    assert_eq!(
        model.redirect(),
        Some(ScreenRoute::Powershell(powershell::Route::StartWindowsTerminal(OpenWindowsTerminalParameters {
            working_directory: "C:\\work".to_string()
        })))
    );
    toggle_and_type(&mut model, "Copy").unwrap();
    assert_eq!(
        model.redirect(),
        Some(ScreenRoute::Powershell(powershell::Route::CopyToClipboard(CopyToClipboardParameters {
            command_id: "c1".to_string(),
            workspace_id: "w1".to_string(),
        })))
    );
    toggle_and_type(&mut model, "Set").unwrap();
    model.update(Message::ExecuteCommand).unwrap();
    assert_eq!(
        model.redirect(),
        Some(ScreenRoute::Powershell(powershell::Route::ExecuteCommand(PowerShellExecuteCommandParameters {
            command_id: "c1".to_string(),
            workspace_id: "w1".to_string(),
            powershell_no_exit: true,
        })))
    );
    toggle_and_type(&mut model, "Del").unwrap();
    assert_eq!(
        model.redirect(),
        Some(ScreenRoute::Workspaces(workspaces::Route::Commands(workspaces::commands::Route::Delete(
            DeleteWorkspaceCommandParameters { command_id: "c1".to_string(), workspace_id: "w1".to_string() }
        ))))
    );
    model.update(Message::Tab).unwrap();
    toggle_and_type(&mut model, "List").unwrap();
    assert_eq!(
        model.redirect(),
        Some(ScreenRoute::Workspaces(workspaces::Route::List(list::Parameters {
            search_query: String::new(),
            page_number: 0,
            page_size: 10,
        })))
    );
}

#[test]
fn command_actions_round_trip() {
    let all = [
        CommandAction::CopyToClipboard,
        CommandAction::DeleteCommand,
        CommandAction::EditCommand,
        CommandAction::Exit,
        CommandAction::ListWorkspaces,
        CommandAction::NewCommand,
        CommandAction::StartWindowsTerminal,
        CommandAction::PowerShellSetNoExit,
        CommandAction::PowerShellUnsetNoExit,
    ];
    for action in all {
        assert_eq!(CommandAction::parse(&action.label()), Ok(action));
    }
    assert_eq!(CommandAction::parse("Run"), Err(ModelError::UnknownAction("Run".to_string())));
}

fn workspaces_list(list: Vec<workspace::Presenter>, page: u32, size: u32, search: &str) -> Workspaces {
    Workspaces::new(WorkspacesParameters { workspaces: list, search_query: search.to_string(), page_number: page, page_size: size })
}

#[test]
fn workspaces_list_pages_and_prompt() {
    let mut model = workspaces_list(vec![ws("a", "Alpha", None), ws("b", "Beta", None)], 0, 2, "");
    assert_eq!(model.breadcrumbs(), vec!["List workspaces (0)", "Alpha"]);
    model.update(Message::SelectNext).unwrap();
    model.update(Message::SelectNext).unwrap();
    assert_eq!(
        model.redirect(),
        Some(ScreenRoute::Workspaces(workspaces::Route::List(list::Parameters { search_query: String::new(), page_number: 1, page_size: 2 })))
    );
    model.update(Message::Tab).unwrap();
    for c in "Del".chars() {
        model.update(Message::EnterChar(c)).unwrap();
    }
    model.update(Message::Submit).unwrap();
    assert_eq!(
        model.redirect(),
        Some(ScreenRoute::Workspaces(workspaces::Route::Delete(DeleteWorkspaceParameters { id: "b".to_string() })))
    );
}

#[test]
fn workspaces_list_cancel_drops_the_search() {
    let mut model = workspaces_list(vec![], 2, 2, "al");
    model.update(Message::Cancel).unwrap();
    assert_eq!(
        model.redirect(),
        Some(ScreenRoute::Workspaces(workspaces::Route::List(list::Parameters::default())))
    );
    assert_eq!(WorkspaceAction::parse("Exit"), Ok(WorkspaceAction::Exit));
    assert_eq!(WorkspaceAction::parse("exit"), Err(ModelError::UnknownAction("exit".to_string())));
}

#[test]
fn edit_workspace_form_saves_and_goes_back() {
    let mut model = EditWorkspace::new(EditWorkspaceParameters { workspace: ws("a", "Alpha", None) });
    assert_eq!(model.breadcrumbs(), &vec!["List workspaces".to_string(), "Alpha".to_string(), "Edit workspace".to_string()]);
    model.update(Message::Tab);
    model.update(Message::EnterChar('D'));
    model.update(Message::Submit);
    assert_eq!(
        model.redirect(),
        Some(ScreenRoute::Workspaces(workspaces::Route::Update(UpdateWorkspaceParameters {
            id: "a".to_string(),
            name: "Alpha".to_string(),
            location: "D".to_string(),
        })))
    );
    model.update(Message::Cancel);
    assert_eq!(
        model.redirect(),
        Some(ScreenRoute::Workspaces(workspaces::Route::List(list::Parameters {
            search_query: "Alpha".to_string(),
            page_number: 0,
            page_size: 100,
        })))
    );
    let _ = edit::Parameters { id: String::new() };
}

#[test]
fn new_and_edit_command_forms() {
    let mut new = NewCommand::new(NewCommandParameters { workspace: ws("w1", "Work", None) });
    new.update(Message::EnterChar('N'));
    new.update(Message::Tab);
    new.update(Message::EnterChar('p'));
    new.update(Message::Submit);
    assert_eq!(
        new.redirect(),
        Some(ScreenRoute::Workspaces(workspaces::Route::Commands(workspaces::commands::Route::Create(
            CreateWorkspaceCommandParameters { name: "N".to_string(), program: "p".to_string(), workspace_id: "w1".to_string() }
        ))))
    );
    new.update(Message::Cancel);
    assert_eq!(new.redirect(), Some(commands_page("", 0, 100, false)));

    let mut edit = EditCommand::new(EditCommandParameters { command: cmd("c1", "Build", "make"), workspace: ws("w1", "Work", None) });
    edit.update(Message::Tab);
    edit.update(Message::EnterChar('!'));
    edit.update(Message::Submit);
    assert_eq!(
        edit.redirect(),
        Some(ScreenRoute::Workspaces(workspaces::Route::Commands(workspaces::commands::Route::Update(
            UpdateWorkspaceCommandParameters {
                command_id: "c1".to_string(),
                name: "Build".to_string(),
                program: "make!".to_string(),
                workspace_id: "w1".to_string(),
            }
        ))))
    );
    edit.update(Message::Cancel);
    assert_eq!(
        edit.redirect(),
        Some(ScreenRoute::Workspaces(workspaces::Route::Commands(workspaces::commands::Route::Get(get::Parameters {
            command_id: "c1".to_string(),
            workspace_id: "w1".to_string(),
        }))))
    );
}

#[test]
fn command_screen_palette_picks_an_action() {
    let mut model = GetCommand::new(GetCommandParameters { command: cmd("c1", "Build", "make"), workspace: ws("w1", "Work", None) });
    model.update(Message::Submit);
    assert_eq!(model.redirect(), None);
    model.activate_command_palette();
    model.update(Message::SelectNext);
    model.update(Message::Submit);
    assert_eq!(
        model.redirect(),
        Some(ScreenRoute::Workspaces(workspaces::Route::Commands(workspaces::commands::Route::Edit(
            EditWorkspaceCommandParameters { command_id: "c1".to_string(), workspace_id: "w1".to_string() }
        ))))
    );
    model.update(Message::Cancel);
    assert_eq!(model.redirect(), Some(commands_page("make", 0, 10, false)));
    assert_eq!(model.breadcrumbs(), vec!["List workspaces", "Work", "List commands", "Build"]);
}

#[test]
fn palette_selection_starts_at_the_first_action() {
    let mut palette = Component::new(ComponentParameters { actions: vec![PaletteAction::NewWorkspace, PaletteAction::ListWorkspaces] });
    assert_eq!(palette.action(), Some(PaletteAction::NewWorkspace));
    palette.select_previous();
    assert_eq!(palette.action(), Some(PaletteAction::NewWorkspace));
    palette.select_next();
    palette.select_next();
    assert_eq!(palette.action(), None);
}
