use ratatui::style::Color;
use hermione_terminal::models::commands::new::{NewWorkspaceCommandModel, NewWorkspaceCommandModelParameters};
use hermione_terminal::models::commands::action::Action as CommandAction;
use hermione_terminal::error::ModelError;
use hermione_terminal::message::Message;
use hermione_terminal::models::commands::edit::{EditWorkspaceCommandModel, EditWorkspaceCommandModelParameters};
use hermione_terminal::models::commands::list::PowerShellSettings;
use hermione_terminal::models::manage_notion_backup_credentials_model::{
    ManageNotionBackupCredentialsModel, ManageNotionBackupCredentialsModelParameters,
};
use hermione_terminal::models::workspace_list::{
    Action as ListAction, SearchAction as ListSearchAction, WorkspacesModel as FilteringList,
    WorkspacesModelParameters as FilteringParameters,
};
use hermione_terminal::coordinator::Positive;
use hermione_terminal::params::{ListWorkspacesParams, UpdateWorkspaceCommandParams};
use hermione_terminal::presenters::{CommandPresenter, WorkspacePresenter};
use hermione_terminal::program::enter_terminal::{apply_response, select_next_list_item};
use hermione_terminal::program::integration::{Request, Response};
use hermione_terminal::program::output::{DrawOperation, Render};
use hermione_terminal::program::state::{Context, ListItem, State};
use hermione_terminal::routes::{BackupCredentialsRoute, Route};
use hermione_terminal::theme::Theme;

struct Recorder {
    drawn: Vec<Context>,
    fail: bool,
}

impl Render for Recorder {
    fn render(&mut self, state: &State) -> anyhow::Result<()> {
        self.drawn.push(state.context);
        if self.fail {
            return Err(anyhow::Error::msg("terminal gone"));
        }
        Ok(())
    }
}

#[test]
fn drawing_hands_the_state_to_the_renderer_once_and_reports_its_answer() {
    let state = State::initial();
    let mut recorder = Recorder { drawn: Vec::new(), fail: false };
    let result = DrawOperation { renderer: &mut recorder }.execute(&state);
    assert!(result.is_ok());
    assert_eq!(recorder.drawn, vec![state.context]);
    recorder.fail = true;
    let result = DrawOperation { renderer: &mut recorder }.execute(&state);
    assert_eq!(result.unwrap_err().to_string(), "terminal gone");
    assert_eq!(recorder.drawn.len(), 2);
}

#[test]
fn moving_down_as_many_times_as_there_are_items_comes_back() {
    let mut state = State::initial();
    let request = Request::ListWorkspaces { name_contains: String::new(), searching: false };
    let items = vec![
        ListItem { id: 7, text: "A".to_string() },
        ListItem { id: 8, text: "B".to_string() },
        ListItem { id: 9, text: "C".to_string() },
    ];
    apply_response(&mut state, &request, Response::Items(items));
    select_next_list_item(&mut state);
    assert_eq!((state.list.cursor, state.workspace_id), (1, Some(8)));
    select_next_list_item(&mut state);
    assert_eq!((state.list.cursor, state.workspace_id), (2, Some(9)));
    select_next_list_item(&mut state);
    assert_eq!((state.list.cursor, state.workspace_id), (0, Some(7)));
}

#[test]
fn leaving_the_search_reloads_once_with_no_query() {
    let mut model = FilteringList::new(FilteringParameters {
        page_number: Positive::new(3),
        page_size: Positive::new(5),
        search_query: Some("ab".to_string()),
        theme: Theme::plain(),
        workspaces: Vec::new(),
    });
    let next = model.handle_update(ListAction::Search(ListSearchAction::Deactivate));
    assert_eq!(next, Some(ListAction::ReloadWorkspaces));
    assert_eq!(model.handle_update(ListAction::ReloadWorkspaces), None);
    assert_eq!(
        model.redirect(),
        Some(Route::from(ListWorkspacesParams { search_query: None, page_number: Positive::new(1), page_size: Positive::new(5) }))
    );
}

#[test]
fn a_first_cancel_only_dismisses_the_error() {
    let mut model = ManageNotionBackupCredentialsModel::new(ManageNotionBackupCredentialsModelParameters {
        credentials: None,
        error_message: Some("Unauthorized".to_string()),
        theme: Theme::plain(),
    });
    model.cancel();
    assert_eq!(model.error_message(), None);
    assert_eq!(model.redirect(), None);
    model.cancel();
    assert_eq!(model.redirect(), Some(Route::BackupCredentials(BackupCredentialsRoute::List)));
}

#[test]
fn submitting_an_unedited_command_saves_it_unchanged() {
    let command = CommandPresenter { workspace_id: 4, id: 11, name: "Logs".to_string(), program: "tail".to_string() };
    let workspace = WorkspacePresenter { id: 4, location: "/srv".to_string(), name: "Server".to_string() };
    let mut model = EditWorkspaceCommandModel::new(EditWorkspaceCommandModelParameters { command, workspace, theme: Theme::plain() });
    model.submit();
    assert_eq!(
        model.redirect(),
        Some(Route::from(UpdateWorkspaceCommandParams { command_id: 11, name: "Logs".to_string(), program: "tail".to_string(), workspace_id: 4 }))
    );
    model.update(Message::Submit);
    assert!(model.redirect().is_some());
}

#[test]
fn powershell_no_exit_follows_the_last_call() {
    let mut settings = PowerShellSettings { no_exit: false };
    settings.set_no_exit();
    settings.set_no_exit();
    assert!(settings.no_exit);
    settings.unset_no_exit();
    assert!(!settings.no_exit);
    settings.unset_no_exit();
    assert!(!settings.no_exit);
    settings.set_no_exit();
    assert!(settings.no_exit);
}

#[test]
fn an_unknown_action_is_reported_by_name() {
    let error = CommandAction::parse("Run").unwrap_err();
    assert_eq!(error.message(), "Unknown action: Run");
    assert_eq!(ModelError::UnknownAction(String::new()).message(), "Unknown action: ");
    assert_eq!(String::from(CommandAction::SetPowerShellNoExit), "Set PowerShell -NoExit");
}

#[test]
fn a_form_is_drawn_with_the_theme_of_its_screen() {
    let workspace = WorkspacePresenter { id: 4, location: "/srv".to_string(), name: "Server".to_string() };
    let theme = Theme {
        background_color: Color::Black,
        danger_color: Color::Red,
        foreground_color: Color::White,
        highlight_color: Color::Yellow,
        input_color: Color::Cyan,
        popup_background_color: Color::Blue,
        status_bar_background_color: Color::Gray,
        status_bar_foreground_color: Color::Green,
    };
    let model = NewWorkspaceCommandModel::new(NewWorkspaceCommandModelParameters { workspace, theme });
    let drawn = model.form().theme;
    assert_eq!(drawn.background_color, Color::Black);
    assert_eq!(drawn.danger_color, Color::Red);
    assert_eq!(drawn.input_color, Color::Cyan);
    assert_eq!(drawn.status_bar_foreground_color, Color::Green);
}
