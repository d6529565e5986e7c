use hermione_terminal::coordinator::{default_page_size, first_page, Positive};
use hermione_terminal::message::Message;
use hermione_terminal::models::commands::edit::{EditWorkspaceCommandModel, EditWorkspaceCommandModelParameters};
use hermione_terminal::models::commands::new::{NewWorkspaceCommandModel, NewWorkspaceCommandModelParameters};
use hermione_terminal::models::edit_workspace_model::{EditWorkspaceModel, EditWorkspaceModelParameters};
use hermione_terminal::models::manage_notion_backup_credentials_model::{
    ManageNotionBackupCredentialsModel, ManageNotionBackupCredentialsModelParameters,
};
use hermione_terminal::models::workspaces::new::{NewWorkspaceModel, NewWorkspaceModelParameters};
use hermione_terminal::parameters::{ListWorkspacesParameters, LIST_WORKSPACES_PAGE_SIZE};
use hermione_terminal::params::{
    CreateWorkspaceCommandParams, CreateWorkspaceParams, ListWorkspaceCommandsParams, ListWorkspacesParams,
    SaveNotionBackupCredentialsParams, UpdateWorkspaceCommandParams, UpdateWorkspaceParams,
};
use hermione_terminal::presenters::{CommandPresenter, NotionBackupCredentialsPresenter, WorkspacePresenter};
use hermione_terminal::routes::{BackupCredentialsRoute, Route};
use hermione_terminal::status_bar::StatusBar;
use hermione_terminal::theme::Theme;

fn workspace() -> WorkspacePresenter {
    WorkspacePresenter { id: 4, location: "/srv".to_string(), name: "Server".to_string() }
}

#[test]
fn edit_command_screen_saves_and_goes_back_searching_for_the_program() {
    let command = CommandPresenter { workspace_id: 4, id: 11, name: "Logs".to_string(), program: "tail".to_string() };
    let mut model = EditWorkspaceCommandModel::new(EditWorkspaceCommandModelParameters { command, workspace: workspace(), theme: Theme::plain() });
    assert_eq!(model.status_bar().operation, Some("Edit command".to_string()));
    model.update(Message::Tab);
    model.update(Message::EnterChar('f'));
    model.update(Message::Submit);
    assert_eq!(
        model.redirect(),
        Some(Route::from(UpdateWorkspaceCommandParams { command_id: 11, name: "Logs".to_string(), program: "tailf".to_string(), workspace_id: 4 }))
    );
    model.update(Message::Cancel);
    assert_eq!(
        model.redirect(),
        Some(Route::from(ListWorkspaceCommandsParams {
            workspace_id: 4,
            search_query: "tailf".to_string(),
            page_number: Positive::new(1),
            page_size: Positive::new(100),
            powershell_no_exit: false,
        }))
    );
}

#[test]
fn new_command_screen_creates_the_command() {
    let mut model = NewWorkspaceCommandModel::new(NewWorkspaceCommandModelParameters { workspace: workspace(), theme: Theme::plain() });
    model.update(Message::EnterChar('L'));
    model.update(Message::Tab);
    model.update(Message::EnterChar('l'));
    model.update(Message::EnterChar('s'));
    model.update(Message::MoveCusorLeft);
    model.update(Message::DeleteChar);
    model.update(Message::Submit);
    assert_eq!(
        model.redirect(),
        Some(Route::from(CreateWorkspaceCommandParams { name: "L".to_string(), program: "s".to_string(), workspace_id: 4 }))
    );
}

#[test]
fn edit_workspace_screen_saves_and_goes_back_searching_for_the_name() {
    let mut model = EditWorkspaceModel::new(EditWorkspaceModelParameters { workspace: workspace(), theme: Theme::plain() });
    model.update(Message::DeleteAllChars);
    model.update(Message::EnterChar('S'));
    model.update(Message::Submit);
    assert_eq!(model.redirect(), Some(Route::from(UpdateWorkspaceParams { id: 4, name: "S".to_string(), location: "/srv".to_string() })));
    model.update(Message::Cancel);
    assert_eq!(
        model.redirect(),
        Some(Route::from(ListWorkspacesParams {
            search_query: Some("S".to_string()),
            page_number: Positive::new(1),
            page_size: Positive::new(LIST_WORKSPACES_PAGE_SIZE),
        }))
    );
}

#[test]
fn new_workspace_screen_creates_the_workspace() {
    let mut model = NewWorkspaceModel::new(NewWorkspaceModelParameters { theme: Theme::plain() });
    model.update(Message::EnterChar('W'));
    model.update(Message::Submit);
    assert_eq!(model.redirect(), Some(Route::from(CreateWorkspaceParams { name: "W".to_string(), location: String::new() })));
    model.update(Message::Cancel);
    assert_eq!(model.redirect(), Some(Route::from(ListWorkspacesParams::default())));
}

#[test]
fn manage_credentials_screen_dismisses_the_error_then_goes_back() {
    let mut model = ManageNotionBackupCredentialsModel::new(ManageNotionBackupCredentialsModelParameters {
        credentials: Some(NotionBackupCredentialsPresenter {
            api_key: "k".to_string(),
            commands_database_id: "c".to_string(),
            workspaces_database_id: "w".to_string(),
        }),
        error_message: Some("Unauthorized".to_string()),
        theme: Theme::plain(),
    });
    model.update(Message::Cancel);
    assert_eq!(model.error_message(), None);
    assert_eq!(model.redirect(), None);
    model.update(Message::Submit);
    assert_eq!(
        model.redirect(),
        Some(Route::from(SaveNotionBackupCredentialsParams {
            api_key: "k".to_string(),
            commands_database_id: "c".to_string(),
            workspaces_database_id: "w".to_string(),
        }))
    );
    model.update(Message::Cancel);
    assert_eq!(model.redirect(), Some(Route::BackupCredentials(BackupCredentialsRoute::List)));
}

#[test]
fn default_parameters_and_pages() {
    let params = ListWorkspacesParams::default();
    assert_eq!(params.search_query, None);
    assert_eq!(params.page_number, Some(first_page()));
    assert_eq!(params.page_size, Some(default_page_size()));
    assert_eq!(default_page_size().get(), 100);
    let old = ListWorkspacesParameters::default();
    assert_eq!((old.page_number, old.page_size, old.search_query.as_str()), (0, 100, ""));
    assert_eq!(Positive::new(0), None);
    assert_eq!(Positive::new(u32::MAX).unwrap().checked_add(1), None);
    assert_eq!(Positive::new(2).unwrap().checked_add(3).map(|p| p.get()), Some(5));
}

#[test]
fn status_bar_builder_sets_each_part() {
    let bar = StatusBar::builder().operation("List").workspace("W").page(3).selector("S").pwsh("-NoExit").search("q").build();
    assert_eq!(bar.operation.as_deref(), Some("List"));
    assert_eq!(bar.workspace.as_deref(), Some("W"));
    assert_eq!(bar.page, Some(3));
    assert_eq!(bar.selector.as_deref(), Some("S"));
    assert_eq!(bar.pwsh.as_deref(), Some("-NoExit"));
    assert_eq!(bar.search.as_deref(), Some("q"));
    assert_eq!(bar.command, None);
}
