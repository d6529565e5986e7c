use hermione_terminal::coordinator::{BackupProviderKind, Positive};
use hermione_terminal::error::ModelError;
use hermione_terminal::message::Message;
use hermione_terminal::models::list_backup_credentials_model::{
    Action, ListBackupCredentialsModel, ListBackupCredentialsModelParameters,
};
use hermione_terminal::models::notion_backup_credentials_model::{InputName, NotionBackupCredentialsModel};
use hermione_terminal::params::{ListWorkspacesParams, SaveNotionBackupCredentialsParams};
use hermione_terminal::routes::{BackupCredentialsRoute, Route, WorkspacesRoute};
use hermione_terminal::theme::Theme;

#[test]
fn notion_form_saves_what_is_typed() {
    let mut model = NotionBackupCredentialsModel::default()
        .api_key("key".to_string())
        .commands_database_id("cmd".to_string())
        .workspaces_database_id("ws".to_string())
        .theme(Theme::plain());
    assert_eq!(model.active_input_name(), InputName::ApiKey);
    model.update(Message::EnterChar('1'));
    model.update(Message::Tab);
    model.update(Message::Tab);
    model.update(Message::DeleteChar);
    model.update(Message::Submit);
    assert_eq!(
        model.redirect(),
        Some(Route::from(SaveNotionBackupCredentialsParams {
            api_key: "key1".to_string(),
            commands_database_id: "cmd".to_string(),
            workspaces_database_id: "w".to_string(),
        }))
    );
    assert_eq!(model.status_bar().operation, Some("Notion backup credentials".to_string()));
}

#[test]
fn notion_form_escape_dismisses_the_error_first() {
    let mut model = NotionBackupCredentialsModel::default().error_message("Invalid key".to_string());
    assert_eq!(model.error(), Some(&"Invalid key".to_string()));
    model.update(Message::Cancel);
    assert_eq!(model.error(), None);
    assert_eq!(model.redirect(), None);
    model.update(Message::Cancel);
    assert_eq!(model.redirect(), Some(Route::BackupCredentials(BackupCredentialsRoute::List)));
}

#[test]
fn notion_form_tab_cycles_through_the_inputs() {
    let mut model = NotionBackupCredentialsModel::default();
    model.update(Message::Tab);
    assert_eq!(model.active_input_name(), InputName::CommandsDatabaseId);
    model.update(Message::Tab);
    assert_eq!(model.active_input_name(), InputName::WorkspacesDatabaseId);
    assert_eq!(InputName::WorkspacesDatabaseId.as_str(), "Workspaces database ID");
    assert_eq!(InputName::CommandsDatabaseId.as_index(), 1);
    model.update(Message::Tab);
    assert_eq!(model.active_input_name(), InputName::ApiKey);
}

fn backup_list() -> ListBackupCredentialsModel {
    ListBackupCredentialsModel::new(ListBackupCredentialsModelParameters {
        backup_credentials_kinds: vec![BackupProviderKind::Notion],
        theme: Theme::plain(),
    })
}

fn prompt(model: &mut ListBackupCredentialsModel, text: &str) -> Result<(), ModelError> {
    for c in text.chars() {
        model.update(Message::EnterChar(c)).unwrap();
    }
    model.update(Message::Submit)
}

#[test]
fn backup_list_prompt_commands() {
    let mut model = backup_list();
    assert_eq!(model.selected(), None);
    prompt(&mut model, ">List").unwrap();
    assert_eq!(
        model.redirect(),
        Some(Route::Workspaces(WorkspacesRoute::List(ListWorkspacesParams {
            search_query: None,
            page_number: Positive::new(1),
            page_size: Positive::new(100),
        })))
    );
    model.update(Message::DeleteAllChars).unwrap();
    prompt(&mut model, ">Ex").unwrap();
    assert!(!model.is_running());
}

#[test]
fn backup_list_enter_without_a_command_clears_the_prompt() {
    let mut model = backup_list();
    prompt(&mut model, "notion").unwrap();
    assert_eq!(model.smart_input().input().value(), "");
    assert_eq!(model.redirect(), None);
    assert_eq!(model.status_bar().operation, Some("List backup credentials".to_string()));
}

#[test]
fn backup_list_actions_round_trip() {
    for action in Action::all() {
        assert_eq!(Action::parse(&action.label()), Ok(action));
    }
    assert_eq!(Action::parse("Sync"), Err(ModelError::UnknownAction("Sync".to_string())));
}
