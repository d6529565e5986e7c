//! The screens of the terminal: what each one holds and how it reacts to
//! a message.
pub mod commands;
pub mod edit_workspace_model;
pub mod workspaces;
pub mod manage_notion_backup_credentials_model;
pub mod command;
pub mod command_model;
pub mod workspaces_model;
pub mod workspace_form_model;
pub mod workspace_model;
pub mod workspace_commands_model;
pub mod workspace_list;
pub mod notion_backup_credentials_model;
pub mod list_backup_credentials_model;
pub mod workspace_editor;
