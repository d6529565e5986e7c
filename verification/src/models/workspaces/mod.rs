//! The screens that list and create workspaces, and those of their commands.
pub mod edit;
pub mod list;
pub mod new;
pub mod commands;
