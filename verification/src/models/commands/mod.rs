//! The screens that create and edit a command.
pub mod action;
pub mod edit;
pub mod list;
pub mod new;
