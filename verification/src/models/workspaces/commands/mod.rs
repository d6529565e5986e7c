//! The screens of a workspace's commands.
pub mod edit;
pub mod get;
pub mod list;
pub mod new;
