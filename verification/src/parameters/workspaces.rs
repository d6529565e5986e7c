//! Parameters of the routes of the workspaces screens, with pages numbered
//! from 0.
pub mod commands;
pub mod create;
pub mod edit;
pub mod list;
