//! Parameters of the routes of the commands screens.
pub mod get;
pub mod list;
pub mod new;
