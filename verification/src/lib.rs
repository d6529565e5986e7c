//! Verified core of the hermione terminal: text inputs, screen models,
//! navigation routes and the state machine of the terminal program.

pub mod text;
pub mod error;
pub mod input;
pub mod smart_input;
pub mod message;
pub mod theme;
pub mod selection;
pub mod coordinator;
pub mod components;
pub mod params;
pub mod routes;
pub mod router;
pub mod screen;
pub mod keyboard;
pub mod program;
pub mod forms;
pub mod presenters;
pub mod status_bar;
pub mod parameters;
pub mod models;
