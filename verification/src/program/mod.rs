//! The terminal program: its state, and how key presses and the answers of
//! the storage and system services change it.
pub mod state;
pub mod integration;
pub mod enter_terminal;
pub mod output;
