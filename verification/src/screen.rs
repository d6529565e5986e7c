//! Placing things on the screen.
pub mod popup;
