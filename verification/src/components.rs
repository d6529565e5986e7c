//! Parts that several screens share.
pub mod command_palette;
