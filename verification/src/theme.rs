//! The colours a screen is drawn with. The models carry a theme through
//! unchanged; only drawing reads it.
use vstd::prelude::*;
use ratatui::style::Color;

verus! {

#[verifier::external_type_specification]
#[verifier::external_body]
pub struct ExColor(ratatui::style::Color);

/// The default terminal colour (ratatui `Color::default`, the reset colour).
/// Nothing is stated of the value: the models only pass colours along.
#[verifier::external_body]
fn reset_color() -> Color {
    Color::default()
}

/// The colours of every part of a screen.
#[derive(Clone, Copy)]
pub struct Theme {
    pub background_color: Color,
    pub danger_color: Color,
    pub foreground_color: Color,
    pub highlight_color: Color,
    pub input_color: Color,
    pub popup_background_color: Color,
    pub status_bar_background_color: Color,
    pub status_bar_foreground_color: Color,
}

impl Theme {
    /// Whether every part of the screen is drawn in the same colour.
    pub open spec fn is_uniform(self) -> bool {
        let c = self.background_color;
        &&& self.danger_color == c
        &&& self.foreground_color == c
        &&& self.highlight_color == c
        &&& self.input_color == c
        &&& self.popup_background_color == c
        &&& self.status_bar_background_color == c
        &&& self.status_bar_foreground_color == c
    }

    /// A theme that leaves every colour at the terminal's default: one
    /// default colour, used for every part of the screen.
    pub fn plain() -> (t: Theme)
        ensures
            t.is_uniform(),
    {
        let c = reset_color();
        Theme {
            background_color: c,
            danger_color: c,
            foreground_color: c,
            highlight_color: c,
            input_color: c,
            popup_background_color: c,
            status_bar_background_color: c,
            status_bar_foreground_color: c,
        }
    }
}

} // verus!
