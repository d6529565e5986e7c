//! Where a popup goes: a box centred in an area, a share of its width and
//! height, laid out by ratatui.
use vstd::prelude::*;
use ratatui::layout::{Constraint, Direction, Flex, Layout, Rect};

verus! {

/// A rectangle of terminal cells: its top-left corner and its size, as
/// ratatui's `Rect` holds them.
#[derive(Clone, Copy, Debug, PartialEq, Eq, Structural)]
pub struct Area {
    pub x: u16,
    pub y: u16,
    pub width: u16,
    pub height: u16,
}

/// What ratatui's layout gives for one `Constraint::Percentage(percent)`
/// segment centred (`Flex::Center`) in `area`, along its height when
/// `vertical`, along its width otherwise.
pub uninterp spec fn centered_segment(area: Area, percent: u16, vertical: bool) -> Area;

/// ratatui `Layout::areas` for a layout of one `Constraint::Percentage`
/// segment with `Flex::Center`, vertical or horizontal. The result is named,
/// not stated: the layout solver decides it from the arguments alone.
#[verifier::external_body]
fn center_segment(area: Area, percent: u16, vertical: bool) -> (r: Area)
    ensures
        r == centered_segment(area, percent, vertical),
{
    let direction = if vertical { Direction::Vertical } else { Direction::Horizontal };
    let rect = Rect { x: area.x, y: area.y, width: area.width, height: area.height };
    let [r] = Layout::new(direction, [Constraint::Percentage(percent)]).flex(Flex::Center).areas(rect);
    Area { x: r.x, y: r.y, width: r.width, height: r.height }
}

/// The box a popup is drawn in, within `area`, the whole screen or part.
pub struct Popup {
    area: Area,
}

/// The box that covers `percent_x` of the width and `percent_y` of the
/// height of `area`, centred: first the rows, then the columns within them.
pub open spec fn popup_area(area: Area, percent_x: u16, percent_y: u16) -> Area {
    centered_segment(centered_segment(area, percent_y, true), percent_x, false)
}

impl Popup {
    /// A popup within `area`.
    pub fn new(area: Area) -> (r: Popup)
        ensures
            r.area() == area,
    {
        Popup { area }
    }

    /// The area the popup is placed in.
    pub closed spec fn area(&self) -> Area {
        self.area
    }

    fn centered(&self, percent_x: u16, percent_y: u16) -> (r: Area)
        ensures
            r == popup_area(self.area(), percent_x, percent_y),
    {
        let rows = center_segment(self.area, percent_y, true);
        center_segment(rows, percent_x, false)
    }

    /// The box of a wide popup: half the width and half the height, centred.
    pub fn wide_area(&self) -> (r: Area)
        ensures
            r == popup_area(self.area(), 50, 50),
    {
        self.centered(50, 50)
    }
}

} // verus!
