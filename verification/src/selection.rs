//! Selection in a list, kept as the index that ratatui's `ListState` holds.
//! Moving the selection goes through `ListState` itself.
use vstd::prelude::*;
use ratatui::widgets::ListState;

verus! {

/// What `ListState::select_next` makes of a selection: the next index,
/// or the first one when nothing was selected.
pub open spec fn next_selection(selected: Option<usize>) -> Option<usize> {
    match selected {
        None => Some(0usize),
        Some(i) => if i == usize::MAX { Some(i) } else { Some((i + 1) as usize) },
    }
}

/// What `ListState::select_previous` makes of a selection: the previous
/// index, or the largest index when nothing was selected.
pub open spec fn previous_selection(selected: Option<usize>) -> Option<usize> {
    match selected {
        None => Some(usize::MAX),
        Some(i) => if i == 0 { Some(0usize) } else { Some((i - 1) as usize) },
    }
}

/// ratatui `ListState::select_next` on a state that has `selected` selected.
/// The contract restates the source: `selected.map_or(0, |i| i.saturating_add(1))`.
#[verifier::external_body]
pub fn select_next(selected: Option<usize>) -> (r: Option<usize>)
    ensures
        r == next_selection(selected),
{
    let mut state = ListState::default().with_selected(selected);
    state.select_next();
    state.selected()
}

/// ratatui `ListState::select_previous` on a state that has `selected` selected.
/// The contract restates the source: `selected.map_or(usize::MAX, |i| i.saturating_sub(1))`.
#[verifier::external_body]
pub fn select_previous(selected: Option<usize>) -> (r: Option<usize>)
    ensures
        r == previous_selection(selected),
{
    let mut state = ListState::default().with_selected(selected);
    state.select_previous();
    state.selected()
}

/// ratatui `ListState::select_first`: the first index is selected.
#[verifier::external_body]
pub fn select_first(selected: Option<usize>) -> (r: Option<usize>)
    ensures
        r == Some(0usize),
{
    let mut state = ListState::default().with_selected(selected);
    state.select_first();
    state.selected()
}

} // verus!
