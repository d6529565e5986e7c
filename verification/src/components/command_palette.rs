//! A popup list of the actions a screen offers; Enter picks the selected one.
use vstd::prelude::*;
use crate::selection::{next_selection, previous_selection, select_next, select_previous};

verus! {

/// An action that a palette can offer.
#[derive(Clone, Copy, Debug, PartialEq, Eq, Structural)]
pub enum Action {
    CopyToClipboard,
    DeleteCommand,
    DeleteWorkspace,
    EditCommand,
    EditWorkspace,
    ListWorkspaces,
    NewCommand,
    NewWorkspace,
    SetPowershellNoExit,
    StartWindowsTerminal,
    UnsetPowerShellNoExit,
}

/// The actions a palette offers.
pub struct ComponentParameters {
    pub actions: Vec<Action>,
}

/// A command palette.
pub struct Component {
    actions: Vec<Action>,
    selected: Option<usize>,
}

/// The palette, as a value.
pub struct ComponentView {
    pub actions: Seq<Action>,
    /// The selected row, as ratatui's `ListState` holds it.
    pub selected: Option<usize>,
}

impl View for Component {
    type V = ComponentView;

    closed spec fn view(&self) -> ComponentView {
        ComponentView { actions: self.actions@, selected: self.selected }
    }
}

/// The action under the selection, if the selection is on one.
pub open spec fn selected_action(p: ComponentView) -> Option<Action> {
    match p.selected {
        Some(i) => if i < p.actions.len() { Some(p.actions[i as int]) } else { None },
        None => None,
    }
}

impl Component {
    /// A palette offering `actions`, the first selected when there is one.
    pub fn new(parameters: ComponentParameters) -> (r: Component)
        ensures
            r@.actions == parameters.actions@,
            r@.selected == (if parameters.actions@.len() > 0 { Some(0usize) } else { None }),
    {
        let ComponentParameters { actions } = parameters;
        let selected = if actions.len() > 0 {
            Some(0)
        } else {
            None
        };
        Component { actions, selected }
    }

    /// Moves the selection down (ratatui `ListState::select_next`).
    pub fn select_next(&mut self)
        ensures
            final(self)@ == (ComponentView { selected: next_selection(old(self)@.selected), ..old(self)@ }),
    {
        self.selected = select_next(self.selected);
    }

    /// Moves the selection up (ratatui `ListState::select_previous`).
    pub fn select_previous(&mut self)
        ensures
            final(self)@ == (ComponentView { selected: previous_selection(old(self)@.selected), ..old(self)@ }),
    {
        self.selected = select_previous(self.selected);
    }

    /// The action under the selection.
    pub fn action(&self) -> (r: Option<Action>)
        ensures
            r == selected_action(self@),
    {
        match self.selected {
            Some(i) => if i < self.actions.len() {
                Some(self.actions[i])
            } else {
                None
            },
            None => None,
        }
    }

    /// The actions offered.
    pub fn actions(&self) -> (r: &Vec<Action>)
        ensures
            r@ == self@.actions,
    {
        &self.actions
    }

    /// The selected row.
    pub fn selected(&self) -> (r: Option<usize>)
        ensures
            r == self@.selected,
    {
        self.selected
    }

    /// Takes back the selection as drawing left it.
    pub fn set_selected(&mut self, selected: Option<usize>)
        ensures
            final(self)@ == (ComponentView { selected, ..old(self)@ }),
    {
        self.selected = selected;
    }
}

} // verus!
