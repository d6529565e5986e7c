//! A command as the workspaces screens list it, with its identifiers as text.
use vstd::prelude::*;

verus! {

/// A command on screen.
#[derive(Debug, PartialEq, Eq)]
pub struct Presenter {
    pub workspace_id: String,
    pub id: String,
    pub name: String,
    pub program: String,
}

/// `Presenter` as a value.
pub struct PresenterView {
    pub workspace_id: Seq<char>,
    pub id: Seq<char>,
    pub name: Seq<char>,
    pub program: Seq<char>,
}

impl View for Presenter {
    type V = PresenterView;

    open spec fn view(&self) -> PresenterView {
        PresenterView {
            workspace_id: self.workspace_id@,
            id: self.id@,
            name: self.name@,
            program: self.program@,
        }
    }
}

} // verus!
