//! A workspace whose location may be unknown, as listed on screen.
use vstd::prelude::*;

verus! {

/// A workspace on screen; the location is absent when none was given.
#[derive(Debug, PartialEq, Eq)]
pub struct Presenter {
    pub id: String,
    pub location: Option<String>,
    pub name: String,
}

/// `Presenter` as a value.
pub struct PresenterView {
    pub id: Seq<char>,
    pub location: Option<Seq<char>>,
    pub name: Seq<char>,
}

impl View for Presenter {
    type V = PresenterView;

    open spec fn view(&self) -> PresenterView {
        PresenterView {
            id: self.id@,
            location: match self.location {
                Some(l) => Some(l@),
                None => None,
            },
            name: self.name@,
        }
    }
}

} // verus!
