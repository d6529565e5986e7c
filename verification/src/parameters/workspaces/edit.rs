use vstd::prelude::*;

verus! {

/// The workspace to edit.
#[derive(Debug, PartialEq, Eq)]
pub struct Parameters {
    pub id: String,
}


/// `Parameters` as a value.
pub struct ParametersView {
    pub id: Seq<char>,
}

impl View for Parameters {
    type V = ParametersView;

    open spec fn view(&self) -> ParametersView {
        ParametersView {
            id: self.id@,
        }
    }
}

} // verus!
