use vstd::prelude::*;

verus! {

/// A workspace to create.
#[derive(Debug, PartialEq, Eq)]
pub struct Parameters {
    pub name: String,
    pub location: String,
}


/// `Parameters` as a value.
pub struct ParametersView {
    pub name: Seq<char>,
    pub location: Seq<char>,
}

impl View for Parameters {
    type V = ParametersView;

    open spec fn view(&self) -> ParametersView {
        ParametersView {
            name: self.name@,
            location: self.location@,
        }
    }
}

} // verus!
