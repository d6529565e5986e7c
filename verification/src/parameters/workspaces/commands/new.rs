use vstd::prelude::*;

verus! {

/// The workspace to add a command to.
#[derive(Debug, PartialEq, Eq)]
pub struct Parameters {
    pub workspace_id: String,
}


/// `Parameters` as a value.
pub struct ParametersView {
    pub workspace_id: Seq<char>,
}

impl View for Parameters {
    type V = ParametersView;

    open spec fn view(&self) -> ParametersView {
        ParametersView {
            workspace_id: self.workspace_id@,
        }
    }
}

} // verus!
