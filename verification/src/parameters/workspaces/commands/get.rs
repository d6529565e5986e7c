use vstd::prelude::*;

verus! {

/// The command to show.
#[derive(Debug, PartialEq, Eq)]
pub struct Parameters {
    pub command_id: String,
    pub workspace_id: String,
}


/// `Parameters` as a value.
pub struct ParametersView {
    pub command_id: Seq<char>,
    pub workspace_id: Seq<char>,
}

impl View for Parameters {
    type V = ParametersView;

    open spec fn view(&self) -> ParametersView {
        ParametersView {
            command_id: self.command_id@,
            workspace_id: self.workspace_id@,
        }
    }
}

} // verus!
