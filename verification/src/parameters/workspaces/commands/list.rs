use vstd::prelude::*;

verus! {

/// How many commands a page lists.
pub const PAGE_SIZE: u32 = 100;

/// A page of the commands of a workspace whose program contains the query.
#[derive(Debug, PartialEq, Eq)]
pub struct Parameters {
    pub workspace_id: String,
    pub search_query: String,
    pub page_number: u32,
    pub page_size: u32,
}


/// `Parameters` as a value.
pub struct ParametersView {
    pub workspace_id: Seq<char>,
    pub search_query: Seq<char>,
    pub page_number: u32,
    pub page_size: u32,
}

impl View for Parameters {
    type V = ParametersView;

    open spec fn view(&self) -> ParametersView {
        ParametersView {
            workspace_id: self.workspace_id@,
            search_query: self.search_query@,
            page_number: self.page_number,
            page_size: self.page_size,
        }
    }
}

} // verus!
