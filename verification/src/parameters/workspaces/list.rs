use vstd::prelude::*;

verus! {

/// How many workspaces a page lists.
pub const PAGE_SIZE: u32 = 100;

/// A page of workspaces whose name contains the query.
#[derive(Debug, PartialEq, Eq)]
pub struct Parameters {
    pub search_query: String,
    pub page_number: u32,
    pub page_size: u32,
}

impl Default for Parameters {
    /// No search, the first page, pages of the usual size.
    fn default() -> (r: Self)
        ensures
            r.search_query@ == Seq::<char>::empty(),
            r.page_number == 0,
            r.page_size == PAGE_SIZE,
    {
        Parameters { search_query: String::new(), page_number: 0, page_size: PAGE_SIZE }
    }
}


/// `Parameters` as a value.
pub struct ParametersView {
    pub search_query: Seq<char>,
    pub page_number: u32,
    pub page_size: u32,
}

impl View for Parameters {
    type V = ParametersView;

    open spec fn view(&self) -> ParametersView {
        ParametersView {
            search_query: self.search_query@,
            page_number: self.page_number,
            page_size: self.page_size,
        }
    }
}

} // verus!
