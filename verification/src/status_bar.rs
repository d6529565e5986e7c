//! The line at the bottom of a screen: what the screen does and what it
//! shows.
use vstd::prelude::*;
use crate::text::owned;

verus! {

/// The parts of a status line; a part is absent until it is set.
#[derive(Debug, PartialEq, Eq)]
pub struct StatusBar {
    pub operation: Option<String>,
    pub workspace: Option<String>,
    pub command: Option<String>,
    pub page: Option<u32>,
    pub selector: Option<String>,
    pub pwsh: Option<String>,
    pub search: Option<String>,
}

/// Builds a status line part by part.
pub struct StatusBarBuilder {
    bar: StatusBar,
}

/// A status line, as a value.
pub struct StatusBarView {
    pub operation: Option<Seq<char>>,
    pub workspace: Option<Seq<char>>,
    pub command: Option<Seq<char>>,
    pub page: Option<u32>,
    pub selector: Option<Seq<char>>,
    pub pwsh: Option<Seq<char>>,
    pub search: Option<Seq<char>>,
}

pub open spec fn opt_view(s: Option<String>) -> Option<Seq<char>> {
    match s {
        Some(s) => Some(s@),
        None => None,
    }
}

impl View for StatusBar {
    type V = StatusBarView;

    open spec fn view(&self) -> StatusBarView {
        StatusBarView {
            operation: opt_view(self.operation),
            workspace: opt_view(self.workspace),
            command: opt_view(self.command),
            page: self.page,
            selector: opt_view(self.selector),
            pwsh: opt_view(self.pwsh),
            search: opt_view(self.search),
        }
    }
}

impl View for StatusBarBuilder {
    type V = StatusBarView;

    closed spec fn view(&self) -> StatusBarView {
        self.bar@
    }
}

impl StatusBar {
    /// A builder with every part absent.
    pub fn builder() -> (r: StatusBarBuilder)
        ensures
            r@ == (StatusBarView {
                operation: None,
                workspace: None,
                command: None,
                page: None,
                selector: None,
                pwsh: None,
                search: None,
            }),
    {
        StatusBarBuilder {
            bar: StatusBar {
                operation: None,
                workspace: None,
                command: None,
                page: None,
                selector: None,
                pwsh: None,
                search: None,
            },
        }
    }
}

impl StatusBarBuilder {
    pub fn operation(self, value: &str) -> (r: StatusBarBuilder)
        ensures
            r@ == (StatusBarView { operation: Some(value@), ..self@ }),
    {
        let mut bar = self.bar;
        bar.operation = Some(owned(value));
        StatusBarBuilder { bar }
    }

    pub fn workspace(self, value: &str) -> (r: StatusBarBuilder)
        ensures
            r@ == (StatusBarView { workspace: Some(value@), ..self@ }),
    {
        let mut bar = self.bar;
        bar.workspace = Some(owned(value));
        StatusBarBuilder { bar }
    }

    pub fn command(self, value: &str) -> (r: StatusBarBuilder)
        ensures
            r@ == (StatusBarView { command: Some(value@), ..self@ }),
    {
        let mut bar = self.bar;
        bar.command = Some(owned(value));
        StatusBarBuilder { bar }
    }

    pub fn page(self, value: u32) -> (r: StatusBarBuilder)
        ensures
            r@ == (StatusBarView { page: Some(value), ..self@ }),
    {
        let mut bar = self.bar;
        bar.page = Some(value);
        StatusBarBuilder { bar }
    }

    pub fn selector(self, value: &str) -> (r: StatusBarBuilder)
        ensures
            r@ == (StatusBarView { selector: Some(value@), ..self@ }),
    {
        let mut bar = self.bar;
        bar.selector = Some(owned(value));
        StatusBarBuilder { bar }
    }

    pub fn pwsh(self, value: &str) -> (r: StatusBarBuilder)
        ensures
            r@ == (StatusBarView { pwsh: Some(value@), ..self@ }),
    {
        let mut bar = self.bar;
        bar.pwsh = Some(owned(value));
        StatusBarBuilder { bar }
    }

    pub fn search(self, value: &str) -> (r: StatusBarBuilder)
        ensures
            r@ == (StatusBarView { search: Some(value@), ..self@ }),
    {
        let mut bar = self.bar;
        bar.search = Some(owned(value));
        StatusBarBuilder { bar }
    }

    /// The status line built.
    pub fn build(self) -> (r: StatusBar)
        ensures
            r@ == self@,
    {
        self.bar
    }
}

} // verus!
