//! The records the terminal shows and the identifiers and page numbers
//! that its screens pass around.
use vstd::prelude::*;

verus! {

/// Identifies a workspace: the 128-bit value of its UUID.
pub type WorkspaceId = u128;

/// Identifies a command: the 128-bit value of its UUID.
pub type CommandId = u128;

/// The services that backups can be made to.
#[derive(Clone, Copy, Debug, PartialEq, Eq, Structural)]
pub enum BackupProviderKind {
    Notion,
}

/// A workspace as the screens see it.
pub struct Workspace {
    pub id: WorkspaceId,
    pub location: String,
    pub name: String,
}

/// `Workspace` as a value.
pub struct WorkspaceView {
    pub id: WorkspaceId,
    pub location: Seq<char>,
    pub name: Seq<char>,
}

impl View for Workspace {
    type V = WorkspaceView;

    open spec fn view(&self) -> WorkspaceView {
        WorkspaceView { id: self.id, location: self.location@, name: self.name@ }
    }
}

/// A number greater than zero, as page numbers and page sizes are.
#[derive(Clone, Copy, Debug, PartialEq, Eq, Structural)]
pub struct Positive {
    value: u32,
}

impl View for Positive {
    type V = u32;

    closed spec fn view(&self) -> u32 {
        self.value
    }
}

impl Positive {
    #[verifier::type_invariant]
    closed spec fn inv(self) -> bool {
        self.value > 0
    }

    /// `Some` of `value` when it is not zero.
    pub fn new(value: u32) -> (r: Option<Positive>)
        ensures
            value == 0 ==> r is None,
            value != 0 ==> (r matches Some(p) && p@ == value),
    {
        if value == 0 {
            None
        } else {
            Some(Positive { value })
        }
    }

    /// The number itself.
    pub fn get(self) -> (r: u32)
        ensures
            r == self@,
            r > 0,
    {
        proof {
            use_type_invariant(self);
        }
        self.value
    }

    /// The sum, unless it does not fit in a `u32`.
    pub fn checked_add(self, other: u32) -> (r: Option<Positive>)
        ensures
            self@ + other <= u32::MAX ==> (r matches Some(p) && p@ == self@ + other),
            self@ + other > u32::MAX ==> r is None,
    {
        proof {
            use_type_invariant(self);
        }
        if other <= u32::MAX - self.value {
            Some(Positive { value: self.value + other })
        } else {
            None
        }
    }

    /// The spec-level value of a page number, `1` when there is none.
    pub open spec fn value_or_one(p: Option<Positive>) -> int {
        match p {
            Some(p) => p@ as int,
            None => 1,
        }
    }
}

/// The first page.
pub fn first_page() -> (r: Positive)
    ensures
        r@ == 1,
{
    Positive { value: 1 }
}

/// The number of records a page holds when no size is asked for.
pub fn default_page_size() -> (r: Positive)
    ensures
        r@ == 100,
{
    Positive { value: 100 }
}

} // verus!
