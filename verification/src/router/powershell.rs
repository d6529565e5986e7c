//! The PowerShell routes of the screens that pass identifiers as text:
//! each runs something and leaves the current screen in place.
use vstd::prelude::*;
use crate::routes::powershell::Route;

verus! {

/// The PowerShell router.
pub struct Router;

impl Router {
    /// Whether the router shows a new screen for `route`: never, PowerShell
    /// routes only run something.
    pub fn shows_screen(&self, route: &Route) -> (r: bool)
        ensures
            !r,
    {
        false
    }
}

} // verus!
