//! Drawing the program's state: the program hands its state to whatever
//! renders it.
use vstd::prelude::*;
use super::state::{State, StateView};

verus! {

#[verifier::external_type_specification]
#[verifier::external_body]
pub struct ExAnyhowError(anyhow::Error);

/// Something that draws the program's state.
///
/// A renderer may keep a record of its drawing: the states it was handed and
/// what it answered each time, oldest first. A renderer verified with the
/// library that keeps the record says so through `records_drawing`; one
/// written in plain Rust keeps none, and `render` then promises nothing.
pub trait Render {
    /// Whether this renderer keeps the record of its drawing.
    closed spec fn records_drawing(&self) -> bool {
        false
    }

    /// The states this renderer was handed to draw, oldest first.
    closed spec fn drawn(&self) -> Seq<StateView> {
        Seq::empty()
    }

    /// What this renderer answered each time it drew, oldest first.
    closed spec fn answers(&self) -> Seq<anyhow::Result<()>> {
        Seq::empty()
    }

    /// Draws `state`. A renderer that keeps the record adds `state`, and its
    /// answer, to it.
    fn render(&mut self, state: &State) -> (r: anyhow::Result<()>)
        ensures
            old(self).records_drawing() ==> {
                &&& final(self).records_drawing()
                &&& final(self).drawn() == old(self).drawn().push(state@)
                &&& final(self).answers() == old(self).answers().push(r)
            },
    ;
}

/// One drawing of the state by a renderer.
pub struct DrawOperation<'a, T> {
    pub renderer: &'a mut T,
}

impl<'a, T: Render> DrawOperation<'a, T> {
    /// Draws `state` with the renderer, and reports what the renderer reports:
    /// the renderer is handed `state` once, and its answer is passed back as
    /// it came.
    pub fn execute(&mut self, state: &State) -> (r: anyhow::Result<()>)
        ensures
            old(self).renderer.records_drawing() ==> {
                &&& final(self).renderer.records_drawing()
                &&& final(self).renderer.drawn() == old(self).renderer.drawn().push(state@)
                &&& final(self).renderer.answers() == old(self).renderer.answers().push(r)
            },
    {
        self.renderer.render(state)
    }
}

} // verus!
