//! Dynamic simulation of a large segmented telescope: the signal bus, the
//! assembly of the modal state space model, the wind load source and the
//! controller adapters, with the plumbing between them verified.
//!
//! The library moves samples and never computes on them: it is written for
//! any copyable sample type. What is numerical in a simulation is handed to
//! it as a function: the addition of two samples, the advance of a mode by
//! one step, the filter of a controller. What the library states of a step
//! it states of whatever these functions give.

use vstd::prelude::*;

pub mod controllers;
pub mod error;
pub mod fem;
pub mod io;
pub mod samples;
pub mod telltale;
pub mod wind_loads;

use error::DOSError;
use io::{IOError, Tags, IO};

verus! {

/// The signals that a component takes and gives.
pub trait IOTags {
    /// The signals that the component gives, in the order in which it gives them.
    spec fn outputs_tags_spec(&self) -> Seq<Tags>;

    /// The signals that the component takes, in the order in which it declares them.
    spec fn inputs_tags_spec(&self) -> Seq<Tags>;

    /// Returns the list of outputs.
    fn outputs_tags(&self) -> (r: Vec<Tags>)
        ensures
            r@ == self.outputs_tags_spec(),
    ;

    /// Returns the list of inputs.
    fn inputs_tags(&self) -> (r: Vec<Tags>)
        ensures
            r@ == self.inputs_tags_spec(),
    ;
}

/// The step protocol: what a component of a simulation takes in before a
/// step and hands out after it. The step itself is the component's own.
pub trait DOS<T> {
    /// What the component keeps true of itself between the calls.
    spec fn inv(&self) -> bool;

    /// Hands out the outputs of the component, or nothing where it has no more.
    fn outputs(&mut self) -> (r: Option<Vec<IO<Vec<T>>>>)
        requires
            old(self).inv(),
        ensures
            final(self).inv(),
    ;

    /// Takes the inputs of the component in.
    fn inputs(&mut self, data: Vec<IO<Vec<T>>>) -> (r: Result<(), DOSError<IOError>>)
        requires
            old(self).inv(),
        ensures
            final(self).inv(),
    ;
}

} // verus!
