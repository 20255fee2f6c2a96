//! Error values of the simulator.

use vstd::prelude::*;

verus! {

#[derive(Clone, Copy, Debug, PartialEq, Eq, Structural)]
pub enum SimError {
    /// The stat catalog has no entry under the requested name.
    UnknownEntity,
    /// A scenario was built from values the simulation cannot run on, such as
    /// a non-positive attack speed or a negative reaction delay.
    InvalidConfiguration,
    /// The defensive tick cap was reached with both sides still standing.
    IterationCapReached,
}

} // verus!
