//! An earlier, coarser vocabulary for on-hit enhancements, kept for its
//! damage-type tagging; the effect registries of the combatant module are the
//! authoritative shape.

use vstd::prelude::*;

verus! {

#[derive(Clone, Copy, Debug, PartialEq, Eq, Structural)]
pub enum DamageType {
    Physical,
    Magical,
    True,
}

} // verus!
