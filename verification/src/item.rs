//! An item of a build: a named bundle of flat stat deltas. Items carry no
//! logic of their own; the simulator consumes only resolved stat records.

use vstd::prelude::*;

verus! {

#[derive(Clone, Debug)]
pub struct Item {
    pub name: String,
    pub cost: i64,
    pub health: i64,
    pub hp5: i64,
    pub mana: i64,
    pub mp5: i64,
    pub ad: i64,
    pub as_: i64,
    pub armor: i64,
    pub mr: i64,
    pub range: i64,
    pub ms: i64,
}

} // verus!
