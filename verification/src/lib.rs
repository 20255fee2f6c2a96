//! A duel simulator for a MOBA-style game: two combatants' level-scaled stat
//! records exchange basic attacks and on-hit effects on a fixed
//! 30-tick-per-second clock until one side's health reaches zero.
//!
//! Every quantity is fixed-point: an `i64` count of subunits, `fixed::SCALE`
//! subunits to one stat point, so every formula of the damage pipeline —
//! level-growth curves, armor and magic-resist reduction, the mitigation
//! conversion, critical strikes, and the shield-absorption order — is exact
//! integer arithmetic with a specified rounding, and carries a contract that
//! pins its result. The only nondeterminism is the critical-strike roll, drawn
//! from the random source behind one trusted boundary; everything downstream
//! of a roll is verified for every value the roll can take.

pub mod builds;
pub mod champion;
pub mod constants;
pub mod damage;
pub mod effects;
pub mod enhancements;
pub mod errors;
pub mod fixed;
pub mod item;
pub mod scenario;
pub mod utils;
