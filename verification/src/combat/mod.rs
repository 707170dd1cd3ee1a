//! Combat: the grid, the clock, turns and actions.

use vstd::prelude::*;

pub mod action;
pub mod affiliation;
pub mod arena;
pub mod clock;
pub mod combatant;
pub mod display;
pub mod moves;
pub mod reaction;
pub mod strike;
pub mod turn;
pub mod utils;
pub mod win;

pub use clock::CombatClock;
pub use combatant::{Combat, Combatant};
pub use turn::Turn;

verus! {
} // verus!
