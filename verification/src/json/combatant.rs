//! A combatant and a game as a game file describes them.

use vstd::prelude::*;

use crate::json::creature::Creature;

verus! {

/// A combatant as written: the creature, where it starts, how its dice are seeded, and who
/// controls it.
#[derive(Debug)]
pub struct Combatant {
    pub creature: Creature,
    pub position: Position,
    pub seed: Seed,
    pub controller: String,
}

/// Where a combatant starts.
#[derive(Debug, Clone, Copy, PartialEq, Eq, Structural)]
pub enum Position {
    Random,
    /// In feet; multiples of 5 line up with the grid squares.
    Fixed(u32, u32),
}

/// How a combatant's dice are seeded.
#[derive(Debug, Clone, Copy, PartialEq, Eq, Structural)]
pub enum Seed {
    Random,
    Fixed(u64),
}

/// A game as written: the arena's size in feet (multiples of 5), and the combatants.
#[derive(Debug)]
pub struct Game {
    pub arena: (u32, u32),
    pub combatants: Vec<Combatant>,
}

} // verus!
