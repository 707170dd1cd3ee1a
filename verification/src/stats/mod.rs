//! Abilities, skills, proficiencies and d20 tests.

use vstd::prelude::*;

pub mod ability;
pub mod d20_test;
pub mod proficiency;
pub mod skill;

pub use ability::{Ability, AbilityModifier, AbilityScore};

verus! {
} // verus!
