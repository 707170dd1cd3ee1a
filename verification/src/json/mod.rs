//! Creatures and games as creature files describe them, and how they become the engine's.

use vstd::prelude::*;

pub mod combatant;
pub mod creature;
pub mod stats;
pub mod utils;

use crate::combat::Combat;
use crate::creature::{Creature, CreatureId};
use crate::json::creature::{attacks_ok, spec_creature_made};
use crate::json::utils::WithId;

verus! {

impl Combat {
    /// The creature a creature file describes, with the next creature id (as a `u32`).
    pub fn load_raw_character(&mut self, me: creature::Creature) -> (res: Creature)
        requires
            old(self).creature_id < usize::MAX,
            me.stats.health.max_hp > 0,
            attacks_ok(me.stats.actions.attacks@),
        ensures
            spec_creature_made(me, CreatureId(old(self).creature_id as u32), res),
            final(self).creature_id == old(self).creature_id + 1,
            final(self).initiative == old(self).initiative,
            final(self).arena == old(self).arena,
            final(self).clock == old(self).clock,
            final(self).started == old(self).started,
            final(self).current_turn == old(self).current_turn,
            final(self).win_condition == old(self).win_condition,
    {
        let id = CreatureId(self.next_creature_id() as u32);
        WithId { value: me, id }.into_creature()
    }
}

} // verus!
