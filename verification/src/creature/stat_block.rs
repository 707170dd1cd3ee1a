//! A creature's statistics.

use vstd::prelude::*;

use crate::creature::actions::{Actions, Reaction};
use crate::creature::marker::{marker_clock_ok, spec_count_alive, MarkerKind, Markers};
use crate::health::Health;
use crate::measure::{Feet, Rounds, Turns};
use crate::stats::ability::{spec_modifier, Ability, AbilityModifier, AbilityScore};
use crate::stats::proficiency::Proficiencies;

verus! {

/// The six ability scores.
#[derive(Debug, Clone, Copy)]
pub struct AbilityScores {
    pub str: AbilityScore,
    pub dex: AbilityScore,
    pub con: AbilityScore,
    pub int: AbilityScore,
    pub wis: AbilityScore,
    pub cha: AbilityScore,
}

/// The score for `ability`.
pub open spec fn spec_score(scores: AbilityScores, ability: Ability) -> AbilityScore {
    match ability {
        Ability::Strength => scores.str,
        Ability::Dexterity => scores.dex,
        Ability::Constitution => scores.con,
        Ability::Intelligence => scores.int,
        Ability::Wisdom => scores.wis,
        Ability::Charisma => scores.cha,
    }
}

impl AbilityScores {
    /// The score for `ability`.
    pub fn get(&self, ability: Ability) -> (res: AbilityScore)
        ensures
            res == spec_score(*self, ability),
            ability == Ability::Strength ==> res == self.str,
            ability == Ability::Dexterity ==> res == self.dex,
            ability == Ability::Constitution ==> res == self.con,
            ability == Ability::Intelligence ==> res == self.int,
            ability == Ability::Wisdom ==> res == self.wis,
            ability == Ability::Charisma ==> res == self.cha,
    {
        match ability {
            Ability::Strength => self.str,
            Ability::Dexterity => self.dex,
            Ability::Constitution => self.con,
            Ability::Intelligence => self.int,
            Ability::Wisdom => self.wis,
            Ability::Charisma => self.cha,
        }
    }
}

/// The six ability modifiers, each derived from its score.
#[derive(Debug, Clone, Copy)]
pub struct AbilityModifiers {
    pub str: AbilityModifier,
    pub dex: AbilityModifier,
    pub con: AbilityModifier,
    pub int: AbilityModifier,
    pub wis: AbilityModifier,
    pub cha: AbilityModifier,
}

/// The modifier for `ability`.
pub open spec fn spec_modifier_of(mods: AbilityModifiers, ability: Ability) -> AbilityModifier {
    match ability {
        Ability::Strength => mods.str,
        Ability::Dexterity => mods.dex,
        Ability::Constitution => mods.con,
        Ability::Intelligence => mods.int,
        Ability::Wisdom => mods.wis,
        Ability::Charisma => mods.cha,
    }
}

impl AbilityModifiers {
    /// The modifiers of the given scores.
    pub fn new(scores: &AbilityScores) -> (res: Self)
        ensures
            forall|a: Ability| (#[trigger] spec_modifier_of(res, a))@ == spec_modifier(spec_score(*scores, a)@ as int),
            res.str@ == spec_modifier(scores.str@ as int),
            res.dex@ == spec_modifier(scores.dex@ as int),
            res.con@ == spec_modifier(scores.con@ as int),
            res.int@ == spec_modifier(scores.int@ as int),
            res.wis@ == spec_modifier(scores.wis@ as int),
            res.cha@ == spec_modifier(scores.cha@ as int),
    {
        AbilityModifiers {
            str: scores.str.modifier(),
            dex: scores.dex.modifier(),
            con: scores.con.modifier(),
            int: scores.int.modifier(),
            wis: scores.wis.modifier(),
            cha: scores.cha.modifier(),
        }
    }

    /// The modifier for `ability`.
    pub fn get(&self, ability: Ability) -> (res: AbilityModifier)
        ensures
            res == spec_modifier_of(*self, ability),
            ability == Ability::Strength ==> res == self.str,
            ability == Ability::Dexterity ==> res == self.dex,
            ability == Ability::Constitution ==> res == self.con,
            ability == Ability::Intelligence ==> res == self.int,
            ability == Ability::Wisdom ==> res == self.wis,
            ability == Ability::Charisma ==> res == self.cha,
    {
        match ability {
            Ability::Strength => self.str,
            Ability::Dexterity => self.dex,
            Ability::Constitution => self.con,
            Ability::Intelligence => self.int,
            Ability::Wisdom => self.wis,
            Ability::Charisma => self.cha,
        }
    }
}

/// Each ability reads its own score and its own modifier: Strength the `str` fields,
/// Dexterity the `dex` fields, and so on.
pub proof fn lemma_ability_reads_its_own_fields(scores: AbilityScores, mods: AbilityModifiers)
    ensures
        spec_score(scores, Ability::Strength) == scores.str,
        spec_score(scores, Ability::Dexterity) == scores.dex,
        spec_score(scores, Ability::Constitution) == scores.con,
        spec_score(scores, Ability::Intelligence) == scores.int,
        spec_score(scores, Ability::Wisdom) == scores.wis,
        spec_score(scores, Ability::Charisma) == scores.cha,
        spec_modifier_of(mods, Ability::Strength) == mods.str,
        spec_modifier_of(mods, Ability::Dexterity) == mods.dex,
        spec_modifier_of(mods, Ability::Constitution) == mods.con,
        spec_modifier_of(mods, Ability::Intelligence) == mods.int,
        spec_modifier_of(mods, Ability::Wisdom) == mods.wis,
        spec_modifier_of(mods, Ability::Charisma) == mods.cha,
{
}

/// Modifiers made from scores give each ability the modifier of that ability's own score.
pub proof fn lemma_modifiers_match_scores(scores: AbilityScores, mods: AbilityModifiers, a: Ability)
    requires
        mods.str@ == spec_modifier(scores.str@ as int),
        mods.dex@ == spec_modifier(scores.dex@ as int),
        mods.con@ == spec_modifier(scores.con@ as int),
        mods.int@ == spec_modifier(scores.int@ as int),
        mods.wis@ == spec_modifier(scores.wis@ as int),
        mods.cha@ == spec_modifier(scores.cha@ as int),
    ensures
        spec_modifier_of(mods, a)@ == spec_modifier(spec_score(scores, a)@ as int),
{
}

/// `base` doubled `n` times.
pub open spec fn spec_doubled(base: nat, n: nat) -> nat
    decreases n,
{
    if n == 0 {
        base
    } else {
        2 * spec_doubled(base, (n - 1) as nat)
    }
}

/// A creature's statistics.
#[derive(Debug)]
pub struct StatBlock {
    /// Walking speed, before any effect.
    pub speed: Feet,
    pub proficiencies: Proficiencies,
    pub scores: AbilityScores,
    pub modifiers: AbilityModifiers,
    pub health: Health,
    pub actions: Actions,
    pub reaction: Reaction,
    /// Armour class.
    pub ac: i32,
    pub markers: Markers,
}

impl StatBlock {
    /// The speed now: the walking speed, doubled for each Dash still lasting.
    pub fn current_speed(&self, turns: Turns, rounds: Rounds, my_order: usize, current_order: usize) -> (res: Feet)
        requires
            forall|i: int| 0 <= i < self.markers@.len() ==> marker_clock_ok(#[trigger] self.markers@[i], rounds.0, my_order as int, current_order as int),
            spec_doubled(self.speed.0 as nat, spec_count_alive(self.markers@, MarkerKind::Dashing, turns.0, rounds.0, my_order as int, current_order as int)) <= u32::MAX,
        ensures
            res.0 == spec_doubled(self.speed.0 as nat, spec_count_alive(self.markers@, MarkerKind::Dashing, turns.0, rounds.0, my_order as int, current_order as int)),
    {
        let n = self.markers.count_alive(MarkerKind::Dashing, turns, rounds, my_order, current_order);
        let ghost total = spec_doubled(self.speed.0 as nat, n as nat);
        let mut speed: u32 = self.speed.0;
        let mut k: usize = 0;
        while k < n
            invariant
                k <= n,
                speed == spec_doubled(self.speed.0 as nat, k as nat),
                total == spec_doubled(self.speed.0 as nat, n as nat),
                total <= u32::MAX,
            decreases n - k,
        {
            proof {
                lemma_doubled_monotone(self.speed.0 as nat, (k + 1) as nat, n as nat);
            }
            speed = speed * 2;
            k = k + 1;
        }
        Feet(speed)
    }
}

/// Doubling more often never gives less.
pub proof fn lemma_doubled_monotone(base: nat, a: nat, b: nat)
    requires
        a <= b,
    ensures
        spec_doubled(base, a) <= spec_doubled(base, b),
    decreases b,
{
    if a < b {
        lemma_doubled_monotone(base, a, (b - 1) as nat);
    }
}

} // verus!
