//! Skills and the abilities they are checked with.

use vstd::prelude::*;

use crate::stats::ability::Ability;

verus! {

/// The eighteen skills.
#[derive(Debug, Clone, Copy, PartialEq, Eq, Structural)]
pub enum Skill {
    Acrobatics,
    AnimalHandling,
    Arcana,
    Athletics,
    Deception,
    History,
    Insight,
    Intimidation,
    Investigation,
    Medicine,
    Nature,
    Perception,
    Performance,
    Persuasion,
    Religion,
    SleightOfHand,
    Stealth,
    Survival,
}

/// The ability each skill is checked with.
pub open spec fn spec_skill_ability(s: Skill) -> Ability {
    match s {
        Skill::Acrobatics => Ability::Dexterity,
        Skill::AnimalHandling => Ability::Wisdom,
        Skill::Arcana => Ability::Intelligence,
        Skill::Athletics => Ability::Strength,
        Skill::Deception => Ability::Charisma,
        Skill::History => Ability::Intelligence,
        Skill::Insight => Ability::Wisdom,
        Skill::Intimidation => Ability::Charisma,
        Skill::Investigation => Ability::Intelligence,
        Skill::Medicine => Ability::Wisdom,
        Skill::Nature => Ability::Intelligence,
        Skill::Perception => Ability::Wisdom,
        Skill::Performance => Ability::Charisma,
        Skill::Persuasion => Ability::Charisma,
        Skill::Religion => Ability::Intelligence,
        Skill::SleightOfHand => Ability::Dexterity,
        Skill::Stealth => Ability::Dexterity,
        Skill::Survival => Ability::Wisdom,
    }
}

/// The list position of each skill (Acrobatics is 0).
pub open spec fn spec_skill_index(s: Skill) -> int {
    match s {
        Skill::Acrobatics => 0,
        Skill::AnimalHandling => 1,
        Skill::Arcana => 2,
        Skill::Athletics => 3,
        Skill::Deception => 4,
        Skill::History => 5,
        Skill::Insight => 6,
        Skill::Intimidation => 7,
        Skill::Investigation => 8,
        Skill::Medicine => 9,
        Skill::Nature => 10,
        Skill::Perception => 11,
        Skill::Performance => 12,
        Skill::Persuasion => 13,
        Skill::Religion => 14,
        Skill::SleightOfHand => 15,
        Skill::Stealth => 16,
        Skill::Survival => 17,
    }
}

impl Skill {
    /// The number of skills.
    pub fn len() -> (res: usize)
        ensures
            res == 18,
    {
        18
    }

    /// The list position of this skill.
    pub fn as_index(self) -> (res: usize)
        ensures
            res == spec_skill_index(self),
            res < 18,
    {
        match self {
            Skill::Acrobatics => 0,
            Skill::AnimalHandling => 1,
            Skill::Arcana => 2,
            Skill::Athletics => 3,
            Skill::Deception => 4,
            Skill::History => 5,
            Skill::Insight => 6,
            Skill::Intimidation => 7,
            Skill::Investigation => 8,
            Skill::Medicine => 9,
            Skill::Nature => 10,
            Skill::Perception => 11,
            Skill::Performance => 12,
            Skill::Persuasion => 13,
            Skill::Religion => 14,
            Skill::SleightOfHand => 15,
            Skill::Stealth => 16,
            Skill::Survival => 17,
        }
    }

    /// The ability this skill is checked with.
    pub fn ability(self) -> (res: Ability)
        ensures
            res == spec_skill_ability(self),
    {
        match self {
            Skill::Acrobatics => Ability::Dexterity,
            Skill::AnimalHandling => Ability::Wisdom,
            Skill::Arcana => Ability::Intelligence,
            Skill::Athletics => Ability::Strength,
            Skill::Deception => Ability::Charisma,
            Skill::History => Ability::Intelligence,
            Skill::Insight => Ability::Wisdom,
            Skill::Intimidation => Ability::Charisma,
            Skill::Investigation => Ability::Intelligence,
            Skill::Medicine => Ability::Wisdom,
            Skill::Nature => Ability::Intelligence,
            Skill::Perception => Ability::Wisdom,
            Skill::Performance => Ability::Charisma,
            Skill::Persuasion => Ability::Charisma,
            Skill::Religion => Ability::Intelligence,
            Skill::SleightOfHand => Ability::Dexterity,
            Skill::Stealth => Ability::Dexterity,
            Skill::Survival => Ability::Wisdom,
        }
    }
}

} // verus!
