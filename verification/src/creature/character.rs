//! Player characters and their levels.

use vstd::prelude::*;

use crate::stats::proficiency::ProficiencyBonus;

verus! {

/// A player character.
#[derive(Debug, Clone, Copy, PartialEq, Eq, Structural)]
pub struct Character {}

/// A character level, 1 to 20.
#[derive(Debug, Clone, Copy, PartialEq, Eq, Structural)]
pub struct Level(u8);

/// A number that is not a character level.
#[derive(Debug, Clone, Copy, PartialEq, Eq, Structural)]
pub struct InvalidLevel(pub u8);

/// The proficiency bonus at a level: +2 at levels 1 to 4, rising by one every four levels.
pub open spec fn spec_level_bonus(level: int) -> int {
    2 + (level - 1) / 4
}

impl View for Level {
    type V = u8;

    closed spec fn view(&self) -> u8 {
        self.0
    }
}

impl Level {
    #[verifier::type_invariant]
    spec fn inv(self) -> bool {
        1 <= self.0 <= 20
    }

    /// The level `value`, when it lies in 1 to 20.
    pub fn try_from_u8(value: u8) -> (res: Result<Level, InvalidLevel>)
        ensures
            1 <= value <= 20 ==> (res matches Ok(l) && l@ == value),
            !(1 <= value <= 20) ==> res == Err::<Level, InvalidLevel>(InvalidLevel(value)),
    {
        if 1 <= value && value <= 20 {
            Ok(Level(value))
        } else {
            Err(InvalidLevel(value))
        }
    }

    /// The level as a number.
    pub fn value(self) -> (res: u8)
        ensures
            res == self@,
            1 <= res <= 20,
    {
        proof {
            use_type_invariant(self);
        }
        self.0
    }

    /// The proficiency bonus at this level.
    pub fn proficiency_bonus(&self) -> (res: ProficiencyBonus)
        ensures
            res@ == spec_level_bonus(self@ as int),
            2 <= res@ <= 6,
    {
        proof {
            use_type_invariant(self);
        }
        let l = self.0;
        if l <= 4 {
            ProficiencyBonus::new(2)
        } else if l <= 8 {
            ProficiencyBonus::new(3)
        } else if l <= 12 {
            ProficiencyBonus::new(4)
        } else if l <= 16 {
            ProficiencyBonus::new(5)
        } else {
            ProficiencyBonus::new(6)
        }
    }
}

/// The level bonus never decreases as the level rises.
pub proof fn lemma_level_bonus_monotone(a: int, b: int)
    requires
        1 <= a <= b <= 20,
    ensures
        spec_level_bonus(a) <= spec_level_bonus(b),
{
}

} // verus!
