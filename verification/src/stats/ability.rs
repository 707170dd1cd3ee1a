//! The six abilities, their scores and modifiers.

use vstd::prelude::*;

verus! {

/// The six abilities, in sheet order.
#[derive(Debug, Clone, Copy, PartialEq, Eq, Structural)]
pub enum Ability {
    Strength,
    Dexterity,
    Constitution,
    Intelligence,
    Wisdom,
    Charisma,
}

/// The sheet position of an ability (Strength is 0, Charisma is 5).
pub open spec fn spec_ability_index(a: Ability) -> int {
    match a {
        Ability::Strength => 0,
        Ability::Dexterity => 1,
        Ability::Constitution => 2,
        Ability::Intelligence => 3,
        Ability::Wisdom => 4,
        Ability::Charisma => 5,
    }
}

impl Ability {
    /// The number of abilities.
    pub fn len() -> (res: usize)
        ensures
            res == 6,
    {
        6
    }

    /// The sheet position of this ability.
    pub fn as_index(self) -> (res: usize)
        ensures
            res == spec_ability_index(self),
            res < 6,
    {
        match self {
            Ability::Strength => 0,
            Ability::Dexterity => 1,
            Ability::Constitution => 2,
            Ability::Intelligence => 3,
            Ability::Wisdom => 4,
            Ability::Charisma => 5,
        }
    }
}

/// Abilities sit at distinct sheet positions.
pub proof fn lemma_ability_index_injective(a: Ability, b: Ability)
    ensures
        spec_ability_index(a) == spec_ability_index(b) <==> a == b,
{
}

/// An ability score: 1 to 30, or the special score 0.
#[derive(Debug, Clone, Copy)]
pub struct AbilityScore(u8);

/// A score outside 1 to 30 was given.
#[derive(Debug, Clone, Copy, PartialEq, Eq, Structural)]
pub struct IllegalAbilityScore(pub u8);

/// The modifier for an ability score: half of (score - 10), rounded down.
pub open spec fn spec_modifier(score: int) -> int {
    (score - 10) / 2
}

impl View for AbilityScore {
    type V = u8;

    closed spec fn view(&self) -> u8 {
        self.0
    }
}

impl AbilityScore {
    #[verifier::type_invariant]
    spec fn inv(self) -> bool {
        self.0 <= 30
    }

    /// The special score of 0.
    pub fn zero() -> (res: Self)
        ensures
            res@ == 0,
    {
        AbilityScore(0)
    }

    /// A score from a number, which must lie in 1 to 30.
    pub fn try_from_u8(value: u8) -> (res: Result<Self, IllegalAbilityScore>)
        ensures
            1 <= value <= 30 ==> (res matches Ok(s) && s@ == value),
            !(1 <= value <= 30) ==> res == Err::<Self, IllegalAbilityScore>(IllegalAbilityScore(value)),
    {
        if 1 <= value && value <= 30 {
            Ok(AbilityScore(value))
        } else {
            Err(IllegalAbilityScore(value))
        }
    }

    /// The modifier for this score.
    pub fn modifier(self) -> (res: AbilityModifier)
        ensures
            res@ == spec_modifier(self@ as int),
            -5 <= res@ <= 10,
    {
        proof {
            use_type_invariant(self);
        }
        let v: i8 = self.0 as i8 - 10;
        let m: i8 = if v >= 0 { v / 2 } else { (v - 1) / 2 };
        AbilityModifier(m)
    }

    /// The score as a number.
    pub fn value(self) -> (res: u8)
        ensures
            res == self@,
            res <= 30,
    {
        proof {
            use_type_invariant(self);
        }
        self.0
    }
}

/// Ability modifiers never decrease as the score grows, and stay within -5 to +10.
pub proof fn lemma_modifier_monotone(a: int, b: int)
    requires
        0 <= a <= b <= 30,
    ensures
        spec_modifier(a) <= spec_modifier(b),
        -5 <= spec_modifier(a) <= 10,
{
}

/// A score of 10 or 11 gives no modifier; each two points above or below shift it by one.
pub proof fn lemma_modifier_steps(s: int)
    requires
        0 <= s <= 28,
    ensures
        spec_modifier(s + 2) == spec_modifier(s) + 1,
        spec_modifier(10) == 0,
        spec_modifier(11) == 0,
{
}

/// An ability modifier, from -5 to +10.
#[derive(Debug, Clone, Copy)]
pub struct AbilityModifier(i8);

impl View for AbilityModifier {
    type V = i8;

    closed spec fn view(&self) -> i8 {
        self.0
    }
}

impl AbilityModifier {
    #[verifier::type_invariant]
    spec fn inv(self) -> bool {
        -5 <= self.0 <= 10
    }

    /// The modifier 0.
    pub fn zero() -> (res: Self)
        ensures
            res@ == 0,
    {
        AbilityModifier(0)
    }

    /// The modifier as a number.
    pub fn value(self) -> (res: i32)
        ensures
            res == self@,
            -5 <= res <= 10,
    {
        proof {
            use_type_invariant(self);
        }
        self.0 as i32
    }
}

} // verus!
