//! Creatures: sizes, kinds, levels and challenge ratings.

use vstd::prelude::*;

pub mod actions;
pub mod character;
pub mod marker;
pub mod monster;
pub mod size;
pub mod stat_block;

pub use character::{Character, Level};
pub use monster::{Cr, Monster};
pub use size::CreatureSize;
pub use stat_block::StatBlock;

use crate::combat::action::test_attack;
use crate::creature::actions::{Actions, Reaction};
use crate::creature::marker::Markers;
use crate::creature::monster::{spec_cr_bonus, MonsterType, Type};
use crate::creature::stat_block::{spec_modifier_of, AbilityModifiers, AbilityScores};
use crate::health::damage::DamageType;
use crate::health::Health;
use crate::measure::Feet;
use crate::stats::ability::{spec_modifier, AbilityScore};
use crate::stats::proficiency::Proficiencies;
use crate::stats::ability::{Ability, AbilityModifier};
use crate::stats::d20_test::{roll_total, Check, CheckResult, Save, SaveResult};
use crate::stats::proficiency::{spec_first_applying, ProficiencyApplicationBase, ProficiencyBonus};

verus! {

/// Identifies a creature within a combat.
#[derive(Debug, Clone, Copy, PartialEq, Eq, Structural)]
pub struct CreatureId(pub u32);

/// Whether a creature is a player character or a monster.
#[derive(Debug, Clone, PartialEq, Eq)]
pub enum CreatureKind {
    Character(Character),
    Monster(Monster),
}

/// A creature: who it is, how big, what kind, and its statistics.
#[derive(Debug)]
pub struct Creature {
    pub id: CreatureId,
    pub name: String,
    pub size: CreatureSize,
    pub kind: CreatureKind,
    pub stats: StatBlock,
}

impl Creature {
    /// Whether the creature is dead.
    pub fn is_dead(&self) -> (res: bool)
        ensures
            res == self.stats.health.spec_dead(),
    {
        self.stats.health.is_dead()
    }

    /// A creature takes turns while it lives.
    pub fn can_take_turns(&self) -> (res: bool)
        ensures
            res == !self.stats.health.spec_dead(),
    {
        !self.is_dead()
    }

    /// The creature's proficiency bonus, which for a monster follows from its challenge rating.
    /// Characters are not handled.
    pub fn proficiency_bonus(&self) -> (res: ProficiencyBonus)
        requires
            self.kind is Monster,
        ensures
            res@ == spec_cr_bonus(self.kind->Monster_0.cr),
    {
        match &self.kind {
            CreatureKind::Monster(m) => m.cr.proficiency_bonus(),
            CreatureKind::Character(_) => {
                assert(false);
                ProficiencyBonus::new(2)
            },
        }
    }

    /// The proficiency bonus the creature adds to a test that names `prof`: its bonus when it
    /// is proficient in what the test names, else none.
    pub fn test_proficiency_bonus(&self, prof: &Option<ProficiencyApplicationBase>) -> (res: Option<i32>)
        requires
            *prof matches Some(app) && spec_first_applying(self.stats.proficiencies@, app) is Some ==> self.kind is Monster,
        ensures
            res == match *prof {
                Some(app) => if spec_first_applying(self.stats.proficiencies@, app) is Some {
                    Some(spec_cr_bonus(self.kind->Monster_0.cr) as i32)
                } else {
                    None
                },
                None => None,
            },
    {
        match prof {
            Some(app) => match self.stats.proficiencies.get(app) {
                Some(_) => Some(self.proficiency_bonus().value()),
                None => None,
            },
            None => None,
        }
    }

    /// An ability check from the d20 kept: the d20 plus the ability modifier and any
    /// proficiency bonus, and the outcome against the DC (`None` when the GM must rule).
    pub fn check_roll(&self, check: &Check, kept: i32) -> (res: (i32, Option<CheckResult>))
        requires
            -1000 <= kept <= 1000,
            check.prof matches Some(app) && spec_first_applying(self.stats.proficiencies@, app) is Some ==> self.kind is Monster,
        ensures
            ({
                let total = kept + stat_block::spec_modifier_of(self.stats.modifiers, check.ability)@ + match check.prof {
                    Some(app) => if spec_first_applying(self.stats.proficiencies@, app) is Some {
                        spec_cr_bonus(self.kind->Monster_0.cr)
                    } else {
                        0
                    },
                    None => 0,
                };
                &&& res.0 == total
                &&& res.1 == match check.dc {
                    Some(dc) => Some(if total >= dc.0 { CheckResult::Pass } else { CheckResult::Fail }),
                    None => None,
                }
            }),
    {
        let bonus = self.test_proficiency_bonus(&check.prof);
        let total = roll_total(kept, self.modifier(check.ability), bonus, None);
        (total, check.resolve(total))
    }

    /// A saving throw from the d20 kept: the d20 plus the ability modifier and any
    /// proficiency bonus, and the outcome against the DC (`None` when the GM must rule).
    pub fn save_roll(&self, save: &Save, kept: i32) -> (res: (i32, Option<SaveResult>))
        requires
            -1000 <= kept <= 1000,
            save.prof matches Some(app) && spec_first_applying(self.stats.proficiencies@, app) is Some ==> self.kind is Monster,
        ensures
            ({
                let total = kept + stat_block::spec_modifier_of(self.stats.modifiers, save.ability)@ + match save.prof {
                    Some(app) => if spec_first_applying(self.stats.proficiencies@, app) is Some {
                        spec_cr_bonus(self.kind->Monster_0.cr)
                    } else {
                        0
                    },
                    None => 0,
                };
                &&& res.0 == total
                &&& res.1 == match save.dc {
                    Some(dc) => Some(if total >= dc.0 { SaveResult::Pass } else { SaveResult::Fail }),
                    None => None,
                }
            }),
    {
        let bonus = self.test_proficiency_bonus(&save.prof);
        let total = roll_total(kept, self.modifier(save.ability), bonus, None);
        (total, save.resolve(total))
    }

    /// The creature's modifier for `ability`.
    pub fn modifier(&self, ability: Ability) -> (res: AbilityModifier)
        ensures
            res == stat_block::spec_modifier_of(self.stats.modifiers, ability),
    {
        self.stats.modifiers.get(ability)
    }
}

/// An ability score known to lie in 1 to 30.
fn base_score(value: u8) -> (res: AbilityScore)
    requires
        1 <= value <= 30,
    ensures
        res@ == value,
{
    AbilityScore::try_from_u8(value).unwrap()
}

/// The sample creature: "Test-Creature", a Medium humanoid monster of challenge rating 1/2
/// with scores Str 9, Dex 6, Con 8, Int 10, Wis 6, Cha 12, 7 hit points, armour class 6, a
/// speed of 30 feet, no proficiencies, and one attack, a club.
pub open spec fn spec_test_creature(c: Creature) -> bool {
    let club = c.stats.actions.attacks.attacks@[0];
    &&& c.id == CreatureId(0)
    &&& c.name@ == "Test-Creature"@
    &&& c.size == CreatureSize::Medium
    &&& c.kind matches CreatureKind::Monster(m) && m.cr == Cr::Half && m.ty.ty == MonsterType::Humanoid
        && m.ty.tags@.len() == 0
    &&& c.stats.speed == Feet(30)
    &&& c.stats.proficiencies@.len() == 0
    &&& c.stats.scores.str@ == 9
    &&& c.stats.scores.dex@ == 6
    &&& c.stats.scores.con@ == 8
    &&& c.stats.scores.int@ == 10
    &&& c.stats.scores.wis@ == 6
    &&& c.stats.scores.cha@ == 12
    &&& forall|a: Ability| (#[trigger] spec_modifier_of(c.stats.modifiers, a))@ == spec_modifier(
        crate::creature::stat_block::spec_score(c.stats.scores, a)@ as int,
    )
    &&& c.stats.health.current.value == 7
    &&& c.stats.health.max_hp@ == 7
    &&& c.stats.health.temp_hp is None
    &&& !c.stats.health.spec_dead()
    &&& c.stats.health.riv.resistances@.len() == 0
    &&& c.stats.health.riv.immunities@.len() == 0
    &&& c.stats.health.riv.vulnerabilities@.len() == 0
    &&& c.stats.actions.attacks.max_attacks == crate::creature::actions::DEFAULT_NUM_ATTACKS
    &&& c.stats.actions.attacks.left@ == crate::creature::actions::DEFAULT_NUM_ATTACKS
    &&& c.stats.actions.attacks.attacks@.len() == 1
    &&& club.name@ == "Club"@
    &&& club.kind == (crate::combat::action::AttackKind::Melee { reach: None })
    &&& club.hit.part(DamageType::Bludgeoning) == Some(crate::dice::DiceExpr { qty: 1, sides: 4, bonus: 0 })
    &&& forall|t: DamageType| t != DamageType::Bludgeoning ==> (#[trigger] club.hit.part(t)) is None
    &&& club.prof is None
    &&& club.ability == Ability::Strength
    &&& c.stats.reaction@ is None
    &&& c.stats.ac == 6
    &&& c.stats.markers@.len() == 0
}

/// The sample creature (see `spec_test_creature`).
pub fn test_creature() -> (c: Creature)
    ensures
        spec_test_creature(c),
{
    let scores = AbilityScores {
        str: base_score(9),
        dex: base_score(6),
        con: base_score(8),
        int: base_score(10),
        wis: base_score(6),
        cha: base_score(12),
    };
    let mut actions = Actions::new();
    actions.attacks.attacks.push(test_attack("Club"));
    let health = Health::with_set_max(7).unwrap();
    Creature {
        id: CreatureId(0),
        name: String::from_str("Test-Creature"),
        size: CreatureSize::Medium,
        kind: CreatureKind::Monster(Monster { cr: Cr::Half, ty: Type { ty: MonsterType::Humanoid, tags: Vec::new() } }),
        stats: StatBlock {
            speed: Feet(30),
            proficiencies: Proficiencies::new(),
            scores,
            modifiers: AbilityModifiers::new(&scores),
            health,
            actions,
            reaction: Reaction::new(),
            ac: 6,
            markers: Markers::new(),
        },
    }
}

} // verus!
