//! D20 tests: ability checks, saving throws and attack rolls.

use vstd::prelude::*;

use crate::stats::ability::{Ability, AbilityModifier};
use crate::stats::proficiency::{Proficiencies, ProficiencyApplicationBase, spec_first_applying};
use crate::stats::skill::{Skill, spec_skill_ability};

verus! {

/// The d20 of a test roll, as shaped by advantage and disadvantage.
#[derive(Debug, Clone, Copy, PartialEq, Eq, Structural)]
pub enum D20Roll {
    /// One d20.
    Single,
    /// Two d20s, keep the highest (advantage).
    KeepHighest,
    /// Two d20s, keep the lowest (disadvantage).
    KeepLowest,
    /// Advantage and disadvantage cancelled out: one d20, and nothing can change that.
    CancelledOut,
}

/// Grant advantage to test rolls.
#[derive(Debug, Clone, Copy, PartialEq, Eq, Structural)]
pub struct Advantage {
    pub reason: Option<u32>,
}

/// Impose disadvantage on test rolls.
#[derive(Debug, Clone, Copy, PartialEq, Eq, Structural)]
pub struct Disadvantage {
    pub reason: Option<u32>,
}

/// The roll after advantage is granted.
pub open spec fn spec_grant(r: D20Roll) -> D20Roll {
    match r {
        D20Roll::Single => D20Roll::KeepHighest,
        D20Roll::KeepHighest => D20Roll::KeepHighest,
        D20Roll::KeepLowest => D20Roll::CancelledOut,
        D20Roll::CancelledOut => D20Roll::CancelledOut,
    }
}

/// The roll after disadvantage is imposed.
pub open spec fn spec_impose(r: D20Roll) -> D20Roll {
    match r {
        D20Roll::Single => D20Roll::KeepLowest,
        D20Roll::KeepHighest => D20Roll::CancelledOut,
        D20Roll::KeepLowest => D20Roll::KeepLowest,
        D20Roll::CancelledOut => D20Roll::CancelledOut,
    }
}

/// Returns new rolls with advantage or disadvantage applied.
pub trait D20TestRoll: Sized {
    spec fn spec_granted(&self) -> Self;

    spec fn spec_imposed(&self) -> Self;

    fn grant(&self, advantage: Advantage) -> (res: Self)
        ensures
            res == self.spec_granted(),
    ;

    fn impose(&self, disadvantage: Disadvantage) -> (res: Self)
        ensures
            res == self.spec_imposed(),
    ;
}

impl D20TestRoll for D20Roll {
    open spec fn spec_granted(&self) -> D20Roll {
        spec_grant(*self)
    }

    open spec fn spec_imposed(&self) -> D20Roll {
        spec_impose(*self)
    }

    fn grant(&self, advantage: Advantage) -> (res: D20Roll) {
        match self {
            D20Roll::Single => D20Roll::KeepHighest,
            D20Roll::KeepHighest => D20Roll::KeepHighest,
            D20Roll::KeepLowest => D20Roll::CancelledOut,
            D20Roll::CancelledOut => D20Roll::CancelledOut,
        }
    }

    fn impose(&self, disadvantage: Disadvantage) -> (res: D20Roll) {
        match self {
            D20Roll::Single => D20Roll::KeepLowest,
            D20Roll::KeepHighest => D20Roll::CancelledOut,
            D20Roll::KeepLowest => D20Roll::KeepLowest,
            D20Roll::CancelledOut => D20Roll::CancelledOut,
        }
    }
}

impl D20Roll {
    /// How many d20s are rolled.
    pub open spec fn spec_dice(self) -> nat {
        if self is KeepHighest || self is KeepLowest { 2 } else { 1 }
    }

    /// How many d20s are rolled.
    pub fn dice(&self) -> (res: u32)
        ensures
            res == self.spec_dice(),
    {
        match self {
            D20Roll::KeepHighest | D20Roll::KeepLowest => 2,
            _ => 1,
        }
    }

    /// The d20 that counts, from the faces rolled.
    pub fn kept(&self, faces: &Vec<i32>) -> (res: i32)
        requires
            faces@.len() == self.spec_dice(),
        ensures
            res == match *self {
                D20Roll::KeepHighest => if faces@[0] < faces@[1] { faces@[1] } else { faces@[0] },
                D20Roll::KeepLowest => if faces@[0] < faces@[1] { faces@[0] } else { faces@[1] },
                _ => faces@[0],
            },
    {
        match self {
            D20Roll::KeepHighest => if faces[0] < faces[1] { faces[1] } else { faces[0] },
            D20Roll::KeepLowest => if faces[0] < faces[1] { faces[0] } else { faces[1] },
            _ => faces[0],
        }
    }
}

/// A fresh test roll: one d20.
pub fn d20_test() -> (res: D20Roll)
    ensures
        res == D20Roll::Single,
{
    D20Roll::Single
}

/// Advantage and disadvantage do not stack: granting (or imposing) twice is granting (or
/// imposing) once.
pub proof fn lemma_roll_effects_idempotent(r: D20Roll)
    ensures
        spec_grant(spec_grant(r)) == spec_grant(r),
        spec_impose(spec_impose(r)) == spec_impose(r),
{
}

/// A roll with both advantage and disadvantage has neither, whatever the order they came in.
pub proof fn lemma_roll_effects_cancel(r: D20Roll)
    ensures
        spec_impose(spec_grant(r)) == spec_grant(spec_impose(r)),
        spec_impose(spec_grant(r)) == D20Roll::CancelledOut,
{
}

/// The roll after a sequence of effects, `true` meaning advantage and `false` disadvantage.
pub open spec fn spec_apply_all(r: D20Roll, effects: Seq<bool>) -> D20Roll
    decreases effects.len(),
{
    if effects.len() == 0 {
        r
    } else {
        let next = if effects[0] { spec_grant(r) } else { spec_impose(r) };
        spec_apply_all(next, effects.drop_first())
    }
}

/// For a fresh test roll, only which kinds of effect occurred matters: any advantage together
/// with any disadvantage cancels out, however many of each there are.
pub proof fn lemma_effects_on_fresh_roll(effects: Seq<bool>)
    ensures
        spec_apply_all(D20Roll::Single, effects) == (
            if effects.contains(true) && effects.contains(false) {
                D20Roll::CancelledOut
            } else if effects.contains(true) {
                D20Roll::KeepHighest
            } else if effects.contains(false) {
                D20Roll::KeepLowest
            } else {
                D20Roll::Single
            }),
{
    lemma_effects_general(D20Roll::Single, effects);
}

/// The roll after a sequence of effects from any starting roll.
proof fn lemma_effects_general(r: D20Roll, effects: Seq<bool>)
    ensures
        spec_apply_all(r, effects) == (
            if effects.len() == 0 {
                r
            } else if r is CancelledOut || (effects.contains(true) && effects.contains(false)) {
                D20Roll::CancelledOut
            } else if effects.contains(true) {
                if r is KeepLowest { D20Roll::CancelledOut } else { D20Roll::KeepHighest }
            } else {
                if r is KeepHighest { D20Roll::CancelledOut } else { D20Roll::KeepLowest }
            }),
    decreases effects.len(),
{
    if effects.len() > 0 {
        let rest = effects.drop_first();
        let next = if effects[0] { spec_grant(r) } else { spec_impose(r) };
        lemma_effects_general(next, rest);
        assert(effects =~= seq![effects[0]] + rest);
        assert forall|b: bool| effects.contains(b) <==> (effects[0] == b || rest.contains(b)) by {
            if effects.contains(b) {
                let k = choose|k: int| 0 <= k < effects.len() && effects[k] == b;
                if k > 0 {
                    assert(rest[k - 1] == b);
                }
            }
            if rest.contains(b) {
                let k = choose|k: int| 0 <= k < rest.len() && rest[k] == b;
                assert(effects[k + 1] == b);
            }
        }
    }
}

/// The target number of an ability check or saving throw.
#[derive(Debug, Clone, Copy, PartialEq, Eq, Structural)]
pub struct DC(pub i32);

/// The target number is not known ahead of time: the GM rules on the result.
#[derive(Debug, Clone, Copy, PartialEq, Eq, Structural)]
pub struct AmbiguousDC;

/// The target number of an attack roll.
#[derive(Debug, Clone, Copy, PartialEq, Eq, Structural)]
pub struct AC(pub i32);

/// Whether a roll total meets a target number.
pub fn equals_or_exceeds(total: i32, target: i32) -> (res: bool)
    ensures
        res == (total >= target),
{
    total >= target
}

/// A critical hit.
#[derive(Debug, Clone, Copy, PartialEq, Eq, Structural)]
pub struct Critical;

/// The outcome of an attack roll.
#[derive(Debug, Clone, Copy, PartialEq, Eq, Structural)]
pub enum AttackRollResult {
    Hit(Option<Critical>),
    Miss,
}

impl AttackRollResult {
    /// The outcome of an attack roll: a natural 1 always misses, a natural 20 always hits
    /// critically, otherwise the total must meet the armour class.
    pub fn result_for(ac: &AC, kept: i32, total: i32) -> (res: AttackRollResult)
        requires
            1 <= kept <= 20,
        ensures
            res == (if kept == 1 {
                AttackRollResult::Miss
            } else if kept == 20 {
                AttackRollResult::Hit(Some(Critical))
            } else if total >= ac.0 {
                AttackRollResult::Hit(None)
            } else {
                AttackRollResult::Miss
            }),
    {
        let is_hit = equals_or_exceeds(total, ac.0);
        if kept == 1 {
            AttackRollResult::Miss
        } else if kept == 20 {
            AttackRollResult::Hit(Some(Critical))
        } else if is_hit {
            AttackRollResult::Hit(None)
        } else {
            AttackRollResult::Miss
        }
    }
}

/// The outcome of an ability check.
#[derive(Debug, Clone, Copy, PartialEq, Eq, Structural)]
pub enum CheckResult {
    Pass,
    Fail,
}

impl CheckResult {
    /// A check passes when the total meets the DC.
    pub fn result_for(dc: &DC, total: i32) -> (res: CheckResult)
        ensures
            res == (if total >= dc.0 { CheckResult::Pass } else { CheckResult::Fail }),
    {
        if equals_or_exceeds(total, dc.0) {
            CheckResult::Pass
        } else {
            CheckResult::Fail
        }
    }
}

/// The outcome of a saving throw.
#[derive(Debug, Clone, Copy, PartialEq, Eq, Structural)]
pub enum SaveResult {
    Pass,
    Fail,
}

impl SaveResult {
    /// A save passes when the total meets the DC.
    pub fn result_for(dc: &DC, total: i32) -> (res: SaveResult)
        ensures
            res == (if total >= dc.0 { SaveResult::Pass } else { SaveResult::Fail }),
    {
        if equals_or_exceeds(total, dc.0) {
            SaveResult::Pass
        } else {
            SaveResult::Fail
        }
    }
}

/// An ability check.
#[derive(Debug, Clone, Copy, PartialEq, Eq, Structural)]
pub struct Check {
    pub ability: Ability,
    pub prof: Option<ProficiencyApplicationBase>,
    pub dc: Option<DC>,
}

impl Check {
    /// A check of a skill, with the skill's ability and proficiency in that skill.
    pub fn for_skill(skill: Skill, dc: Option<DC>) -> (res: Self)
        ensures
            res.ability == spec_skill_ability(skill),
            res.prof == Some(ProficiencyApplicationBase::Skill(skill)),
            res.dc == dc,
    {
        Check { ability: skill.ability(), prof: Some(ProficiencyApplicationBase::Skill(skill)), dc }
    }

    /// The outcome for a roll total, or `None` when the GM must rule (no DC was set).
    pub fn resolve(&self, total: i32) -> (res: Option<CheckResult>)
        ensures
            res == match self.dc {
                Some(dc) => Some(if total >= dc.0 { CheckResult::Pass } else { CheckResult::Fail }),
                None => None,
            },
    {
        match &self.dc {
            Some(dc) => Some(CheckResult::result_for(dc, total)),
            None => None,
        }
    }
}

/// A saving throw.
#[derive(Debug, Clone, Copy, PartialEq, Eq, Structural)]
pub struct Save {
    pub ability: Ability,
    pub prof: Option<ProficiencyApplicationBase>,
    pub dc: Option<DC>,
}

impl Save {
    /// The outcome for a roll total, or `None` when the GM must rule (no DC was set).
    pub fn resolve(&self, total: i32) -> (res: Option<SaveResult>)
        ensures
            res == match self.dc {
                Some(dc) => Some(if total >= dc.0 { SaveResult::Pass } else { SaveResult::Fail }),
                None => None,
            },
    {
        match &self.dc {
            Some(dc) => Some(SaveResult::result_for(dc, total)),
            None => None,
        }
    }
}

/// The proficiency bonus a test earns: the bonus when the test names something the creature
/// is proficient in, else none.
pub fn proficiency_bonus_for(
    profs: &Proficiencies,
    prof: &Option<ProficiencyApplicationBase>,
    bonus: i32,
) -> (res: Option<i32>)
    ensures
        res == match *prof {
            Some(app) => if spec_first_applying(profs@, app) is Some { Some(bonus) } else { None },
            None => None,
        },
{
    match prof {
        Some(app) => match profs.get(app) {
            Some(_) => Some(bonus),
            None => None,
        },
        None => None,
    }
}

/// The total of a test roll: the kept d20 plus the ability modifier, the proficiency bonus and
/// any circumstantial bonus.
pub fn roll_total(
    kept: i32,
    modifier: AbilityModifier,
    prof_bonus: Option<i32>,
    circumstantial: Option<i32>,
) -> (res: i32)
    requires
        -1000 <= kept <= 1000,
        prof_bonus matches Some(p) ==> -1000 <= p <= 1000,
        circumstantial matches Some(c) ==> -1000 <= c <= 1000,
    ensures
        res == kept + modifier@ + (match prof_bonus { Some(p) => p as int, None => 0 }) + (
        match circumstantial {
            Some(c) => c as int,
            None => 0,
        }),
{
    let mut roll: i32 = kept + modifier.value();
    if let Some(p) = prof_bonus {
        roll = roll + p;
    }
    if let Some(c) = circumstantial {
        roll = roll + c;
    }
    roll
}

} // verus!
