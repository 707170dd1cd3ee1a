//! Actions, and attacks in particular.

use vstd::prelude::*;

use crate::creature::CreatureId;
use crate::dice::DiceExpr;
use crate::health::damage::{Damage, DamageType, lemma_type_at, lemma_type_index, spec_type_index};
use crate::measure::Feet;
use crate::stats::ability::Ability;
use crate::stats::proficiency::ProficiencyApplicationBase;

verus! {

/// The kinds of action a creature can take on its turn.
#[derive(Debug, Clone, Copy, PartialEq, Eq, Structural)]
pub enum ActionType {
    Attack,
    Dash,
    Disengage,
    Dodge,
    Help,
    Hide,
    Influence,
    Magic,
    Ready,
    Search,
    Study,
    Utilize,
}

/// The action for this turn has been used.
#[derive(Debug, Clone, Copy, PartialEq, Eq, Structural)]
pub struct NoActionLeft;

/// How far an attack reaches.
#[derive(Debug, Clone, Copy, PartialEq, Eq, Structural)]
pub enum Range {
    /// Up to this distance.
    Single(Feet),
    /// A normal and a long range.
    Long { short: Feet, long: Feet },
}

impl Range {
    /// Whether a target at `distance` is within range: up to the distance for a single range;
    /// for a normal and long range, when either of them is no more than the distance.
    pub open spec fn spec_within(self, distance: Feet) -> bool {
        match self {
            Range::Single(range) => distance.0 <= range.0,
            Range::Long { short, long } => short.0 <= distance.0 || long.0 <= distance.0,
        }
    }

    pub fn within(&self, distance: Feet) -> (res: bool)
        ensures
            res == self.spec_within(distance),
    {
        match self {
            Range::Single(range) => distance.0 <= range.0,
            Range::Long { short, long } => short.0 <= distance.0 || long.0 <= distance.0,
        }
    }
}

/// Melee or ranged.
#[derive(Debug, Clone, Copy, PartialEq, Eq, Structural)]
pub enum AttackKind {
    Melee { reach: Option<Feet> },
    Ranged { range: Range },
}

/// How an attack behaves: a monster's set attack.
#[derive(Debug, Clone, Copy, PartialEq, Eq, Structural)]
pub struct SetMonsterAttack;

/// An attack a creature can make.
#[derive(Debug)]
pub struct Attack {
    pub name: String,
    pub base: SetMonsterAttack,
    pub kind: AttackKind,
    pub hit: Damage<DiceExpr>,
    pub prof: Option<ProficiencyApplicationBase>,
    pub ability: Ability,
}

/// The reach of a melee attack, in feet, when none is given.
pub const DEFAULT_REACH_FEET: u32 = 5;

/// The distance, in feet, at which a ranged attack counts as being in close combat.
pub const CLOSE_COMBAT_FEET: u32 = 5;

/// An attack's range: its reach (5 feet by default) for a melee attack.
pub open spec fn spec_attack_range(kind: AttackKind) -> Range {
    match kind {
        AttackKind::Melee { reach } => Range::Single(
            match reach {
                Some(r) => r,
                None => Feet(5),
            },
        ),
        AttackKind::Ranged { range } => range,
    }
}

/// Why an attack cannot be made.
#[derive(Debug, Clone, PartialEq, Eq)]
pub enum AttackUseError {
    NoActionLeft(NoActionLeft),
    OutOfTurn,
    OutOfAttacks,
    OutOfRange,
    OutOfBounds,
    NoTarget,
    TargetingSelf,
    DiceRolling(String),
}

impl Attack {
    /// This attack's range.
    pub fn range(&self) -> (res: Range)
        ensures
            res == spec_attack_range(self.kind),
    {
        match self.kind {
            AttackKind::Melee { reach } => Range::Single(
                match reach {
                    Some(r) => r,
                    None => Feet(DEFAULT_REACH_FEET),
                },
            ),
            AttackKind::Ranged { range } => range,
        }
    }

    /// Whether this attack can be made as a reaction.
    pub fn can_be_reaction(&self) -> (res: bool)
        ensures
            res == (self.kind is Melee),
    {
        self.base.can_be_reaction(self)
    }

    /// Whether this attack can be made now against a target at `distance`.
    pub fn is_available(&self, as_reaction: bool, distance: Feet) -> (res: Result<(), AttackUseError>)
        ensures
            !spec_attack_range(self.kind).spec_within(distance) ==> res == Err::<(), AttackUseError>(AttackUseError::OutOfRange),
            spec_attack_range(self.kind).spec_within(distance) && as_reaction && self.kind is Ranged ==> res
                == Err::<(), AttackUseError>(AttackUseError::OutOfTurn),
            spec_attack_range(self.kind).spec_within(distance) && !(as_reaction && self.kind is Ranged) ==> res is Ok,
    {
        self.base.is_available(self, as_reaction, distance)
    }
}

impl SetMonsterAttack {
    /// Out of range attacks are refused, as are ranged attacks made as reactions.
    pub fn is_available(&self, attack: &Attack, as_reaction: bool, distance: Feet) -> (res: Result<(), AttackUseError>)
        ensures
            !spec_attack_range(attack.kind).spec_within(distance) ==> res == Err::<(), AttackUseError>(AttackUseError::OutOfRange),
            spec_attack_range(attack.kind).spec_within(distance) && as_reaction && attack.kind is Ranged ==> res
                == Err::<(), AttackUseError>(AttackUseError::OutOfTurn),
            spec_attack_range(attack.kind).spec_within(distance) && !(as_reaction && attack.kind is Ranged) ==> res is Ok,
    {
        if !attack.range().within(distance) {
            return Err(AttackUseError::OutOfRange);
        }
        if as_reaction && attack.kind.is_ranged() {
            return Err(AttackUseError::OutOfTurn);
        }
        Ok(())
    }

    /// Melee attacks can be reactions; ranged ones cannot.
    pub fn can_be_reaction(&self, attack: &Attack) -> (res: bool)
        ensures
            res == (attack.kind is Melee),
    {
        match attack.kind {
            AttackKind::Melee { .. } => true,
            AttackKind::Ranged { .. } => false,
        }
    }

    /// The damage dice of an attack with the ability modifier added to its single damage type.
    pub fn damage(&self, attack: &Attack, modifier: i32) -> (res: Damage<DiceExpr>)
        requires
            attack.hit.spec_types() <= 1,
            -5 <= modifier <= 10,
            forall|t: DamageType| (#[trigger] attack.hit.part(t)) is Some ==> i32::MIN + 10 <= attack.hit.part(t)->0.bonus <= i32::MAX - 10,
        ensures
            forall|t: DamageType| (#[trigger] res.part(t)) == match attack.hit.part(t) {
                Some(d) => Some(DiceExpr { qty: d.qty, sides: d.sides, bonus: (d.bonus + modifier) as i32 }),
                None => None::<DiceExpr>,
            },
    {
        let mut out: Damage<DiceExpr> = Damage::new();
        let mut i: usize = 0;
        while i < 13
            invariant
                i <= 13,
                -5 <= modifier <= 10,
                forall|t: DamageType| (#[trigger] attack.hit.part(t)) is Some ==> i32::MIN + 10 <= attack.hit.part(t)->0.bonus <= i32::MAX - 10,
                forall|t: DamageType| #![trigger out.part(t)] spec_type_index(t) >= i ==> out.part(t) is None,
                forall|t: DamageType| #![trigger out.part(t)] spec_type_index(t) < i ==> out.part(t) == match attack.hit.part(t) {
                    Some(d) => Some(DiceExpr { qty: d.qty, sides: d.sides, bonus: (d.bonus + modifier) as i32 }),
                    None => None::<DiceExpr>,
                },
            decreases 13 - i,
        {
            let ty = DamageType::at(i);
            proof {
                lemma_type_at(i as int);
            }
            match attack.hit.get(ty) {
                Some(d) => {
                    out.set(ty, Some(d.plus(modifier)));
                },
                None => {},
            }
            proof {
                assert forall|t: DamageType| #![trigger out.part(t)] spec_type_index(t) < i + 1 implies out.part(t) == match attack.hit.part(t) {
                    Some(d) => Some(DiceExpr { qty: d.qty, sides: d.sides, bonus: (d.bonus + modifier) as i32 }),
                    None => None::<DiceExpr>,
                } by {
                    lemma_type_index(t);
                }
            }
            i = i + 1;
        }
        proof {
            assert forall|t: DamageType| (#[trigger] out.part(t)) == match attack.hit.part(t) {
                Some(d) => Some(DiceExpr { qty: d.qty, sides: d.sides, bonus: (d.bonus + modifier) as i32 }),
                None => None::<DiceExpr>,
            } by {
                lemma_type_index(t);
            }
        }
        out
    }
}

impl AttackKind {
    pub fn is_ranged(&self) -> (res: bool)
        ensures
            res == (*self is Ranged),
    {
        match self {
            AttackKind::Ranged { .. } => true,
            AttackKind::Melee { .. } => false,
        }
    }
}

/// Which disadvantages a ranged attack suffers at `distance`: in close combat (5 feet or
/// less), and beyond its normal range (up to its long range).
pub fn ranged_attack_disadvantages(kind: AttackKind, distance: Feet) -> (res: (bool, bool))
    ensures
        res.0 == (kind is Ranged && distance.0 <= 5),
        res.1 == (kind matches AttackKind::Ranged { range: Range::Long { short, long } } && distance.0
            > short.0 && distance.0 <= long.0),
{
    match kind {
        AttackKind::Ranged { range } => {
            let close = distance.0 <= CLOSE_COMBAT_FEET;
            let far = match range {
                Range::Long { short, long } => distance.0 > short.0 && distance.0 <= long.0,
                Range::Single(_) => false,
            };
            (close, far)
        },
        AttackKind::Melee { .. } => (false, false),
    }
}

/// A critical hit rolls the attack's own damage dice twice.
pub fn critical_damage(hit: &Damage<DiceExpr>) -> (res: Damage<DiceExpr>)
    requires
        forall|t: DamageType| (#[trigger] hit.part(t)) is Some ==> hit.part(t)->0.qty * 2 <= u32::MAX,
    ensures
        forall|t: DamageType| (#[trigger] res.part(t)) == match hit.part(t) {
            Some(d) => Some(DiceExpr { qty: (d.qty * 2) as u32, sides: d.sides, bonus: d.bonus }),
            None => None::<DiceExpr>,
        },
{
    let mut out: Damage<DiceExpr> = Damage::new();
    let mut i: usize = 0;
    while i < 13
        invariant
            i <= 13,
            forall|t: DamageType| (#[trigger] hit.part(t)) is Some ==> hit.part(t)->0.qty * 2 <= u32::MAX,
            forall|t: DamageType| #![trigger out.part(t)] spec_type_index(t) >= i ==> out.part(t) is None,
            forall|t: DamageType| #![trigger out.part(t)] spec_type_index(t) < i ==> out.part(t) == match hit.part(t) {
                Some(d) => Some(DiceExpr { qty: (d.qty * 2) as u32, sides: d.sides, bonus: d.bonus }),
                None => None::<DiceExpr>,
            },
        decreases 13 - i,
    {
        let ty = DamageType::at(i);
        proof {
            lemma_type_at(i as int);
        }
        match hit.get(ty) {
            Some(d) => {
                out.set(ty, Some(d.doubled_dice()));
            },
            None => {},
        }
        proof {
            assert forall|t: DamageType| #![trigger out.part(t)] spec_type_index(t) < i + 1 implies out.part(t) == match hit.part(t) {
                Some(d) => Some(DiceExpr { qty: (d.qty * 2) as u32, sides: d.sides, bonus: d.bonus }),
                None => None::<DiceExpr>,
            } by {
                lemma_type_index(t);
            }
        }
        i = i + 1;
    }
    proof {
        assert forall|t: DamageType| (#[trigger] out.part(t)) == match hit.part(t) {
            Some(d) => Some(DiceExpr { qty: (d.qty * 2) as u32, sides: d.sides, bonus: d.bonus }),
            None => None::<DiceExpr>,
        } by {
            lemma_type_index(t);
        }
    }
    out
}

/// An attack by `me` on `target` with the attack at index `attack` of `me`'s attacks.
#[derive(Debug, Clone, Copy, PartialEq, Eq, Structural)]
pub struct Attacking {
    pub me: CreatureId,
    pub target: CreatureId,
    pub attack: usize,
}

/// An action a combatant can choose.
#[derive(Debug, Clone, Copy, PartialEq, Eq, Structural)]
pub enum Action {
    Dash,
    Disengage,
    Dodge,
    Attack(Attacking),
}

impl Action {
    /// Whether this action is of kind `ty`.
    pub fn is_type(&self, ty: ActionType) -> (res: bool)
        ensures
            res == match (*self, ty) {
                (Action::Dash, ActionType::Dash) => true,
                (Action::Disengage, ActionType::Disengage) => true,
                (Action::Dodge, ActionType::Dodge) => true,
                (Action::Attack(_), ActionType::Attack) => true,
                _ => false,
            },
    {
        match (self, ty) {
            (Action::Dash, ActionType::Dash) => true,
            (Action::Disengage, ActionType::Disengage) => true,
            (Action::Dodge, ActionType::Dodge) => true,
            (Action::Attack(_), ActionType::Attack) => true,
            _ => false,
        }
    }
}

/// The actions other than attacks that are supported.
pub fn supported_non_attack_actions() -> (res: Vec<Action>)
    ensures
        res@ == seq![Action::Dash, Action::Disengage, Action::Dodge],
{
    vec![Action::Dash, Action::Disengage, Action::Dodge]
}

/// A sample attack: a club, a melee attack of one d4 bludgeoning damage with Strength.
pub fn test_attack(name: &str) -> (res: Attack)
    ensures
        res.name@ == name@,
        res.base == SetMonsterAttack,
        res.kind == (AttackKind::Melee { reach: None }),
        res.hit.part(DamageType::Bludgeoning) == Some(DiceExpr { qty: 1, sides: 4, bonus: 0 }),
        forall|t: DamageType| t != DamageType::Bludgeoning ==> (#[trigger] res.hit.part(t)) is None,
        res.prof is None,
        res.ability == Ability::Strength,
{
    Attack {
        name: String::from_str(name),
        base: SetMonsterAttack,
        kind: AttackKind::Melee { reach: None },
        hit: Damage::of(DamageType::Bludgeoning, DiceExpr { qty: 1, sides: 4, bonus: 0 }),
        prof: None,
        ability: Ability::Strength,
    }
}

} // verus!
