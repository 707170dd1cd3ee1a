//! Making an attack: checking it may be made, setting up the attack roll, reading the roll,
//! and dealing the damage. The dice are rolled between these steps, by whoever controls the
//! attacker.

use vstd::prelude::*;

use crate::combat::action::{
    critical_damage, ActionType, Attack, AttackKind, AttackUseError, NoActionLeft,
    Range, SetMonsterAttack,
};
use crate::combat::arena::{spec_distance, Arena, Position};
use crate::combat::combatant::{Combat, Combatant};
use crate::combat::moves::spec_index_of;
use crate::combat::turn::{spec_action_allowed, Turn};
use crate::creature::actions::{spec_attack_usable, spec_attacks_left};
use crate::creature::marker::{marker_clock_ok, spec_alive, MarkerKind};
use crate::creature::monster::spec_cr_bonus;
use crate::creature::stat_block::spec_modifier_of;
use crate::creature::{Creature, CreatureId};
use crate::dice::DiceExpr;
use crate::health::damage::{Damage, DamageType};
use crate::health::riv::DamageRoll;
use crate::health::DamageReport;
use crate::measure::Feet;
use crate::stats::ability::AbilityModifier;
use crate::stats::ability::Ability as RsAbility;
use crate::stats::d20_test::{
    d20_test, roll_total, spec_grant, spec_impose, Advantage, AttackRollResult, Check, Critical, D20Roll, D20TestRoll,
    Disadvantage, Save, AC, DC,
};
use crate::stats::proficiency::spec_first_applying;

verus! {

/// Everything an attack roll is decided by, once the attack may be made.
#[derive(Debug)]
pub struct AttackSetup {
    pub attacker: CreatureId,
    pub target: CreatureId,
    /// The attack, by its index among the attacker's attacks.
    pub attack: usize,
    /// The d20s to roll.
    pub test_dice: D20Roll,
    /// The attacker's modifier for the attack's ability.
    pub modifier: AbilityModifier,
    /// The attacker's proficiency bonus, when it is proficient with the attack.
    pub prof_bonus: Option<i32>,
    /// The target's armour class.
    pub ac: AC,
    /// The damage dice on a hit, before any critical.
    pub damage: Damage<DiceExpr>,
}

/// How an attack ended.
#[derive(Debug)]
pub enum AttackResult {
    Miss,
    Hit { critical: Option<Critical>, report: Option<DamageReport> },
}

/// The account of an attack: the attack roll's total and what came of it.
#[derive(Debug)]
pub struct AttackReport {
    pub attack_roll_total: i32,
    pub result: AttackResult,
}

/// The distance in feet between two positions on the grid.
pub open spec fn spec_feet_between(a: Position, b: Position) -> int {
    spec_distance(a, b) * 5
}

/// The d20s of an attack roll: one, with disadvantage for a ranged attack in close combat
/// (5 feet or less) or beyond its normal range, and against a dodging target.
pub open spec fn spec_attack_test_dice(kind: AttackKind, distance: int, target_dodging: bool) -> D20Roll {
    let close = kind is Ranged && distance <= 5;
    let far = kind matches AttackKind::Ranged { range: Range::Long { short, long } } && distance > short.0 && distance <= long.0;
    let r0 = D20Roll::Single;
    let r1 = if close { spec_impose(r0) } else { r0 };
    let r2 = if far { spec_impose(r1) } else { r1 };
    if target_dodging { spec_impose(r2) } else { r2 }
}

/// Whether an attack roll has disadvantage: a ranged attack in close combat (5 feet or less)
/// or beyond its normal range but within its long range, or a dodging target.
pub open spec fn spec_attack_has_disadvantage(kind: AttackKind, distance: int, target_dodging: bool) -> bool {
    ||| (kind is Ranged && distance <= 5)
    ||| (kind matches AttackKind::Ranged { range: Range::Long { short, long } } && short.0 < distance <= long.0)
    ||| target_dodging
}

/// Disadvantages do not stack and nothing here grants advantage: an attack roll is two d20s
/// keeping the lowest exactly when some disadvantage applies, and a single d20 otherwise.
pub proof fn lemma_attack_dice_disadvantage(kind: AttackKind, distance: int, target_dodging: bool)
    ensures
        spec_attack_test_dice(kind, distance, target_dodging) == if spec_attack_has_disadvantage(
            kind,
            distance,
            target_dodging,
        ) {
            D20Roll::KeepLowest
        } else {
            D20Roll::Single
        },
{
}

/// A ranged attack with a normal and a long range, against a target that does not dodge,
/// farther than 5 feet and beyond the normal range but within the long range, has
/// disadvantage; within its normal range (and farther than 5 feet) it has none.
pub proof fn lemma_long_range_disadvantage(short: Feet, long: Feet, distance: int)
    requires
        distance > 5,
    ensures
        short.0 < distance <= long.0 ==> spec_attack_test_dice(
            AttackKind::Ranged { range: Range::Long { short, long } },
            distance,
            false,
        ) == D20Roll::KeepLowest,
        distance <= short.0 ==> spec_attack_test_dice(
            AttackKind::Ranged { range: Range::Long { short, long } },
            distance,
            false,
        ) == D20Roll::Single,
{
}

/// Whether some Dodge of a combatant (at place `j`) still lasts.
pub open spec fn spec_dodging(c: &Combat, j: int) -> bool {
    let m = c.initiative@[j].creature.stats.markers@;
    exists|k: int| 0 <= k < m.len() && (#[trigger] m[k]).kind == MarkerKind::Dodging
        && spec_alive(m[k], c.clock@.turns as u32, c.clock@.rounds as u32, j, c.clock@.order as int)
}

/// The attack at index `a` of the combatant at place `i`.
pub open spec fn spec_attack_of(c: &Combat, i: int, a: int) -> Attack {
    c.initiative@[i].creature.stats.actions.attacks.attacks@[a]
}

/// The combatant at place `i` after spending one attack.
pub open spec fn spec_attack_spent(c: Combatant) -> Combatant {
    let attacks = c.creature.stats.actions.attacks;
    Combatant {
        creature: Creature {
            stats: crate::creature::StatBlock {
                actions: crate::creature::actions::Actions {
                    attacks: crate::creature::actions::Attacks { left: spec_attacks_left((attacks.left@ - 1) as u32), ..attacks },
                },
                ..c.creature.stats
            },
            ..c.creature
        },
        ..c
    }
}

/// What an attack setup holds for attack `a` of the combatant at place `i` against the one at
/// place `j`.
pub open spec fn spec_setup_matches(c: &Combat, i: int, a: int, j: int, s: AttackSetup) -> bool {
    let me = c.initiative@[i];
    let target = c.initiative@[j];
    let attack = spec_attack_of(c, i, a);
    &&& s.attacker == me.creature.id
    &&& s.target == target.creature.id
    &&& s.attack == a
    &&& s.test_dice == spec_attack_test_dice(attack.kind, spec_feet_between(me.position, target.position), spec_dodging(c, j))
    &&& s.modifier == spec_modifier_of(me.creature.stats.modifiers, attack.ability)
    &&& s.prof_bonus == match attack.prof {
        Some(app) => if spec_first_applying(me.creature.stats.proficiencies@, app) is Some {
            Some(spec_cr_bonus(me.creature.kind->Monster_0.cr) as i32)
        } else {
            None
        },
        None => None,
    }
    &&& s.ac == AC(target.creature.stats.ac)
    &&& forall|t: DamageType| (#[trigger] s.damage.part(t)) == match attack.hit.part(t) {
        Some(d) => Some(DiceExpr { qty: d.qty, sides: d.sides, bonus: (d.bonus + s.modifier@) as i32 }),
        None => None::<DiceExpr>,
    }
}

impl Combat {
    /// The attack at index `a` of the combatant at place `i` can be set up against the one at
    /// place `j`: it has a single damage type (the ability modifier goes to it), its bonuses
    /// leave room for the modifier, the proficiency bonus is known when it is needed (for
    /// monsters), and the target's Dodge markers are not dated after the clock.
    pub open spec fn attack_ok(&self, i: int, a: int, j: int) -> bool {
        let me = self.initiative@[i];
        let attack = spec_attack_of(self, i, a);
        let m = self.initiative@[j].creature.stats.markers@;
        &&& 0 <= i < self.initiative@.len()
        &&& 0 <= j < self.initiative@.len()
        &&& 0 <= a < me.creature.stats.actions.attacks.attacks@.len()
        &&& attack.hit.spec_types() <= 1
        &&& forall|t: DamageType| (#[trigger] attack.hit.part(t)) is Some ==> i32::MIN + 10 <= attack.hit.part(t)->0.bonus <= i32::MAX - 10
        &&& (attack.prof matches Some(app) && spec_first_applying(me.creature.stats.proficiencies@, app) is Some) ==> me.creature.kind is Monster
        &&& forall|k: int| 0 <= k < m.len() ==> marker_clock_ok(#[trigger] m[k], self.clock@.rounds as u32, j, self.clock@.order as int)
    }

    /// The distance in feet between the combatants at places `i` and `j`.
    pub fn feet_between(&self, i: usize, j: usize) -> (res: Feet)
        requires
            self.wf(),
            i < self.initiative@.len(),
            j < self.initiative@.len(),
        ensures
            res.0 == spec_feet_between(self.initiative@[i as int].position, self.initiative@[j as int].position),
    {
        let a = self.initiative[i].position;
        let b = self.initiative[j].position;
        let d = Arena::distance(a, b);
        Feet::from_squares(d)
    }

    /// The place in the turn order of the combatant with creature `id`, which must take part.
    pub fn index_of(&self, id: CreatureId) -> (res: usize)
        requires
            self.wf(),
            exists|k: int| 0 <= k < self.initiative@.len() && (#[trigger] self.initiative@[k]).creature.id == id,
        ensures
            res == spec_index_of(self.initiative@, id),
            res < self.initiative@.len(),
            self.initiative@[res as int].creature.id == id,
    {
        let i = self.turn_order_of(id);
        proof {
            let k = spec_index_of(self.initiative@, id);
            if k != i {
                if k < i {
                    assert(self.initiative@[k].creature.id != id);
                } else {
                    assert(self.initiative@[i as int].creature.id != self.initiative@[k].creature.id);
                }
            }
        }
        i
    }

    /// Sets up attack `a` of the combatant at place `i` against the one at place `j`.
    pub(crate) fn attack_setup_for(&self, i: usize, a: usize, j: usize) -> (res: AttackSetup)
        requires
            self.wf(),
            self.attack_ok(i as int, a as int, j as int),
        ensures
            spec_setup_matches(self, i as int, a as int, j as int, res),
            res.test_dice == if spec_attack_has_disadvantage(
                spec_attack_of(self, i as int, a as int).kind,
                spec_feet_between(self.initiative@[i as int].position, self.initiative@[j as int].position),
                spec_dodging(self, j as int),
            ) {
                D20Roll::KeepLowest
            } else {
                D20Roll::Single
            },
    {
        let me = &self.initiative[i];
        let target = &self.initiative[j];
        let attack = &me.creature.stats.actions.attacks.attacks[a];
        let distance = self.feet_between(i, j);
        let modifier = me.creature.modifier(attack.ability);
        let damage = SetMonsterAttack.damage(attack, modifier.value());
        let (close, far) = crate::combat::action::ranged_attack_disadvantages(attack.kind, distance);
        let mut test_dice = d20_test();
        if close {
            test_dice = test_dice.impose(Disadvantage { reason: None });
        }
        if far {
            test_dice = test_dice.impose(Disadvantage { reason: None });
        }
        let dodging = target.creature.stats.markers.contains(
            MarkerKind::Dodging,
            self.clock.turns(),
            self.clock.rounds(),
            j,
            self.clock.current_turn_order(),
        );
        if dodging {
            test_dice = test_dice.impose(Disadvantage { reason: None });
        }
        let prof_bonus = match &attack.prof {
            Some(app) => match me.creature.stats.proficiencies.get(app) {
                Some(_) => Some(me.creature.proficiency_bonus().value()),
                None => None,
            },
            None => None,
        };
        AttackSetup {
            attacker: me.creature.id,
            target: target.creature.id,
            attack: a,
            test_dice,
            modifier,
            prof_bonus,
            ac: AC(target.creature.stats.ac),
            damage,
        }
    }

    /// Starts attack `a` of the creature whose turn it is against creature `target`: refused
    /// once another action was taken this turn, when the target is out of range, or when no
    /// attack is left (nothing changes then); otherwise one attack is spent and the attack roll
    /// is set up. The action is recorded when the attack is finished.
    pub fn begin_attack(&mut self, a: usize, target: CreatureId) -> (res: Result<AttackSetup, AttackUseError>)
        requires
            old(self).wf(),
            old(self).current_turn is Some,
            exists|k: int| 0 <= k < old(self).initiative@.len() && (#[trigger] old(self).initiative@[k]).creature.id == target,
            old(self).attack_ok(
                spec_index_of(old(self).initiative@, old(self).current_turn->0.combatant),
                a as int,
                spec_index_of(old(self).initiative@, target),
            ),
        ensures
            final(self).wf(),
            ({
                let i = spec_index_of(old(self).initiative@, old(self).current_turn->0.combatant);
                let j = spec_index_of(old(self).initiative@, target);
                let me = old(self).initiative@[i];
                let attack = spec_attack_of(old(self), i, a as int);
                let distance = Feet(spec_feet_between(me.position, old(self).initiative@[j].position) as u32);
                if !spec_action_allowed(old(self).current_turn->0.action, ActionType::Attack) {
                    res == Err::<AttackSetup, AttackUseError>(AttackUseError::NoActionLeft(NoActionLeft))
                        && *final(self) == *old(self)
                } else if !spec_attack_usable(attack, false, distance) {
                    res == Err::<AttackSetup, AttackUseError>(AttackUseError::OutOfRange) && *final(self) == *old(self)
                } else if me.creature.stats.actions.attacks.left@ == 0 {
                    res == Err::<AttackSetup, AttackUseError>(AttackUseError::OutOfAttacks) && *final(self) == *old(self)
                } else {
                    &&& res matches Ok(s) && spec_setup_matches(old(self), i, a as int, j, s)
                    &&& final(self).initiative@ == old(self).initiative@.update(i, spec_attack_spent(me))
                    &&& final(self).current_turn == old(self).current_turn
                    &&& final(self).arena == old(self).arena
                    &&& final(self).clock == old(self).clock
                    &&& final(self).started == old(self).started
                    &&& final(self).creature_id == old(self).creature_id
                    &&& final(self).win_condition == old(self).win_condition
                }
            }),
    {
        let turn = match self.current_turn {
            Some(t) => t,
            None => return Err(AttackUseError::NoActionLeft(NoActionLeft)),
        };
        let trans = match turn.try_use_action(ActionType::Attack) {
            Ok(t) => t,
            Err(e) => return Err(AttackUseError::NoActionLeft(e)),
        };
        let i = self.mover_index();
        let j = self.index_of(target);
        let distance = self.feet_between(i, j);
        match self.initiative[i].creature.stats.actions.attacks.attacks[a].is_available(false, distance) {
            Ok(()) => {},
            Err(e) => {
                trans.cancel();
                return Err(e);
            },
        }
        if !self.initiative[i].creature.stats.actions.attacks.left.can_attack() {
            trans.cancel();
            return Err(AttackUseError::OutOfAttacks);
        }
        let setup = self.attack_setup_for(i, a, j);
        trans.cancel();
        let ghost s = self.initiative@;
        let mut me = self.initiative.remove(i);
        let spent = me.creature.stats.actions.attacks.left.use_attack();
        proof {
            crate::creature::actions::lemma_attacks_left((s[i as int].creature.stats.actions.attacks.left@ - 1) as u32);
        }
        self.initiative.insert(i, me);
        proof {
            assert(self.initiative@ =~= s.update(i as int, spec_attack_spent(s[i as int])));
            assert forall|x: int, y: int| 0 <= x < y < self.initiative@.len() implies #[trigger] self.initiative@[x].initiative_score
                >= #[trigger] self.initiative@[y].initiative_score by {
                assert(s[x].initiative_score >= s[y].initiative_score);
            }
            assert forall|k: int| 0 <= k < self.initiative@.len() implies (#[trigger] self.initiative@[k]).initiative_score > i32::MIN
                && self.arena.dims().contains(self.initiative@[k].position) by {
                assert(s[k].initiative_score > i32::MIN);
            }
            assert forall|x: int, y: int| 0 <= x < y < self.initiative@.len() implies (#[trigger] self.initiative@[x]).creature.id
                != (#[trigger] self.initiative@[y]).creature.id by {
                assert(s[x].creature.id != s[y].creature.id);
            }
            assert(self.initiative@[i as int].creature.id == turn.combatant);
        }
        Ok(setup)
    }
}

/// The target of an attack after it is dealt: its health as `Health::damage` leaves it,
/// everything else as it was.
pub open spec fn spec_target_hit(old: Combatant, new: Combatant, damage: Damage<DamageRoll>, report: DamageReport) -> bool {
    &&& crate::health::spec_damage_taken(old.creature.stats.health, new.creature.stats.health, old.creature.kind, damage, report)
    &&& new == Combatant {
        creature: Creature {
            stats: crate::creature::StatBlock { health: new.creature.stats.health, ..old.creature.stats },
            ..old.creature
        },
        ..old
    }
}

impl Combat {
    /// Deals `damage` to the combatant with creature `target`.
    pub fn deal_damage(&mut self, target: CreatureId, damage: Damage<DamageRoll>) -> (res: DamageReport)
        requires
            old(self).wf(),
            exists|k: int| 0 <= k < old(self).initiative@.len() && (#[trigger] old(self).initiative@[k]).creature.id == target,
            ({
                let t = old(self).initiative@[spec_index_of(old(self).initiative@, target)].creature;
                t.stats.health.can_take(&t.kind, &damage)
            }),
        ensures
            final(self).wf(),
            ({
                let j = spec_index_of(old(self).initiative@, target);
                &&& final(self).initiative@.len() == old(self).initiative@.len()
                &&& forall|k: int| 0 <= k < old(self).initiative@.len() && k != j ==> #[trigger] final(self).initiative@[k]
                    == old(self).initiative@[k]
                &&& spec_target_hit(old(self).initiative@[j], final(self).initiative@[j], damage, res)
                &&& final(self).current_turn == old(self).current_turn
                &&& final(self).arena == old(self).arena
                &&& final(self).clock == old(self).clock
                &&& final(self).started == old(self).started
                &&& final(self).creature_id == old(self).creature_id
                &&& final(self).win_condition == old(self).win_condition
            }),
    {
        let j = self.index_of(target);
        let ghost s = self.initiative@;
        let mut t = self.initiative.remove(j);
        let report = t.creature.stats.health.damage(&t.creature.kind, damage);
        self.initiative.insert(j, t);
        proof {
            assert forall|x: int, y: int| 0 <= x < y < self.initiative@.len() implies #[trigger] self.initiative@[x].initiative_score
                >= #[trigger] self.initiative@[y].initiative_score by {
                assert(s[x].initiative_score >= s[y].initiative_score);
            }
            assert forall|k: int| 0 <= k < self.initiative@.len() implies (#[trigger] self.initiative@[k]).initiative_score > i32::MIN
                && self.arena.dims().contains(self.initiative@[k].position) by {
                assert(s[k].initiative_score > i32::MIN);
            }
            assert forall|x: int, y: int| 0 <= x < y < self.initiative@.len() implies (#[trigger] self.initiative@[x]).creature.id
                != (#[trigger] self.initiative@[y]).creature.id by {
                assert(s[x].creature.id != s[y].creature.id);
            }
            if self.current_turn is Some {
                let k = choose|k: int| 0 <= k < s.len() && (#[trigger] s[k]).creature.id == self.current_turn->0.combatant;
                assert(self.initiative@[k].creature.id == s[k].creature.id);
            }
        }
        report
    }

    /// Finishes the attack of the creature whose turn it is: the Attack action is recorded
    /// and, on a hit, the target takes the damage rolled.
    pub fn finish_attack(&mut self, target: CreatureId, attack_roll_total: i32, result: AttackRollResult, damage: Option<Damage<DamageRoll>>) -> (res: AttackReport)
        requires
            old(self).wf(),
            old(self).current_turn is Some,
            exists|k: int| 0 <= k < old(self).initiative@.len() && (#[trigger] old(self).initiative@[k]).creature.id == target,
            (result is Hit) == (damage is Some),
            damage matches Some(d) ==> ({
                let t = old(self).initiative@[spec_index_of(old(self).initiative@, target)].creature;
                t.stats.health.can_take(&t.kind, &d)
            }),
        ensures
            final(self).wf(),
            final(self).current_turn == Some(Turn { action: Some(ActionType::Attack), ..old(self).current_turn->0 }),
            res.attack_roll_total == attack_roll_total,
            final(self).arena == old(self).arena,
            final(self).clock == old(self).clock,
            ({
                let j = spec_index_of(old(self).initiative@, target);
                match damage {
                    None => res.result is Miss && final(self).initiative == old(self).initiative,
                    Some(d) => {
                        &&& res.result matches AttackResult::Hit { critical, report: Some(report) }
                        &&& critical == result->Hit_0
                        &&& final(self).initiative@.len() == old(self).initiative@.len()
                        &&& forall|k: int| 0 <= k < old(self).initiative@.len() && k != j ==> #[trigger] final(self).initiative@[k]
                            == old(self).initiative@[k]
                        &&& spec_target_hit(old(self).initiative@[j], final(self).initiative@[j], d, report)
                    },
                }
            }),
    {
        let mut turn = match self.current_turn {
            Some(t) => t,
            None => Turn::new(target),
        };
        crate::combat::turn::ActionTransaction::new(ActionType::Attack).commit(&mut turn);
        self.current_turn = Some(turn);
        let critical = match result {
            AttackRollResult::Hit(c) => c,
            AttackRollResult::Miss => None,
        };
        match damage {
            None => AttackReport { attack_roll_total, result: AttackResult::Miss },
            Some(d) => {
                let report = self.deal_damage(target, d);
                AttackReport { attack_roll_total, result: AttackResult::Hit { critical, report: Some(report) } }
            },
        }
    }
}

/// The result of an attack roll from the d20 faces rolled for it: the kept d20 plus the
/// modifier and any proficiency bonus, against the armour class; a natural 1 misses and a
/// natural 20 is a critical hit.
pub fn resolve_attack_roll(setup: &AttackSetup, faces: &Vec<i32>) -> (res: (i32, AttackRollResult))
    requires
        faces@.len() == setup.test_dice.spec_dice(),
        forall|k: int| 0 <= k < faces@.len() ==> 1 <= #[trigger] faces@[k] <= 20,
        setup.prof_bonus matches Some(p) ==> -1000 <= p <= 1000,
    ensures
        ({
            let kept = match setup.test_dice {
                D20Roll::KeepHighest => if faces@[0] < faces@[1] { faces@[1] } else { faces@[0] },
                D20Roll::KeepLowest => if faces@[0] < faces@[1] { faces@[0] } else { faces@[1] },
                _ => faces@[0],
            };
            let total = kept + setup.modifier@ + match setup.prof_bonus {
                Some(p) => p as int,
                None => 0,
            };
            &&& res.0 == total
            &&& res.1 == if kept == 1 {
                AttackRollResult::Miss
            } else if kept == 20 {
                AttackRollResult::Hit(Some(Critical))
            } else if total >= setup.ac.0 {
                AttackRollResult::Hit(None)
            } else {
                AttackRollResult::Miss
            }
        }),
{
    let kept = setup.test_dice.kept(faces);
    let total = roll_total(kept, setup.modifier, setup.prof_bonus, None);
    (total, AttackRollResult::result_for(&setup.ac, kept, total))
}

/// The damage dice of a hit: the attack's dice (as set up), rolled twice on a critical hit.
pub fn hit_damage_dice(damage: Damage<DiceExpr>, critical: bool) -> (res: Damage<DiceExpr>)
    requires
        critical ==> forall|t: DamageType| (#[trigger] damage.part(t)) is Some ==> damage.part(t)->0.qty * 2 <= u32::MAX,
    ensures
        forall|t: DamageType| (#[trigger] res.part(t)) == match damage.part(t) {
            Some(d) => Some(if critical { DiceExpr { qty: (d.qty * 2) as u32, sides: d.sides, bonus: d.bonus } } else { d }),
            None => None::<DiceExpr>,
        },
{
    if critical {
        critical_damage(&damage)
    } else {
        damage
    }
}

/// The check a combatant makes for initiative: Dexterity, with no proficiency, against DC 100.
pub fn initiative_check() -> (res: Check)
    ensures
        res == (Check { ability: RsAbility::Dexterity, prof: None, dc: Some(DC(100)) }),
{
    Check { ability: RsAbility::Dexterity, prof: None, dc: Some(DC(100)) }
}

/// A creature's initiative score from the d20 it kept: the d20 plus its Dexterity modifier.
pub fn initiative_score(creature: &Creature, kept: i32) -> (res: i32)
    requires
        -1000 <= kept <= 1000,
    ensures
        res == kept + spec_modifier_of(creature.stats.modifiers, RsAbility::Dexterity)@,
{
    roll_total(kept, creature.modifier(RsAbility::Dexterity), None, None)
}

impl Combat {
    /// The d20s of a saving throw by the combatant at place `j`: one, with advantage on a
    /// Dexterity save while it is dodging.
    pub fn save_test_dice(&self, j: usize, save: &Save) -> (res: D20Roll)
        requires
            self.wf(),
            j < self.initiative@.len(),
            ({
                let m = self.initiative@[j as int].creature.stats.markers@;
                forall|k: int| 0 <= k < m.len() ==> marker_clock_ok(#[trigger] m[k], self.clock@.rounds as u32, j as int, self.clock@.order as int)
            }),
        ensures
            res == if spec_dodging(self, j as int) && save.ability == RsAbility::Dexterity {
                spec_grant(D20Roll::Single)
            } else {
                D20Roll::Single
            },
    {
        let mut dice = d20_test();
        let dodging = self.initiative[j].creature.stats.markers.contains(
            MarkerKind::Dodging,
            self.clock.turns(),
            self.clock.rounds(),
            j,
            self.clock.current_turn_order(),
        );
        if dodging && save.ability == RsAbility::Dexterity {
            dice = dice.grant(Advantage { reason: None });
        }
        dice
    }
}

} // verus!
