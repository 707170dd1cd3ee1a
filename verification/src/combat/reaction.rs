//! When actions are open to a combatant: on its turn, as a reaction (an attack of
//! opportunity), and which attacks of opportunity a move provokes.

use vstd::prelude::*;

use crate::combat::action::{spec_attack_range, Action, AttackUseError, Attacking};
use crate::combat::arena::Position;
use crate::combat::combatant::Combat;
use crate::combat::moves::spec_index_of;
use crate::combat::strike::{spec_feet_between, spec_setup_matches, AttackSetup};
use crate::combat::utils::Availability;
use crate::creature::actions::{reaction_clock_ok, spec_attack_usable, spec_reaction_spent};
use crate::creature::CreatureId;
use crate::measure::Feet;

verus! {

/// An attack of opportunity: `me` may strike `target`, which is moving to `to`.
#[derive(Debug, Clone, Copy, PartialEq, Eq, Structural)]
pub struct AttackOfOpportunity {
    pub to: Position,
    pub me: CreatureId,
    pub target: CreatureId,
}

/// The reactions a combatant can take.
#[derive(Debug, Clone, Copy, PartialEq, Eq, Structural)]
pub enum Reaction {
    AttackOfOpportunity(AttackOfOpportunity),
}

/// When an action would be taken.
#[derive(Debug, Clone, Copy, PartialEq, Eq, Structural)]
pub enum Timeslot {
    /// On the turn under way.
    Turn,
    /// As a reaction.
    Reaction(Reaction),
    /// At any time.
    Any,
}

impl Reaction {
    /// The creature reacting.
    pub fn me(&self) -> (res: CreatureId)
        ensures
            res == match *self {
                Reaction::AttackOfOpportunity(aoo) => aoo.me,
            },
    {
        match self {
            Reaction::AttackOfOpportunity(aoo) => aoo.me,
        }
    }
}

impl Timeslot {
    /// The creature acting: the one whose turn it is, or the one reacting. Not defined for
    /// "any time".
    pub fn me(&self, combat: &Combat) -> (res: CreatureId)
        requires
            *self !is Any,
            *self is Turn ==> combat.current_turn is Some,
        ensures
            res == match *self {
                Timeslot::Reaction(r) => r->AttackOfOpportunity_0.me,
                _ => combat.current_turn->0.combatant,
            },
    {
        match self {
            Timeslot::Turn => match combat.current_turn {
                Some(t) => t.combatant,
                None => CreatureId(0),
            },
            Timeslot::Reaction(r) => r.me(),
            Timeslot::Any => CreatureId(0),
        }
    }
}

/// The non-attack actions, in order.
pub open spec fn spec_non_attack_actions() -> Seq<Action> {
    seq![Action::Dash, Action::Disengage, Action::Dodge]
}

/// The attack options of the combatant at place `me` against the first `n` others in turn
/// order: each of its attacks against each living or dead other combatant, available when
/// the attack may be made, the target lives and an attack is allowed.
pub open spec fn spec_attack_options(c: &Combat, me: int, as_reaction: bool, can_attack: bool, n: int) -> Seq<(Action, bool)>
    decreases n,
{
    if n <= 0 {
        Seq::empty()
    } else {
        let prev = spec_attack_options(c, me, as_reaction, can_attack, n - 1);
        let t = n - 1;
        if t == me {
            prev
        } else {
            prev + spec_attack_row(c, me, t, as_reaction, can_attack)
        }
    }
}

/// The attack options of the combatant at place `me` against the one at place `t`, one per
/// attack.
pub open spec fn spec_attack_row(c: &Combat, me: int, t: int, as_reaction: bool, can_attack: bool) -> Seq<(Action, bool)> {
    let attacker = c.initiative@[me];
    let target = c.initiative@[t];
    let attacks = attacker.creature.stats.actions.attacks.attacks@;
    Seq::new(
        attacks.len(),
        |k: int|
            (
                Action::Attack(Attacking { me: attacker.creature.id, target: target.creature.id, attack: k as usize }),
                spec_attack_usable(attacks[k], as_reaction, Feet(spec_feet_between(attacker.position, target.position) as u32))
                    && !target.creature.stats.health.spec_dead() && can_attack,
            ),
    )
}

/// The options of the combatant at place `me`: the non-attack actions (available when
/// `non_attacks` holds), then its attack options.
pub open spec fn spec_options(c: &Combat, me: int, non_attacks: bool, as_reaction: bool, can_attack: bool) -> Seq<(Action, bool)> {
    spec_non_attack_actions().map_values(|a: Action| (a, non_attacks)) + spec_attack_options(
        c,
        me,
        as_reaction,
        can_attack,
        c.initiative@.len() as int,
    )
}

/// The options as (action, available) pairs.
pub open spec fn spec_pairs(v: Seq<Availability<Action>>) -> Seq<(Action, bool)> {
    v.map_values(|a: Availability<Action>| (a.spec_value(), a.spec_available()))
}

/// An attack of opportunity filter: only attacks on the moving creature that can be
/// reactions and that it leaves the range of.
pub open spec fn spec_provoking(c: &Combat, aoo: AttackOfOpportunity, action: Action) -> bool {
    match action {
        Action::Attack(Attacking { target, attack, .. }) => {
            let i = spec_index_of(c.initiative@, aoo.me);
            let j = spec_index_of(c.initiative@, aoo.target);
            let a = c.initiative@[i].creature.stats.actions.attacks.attacks@[attack as int];
            let before = Feet(spec_feet_between(c.initiative@[j].position, c.initiative@[i].position) as u32);
            let after = Feet(spec_feet_between(c.initiative@[i].position, aoo.to) as u32);
            &&& target == aoo.target
            &&& attack < c.initiative@[i].creature.stats.actions.attacks.attacks@.len()
            &&& a.kind is Melee
            &&& spec_attack_range(a.kind).spec_within(before)
            &&& !spec_attack_range(a.kind).spec_within(after)
        },
        _ => false,
    }
}

/// Both creatures of an attack of opportunity take part, and its destination is on the grid.
pub open spec fn aoo_ok(c: &Combat, aoo: AttackOfOpportunity) -> bool {
    &&& exists|k: int| 0 <= k < c.initiative@.len() && (#[trigger] c.initiative@[k]).creature.id == aoo.me
    &&& exists|k: int| 0 <= k < c.initiative@.len() && (#[trigger] c.initiative@[k]).creature.id == aoo.target
    &&& c.arena.dims().contains(aoo.to)
}

impl Combat {
    /// The actions open to the creature acting in `slot` (the creature whose turn it is, or
    /// the one reacting): the non-attack actions (on a turn with no action taken yet), then
    /// each of its attacks against every other combatant in turn order. An attack is
    /// available when it may be made, the target lives, and an attack is allowed in the slot.
    pub fn available_for_slot(&self, slot: Timeslot) -> (res: Vec<Availability<Action>>)
        requires
            self.wf(),
            slot !is Any,
            slot is Turn ==> self.current_turn is Some,
            slot matches Timeslot::Reaction(Reaction::AttackOfOpportunity(aoo)) ==> aoo_ok(self, aoo),
        ensures
            ({
                let me = match slot {
                    Timeslot::Reaction(Reaction::AttackOfOpportunity(aoo)) => spec_index_of(self.initiative@, aoo.me),
                    _ => spec_index_of(self.initiative@, self.current_turn->0.combatant),
                };
                let taken = self.current_turn->0.action;
                let non_attacks = slot is Turn && taken is None;
                let can_attack = match slot {
                    Timeslot::Reaction(_) => self.initiative@[me].creature.stats.actions.attacks.left@ > 0,
                    _ => if taken is None {
                        true
                    } else if taken == Some(crate::combat::action::ActionType::Attack) {
                        self.initiative@[me].creature.stats.actions.attacks.left@ > 0
                    } else {
                        false
                    },
                };
                spec_pairs(res@) == spec_options(self, me, non_attacks, slot is Reaction, can_attack)
            }),
    {
        let (me, as_reaction) = match slot {
            Timeslot::Reaction(Reaction::AttackOfOpportunity(aoo)) => (self.index_of(aoo.me), true),
            _ => (self.mover_index(), false),
        };
        let taken = match self.current_turn {
            Some(t) => t.action,
            None => None,
        };
        let non_attacks = !as_reaction && taken.is_none();
        let left = self.initiative[me].creature.stats.actions.attacks.left.can_attack();
        let can_attack = if as_reaction {
            left
        } else {
            match taken {
                None => true,
                Some(crate::combat::action::ActionType::Attack) => left,
                Some(_) => false,
            }
        };
        self.options_of(me, non_attacks, as_reaction, can_attack)
    }

    /// Every action creature `me` could take at any time, available or not: the non-attack
    /// actions, then each of its attacks against every other combatant in turn order.
    pub fn actions_for(&self, me: CreatureId) -> (res: Vec<Action>)
        requires
            self.wf(),
            exists|k: int| 0 <= k < self.initiative@.len() && (#[trigger] self.initiative@[k]).creature.id == me,
        ensures
            res@ == spec_options(self, spec_index_of(self.initiative@, me), true, false, true).map_values(|p: (Action, bool)| p.0),
    {
        let i = self.index_of(me);
        let options = self.options_of(i, true, false, true);
        let mut out: Vec<Action> = Vec::new();
        let mut k: usize = 0;
        while k < options.len()
            invariant
                k <= options@.len(),
                out@ == spec_pairs(options@).take(k as int).map_values(|p: (Action, bool)| p.0),
            decreases options@.len() - k,
        {
            out.push(options[k].value());
            assert(spec_pairs(options@).take(k + 1).map_values(|p: (Action, bool)| p.0) =~= spec_pairs(options@).take(k as int).map_values(
                |p: (Action, bool)| p.0,
            ).push(options@[k as int].spec_value()));
            k = k + 1;
        }
        assert(spec_pairs(options@).take(k as int) =~= spec_pairs(options@));
        out
    }

    /// The options of the combatant at place `me`.
    fn options_of(&self, me: usize, non_attacks: bool, as_reaction: bool, can_attack: bool) -> (res: Vec<Availability<Action>>)
        requires
            self.wf(),
            me < self.initiative@.len(),
        ensures
            spec_pairs(res@) == spec_options(self, me as int, non_attacks, as_reaction, can_attack),
    {
        let mut out: Vec<Availability<Action>> = Vec::new();
        out.push(Availability::with(Action::Dash, non_attacks));
        out.push(Availability::with(Action::Disengage, non_attacks));
        out.push(Availability::with(Action::Dodge, non_attacks));
        proof {
            assert(spec_pairs(out@) =~= spec_non_attack_actions().map_values(|a: Action| (a, non_attacks)));
        }
        let ghost head = spec_pairs(out@);
        let n_attacks = self.initiative[me].creature.stats.actions.attacks.attacks.len();
        let mut t: usize = 0;
        while t < self.initiative.len()
            invariant
                self.wf(),
                t <= self.initiative@.len(),
                me < self.initiative@.len(),
                n_attacks == self.initiative@[me as int].creature.stats.actions.attacks.attacks@.len(),
                spec_pairs(out@) == head + spec_attack_options(self, me as int, as_reaction, can_attack, t as int),
            decreases self.initiative@.len() - t,
        {
            if t != me {
                let distance = self.feet_between(me, t);
                let alive = !self.initiative[t].creature.is_dead();
                let target_id = self.initiative[t].creature.id;
                let me_id = self.initiative[me].creature.id;
                let ghost before = spec_pairs(out@);
                let mut k: usize = 0;
                while k < n_attacks
                    invariant
                        self.wf(),
                        k <= n_attacks,
                        me < self.initiative@.len(),
                        t < self.initiative@.len(),
                        t != me,
                        n_attacks == self.initiative@[me as int].creature.stats.actions.attacks.attacks@.len(),
                        distance.0 == spec_feet_between(self.initiative@[me as int].position, self.initiative@[t as int].position),
                        alive == !self.initiative@[t as int].creature.stats.health.spec_dead(),
                        target_id == self.initiative@[t as int].creature.id,
                        me_id == self.initiative@[me as int].creature.id,
                        spec_pairs(out@) == before + spec_attack_row(self, me as int, t as int, as_reaction, can_attack).take(k as int),
                    decreases n_attacks - k,
                {
                    let usable = self.initiative[me].creature.stats.actions.attacks.attacks[k].is_available(as_reaction, distance).is_ok();
                    let ghost prev_out = out@;
                    let option = Availability::with(Action::Attack(Attacking { me: me_id, target: target_id, attack: k }), usable && alive && can_attack);
                    out.push(option);
                    proof {
                        let row = spec_attack_row(self, me as int, t as int, as_reaction, can_attack);
                        assert(distance == Feet(spec_feet_between(self.initiative@[me as int].position, self.initiative@[t as int].position) as u32));
                        assert(row.take(k + 1) =~= row.take(k as int).push(row[k as int]));
                        assert(row[k as int] == (option.spec_value(), option.spec_available()));
                        assert(spec_pairs(out@) =~= spec_pairs(prev_out).push((option.spec_value(), option.spec_available())));
                        assert(spec_pairs(out@) =~= before + row.take(k + 1));
                    }
                    k = k + 1;
                }
                proof {
                    let row = spec_attack_row(self, me as int, t as int, as_reaction, can_attack);
                    assert(row.take(n_attacks as int) =~= row);
                    assert(spec_pairs(out@) =~= head + spec_attack_options(self, me as int, as_reaction, can_attack, t + 1));
                }
            }
            t = t + 1;
        }
        out
    }

    /// Whether `action` is an attack of opportunity that `aoo` allows.
    fn provoking(&self, aoo: AttackOfOpportunity, action: Action) -> (res: bool)
        requires
            self.wf(),
            aoo_ok(self, aoo),
        ensures
            res == spec_provoking(self, aoo, action),
    {
        match action {
            Action::Attack(Attacking { target, attack, .. }) => {
                let i = self.index_of(aoo.me);
                let j = self.index_of(aoo.target);
                if target != aoo.target || attack >= self.initiative[i].creature.stats.actions.attacks.attacks.len() {
                    return false;
                }
                let a = &self.initiative[i].creature.stats.actions.attacks.attacks[attack];
                let before = self.feet_between(j, i);
                let after = Feet::from_squares(crate::combat::arena::Arena::distance(self.initiative[i].position, aoo.to));
                let range = a.range();
                a.can_be_reaction() && range.within(before) && !range.within(after)
            },
            _ => false,
        }
    }

    /// The actions of an attack of opportunity: the reacting creature's options, where only
    /// attacks on the moving creature that can be reactions and that it leaves the range of
    /// stay available.
    pub fn opportunity_attack_actions(&self, aoo: AttackOfOpportunity) -> (res: Vec<Availability<Action>>)
        requires
            self.wf(),
            aoo_ok(self, aoo),
        ensures
            ({
                let me = spec_index_of(self.initiative@, aoo.me);
                let options = spec_options(self, me, false, true, self.initiative@[me].creature.stats.actions.attacks.left@ > 0);
                &&& res@.len() == options.len()
                &&& forall|k: int| 0 <= k < options.len() ==> (#[trigger] res@[k]).spec_value() == options[k].0
                    && res@[k].spec_available() == (options[k].1 && spec_provoking(self, aoo, options[k].0))
            }),
    {
        let all = self.available_for_slot(Timeslot::Reaction(Reaction::AttackOfOpportunity(aoo)));
        let mut out: Vec<Availability<Action>> = Vec::new();
        let mut k: usize = 0;
        while k < all.len()
            invariant
                self.wf(),
                aoo_ok(self, aoo),
                k <= all@.len(),
                out@.len() == k,
                forall|x: int| 0 <= x < k ==> (#[trigger] out@[x]).spec_value() == all@[x].spec_value()
                    && out@[x].spec_available() == (all@[x].spec_available() && spec_provoking(self, aoo, all@[x].spec_value())),
            decreases all@.len() - k,
        {
            let a = all[k];
            let ok = a.is_available() && self.provoking(aoo, a.value());
            out.push(Availability::with(a.value(), ok));
            k = k + 1;
        }
        proof {
            let me = spec_index_of(self.initiative@, aoo.me);
            let options = spec_options(self, me, false, true, self.initiative@[me].creature.stats.actions.attacks.left@ > 0);
            assert forall|x: int| 0 <= x < options.len() implies (#[trigger] out@[x]).spec_value() == options[x].0
                && out@[x].spec_available() == (options[x].1 && spec_provoking(self, aoo, options[x].0)) by {
                assert(spec_pairs(all@)[x] == options[x]);
            }
        }
        out
    }

    /// Whether creature `reactor` gets an attack of opportunity as creature `mover` moves to
    /// `to`: it is someone else, its reaction is not spent, and some attack of opportunity is
    /// available to it.
    pub fn provokes_opportunity_attack(&self, reactor: CreatureId, mover: CreatureId, to: Position) -> (res: bool)
        requires
            self.wf(),
            aoo_ok(self, AttackOfOpportunity { to, me: reactor, target: mover }),
            ({
                let i = spec_index_of(self.initiative@, reactor);
                reaction_clock_ok(self.initiative@[i].creature.stats.reaction@, self.clock@.rounds as u32, i, self.clock@.order as int)
            }),
        ensures
            ({
                let i = spec_index_of(self.initiative@, reactor);
                let aoo = AttackOfOpportunity { to, me: reactor, target: mover };
                let options = spec_options(self, i, false, true, self.initiative@[i].creature.stats.actions.attacks.left@ > 0);
                res == (reactor != mover && !spec_reaction_spent(
                    self.initiative@[i].creature.stats.reaction@,
                    self.clock@.rounds as u32,
                    i,
                    self.clock@.order as int,
                ) && exists|k: int| 0 <= k < options.len() && (#[trigger] options[k]).1 && spec_provoking(self, aoo, options[k].0))
            }),
    {
        if reactor == mover {
            return false;
        }
        let i = self.index_of(reactor);
        if self.initiative[i].creature.stats.reaction.used(self.clock.rounds(), i, self.clock.current_turn_order()) {
            return false;
        }
        let aoo = AttackOfOpportunity { to, me: reactor, target: mover };
        let actions = self.opportunity_attack_actions(aoo);
        let ghost options = spec_options(self, i as int, false, true, self.initiative@[i as int].creature.stats.actions.attacks.left@ > 0);
        let mut k: usize = 0;
        while k < actions.len()
            invariant
                reactor != mover,
                i == spec_index_of(self.initiative@, reactor),
                aoo == (AttackOfOpportunity { to, me: reactor, target: mover }),
                options == spec_options(self, i as int, false, true, self.initiative@[i as int].creature.stats.actions.attacks.left@ > 0),
                !spec_reaction_spent(self.initiative@[i as int].creature.stats.reaction@, self.clock@.rounds as u32, i as int, self.clock@.order as int),
                k <= actions@.len(),
                actions@.len() == options.len(),
                forall|x: int| 0 <= x < options.len() ==> (#[trigger] actions@[x]).spec_value() == options[x].0
                    && actions@[x].spec_available() == (options[x].1 && spec_provoking(self, aoo, options[x].0)),
                forall|x: int| 0 <= x < k ==> !((#[trigger] options[x]).1 && spec_provoking(self, aoo, options[x].0)),
            decreases actions@.len() - k,
        {
            if actions[k].is_available() {
                proof {
                    let kk = k as int;
                    assert(options[kk].1 && spec_provoking(self, aoo, options[kk].0));
                    assert(0 <= kk < options.len());
                    assert(exists|x: int| 0 <= x < options.len() && (#[trigger] options[x]).1 && spec_provoking(self, aoo, options[x].0));
                }
                return true;
            }
            k = k + 1;
        }
        false
    }

    /// Sets up attack `a` of an attack of opportunity: refused when the target is out of
    /// range, or when the attack is ranged (a ranged attack is never a reaction). It spends
    /// nothing.
    pub fn begin_opportunity_attack(&self, aoo: AttackOfOpportunity, a: usize) -> (res: Result<AttackSetup, AttackUseError>)
        requires
            self.wf(),
            aoo_ok(self, aoo),
            self.attack_ok(spec_index_of(self.initiative@, aoo.me), a as int, spec_index_of(self.initiative@, aoo.target)),
        ensures
            ({
                let i = spec_index_of(self.initiative@, aoo.me);
                let j = spec_index_of(self.initiative@, aoo.target);
                let attack = crate::combat::strike::spec_attack_of(self, i, a as int);
                let distance = Feet(spec_feet_between(self.initiative@[i].position, self.initiative@[j].position) as u32);
                if !spec_attack_range(attack.kind).spec_within(distance) {
                    res == Err::<AttackSetup, AttackUseError>(AttackUseError::OutOfRange)
                } else if attack.kind is Ranged {
                    res == Err::<AttackSetup, AttackUseError>(AttackUseError::OutOfTurn)
                } else {
                    res matches Ok(s) && spec_setup_matches(self, i, a as int, j, s)
                }
            }),
    {
        let i = self.index_of(aoo.me);
        let j = self.index_of(aoo.target);
        let distance = self.feet_between(i, j);
        match self.initiative[i].creature.stats.actions.attacks.attacks[a].is_available(true, distance) {
            Ok(()) => {},
            Err(e) => return Err(e),
        }
        Ok(self.attack_setup_for(i, a, j))
    }
}

} // verus!
