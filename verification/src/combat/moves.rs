//! What the creature whose turn it is does on the grid: moving, and the actions that only
//! mark it (Dash, Disengage, Dodge).

use vstd::prelude::*;

use crate::combat::action::{ActionType, NoActionLeft};
use crate::combat::arena::{spec_direction_at, spec_step, Direction, Position, Square};
use crate::combat::clock::ClockView;
use crate::combat::combatant::{Combat, Combatant};
use crate::combat::turn::{spec_action_allowed, CannotMove, Turn};
use crate::creature::marker::{marker_clock_ok, spec_count_alive, Marker, MarkerKind};
use crate::creature::stat_block::spec_doubled;
use crate::creature::{CreatureId, CreatureSize};
use crate::measure::{Feet, Rounds, Turns};

verus! {

/// The place in the turn order of the combatant with creature `id`.
pub open spec fn spec_index_of(s: Seq<Combatant>, id: CreatureId) -> int {
    choose|i: int| 0 <= i < s.len() && (#[trigger] s[i]).creature.id == id
}

/// The speed of the combatant at place `i` now: its walking speed doubled for each Dash still
/// lasting.
pub open spec fn spec_speed(s: Seq<Combatant>, clock: ClockView, i: int) -> nat {
    spec_doubled(
        s[i].creature.stats.speed.0 as nat,
        spec_count_alive(s[i].creature.stats.markers@, MarkerKind::Dashing, clock.turns as u32, clock.rounds as u32, i, clock.order as int),
    )
}

/// Whether a living creature stands at `pos` (an id no combatant holds counts as living).
pub open spec fn spec_occupied(c: &Combat, pos: Position) -> bool {
    let sq = c.arena.square(pos)->0@;
    exists|k: int| 0 <= k < sq.len() && !spec_id_dead(c.initiative@, #[trigger] sq[k])
}

/// Whether a combatant with creature id `id` is dead.
pub open spec fn spec_id_dead(s: Seq<Combatant>, id: u32) -> bool {
    exists|j: int| 0 <= j < s.len() && (#[trigger] s[j]).creature.id.0 == id && s[j].creature.stats.health.spec_dead()
}

/// Only creatures that fit in one square can move.
pub open spec fn fits_one_square(size: CreatureSize) -> bool {
    size is Tiny || size is Small || size is Medium
}

impl Combat {
    /// The turn is under way, and its creature can have its speed worked out: the clock has
    /// not gone back before its markers, and doubling its speed stays within `u32`.
    pub open spec fn mover_ok(&self) -> bool {
        &&& self.wf()
        &&& self.current_turn is Some
        &&& {
            let i = spec_index_of(self.initiative@, self.current_turn->0.combatant);
            let m = self.initiative@[i].creature.stats.markers@;
            &&& forall|k: int| 0 <= k < m.len() ==> marker_clock_ok(#[trigger] m[k], self.clock@.rounds as u32, i, self.clock@.order as int)
            &&& spec_speed(self.initiative@, self.clock@, i) <= u32::MAX
        }
    }

    /// The place in the turn order of the creature whose turn it is.
    pub fn mover_index(&self) -> (res: usize)
        requires
            self.wf(),
            self.current_turn is Some,
        ensures
            res == spec_index_of(self.initiative@, self.current_turn->0.combatant),
            res < self.initiative@.len(),
            self.initiative@[res as int].creature.id == self.current_turn->0.combatant,
    {
        let id = match self.current_turn {
            Some(t) => t.combatant,
            None => CreatureId(0),
        };
        let i = self.turn_order_of(id);
        proof {
            let k = spec_index_of(self.initiative@, id);
            assert(0 <= k < self.initiative@.len() && self.initiative@[k].creature.id == id);
            if k != i {
                if k < i {
                    assert(self.initiative@[k].creature.id != id);
                } else {
                    assert(self.initiative@[i as int].creature.id != self.initiative@[k].creature.id);
                }
            }
        }
        i
    }

    /// The speed now of the creature whose turn it is.
    pub fn mover_speed(&self) -> (res: Feet)
        requires
            self.mover_ok(),
        ensures
            res.0 == spec_speed(self.initiative@, self.clock@, spec_index_of(self.initiative@, self.current_turn->0.combatant)),
    {
        let i = self.mover_index();
        self.initiative[i].creature.stats.current_speed(self.clock.turns(), self.clock.rounds(), i, self.clock.current_turn_order())
    }

    /// Whether a living creature stands at `pos`, which must lie on the grid.
    pub fn square_occupied(&self, pos: Position) -> (res: bool)
        requires
            self.arena.wf(),
            self.arena.dims().contains(pos),
        ensures
            res == spec_occupied(self, pos),
    {
        let dead = self.dead_ids();
        let sq: &Square = match self.arena.at(pos) {
            Some(sq) => sq,
            None => {
                assert(false);
                return false;
            },
        };
        let res = sq.is_occupied(&dead);
        proof {
            let q = self.arena.square(pos)->0@;
            assert(sq@ == q);
            if res {
                let k = choose|k: int| 0 <= k < sq@.len() && !dead@.contains(#[trigger] sq@[k]);
                assert(!spec_id_dead(self.initiative@, q[k]));
            } else {
                assert forall|k: int| 0 <= k < q.len() implies spec_id_dead(self.initiative@, #[trigger] q[k]) by {
                    assert(dead@.contains(sq@[k]));
                }
            }
        }
        res
    }

    /// Where a step in `direction` takes the creature whose turn it is: refused when its
    /// movement is spent, when the step leaves the grid, or when a living creature stands
    /// there.
    pub fn plan_move(&self, direction: Direction) -> (res: Result<Position, CannotMove>)
        requires
            self.mover_ok(),
            fits_one_square(self.initiative@[spec_index_of(self.initiative@, self.current_turn->0.combatant)].creature.size),
        ensures
            ({
                let i = spec_index_of(self.initiative@, self.current_turn->0.combatant);
                let speed = spec_speed(self.initiative@, self.clock@, i);
                if self.current_turn->0.movement.used.0 >= speed {
                    res == Err::<Position, CannotMove>(CannotMove::NoMovementLeft)
                } else {
                    match spec_step(self.initiative@[i].position, direction) {
                        None => res == Err::<Position, CannotMove>(CannotMove::OutOfBounds),
                        Some(to) => if !self.arena.dims().contains(to) {
                            res == Err::<Position, CannotMove>(CannotMove::OutOfBounds)
                        } else if spec_occupied(self, to) {
                            res == Err::<Position, CannotMove>(CannotMove::SquareOccupied)
                        } else {
                            res == Ok::<Position, CannotMove>(to)
                        },
                    }
                }
            }),
    {
        let turn = match self.current_turn {
            Some(t) => t,
            None => return Err(CannotMove::NoMovementLeft),
        };
        let speed = self.mover_speed();
        if turn.movement.used_up(speed) {
            return Err(CannotMove::NoMovementLeft);
        }
        let i = self.mover_index();
        let to = match self.initiative[i].position.add(direction) {
            Some(p) => p,
            None => return Err(CannotMove::OutOfBounds),
        };
        if self.arena.dimensions().check_pos(to).is_none() {
            return Err(CannotMove::OutOfBounds);
        }
        if self.square_occupied(to) {
            return Err(CannotMove::SquareOccupied);
        }
        Ok(to)
    }

    /// Moves the creature whose turn it is to `to`: it leaves its square for the one at `to`,
    /// and the move costs one square of movement.
    pub fn complete_move(&mut self, to: Position)
        requires
            old(self).wf(),
            old(self).current_turn is Some,
            old(self).arena.dims().contains(to),
        ensures
            final(self).wf(),
            ({
                let i = spec_index_of(old(self).initiative@, old(self).current_turn->0.combatant);
                let me = old(self).initiative@[i];
                let from = me.position;
                let id = me.creature.id.0;
                let t = old(self).current_turn->0;
                &&& final(self).initiative@ == old(self).initiative@.update(i, Combatant { position: to, ..me })
                &&& final(self).current_turn == Some(Turn {
                    movement: crate::combat::turn::Movement { used: Feet(spec_saturating_add(t.movement.used.0 as int, 5) as u32) },
                    ..t
                })
                &&& final(self).arena.dims() == old(self).arena.dims()
                &&& forall|p: Position| p != from && p != to ==> #[trigger] final(self).arena.square(p) == old(self).arena.square(p)
                &&& from != to ==> final(self).arena.square(from)->0@ == crate::combat::arena::spec_swap_remove(
                    old(self).arena.square(from)->0@,
                    id,
                )
                &&& from != to ==> final(self).arena.square(to)->0@ == old(self).arena.square(to)->0@.push(id)
                &&& final(self).clock == old(self).clock
                &&& final(self).started == old(self).started
                &&& final(self).creature_id == old(self).creature_id
                &&& final(self).win_condition == old(self).win_condition
            }),
    {
        let i = self.mover_index();
        let ghost s = self.initiative@;
        let from = self.initiative[i].position;
        let id = self.initiative[i].creature.id;
        self.arena.remove_occupant(from, id.0);
        self.arena.add_occupant(to, id.0);
        let mut me = self.initiative.remove(i);
        me.position = to;
        self.initiative.insert(i, me);
        let mut t = match self.current_turn {
            Some(t) => t,
            None => Turn::new(id),
        };
        t.movement.used = Feet(t.movement.used.0.saturating_add(5));
        self.current_turn = Some(t);
        proof {
            assert(self.initiative@ =~= s.update(i as int, Combatant { position: to, ..s[i as int] }));
            assert forall|a: int, b: int| 0 <= a < b < self.initiative@.len() implies #[trigger] self.initiative@[a].initiative_score
                >= #[trigger] self.initiative@[b].initiative_score by {
                assert(s[a].initiative_score >= s[b].initiative_score);
            }
            assert forall|k: int| 0 <= k < self.initiative@.len() implies (#[trigger] self.initiative@[k]).initiative_score > i32::MIN
                && self.arena.dims().contains(self.initiative@[k].position) by {
                assert(s[k].initiative_score > i32::MIN);
            }
            assert forall|a: int, b: int| 0 <= a < b < self.initiative@.len() implies (#[trigger] self.initiative@[a]).creature.id
                != (#[trigger] self.initiative@[b]).creature.id by {
                assert(s[a].creature.id != s[b].creature.id);
            }
            assert(self.initiative@[i as int].creature.id == id);
        }
    }

    /// For each direction clockwise from up, the direction when a step that way is open: the
    /// creature has movement left, and the square is on the grid with no living creature.
    pub fn available_movement_directions(&self) -> (res: Vec<Option<Direction>>)
        requires
            self.mover_ok(),
        ensures
            res@.len() == 8,
            ({
                let i = spec_index_of(self.initiative@, self.current_turn->0.combatant);
                let used_up = self.current_turn->0.movement.used.0 >= spec_speed(self.initiative@, self.clock@, i);
                forall|k: int| 0 <= k < 8 ==> #[trigger] res@[k] == if used_up {
                    None
                } else {
                    match spec_step(self.initiative@[i].position, spec_direction_at(k)) {
                        Some(p) => if self.arena.dims().contains(p) && !spec_occupied(self, p) {
                            Some(spec_direction_at(k))
                        } else {
                            None
                        },
                        None => None,
                    }
                }
            }),
    {
        let turn = match self.current_turn {
            Some(t) => t,
            None => Turn::new(CreatureId(0)),
        };
        let speed = self.mover_speed();
        let used_up = turn.movement.used_up(speed);
        let i = self.mover_index();
        let around = self.arena.around(self.initiative[i].position);
        let mut out: Vec<Option<Direction>> = Vec::new();
        let mut k: usize = 0;
        while k < 8
            invariant
                k <= 8,
                out@.len() == k,
                self.mover_ok(),
                i == spec_index_of(self.initiative@, self.current_turn->0.combatant),
                i < self.initiative@.len(),
                used_up == (self.current_turn->0.movement.used.0 >= spec_speed(self.initiative@, self.clock@, i as int)),
                around is Some ==> around->0.clockwise@.len() == 8 && forall|j: int| 0 <= j < 8 ==> #[trigger] around->0.clockwise@[j] == (
                    match spec_step(self.initiative@[i as int].position, spec_direction_at(j)) {
                        Some(p) => if self.arena.dims().contains(p) { Some(p) } else { None },
                        None => None,
                    }),
                around is Some,
                forall|j: int| 0 <= j < k ==> #[trigger] out@[j] == if used_up {
                    None
                } else {
                    match spec_step(self.initiative@[i as int].position, spec_direction_at(j)) {
                        Some(p) => if self.arena.dims().contains(p) && !spec_occupied(self, p) {
                            Some(spec_direction_at(j))
                        } else {
                            None
                        },
                        None => None,
                    }
                },
            decreases 8 - k,
        {
            let next = if used_up {
                None
            } else {
                match &around {
                    Some(a) => match a.clockwise[k] {
                        Some(p) => if self.square_occupied(p) {
                            None
                        } else {
                            Some(Direction::at(k))
                        },
                        None => None,
                    },
                    None => None,
                }
            };
            out.push(next);
            k = k + 1;
        }
        out
    }

    /// Takes an action that marks the creature whose turn it is: refused, with nothing
    /// changed, once another action was taken this turn.
    fn mark_action(&mut self, action: ActionType, kind: MarkerKind) -> (res: Result<(), NoActionLeft>)
        requires
            old(self).wf(),
            old(self).current_turn is Some,
        ensures
            final(self).wf(),
            spec_marked(*old(self), *final(self), action, kind, res),
    {
        let mut turn = match self.current_turn {
            Some(t) => t,
            None => return Err(NoActionLeft),
        };
        let trans = match turn.try_use_action(action) {
            Ok(t) => t,
            Err(e) => return Err(e),
        };
        trans.commit(&mut turn);
        self.current_turn = Some(turn);
        let i = self.mover_index();
        let ghost s = self.initiative@;
        let marker = Marker { kind, turn: self.clock.turns(), round: self.clock.rounds() };
        let mut me = self.initiative.remove(i);
        me.creature.stats.markers.push(marker);
        self.initiative.insert(i, me);
        proof {
            assert forall|a: int, b: int| 0 <= a < b < self.initiative@.len() implies #[trigger] self.initiative@[a].initiative_score
                >= #[trigger] self.initiative@[b].initiative_score by {
                assert(s[a].initiative_score >= s[b].initiative_score);
            }
            assert forall|k: int| 0 <= k < self.initiative@.len() implies (#[trigger] self.initiative@[k]).initiative_score > i32::MIN
                && self.arena.dims().contains(self.initiative@[k].position) by {
                assert(s[k].initiative_score > i32::MIN);
            }
            assert forall|a: int, b: int| 0 <= a < b < self.initiative@.len() implies (#[trigger] self.initiative@[a]).creature.id
                != (#[trigger] self.initiative@[b]).creature.id by {
                assert(s[a].creature.id != s[b].creature.id);
            }
            assert(self.initiative@[i as int].creature.id == turn.combatant);
        }
        Ok(())
    }

    /// The Dash action: the creature's speed doubles for the rest of the turn.
    pub fn dash(&mut self) -> (res: Result<(), NoActionLeft>)
        requires
            old(self).wf(),
            old(self).current_turn is Some,
        ensures
            final(self).wf(),
            spec_marked(*old(self), *final(self), ActionType::Dash, MarkerKind::Dashing, res),
    {
        self.mark_action(ActionType::Dash, MarkerKind::Dashing)
    }

    /// The Disengage action, which lasts for the rest of the turn.
    pub fn disengage(&mut self) -> (res: Result<(), NoActionLeft>)
        requires
            old(self).wf(),
            old(self).current_turn is Some,
        ensures
            final(self).wf(),
            spec_marked(*old(self), *final(self), ActionType::Disengage, MarkerKind::Disengaging, res),
    {
        self.mark_action(ActionType::Disengage, MarkerKind::Disengaging)
    }

    /// The Dodge action: until the creature's next turn, attack rolls against it have
    /// disadvantage.
    pub fn dodge(&mut self) -> (res: Result<(), NoActionLeft>)
        requires
            old(self).wf(),
            old(self).current_turn is Some,
        ensures
            final(self).wf(),
            spec_marked(*old(self), *final(self), ActionType::Dodge, MarkerKind::Dodging, res),
    {
        self.mark_action(ActionType::Dodge, MarkerKind::Dodging)
    }
}

/// Why a move was called off.
#[derive(Debug, Clone, Copy, PartialEq, Eq, Structural)]
pub enum MovedCancelledReason {
    /// The mover died of an attack of opportunity.
    Died,
}

impl Combat {
    /// Whether the move of creature `mover` is called off: it is when the mover died (of an
    /// attack of opportunity the move provoked).
    pub fn move_cancelled(&self, mover: CreatureId) -> (res: Option<MovedCancelledReason>)
        requires
            self.wf(),
            exists|k: int| 0 <= k < self.initiative@.len() && (#[trigger] self.initiative@[k]).creature.id == mover,
        ensures
            res == if self.initiative@[spec_index_of(self.initiative@, mover)].creature.stats.health.spec_dead() {
                Some(MovedCancelledReason::Died)
            } else {
                None::<MovedCancelledReason>
            },
    {
        let i = self.index_of(mover);
        if self.initiative[i].creature.is_dead() {
            Some(MovedCancelledReason::Died)
        } else {
            None
        }
    }
}

/// `a + b`, or `u32::MAX` when that is larger.
pub open spec fn spec_saturating_add(a: int, b: int) -> int {
    if a + b > u32::MAX { u32::MAX as int } else { a + b }
}

/// Two combatants that differ at most in their markers.
pub open spec fn spec_same_but_markers(a: Combatant, b: Combatant) -> bool {
    &&& b.actor == a.actor
    &&& b.position == a.position
    &&& b.initiative_score == a.initiative_score
    &&& b.affiliation == a.affiliation
    &&& b.creature.id == a.creature.id
    &&& b.creature.name == a.creature.name
    &&& b.creature.size == a.creature.size
    &&& b.creature.kind == a.creature.kind
    &&& b.creature.stats.speed == a.creature.stats.speed
    &&& b.creature.stats.proficiencies == a.creature.stats.proficiencies
    &&& b.creature.stats.scores == a.creature.stats.scores
    &&& b.creature.stats.modifiers == a.creature.stats.modifiers
    &&& b.creature.stats.health == a.creature.stats.health
    &&& b.creature.stats.actions == a.creature.stats.actions
    &&& b.creature.stats.reaction == a.creature.stats.reaction
    &&& b.creature.stats.ac == a.creature.stats.ac
}

/// The effect of an action that marks the creature whose turn it is: refused (and nothing
/// changes) once another action was taken this turn; otherwise the action is recorded and the
/// creature gets a marker dated now.
pub open spec fn spec_marked(old: Combat, new: Combat, action: ActionType, kind: MarkerKind, res: Result<(), NoActionLeft>) -> bool {
    let t = old.current_turn->0;
    let i = spec_index_of(old.initiative@, t.combatant);
    let me = old.initiative@[i];
    if !spec_action_allowed(t.action, action) {
        res is Err && new == old
    } else {
        &&& res is Ok
        &&& new.current_turn == Some(Turn { action: Some(action), ..t })
        &&& new.initiative@.len() == old.initiative@.len()
        &&& forall|k: int| 0 <= k < old.initiative@.len() && k != i ==> #[trigger] new.initiative@[k] == old.initiative@[k]
        &&& new.initiative@[i].creature.stats.markers@ == me.creature.stats.markers@.push(
            Marker { kind, turn: Turns(old.clock@.turns as u32), round: Rounds(old.clock@.rounds as u32) },
        )
        &&& spec_same_but_markers(me, new.initiative@[i])
        &&& new.arena == old.arena
        &&& new.clock == old.clock
        &&& new.started == old.started
        &&& new.creature_id == old.creature_id
        &&& new.win_condition == old.win_condition
    }
}

} // verus!
