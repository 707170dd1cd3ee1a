//! Combatants and the combat they take part in: enrolment in turn order, the end of the
//! combat, and the passing of turns.

use vstd::prelude::*;

use crate::combat::affiliation::Affiliation;
use crate::combat::arena::{Arena, Dimensions, Position};
use crate::combat::clock::{spec_tick, ClockView, CombatClock};
use crate::combat::turn::{Movement, Turn};
use crate::combat::win::{spec_end_reports, spec_free_for_all, spec_loser_reports, GameEndReport, WinCondition};
use crate::creature::actions::spec_attacks_left;
use crate::creature::{Creature, CreatureId};
use crate::measure::{Feet, Squares};

verus! {

/// Who decides for a combatant.
#[derive(Debug, Clone, Copy, PartialEq, Eq, Structural)]
pub enum Actor {
    /// The game master.
    GameMaster,
    /// The agent with this index.
    Agent(usize),
}

/// A creature taking part in a combat.
#[derive(Debug)]
pub struct Combatant {
    pub creature: Creature,
    pub actor: Actor,
    pub position: Position,
    pub initiative_score: i32,
    pub affiliation: Affiliation,
}

/// A combatant could not be enrolled.
#[derive(Debug, Clone, Copy, PartialEq, Eq, Structural)]
pub enum EnrollCombatantError {
    /// Its position is off the grid.
    OutOfBounds,
}

/// A combat: the grid, the clock, and the combatants in turn order.
#[derive(Debug)]
pub struct Combat {
    pub started: bool,
    pub clock: CombatClock,
    pub arena: Arena,
    /// The turn under way.
    pub current_turn: Option<Turn>,
    /// The combatants, highest initiative first.
    pub initiative: Vec<Combatant>,
    /// The next creature id to hand out.
    pub creature_id: usize,
    pub win_condition: WinCondition,
}

/// The combat ends after this many turns at most.
pub const MAX_TURNS: u32 = 100_000;

/// Combatants in turn order: initiative never rises along the order.
pub open spec fn sorted_by_initiative(s: Seq<Combatant>) -> bool {
    forall|i: int, j: int| 0 <= i < j < s.len() ==> #[trigger] s[i].initiative_score >= #[trigger] s[j].initiative_score
}

/// Distances across the grid, in feet, fit a `u32`.
pub open spec fn grid_fits_feet(dims: Dimensions) -> bool {
    dims.width.0 * 5 <= u32::MAX && dims.height.0 * 5 <= u32::MAX
}

/// No two combatants share a creature id.
pub open spec fn distinct_ids(s: Seq<Combatant>) -> bool {
    forall|i: int, j: int| 0 <= i < j < s.len() ==> (#[trigger] s[i]).creature.id != (#[trigger] s[j]).creature.id
}

/// How many combatants have an initiative of at least `score`: where a newcomer with that
/// score takes its place, after those it ties with.
pub open spec fn spec_count_ge(s: Seq<Combatant>, score: i32) -> nat
    decreases s.len(),
{
    if s.len() == 0 {
        0
    } else {
        spec_count_ge(s.drop_last(), score) + if s.last().initiative_score >= score {
            1nat
        } else {
            0nat
        }
    }
}

/// The place in the turn order of the first combatant with creature `id`.
pub open spec fn is_first_with_id(s: Seq<Combatant>, id: CreatureId, i: int) -> bool {
    0 <= i < s.len() && s[i].creature.id == id && forall|j: int| 0 <= j < i ==> s[j].creature.id != id
}

/// What happens next in a combat.
#[derive(Debug, Clone, PartialEq, Eq)]
pub enum CombatStep {
    /// The combat is over: each combatant's report, winners first.
    Finished(Vec<GameEndReport>),
    /// The combat ran out of turns.
    TurnLimitReached,
    /// The turn came to a creature that cannot act (it is dead).
    Skipped(CreatureId),
    /// A creature's turn starts.
    Turn(CreatureId),
}

/// A combatant at the start of its turn: its attacks are renewed to the number it makes per
/// Attack action.
pub open spec fn spec_attacks_renewed(c: Combatant) -> Combatant {
    let attacks = c.creature.stats.actions.attacks;
    Combatant {
        creature: Creature {
            stats: crate::creature::StatBlock {
                actions: crate::creature::actions::Actions {
                    attacks: crate::creature::actions::Attacks { left: spec_attacks_left(attacks.max_attacks), ..attacks },
                },
                ..c.creature.stats
            },
            ..c.creature
        },
        ..c
    }
}

/// What a combatant sees of the others: its allies and its enemies, in turn order.
#[derive(Debug, Clone, PartialEq, Eq)]
pub struct CombatantView {
    pub me: CreatureId,
    pub allies: Vec<CreatureId>,
    pub enemies: Vec<CreatureId>,
}

/// The ids of the combatants among the first `n` other than `me`, in turn order.
pub open spec fn spec_other_ids(s: Seq<Combatant>, me: CreatureId, n: int) -> Seq<CreatureId>
    decreases n,
{
    if n <= 0 {
        Seq::empty()
    } else {
        let rest = spec_other_ids(s, me, n - 1);
        if s[n - 1].creature.id == me {
            rest
        } else {
            rest.push(s[n - 1].creature.id)
        }
    }
}

/// When all of `s` have an initiative of at least `score`, they all count.
proof fn lemma_count_ge_all(s: Seq<Combatant>, score: i32)
    requires
        forall|j: int| 0 <= j < s.len() ==> s[j].initiative_score >= score,
    ensures
        spec_count_ge(s, score) == s.len(),
    decreases s.len(),
{
    if s.len() > 0 {
        lemma_count_ge_all(s.drop_last(), score);
    }
}

/// In turn order, the combatants up to the first one below `score` are those that count.
proof fn lemma_count_ge_sorted(s: Seq<Combatant>, score: i32, i: int)
    requires
        sorted_by_initiative(s),
        0 <= i <= s.len(),
        forall|j: int| 0 <= j < i ==> s[j].initiative_score >= score,
        i < s.len() ==> s[i].initiative_score < score,
    ensures
        spec_count_ge(s, score) == i,
    decreases s.len(),
{
    if i == s.len() {
        lemma_count_ge_all(s, score);
    } else {
        let t = s.drop_last();
        if i < s.len() - 1 {
            assert(s[i].initiative_score >= s[s.len() - 1].initiative_score);
            assert(t[i] == s[i]);
        } else {
            lemma_count_ge_all(t, score);
        }
        assert(sorted_by_initiative(t)) by {
            assert forall|a: int, b: int| 0 <= a < b < t.len() implies #[trigger] t[a].initiative_score >= #[trigger] t[b].initiative_score by {
                assert(t[a] == s[a] && t[b] == s[b]);
            }
        }
        if i < s.len() - 1 {
            lemma_count_ge_sorted(t, score, i);
        }
    }
}

/// In turn order, the combatants that count towards `spec_count_ge` are exactly the first
/// ones: all before that place have at least `score`, all from it on have less.
proof fn lemma_count_ge_split(s: Seq<Combatant>, score: i32)
    requires
        sorted_by_initiative(s),
    ensures
        spec_count_ge(s, score) <= s.len(),
        forall|i: int| 0 <= i < spec_count_ge(s, score) ==> s[i].initiative_score >= score,
        forall|i: int| spec_count_ge(s, score) <= i < s.len() ==> s[i].initiative_score < score,
    decreases s.len(),
{
    if s.len() > 0 {
        let t = s.drop_last();
        assert(sorted_by_initiative(t)) by {
            assert forall|a: int, b: int| 0 <= a < b < t.len() implies #[trigger] t[a].initiative_score >= #[trigger] t[b].initiative_score by {
                assert(t[a] == s[a] && t[b] == s[b]);
            }
        }
        lemma_count_ge_split(t, score);
        let p = spec_count_ge(s, score);
        if s.last().initiative_score >= score {
            assert forall|j: int| 0 <= j < t.len() implies t[j].initiative_score >= score by {
                assert(s[j].initiative_score >= s[s.len() - 1].initiative_score);
            }
            lemma_count_ge_all(t, score);
            assert forall|i: int| 0 <= i < p implies s[i].initiative_score >= score by {
                if i < t.len() {
                    assert(t[i] == s[i]);
                }
            }
        } else {
            assert forall|i: int| 0 <= i < p implies s[i].initiative_score >= score by {
                assert(t[i] == s[i]);
            }
            assert forall|i: int| p <= i < s.len() implies s[i].initiative_score < score by {
                if i < t.len() {
                    assert(t[i] == s[i]);
                }
            }
        }
    }
}

/// Turn order: the highest initiative comes first, and a newcomer takes its place after
/// everyone already enrolled with at least its initiative (ties keep the order of
/// enrolment) and before everyone with less; the order stays sorted.
pub proof fn lemma_enroll_place(s: Seq<Combatant>, c: Combatant)
    requires
        sorted_by_initiative(s),
    ensures
        ({
            let p = spec_count_ge(s, c.initiative_score) as int;
            let t = s.insert(p, c);
            &&& 0 <= p <= s.len()
            &&& t[p] == c
            &&& forall|i: int| 0 <= i < p ==> t[i] == s[i] && s[i].initiative_score >= c.initiative_score
            &&& forall|i: int| p < i < t.len() ==> t[i] == s[i - 1] && s[i - 1].initiative_score < c.initiative_score
            &&& sorted_by_initiative(t)
        }),
{
    lemma_count_ge_split(s, c.initiative_score);
    let p = spec_count_ge(s, c.initiative_score) as int;
    let t = s.insert(p, c);
    assert forall|a: int, b: int| 0 <= a < b < t.len() implies #[trigger] t[a].initiative_score >= #[trigger] t[b].initiative_score by {
        if b < p {
            assert(t[a] == s[a] && t[b] == s[b]);
        } else if b == p {
            assert(t[a] == s[a]);
        } else if a < p {
            assert(t[a] == s[a] && t[b] == s[b - 1]);
        } else if a == p {
            assert(t[b] == s[b - 1]);
        } else {
            assert(t[a] == s[a - 1] && t[b] == s[b - 1]);
        }
    }
}

/// A newcomer, whose creature id nobody else holds, is found in the turn order at its place:
/// after everyone already enrolled with at least its initiative.
pub proof fn lemma_newcomer_found_at_place(s: Seq<Combatant>, c: Combatant)
    requires
        sorted_by_initiative(s),
        forall|i: int| 0 <= i < s.len() ==> (#[trigger] s[i]).creature.id != c.creature.id,
    ensures
        is_first_with_id(s.insert(spec_count_ge(s, c.initiative_score) as int, c), c.creature.id, spec_count_ge(s, c.initiative_score) as int),
{
    lemma_enroll_place(s, c);
}

impl Combat {
    /// The grid is well formed, the turn order is sorted, initiative scores can be negated, the
    /// place in the turn order is in range, and the clock counts at least as many turns as
    /// rounds.
    pub open spec fn wf(&self) -> bool {
        &&& self.arena.wf()
        &&& sorted_by_initiative(self.initiative@)
        &&& forall|i: int| 0 <= i < self.initiative@.len() ==> (#[trigger] self.initiative@[i]).initiative_score > i32::MIN
        &&& (self.clock@.order == 0 || self.clock@.order < self.initiative@.len())
        &&& self.clock@.rounds <= self.clock@.turns
        &&& grid_fits_feet(self.arena.dims())
        &&& forall|i: int| 0 <= i < self.initiative@.len() ==> self.arena.dims().contains((#[trigger] self.initiative@[i]).position)
        &&& distinct_ids(self.initiative@)
        &&& (self.current_turn matches Some(t) ==> exists|i: int| 0 <= i < self.initiative@.len()
            && (#[trigger] self.initiative@[i]).creature.id == t.combatant)
    }

    /// A combat on `arena`, not started, with nobody enrolled.
    pub fn new(arena: Arena) -> (res: Self)
        requires
            arena.wf(),
            grid_fits_feet(arena.dims()),
        ensures
            res.wf(),
            !res.started,
            res.clock@ == (ClockView { rounds: 0, turns: 0, order: 0 }),
            res.arena == arena,
            res.current_turn is None,
            res.initiative@.len() == 0,
            res.creature_id == 0,
            res.win_condition == WinCondition::FreeForAll,
    {
        Combat {
            started: false,
            clock: CombatClock::new(),
            arena,
            current_turn: None,
            initiative: Vec::new(),
            creature_id: 0,
            win_condition: WinCondition::FreeForAll,
        }
    }

    /// Enrols `creature` at `position` with the initiative it rolled: it takes its place in the
    /// turn order after everyone with at least its initiative, and stands in its square.
    /// Refused, with nothing changed, when the position is off the grid.
    pub fn enroll(&mut self, creature: Creature, actor: Actor, position: Position, initiative_score: i32) -> (res: Result<CreatureId, EnrollCombatantError>)
        requires
            old(self).wf(),
            initiative_score > i32::MIN,
            forall|i: int| 0 <= i < old(self).initiative@.len() ==> (#[trigger] old(self).initiative@[i]).creature.id != creature.id,
        ensures
            final(self).wf(),
            !old(self).arena.dims().contains(position) ==> res == Err::<CreatureId, EnrollCombatantError>(
                EnrollCombatantError::OutOfBounds,
            ) && *final(self) == *old(self),
            old(self).arena.dims().contains(position) ==> {
                &&& res == Ok::<CreatureId, EnrollCombatantError>(creature.id)
                &&& final(self).initiative@ == old(self).initiative@.insert(
                    spec_count_ge(old(self).initiative@, initiative_score) as int,
                    Combatant { creature, actor, position, initiative_score, affiliation: Affiliation::Solo },
                )
                &&& final(self).arena.dims() == old(self).arena.dims()
                &&& final(self).arena.square(position)->0@ == old(self).arena.square(position)->0@.push(creature.id.0)
                &&& forall|p: Position| p != position ==> #[trigger] final(self).arena.square(p) == old(self).arena.square(p)
                &&& final(self).clock == old(self).clock
                &&& final(self).started == old(self).started
                &&& final(self).current_turn == old(self).current_turn
                &&& final(self).creature_id == old(self).creature_id
                &&& final(self).win_condition == old(self).win_condition
            },
    {
        if self.arena.at(position).is_none() {
            return Err(EnrollCombatantError::OutOfBounds);
        }
        let id = creature.id;
        let ghost s = self.initiative@;
        let mut p: usize = 0;
        while p < self.initiative.len() && self.initiative[p].initiative_score >= initiative_score
            invariant
                p <= s.len(),
                self.initiative@ == s,
                forall|j: int| 0 <= j < p ==> s[j].initiative_score >= initiative_score,
            decreases s.len() - p,
        {
            p = p + 1;
        }
        proof {
            lemma_count_ge_sorted(s, initiative_score, p as int);
        }
        let combatant = Combatant { creature, actor, position, initiative_score, affiliation: Affiliation::new() };
        let ghost c = combatant;
        self.initiative.insert(p, combatant);
        proof {
            let t = self.initiative@;
            assert(t == s.insert(p as int, c));
            lemma_enroll_place(s, c);
            assert forall|i: int| 0 <= i < t.len() implies (#[trigger] t[i]).initiative_score > i32::MIN
                && self.arena.dims().contains(t[i].position) by {
                if i < p {
                    assert(t[i] == s[i]);
                } else if i > p {
                    assert(t[i] == s[i - 1]);
                }
            }
            assert forall|a: int, b: int| 0 <= a < b < t.len() implies (#[trigger] t[a]).creature.id != (#[trigger] t[b]).creature.id by {
                if b < p {
                    assert(t[a] == s[a] && t[b] == s[b]);
                } else if b == p {
                    assert(t[a] == s[a]);
                } else if a < p {
                    assert(t[a] == s[a] && t[b] == s[b - 1]);
                } else if a == p {
                    assert(t[b] == s[b - 1]);
                } else {
                    assert(t[a] == s[a - 1] && t[b] == s[b - 1]);
                }
            }
            if self.current_turn is Some {
                let k = choose|k: int| 0 <= k < s.len() && (#[trigger] s[k]).creature.id == self.current_turn->0.combatant;
                if k < p {
                    assert(t[k] == s[k]);
                } else {
                    assert(t[k + 1] == s[k]);
                }
            }
        }
        self.arena.add_occupant(position, id.0);
        Ok(id)
    }

    /// The place in the turn order of the combatant with creature `id`, which must take part.
    pub fn turn_order_of(&self, id: CreatureId) -> (res: usize)
        requires
            exists|i: int| 0 <= i < self.initiative@.len() && (#[trigger] self.initiative@[i]).creature.id == id,
        ensures
            is_first_with_id(self.initiative@, id, res as int),
    {
        let mut i: usize = 0;
        while i < self.initiative.len()
            invariant
                i <= self.initiative@.len(),
                forall|j: int| 0 <= j < i ==> self.initiative@[j].creature.id != id,
                exists|k: int| 0 <= k < self.initiative@.len() && (#[trigger] self.initiative@[k]).creature.id == id,
            decreases self.initiative@.len() - i,
        {
            if self.initiative[i].creature.id == id {
                return i;
            }
            i = i + 1;
        }
        assert(false);
        0
    }

    /// The number of combatants.
    pub fn len_members(&self) -> (res: usize)
        ensures
            res == self.initiative@.len(),
    {
        self.initiative.len()
    }

    /// The ids of the dead combatants.
    pub fn dead_ids(&self) -> (res: Vec<u32>)
        ensures
            forall|id: u32| res@.contains(id) <==> exists|i: int| 0 <= i < self.initiative@.len()
                && (#[trigger] self.initiative@[i]).creature.id.0 == id && self.initiative@[i].creature.stats.health.spec_dead(),
    {
        let mut out: Vec<u32> = Vec::new();
        let mut i: usize = 0;
        while i < self.initiative.len()
            invariant
                i <= self.initiative@.len(),
                forall|id: u32| out@.contains(id) <==> exists|k: int| 0 <= k < i
                    && (#[trigger] self.initiative@[k]).creature.id.0 == id && self.initiative@[k].creature.stats.health.spec_dead(),
            decreases self.initiative@.len() - i,
        {
            let c = &self.initiative[i];
            let ghost before = out@;
            if c.creature.is_dead() {
                out.push(c.creature.id.0);
                proof {
                    assert(out@[before.len() as int] == c.creature.id.0);
                }
            }
            proof {
                assert forall|id: u32| out@.contains(id) <==> exists|k: int| 0 <= k < i + 1
                    && (#[trigger] self.initiative@[k]).creature.id.0 == id && self.initiative@[k].creature.stats.health.spec_dead() by {
                    if out@.contains(id) {
                        if !before.contains(id) {
                            assert(self.initiative@[i as int].creature.id.0 == id);
                        }
                    }
                    if before.contains(id) {
                        let j = choose|j: int| 0 <= j < before.len() && before[j] == id;
                        assert(out@[j] == id);
                    }
                    if exists|k: int| 0 <= k < i + 1 && (#[trigger] self.initiative@[k]).creature.id.0 == id
                        && self.initiative@[k].creature.stats.health.spec_dead() {
                        let k = choose|k: int| 0 <= k < i + 1 && (#[trigger] self.initiative@[k]).creature.id.0 == id
                            && self.initiative@[k].creature.stats.health.spec_dead();
                        if k == i {
                            assert(out@[before.len() as int] == id);
                        } else {
                            assert(before.contains(id));
                            let j = choose|j: int| 0 <= j < before.len() && before[j] == id;
                            assert(out@[j] == id);
                        }
                    }
                }
            }
            i = i + 1;
        }
        out
    }

    /// Whether the combat is over: at most one combatant, or the win condition is met.
    pub fn is_terminating(&self) -> (res: bool)
        ensures
            res == (self.initiative@.len() <= 1 || spec_free_for_all(self.initiative@) is Some),
    {
        if self.len_members() <= 1 {
            return true;
        }
        let winners = self.win_condition.has_happened(&self.initiative);
        winners.is_some()
    }

    /// The reports to hand out when the combat is over, winners first; `None` while it goes on.
    pub fn end_reports(&self) -> (res: Option<Vec<GameEndReport>>)
        ensures
            match spec_free_for_all(self.initiative@) {
                Some(w) => res matches Some(v) && v@ == spec_end_reports(self.initiative@, w),
                None => res is None,
            },
    {
        let members = self.len_members();
        proof {
            crate::combat::win::lemma_alive_indices_bounded(self.initiative@);
        }
        if !self.is_terminating() {
            return None;
        }
        let winners = match self.win_condition.has_happened(&self.initiative) {
            Some(w) => w,
            None => return None,
        };
        let ghost s = self.initiative@;
        let mut out: Vec<GameEndReport> = Vec::new();
        let mut k: usize = 0;
        while k < winners.len()
            invariant
                k <= winners@.len(),
                winners@ == crate::combat::win::spec_alive_indices(s),
                s == self.initiative@,
                forall|j: int| 0 <= j < winners@.len() ==> (#[trigger] winners@[j]) < s.len(),
                out@ == winners@.take(k as int).map_values(|w: usize| GameEndReport { won: true, me: s[w as int].creature.id }),
            decreases winners@.len() - k,
        {
            let w = winners[k];
            out.push(GameEndReport { won: true, me: self.initiative[w].creature.id });
            assert(winners@.take(k + 1).map_values(|w: usize| GameEndReport { won: true, me: s[w as int].creature.id })
                =~= winners@.take(k as int).map_values(|w: usize| GameEndReport { won: true, me: s[w as int].creature.id }).push(
                GameEndReport { won: true, me: s[w as int].creature.id }));
            k = k + 1;
        }
        assert(winners@.take(k as int) =~= winners@);
        let ghost head = out@;
        let mut i: usize = 0;
        while i < self.initiative.len()
            invariant
                i <= s.len(),
                s == self.initiative@,
                out@ == head + spec_loser_reports(s, winners@, i as int),
            decreases s.len() - i,
        {
            let mut is_winner = false;
            let mut j: usize = 0;
            while j < winners.len()
                invariant
                    j <= winners@.len(),
                    is_winner == exists|m: int| 0 <= m < j && winners@[m] == i,
                decreases winners@.len() - j,
            {
                if winners[j] == i {
                    is_winner = true;
                }
                j = j + 1;
            }
            assert(is_winner == winners@.contains(i));
            if !is_winner {
                out.push(GameEndReport { won: false, me: self.initiative[i].creature.id });
            }
            assert((head + spec_loser_reports(s, winners@, i as int)).push(GameEndReport { won: false, me: s[i as int].creature.id })
                =~= head + spec_loser_reports(s, winners@, i as int).push(GameEndReport { won: false, me: s[i as int].creature.id }));
            i = i + 1;
        }
        Some(out)
    }

    /// Moves the combat on by one step: the combat ends after too many turns, or with its
    /// reports once decided; otherwise the clock ticks, and the turn passes to the next in
    /// turn order, whose attacks are renewed, unless that creature cannot act.
    pub fn advance(&mut self) -> (res: CombatStep)
        requires
            old(self).wf(),
        ensures
            final(self).wf(),
            old(self).clock@.turns >= MAX_TURNS ==> res == CombatStep::TurnLimitReached && *final(self) == *old(self),
            old(self).clock@.turns < MAX_TURNS ==> match spec_free_for_all(old(self).initiative@) {
                Some(w) => (res matches CombatStep::Finished(v) && v@ == spec_end_reports(old(self).initiative@, w))
                    && *final(self) == *old(self),
                None => {
                    let c = spec_tick(old(self).clock@, old(self).initiative@.len());
                    let who = old(self).initiative@[c.order as int];
                    &&& final(self).clock@ == c
                    &&& final(self).arena == old(self).arena
                    &&& final(self).started == old(self).started
                    &&& final(self).creature_id == old(self).creature_id
                    &&& final(self).win_condition == old(self).win_condition
                    &&& if who.creature.stats.health.spec_dead() {
                        &&& res == CombatStep::Skipped(who.creature.id)
                        &&& final(self).initiative == old(self).initiative
                        &&& final(self).current_turn == old(self).current_turn
                    } else {
                        &&& res == CombatStep::Turn(who.creature.id)
                        &&& final(self).current_turn == Some(
                            Turn { combatant: who.creature.id, movement: Movement { used: Feet(0) }, action: None },
                        )
                        &&& final(self).initiative@ == old(self).initiative@.update(c.order as int, spec_attacks_renewed(who))
                    }
                },
            },
    {
        let members = self.len_members();
        proof {
            crate::combat::win::lemma_alive_indices_bounded(self.initiative@);
        }
        if self.clock.turns().0 >= MAX_TURNS {
            return CombatStep::TurnLimitReached;
        }
        if self.is_terminating() {
            match self.end_reports() {
                Some(reports) => return CombatStep::Finished(reports),
                None => {},
            }
        }
        self.clock.tick(members);
        let i = self.clock.current_turn_order();
        if !self.initiative[i].creature.can_take_turns() {
            return CombatStep::Skipped(self.initiative[i].creature.id);
        }
        let ghost s = self.initiative@;
        let mut who = self.initiative.remove(i);
        let max = who.creature.stats.actions.attacks.max_attacks;
        who.creature.stats.actions.attacks.left.reset(max);
        let id = who.creature.id;
        self.initiative.insert(i, who);
        proof {
            assert(self.initiative@ =~= s.update(i as int, spec_attacks_renewed(s[i as int])));
            assert forall|a: int, b: int| 0 <= a < b < self.initiative@.len() implies #[trigger] self.initiative@[a].initiative_score
                >= #[trigger] self.initiative@[b].initiative_score by {
                assert(s[a].initiative_score >= s[b].initiative_score);
            }
            assert forall|k: int| 0 <= k < self.initiative@.len() implies (#[trigger] self.initiative@[k]).initiative_score > i32::MIN
                && self.arena.dims().contains(self.initiative@[k].position) by {
                assert(s[k].initiative_score > i32::MIN);
            }
            assert forall|a: int, b: int| 0 <= a < b < self.initiative@.len() implies (#[trigger] self.initiative@[a]).creature.id
                != (#[trigger] self.initiative@[b]).creature.id by {
                assert(s[a].creature.id != s[b].creature.id);
            }
            assert(self.initiative@[i as int].creature.id == id);
        }
        self.current_turn = Some(Turn::new(id));
        CombatStep::Turn(id)
    }

    /// What creature `me` sees of the others: with no sides, nobody is an ally and every other
    /// combatant is an enemy.
    pub fn view(&self, me: CreatureId) -> (res: CombatantView)
        ensures
            res.me == me,
            res.allies@.len() == 0,
            res.enemies@ == spec_other_ids(self.initiative@, me, self.initiative@.len() as int),
    {
        let mut allies: Vec<CreatureId> = Vec::new();
        let mut enemies: Vec<CreatureId> = Vec::new();
        let mine = Affiliation::new();
        let mut i: usize = 0;
        while i < self.initiative.len()
            invariant
                i <= self.initiative@.len(),
                allies@.len() == 0,
                enemies@ == spec_other_ids(self.initiative@, me, i as int),
            decreases self.initiative@.len() - i,
        {
            let c = &self.initiative[i];
            if c.creature.id != me {
                if c.affiliation.is_friendly(&mine) {
                    allies.push(c.creature.id);
                } else {
                    enemies.push(c.creature.id);
                }
            }
            i = i + 1;
        }
        CombatantView { me, allies, enemies }
    }

    /// Hands out the next creature id.
    pub fn next_creature_id(&mut self) -> (res: usize)
        requires
            old(self).creature_id < usize::MAX,
        ensures
            res == old(self).creature_id,
            final(self).creature_id == old(self).creature_id + 1,
            final(self).initiative == old(self).initiative,
            final(self).arena == old(self).arena,
            final(self).clock == old(self).clock,
            final(self).started == old(self).started,
            final(self).current_turn == old(self).current_turn,
            final(self).win_condition == old(self).win_condition,
    {
        let id = self.creature_id;
        self.creature_id = id + 1;
        id
    }

    /// Starts the combat; a combat is started once only.
    pub fn start(&mut self)
        requires
            !old(self).started,
        ensures
            final(self).started,
            final(self).initiative == old(self).initiative,
            final(self).arena == old(self).arena,
            final(self).clock == old(self).clock,
            final(self).current_turn == old(self).current_turn,
            final(self).creature_id == old(self).creature_id,
            final(self).win_condition == old(self).win_condition,
    {
        self.started = true;
    }
}

/// A sample combatant: the sample creature, run by the game master, at the corner of the grid,
/// with an initiative of 0 and no side.
pub fn test_combatant() -> (res: Combatant)
    ensures
        crate::creature::spec_test_creature(res.creature),
        res.actor == Actor::GameMaster,
        res.position == (Position { x: Squares(0), y: Squares(0) }),
        res.initiative_score == 0,
        res.affiliation == Affiliation::Solo,
{
    Combatant {
        creature: crate::creature::test_creature(),
        actor: Actor::GameMaster,
        position: Position { x: Squares(0), y: Squares(0) },
        initiative_score: 0,
        affiliation: Affiliation::new(),
    }
}

} // verus!
