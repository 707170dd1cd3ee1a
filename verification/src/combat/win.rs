//! When a combat is won, and by whom.

use vstd::prelude::*;

use crate::combat::combatant::Combatant;
use crate::creature::CreatureId;

verus! {

/// How a combat is won.
#[derive(Debug, Clone, Copy, PartialEq, Eq, Structural)]
pub enum WinCondition {
    /// The last combatant standing wins; if everyone falls, nobody does.
    FreeForAll,
}

/// What a combatant is told when the combat ends.
#[derive(Debug, Clone, Copy, PartialEq, Eq, Structural)]
pub struct GameEndReport {
    pub won: bool,
    pub me: CreatureId,
}

/// Whether a combatant is still alive.
pub open spec fn spec_alive(c: Combatant) -> bool {
    !c.creature.stats.health.spec_dead()
}

/// The places in the turn order of the combatants still alive, in order.
pub open spec fn spec_alive_indices(s: Seq<Combatant>) -> Seq<usize>
    decreases s.len(),
{
    if s.len() == 0 {
        Seq::empty()
    } else {
        let rest = spec_alive_indices(s.drop_last());
        if spec_alive(s.last()) {
            rest.push((s.len() - 1) as usize)
        } else {
            rest
        }
    }
}

/// The winners under free-for-all: nobody when everyone is dead, the last one standing, and
/// no result yet while two or more live.
pub open spec fn spec_free_for_all(s: Seq<Combatant>) -> Option<Seq<usize>> {
    let alive = spec_alive_indices(s);
    if alive.len() <= 1 {
        Some(alive)
    } else {
        None
    }
}

/// The reports at the end of a combat: the winners first, then everyone else in turn order.
pub open spec fn spec_end_reports(s: Seq<Combatant>, winners: Seq<usize>) -> Seq<GameEndReport> {
    winners.map_values(|w: usize| GameEndReport { won: true, me: s[w as int].creature.id })
        + spec_loser_reports(s, winners, s.len() as int)
}

/// Reports for the combatants among the first `n` that are not winners, in turn order.
pub open spec fn spec_loser_reports(s: Seq<Combatant>, winners: Seq<usize>, n: int) -> Seq<GameEndReport>
    decreases n,
{
    if n <= 0 {
        Seq::empty()
    } else {
        let rest = spec_loser_reports(s, winners, n - 1);
        if winners.contains((n - 1) as usize) {
            rest
        } else {
            rest.push(GameEndReport { won: false, me: s[n - 1].creature.id })
        }
    }
}

/// Every index listed as alive is a place in the turn order, listed in increasing order.
pub proof fn lemma_alive_indices_bounded(s: Seq<Combatant>)
    requires
        s.len() <= usize::MAX,
    ensures
        forall|k: int| 0 <= k < spec_alive_indices(s).len() ==> (#[trigger] spec_alive_indices(s)[k]) < s.len()
            && spec_alive(s[spec_alive_indices(s)[k] as int]),
        spec_alive_indices(s).len() <= s.len(),
    decreases s.len(),
{
    if s.len() > 0 {
        lemma_alive_indices_bounded(s.drop_last());
        let rest = spec_alive_indices(s.drop_last());
        let all = spec_alive_indices(s);
        assert forall|k: int| 0 <= k < all.len() implies (#[trigger] all[k]) < s.len() && spec_alive(s[all[k] as int]) by {
            if k < rest.len() {
                assert(all[k] == rest[k]);
                assert(s[rest[k] as int] == s.drop_last()[rest[k] as int]);
            } else {
                assert(spec_alive(s.last()));
                assert(all == rest.push((s.len() - 1) as usize));
                assert(all[k] == s.len() - 1);
            }
        }
    }
}

impl WinCondition {
    /// The winners, by place in the turn order, once the combat is decided.
    pub fn has_happened(&self, initiative: &Vec<Combatant>) -> (res: Option<Vec<usize>>)
        ensures
            match spec_free_for_all(initiative@) {
                Some(w) => res matches Some(v) && v@ == w,
                None => res is None,
            },
    {
        let mut alive: Vec<usize> = Vec::new();
        let mut i: usize = 0;
        while i < initiative.len()
            invariant
                i <= initiative@.len(),
                alive@ == spec_alive_indices(initiative@.take(i as int)),
            decreases initiative@.len() - i,
        {
            let ghost prefix = initiative@.take(i + 1);
            assert(prefix.drop_last() =~= initiative@.take(i as int));
            assert(prefix.last() == initiative@[i as int]);
            if !initiative[i].creature.is_dead() {
                alive.push(i);
            }
            i = i + 1;
        }
        assert(initiative@.take(i as int) =~= initiative@);
        if alive.len() <= 1 {
            Some(alive)
        } else {
            None
        }
    }
}

} // verus!
