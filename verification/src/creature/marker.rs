//! Markers: what a creature is currently doing (dashing, disengaging, dodging) and for how
//! long it lasts.

use vstd::prelude::*;

use crate::combat::utils::{next_turn_reached, spec_next_turn_reached};
use crate::measure::{Rounds, Turns};

verus! {

/// The kinds of marker.
#[derive(Debug, Clone, Copy, PartialEq, Eq, Structural)]
pub enum MarkerKind {
    /// Took the Dash action: lasts for the rest of the turn.
    Dashing,
    /// Took the Disengage action: lasts for the rest of the turn.
    Disengaging,
    /// Took the Dodge action: lasts until the start of the creature's next turn.
    Dodging,
}

/// A marker, with the turn and round in which it was applied.
#[derive(Debug, Clone, Copy, PartialEq, Eq, Structural)]
pub struct Marker {
    pub kind: MarkerKind,
    pub turn: Turns,
    pub round: Rounds,
}

/// Whether a marker still lasts at turn `turns` of round `rounds`, with the turn of order
/// `current_order` under way, for a creature of turn order `my_order`.
pub open spec fn spec_alive(m: Marker, turns: u32, rounds: u32, my_order: int, current_order: int) -> bool {
    match m.kind {
        MarkerKind::Dashing | MarkerKind::Disengaging => m.turn.0 == turns,
        MarkerKind::Dodging => !spec_next_turn_reached(m.round.0, rounds, my_order, current_order),
    }
}

/// A Dash or a Disengage lasts exactly for the turn in which it was taken; a Dodge lasts
/// until the creature's next turn comes round.
pub proof fn lemma_marker_lifetimes(m: Marker, turns: u32, rounds: u32, my_order: int, current_order: int)
    ensures
        (m.kind is Dashing || m.kind is Disengaging) ==> (spec_alive(m, turns, rounds, my_order, current_order) <==> m.turn.0 == turns),
        m.kind is Dodging ==> (spec_alive(m, turns, rounds, my_order, current_order) <==> !(rounds > m.round.0 && my_order >= current_order)),
{
}

/// For a marker that lasts until the creature's next turn, the clock has not gone back before
/// it was applied (within its own round, the turn under way is not before the creature's).
pub open spec fn marker_clock_ok(m: Marker, rounds: u32, my_order: int, current_order: int) -> bool {
    m.kind is Dodging ==> rounds >= m.round.0 && (rounds == m.round.0 ==> my_order >= current_order)
}

/// A creature's markers, oldest first.
#[derive(Debug, Clone)]
pub struct Markers(Vec<Marker>);

impl View for Markers {
    type V = Seq<Marker>;

    closed spec fn view(&self) -> Seq<Marker> {
        self.0@
    }
}

impl Marker {
    /// Whether this marker still lasts.
    pub fn is_alive(&self, turns: Turns, rounds: Rounds, my_order: usize, current_order: usize) -> (res: bool)
        requires
            marker_clock_ok(*self, rounds.0, my_order as int, current_order as int),
        ensures
            res == spec_alive(*self, turns.0, rounds.0, my_order as int, current_order as int),
    {
        match self.kind {
            MarkerKind::Dashing | MarkerKind::Disengaging => self.turn.0 == turns.0,
            MarkerKind::Dodging => !next_turn_reached(self.round.0, rounds.0, my_order, current_order),
        }
    }
}

impl Markers {
    /// No markers.
    pub fn new() -> (res: Self)
        ensures
            res@ == Seq::<Marker>::empty(),
    {
        Markers(Vec::new())
    }

    /// Adds a marker.
    pub fn push(&mut self, marker: Marker)
        ensures
            final(self)@ == old(self)@.push(marker),
    {
        self.0.push(marker);
    }

    /// The markers, oldest first.
    pub fn iter(&self) -> (res: Vec<Marker>)
        ensures
            res@ == self@,
    {
        self.0.clone()
    }

    /// Whether a marker of kind `kind` still lasts.
    pub fn contains(&self, kind: MarkerKind, turns: Turns, rounds: Rounds, my_order: usize, current_order: usize) -> (res: bool)
        requires
            forall|i: int| 0 <= i < self@.len() ==> marker_clock_ok(#[trigger] self@[i], rounds.0, my_order as int, current_order as int),
        ensures
            res == exists|i: int| 0 <= i < self@.len() && (#[trigger] self@[i]).kind == kind
                && spec_alive(self@[i], turns.0, rounds.0, my_order as int, current_order as int),
    {
        let mut i: usize = 0;
        while i < self.0.len()
            invariant
                i <= self@.len(),
                self@ == self.0@,
                forall|k: int| 0 <= k < self@.len() ==> marker_clock_ok(#[trigger] self@[k], rounds.0, my_order as int, current_order as int),
                forall|k: int| 0 <= k < i ==> !((#[trigger] self@[k]).kind == kind
                    && spec_alive(self@[k], turns.0, rounds.0, my_order as int, current_order as int)),
            decreases self@.len() - i,
        {
            let m = self.0[i];
            if m.kind == kind && m.is_alive(turns, rounds, my_order, current_order) {
                assert(self@[i as int] == m);
                return true;
            }
            i = i + 1;
        }
        false
    }

    /// The number of live markers of kind `kind`.
    pub fn count_alive(&self, kind: MarkerKind, turns: Turns, rounds: Rounds, my_order: usize, current_order: usize) -> (res: usize)
        requires
            forall|i: int| 0 <= i < self@.len() ==> marker_clock_ok(#[trigger] self@[i], rounds.0, my_order as int, current_order as int),
        ensures
            res == spec_count_alive(self@, kind, turns.0, rounds.0, my_order as int, current_order as int),
    {
        let mut n: usize = 0;
        let mut i: usize = 0;
        while i < self.0.len()
            invariant
                i <= self@.len(),
                self@ == self.0@,
                n <= i,
                forall|k: int| 0 <= k < self@.len() ==> marker_clock_ok(#[trigger] self@[k], rounds.0, my_order as int, current_order as int),
                n == spec_count_alive(self@.take(i as int), kind, turns.0, rounds.0, my_order as int, current_order as int),
            decreases self@.len() - i,
        {
            let m = self.0[i];
            assert(self@.take(i + 1).drop_last() =~= self@.take(i as int));
            if m.kind == kind && m.is_alive(turns, rounds, my_order, current_order) {
                n = n + 1;
            }
            i = i + 1;
        }
        assert(self@.take(i as int) =~= self@);
        n
    }
}

/// The number of markers of kind `kind` in `s` that still last.
pub open spec fn spec_count_alive(s: Seq<Marker>, kind: MarkerKind, turns: u32, rounds: u32, my_order: int, current_order: int) -> nat
    decreases s.len(),
{
    if s.len() == 0 {
        0
    } else {
        let m = s.last();
        spec_count_alive(s.drop_last(), kind, turns, rounds, my_order, current_order) + if m.kind == kind
            && spec_alive(m, turns, rounds, my_order, current_order) {
            1nat
        } else {
            0nat
        }
    }
}

} // verus!
