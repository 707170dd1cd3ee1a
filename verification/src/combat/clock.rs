//! The combat clock: rounds, turns, and whose turn it is.

use vstd::prelude::*;

use crate::measure::{Rounds, Turns};

verus! {

/// Counts the rounds and turns of a combat, and holds the place in the turn order of the
/// creature whose turn it is.
#[derive(Debug, Clone, Copy, PartialEq, Eq, Structural)]
pub struct CombatClock {
    rounds: Rounds,
    turns: Turns,
    turn_order: usize,
}

/// The clock as numbers: rounds, turns and the current place in the turn order.
pub struct ClockView {
    pub rounds: nat,
    pub turns: nat,
    pub order: nat,
}

impl View for CombatClock {
    type V = ClockView;

    closed spec fn view(&self) -> ClockView {
        ClockView { rounds: self.rounds.0 as nat, turns: self.turns.0 as nat, order: self.turn_order as nat }
    }
}

/// The clock after one turn ends, in a round of `round_len` turns: the next place in the turn
/// order, or the first place of a new round after the last place.
pub open spec fn spec_tick(c: ClockView, round_len: nat) -> ClockView {
    if c.order >= round_len - 1 {
        ClockView { rounds: c.rounds + 1, turns: c.turns + 1, order: 0 }
    } else {
        ClockView { rounds: c.rounds, turns: c.turns + 1, order: c.order + 1 }
    }
}

/// The clock after `n` ticks.
pub open spec fn spec_ticks(c: ClockView, round_len: nat, n: nat) -> ClockView
    decreases n,
{
    if n == 0 {
        c
    } else {
        spec_tick(spec_ticks(c, round_len, (n - 1) as nat), round_len)
    }
}

impl CombatClock {
    /// Round 0, turn 0, first in the turn order.
    pub fn new() -> (res: Self)
        ensures
            res@ == (ClockView { rounds: 0, turns: 0, order: 0 }),
    {
        CombatClock { rounds: Rounds(0), turns: Turns(0), turn_order: 0 }
    }

    pub fn rounds(&self) -> (res: Rounds)
        ensures
            res.0 == self@.rounds,
    {
        self.rounds
    }

    pub fn turns(&self) -> (res: Turns)
        ensures
            res.0 == self@.turns,
    {
        self.turns
    }

    /// The place in the turn order of the creature whose turn it is.
    pub fn current_turn_order(&self) -> (res: usize)
        ensures
            res == self@.order,
    {
        self.turn_order
    }

    /// Ends a turn in a round of `round_len` turns.
    pub fn tick(&mut self, round_len: usize)
        requires
            round_len >= 1,
            old(self)@.rounds < u32::MAX,
            old(self)@.turns < u32::MAX,
            old(self)@.order < usize::MAX,
        ensures
            final(self)@ == spec_tick(old(self)@, round_len as nat),
    {
        let next_round = self.turn_order >= round_len - 1;
        if next_round {
            self.rounds = Rounds(self.rounds.0 + 1);
            self.turn_order = 0;
        } else {
            self.turn_order = self.turn_order + 1;
        }
        self.turns = Turns(self.turns.0 + 1);
    }
}

/// Each tick counts one turn, and the place in the turn order stays within the round.
pub proof fn lemma_tick_order_in_round(c: ClockView, round_len: nat)
    requires
        round_len >= 1,
    ensures
        spec_tick(c, round_len).order < round_len,
        spec_tick(c, round_len).turns == c.turns + 1,
        spec_tick(c, round_len).rounds == c.rounds || spec_tick(c, round_len).rounds == c.rounds + 1,
{
}

/// From the first place of a round, `round_len` ticks make one whole round: every other
/// creature has its turn, and the next round starts at the first place again.
pub proof fn lemma_full_round(c: ClockView, round_len: nat)
    requires
        round_len >= 1,
        c.order == 0,
    ensures
        spec_ticks(c, round_len, round_len) == (ClockView { rounds: c.rounds + 1, turns: c.turns + round_len, order: 0 }),
{
    lemma_ticks_within_round(c, round_len, (round_len - 1) as nat);
    assert(spec_ticks(c, round_len, round_len) == spec_tick(spec_ticks(c, round_len, (round_len - 1) as nat), round_len));
}

/// Within a round started at the first place, `n` ticks (fewer than the round) reach place `n`.
pub proof fn lemma_ticks_within_round(c: ClockView, round_len: nat, n: nat)
    requires
        round_len >= 1,
        c.order == 0,
        n < round_len,
    ensures
        spec_ticks(c, round_len, n) == (ClockView { rounds: c.rounds, turns: c.turns + n, order: n }),
    decreases n,
{
    if n > 0 {
        lemma_ticks_within_round(c, round_len, (n - 1) as nat);
    }
}

/// From the first place of a round, `k` ticks of rounds of `round_len` turns count `k` turns,
/// reach place `k % round_len` in the turn order and complete `k / round_len` rounds.
pub proof fn lemma_ticks_from_round_start(c: ClockView, round_len: nat, k: nat)
    requires
        round_len >= 1,
        c.order == 0,
    ensures
        spec_ticks(c, round_len, k) == (ClockView {
            rounds: c.rounds + k / round_len,
            turns: c.turns + k,
            order: k % round_len,
        }),
    decreases k,
{
    let n = round_len as int;
    if k == 0 {
        vstd::arithmetic::div_mod::lemma_fundamental_div_mod_converse(0, n, 0, 0);
    } else {
        let j = (k - 1) as nat;
        lemma_ticks_from_round_start(c, round_len, j);
        let q = j as int / n;
        let r = j as int % n;
        vstd::arithmetic::div_mod::lemma_fundamental_div_mod(j as int, n);
        assert(0 <= r < n) by {
            vstd::arithmetic::div_mod::lemma_mod_bound(j as int, n);
        }
        if r == n - 1 {
            assert(k as int == (q + 1) * n + 0) by (nonlinear_arith)
                requires
                    j as int == n * q + r,
                    r == n - 1,
                    k as int == j + 1,
            ;
            vstd::arithmetic::div_mod::lemma_fundamental_div_mod_converse(k as int, n, q + 1, 0);
        } else {
            assert(k as int == q * n + (r + 1)) by (nonlinear_arith)
                requires
                    j as int == n * q + r,
                    k as int == j + 1,
            ;
            vstd::arithmetic::div_mod::lemma_fundamental_div_mod_converse(k as int, n, q, r + 1);
        }
    }
}

/// A fresh clock after `k` ticks of rounds of `round_len` turns: `k` turns, place
/// `k % round_len` in the turn order, `k / round_len` rounds.
pub proof fn lemma_ticks_from_new(round_len: nat, k: nat)
    requires
        round_len >= 1,
    ensures
        spec_ticks(ClockView { rounds: 0, turns: 0, order: 0 }, round_len, k) == (ClockView {
            rounds: k / round_len,
            turns: k,
            order: k % round_len,
        }),
        k % round_len < round_len,
{
    lemma_ticks_from_round_start(ClockView { rounds: 0, turns: 0, order: 0 }, round_len, k);
}

} // verus!
