//! What a creature can do in combat: its attacks, how many it has left this turn, and its
//! reaction.

use vstd::prelude::*;

use crate::combat::action::{spec_attack_range, Attack, AttackUseError};
use crate::combat::utils::{next_turn_reached, spec_next_turn_reached, Availability};
use crate::measure::{Feet, Rounds};

verus! {

/// How many attacks a creature makes with one Attack action, unless told otherwise.
pub const DEFAULT_NUM_ATTACKS: u32 = 1;

/// The number of attacks a creature may still make this turn.
#[derive(Debug, Clone, Copy, PartialEq, Eq, Structural)]
pub struct AttacksLeft {
    count: u32,
}

impl View for AttacksLeft {
    type V = u32;

    closed spec fn view(&self) -> u32 {
        self.count
    }
}

/// `n` attacks left.
pub closed spec fn spec_attacks_left(n: u32) -> AttacksLeft {
    AttacksLeft { count: n }
}

/// `n` attacks left is `n` attacks left.
pub proof fn lemma_attacks_left(n: u32)
    ensures
        spec_attacks_left(n)@ == n,
{
}

impl AttacksLeft {
    /// The default number of attacks.
    pub fn new() -> (res: Self)
        ensures
            res@ == DEFAULT_NUM_ATTACKS,
    {
        AttacksLeft { count: DEFAULT_NUM_ATTACKS }
    }

    /// The number of attacks left.
    pub fn count(&self) -> (res: u32)
        ensures
            res == self@,
    {
        self.count
    }

    /// Whether an attack is left.
    pub fn can_attack(&self) -> (res: bool)
        ensures
            res == (self@ > 0),
    {
        self.count > 0
    }

    /// Spends one attack; refused, with nothing spent, when none is left.
    pub fn use_attack(&mut self) -> (res: Result<(), AttackUseError>)
        ensures
            old(self)@ == 0 ==> res == Err::<(), AttackUseError>(AttackUseError::OutOfAttacks)
                && final(self)@ == 0,
            old(self)@ > 0 ==> res is Ok && final(self)@ == old(self)@ - 1 && *final(self) == spec_attacks_left(
                (old(self)@ - 1) as u32,
            ),
    {
        if !self.can_attack() {
            return Err(AttackUseError::OutOfAttacks);
        }
        self.count = self.count - 1;
        Ok(())
    }

    /// Starts a new turn with `max_attacks` attacks.
    pub fn reset(&mut self, max_attacks: u32)
        ensures
            final(self)@ == max_attacks,
            *final(self) == spec_attacks_left(max_attacks),
    {
        self.count = max_attacks;
    }
}

/// A creature's attacks, and how many of them it makes per Attack action.
#[derive(Debug)]
pub struct Attacks {
    pub max_attacks: u32,
    pub left: AttacksLeft,
    pub attacks: Vec<Attack>,
}

/// Whether an attack can be made against a target at `distance`: it must reach, and a ranged
/// attack is never a reaction.
pub open spec fn spec_attack_usable(attack: Attack, as_reaction: bool, distance: Feet) -> bool {
    spec_attack_range(attack.kind).spec_within(distance) && !(as_reaction && attack.kind is Ranged)
}

impl Attacks {
    /// No attacks yet, one attack per Attack action.
    pub fn new() -> (res: Self)
        ensures
            res.max_attacks == DEFAULT_NUM_ATTACKS,
            res.left@ == DEFAULT_NUM_ATTACKS,
            res.attacks@.len() == 0,
    {
        Attacks { max_attacks: DEFAULT_NUM_ATTACKS, left: AttacksLeft::new(), attacks: Vec::new() }
    }

    /// Each attack, by its index, with whether it can be made against a target at `distance`
    /// (as a reaction or not).
    pub fn attacks(&self, as_reaction: bool, distance: Feet) -> (res: Vec<Availability<usize>>)
        ensures
            res@.len() == self.attacks@.len(),
            forall|i: int| 0 <= i < res@.len() ==> (#[trigger] res@[i]).spec_value() == i
                && res@[i].spec_available() == spec_attack_usable(self.attacks@[i], as_reaction, distance),
    {
        let mut out: Vec<Availability<usize>> = Vec::new();
        let mut i: usize = 0;
        while i < self.attacks.len()
            invariant
                i <= self.attacks@.len(),
                out@.len() == i,
                forall|k: int| 0 <= k < i ==> (#[trigger] out@[k]).spec_value() == k
                    && out@[k].spec_available() == spec_attack_usable(self.attacks@[k], as_reaction, distance),
            decreases self.attacks@.len() - i,
        {
            let ok = self.attacks[i].is_available(as_reaction, distance).is_ok();
            out.push(Availability::with(i, ok));
            i = i + 1;
        }
        out
    }
}

/// Everything a creature can do as an action (so far, its attacks).
#[derive(Debug)]
pub struct Actions {
    pub attacks: Attacks,
}

impl Actions {
    pub fn new() -> (res: Self)
        ensures
            res.attacks.max_attacks == DEFAULT_NUM_ATTACKS,
            res.attacks.left@ == DEFAULT_NUM_ATTACKS,
            res.attacks.attacks@.len() == 0,
    {
        Actions { attacks: Attacks::new() }
    }
}

/// The reaction was already used, and is not back yet.
#[derive(Debug, Clone, Copy, PartialEq, Eq, Structural)]
pub struct AlreadyUsedReaction;

/// A creature's reaction: once used, it is back at the start of the creature's next turn.
#[derive(Debug, Clone, Copy, PartialEq, Eq, Structural)]
pub struct Reaction {
    used_in: Option<Rounds>,
}

impl View for Reaction {
    type V = Option<u32>;

    /// The round in which the reaction was used, if it is marked used.
    closed spec fn view(&self) -> Option<u32> {
        match self.used_in {
            Some(r) => Some(r.0),
            None => None,
        }
    }
}

/// Whether a reaction used in round `used_in` (if any) is still spent, at round `rounds` with
/// the turn of order `current_order` under way, for a creature of turn order `my_order`.
pub open spec fn spec_reaction_spent(used_in: Option<u32>, rounds: u32, my_order: int, current_order: int) -> bool {
    match used_in {
        Some(start) => !spec_next_turn_reached(start, rounds, my_order, current_order),
        None => false,
    }
}

/// The clock has not gone back before the round in which the reaction was used.
pub open spec fn reaction_clock_ok(used_in: Option<u32>, rounds: u32, my_order: int, current_order: int) -> bool {
    match used_in {
        Some(start) => rounds >= start && (rounds == start ==> my_order >= current_order),
        None => true,
    }
}

/// A reaction used in round `start` stays spent for the rest of that round, and in later
/// rounds until the turn order reaches the creature's place.
pub proof fn lemma_reaction_back_at_next_turn(start: u32, rounds: u32, my_order: int, current_order: int)
    requires
        rounds >= start,
    ensures
        spec_reaction_spent(Some(start), rounds, my_order, current_order) <==> (rounds == start || my_order < current_order),
        spec_reaction_spent(None, rounds, my_order, current_order) == false,
{
}

impl Reaction {
    /// An unused reaction.
    pub fn new() -> (res: Self)
        ensures
            res@ is None,
    {
        Reaction { used_in: None }
    }

    /// The round in which the reaction was used, if it is marked used.
    pub fn used_in(&self) -> (res: Option<Rounds>)
        ensures
            res == match self@ {
                Some(r) => Some(Rounds(r)),
                None => None::<Rounds>,
            },
    {
        self.used_in
    }

    /// Whether the reaction is spent now: used, and the creature's next turn has not come.
    pub fn used(&self, rounds: Rounds, my_order: usize, current_order: usize) -> (res: bool)
        requires
            reaction_clock_ok(self@, rounds.0, my_order as int, current_order as int),
        ensures
            res == spec_reaction_spent(self@, rounds.0, my_order as int, current_order as int),
    {
        match self.used_in {
            Some(start) => !next_turn_reached(start.0, rounds.0, my_order, current_order),
            None => false,
        }
    }

    /// Spends the reaction in round `rounds`; refused, with nothing changed, while it is spent.
    pub fn mark_used(&mut self, rounds: Rounds, my_order: usize, current_order: usize) -> (res: Result<(), AlreadyUsedReaction>)
        requires
            reaction_clock_ok(old(self)@, rounds.0, my_order as int, current_order as int),
        ensures
            spec_reaction_spent(old(self)@, rounds.0, my_order as int, current_order as int) ==> res
                == Err::<(), AlreadyUsedReaction>(AlreadyUsedReaction) && final(self)@ == old(self)@,
            !spec_reaction_spent(old(self)@, rounds.0, my_order as int, current_order as int) ==> res is Ok
                && final(self)@ == Some(rounds.0),
    {
        if self.used(rounds, my_order, current_order) {
            return Err(AlreadyUsedReaction);
        }
        self.used_in = Some(rounds);
        Ok(())
    }
}

} // verus!
