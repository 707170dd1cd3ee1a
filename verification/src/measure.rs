//! Distances on the battle grid, durations and turn counters.

use vstd::prelude::*;

pub mod currency;

verus! {

/// Feet per grid square.
pub const FEET_PER_SQUARE: u32 = 5;

/// A distance in feet.
#[derive(Debug, Clone, Copy, PartialEq, Eq, Structural, Default)]
pub struct Feet(pub u32);

/// A distance in grid squares.
#[derive(Debug, Clone, Copy, PartialEq, Eq, Structural)]
pub struct Squares(pub u32);

/// The number of whole squares needed to cover `feet` feet (rounding up).
pub open spec fn squares_covering(feet: int) -> int {
    (feet + 4) / 5
}

impl Squares {
    /// Adds a signed offset, failing when the result leaves the `u32` range.
    pub fn checked_add_signed(&self, rhs: i32) -> (res: Option<Squares>)
        ensures
            match res {
                Some(s) => s.0 == self.0 + rhs,
                None => !(0 <= self.0 + rhs <= u32::MAX),
            },
    {
        match self.0.checked_add_signed(rhs) {
            Some(v) => Some(Squares(v)),
            None => None,
        }
    }
}

impl From<Feet> for Squares {
    /// Rounds up to whole squares.
    fn from(value: Feet) -> (res: Squares) {
        let q = value.0 / FEET_PER_SQUARE;
        if value.0 % FEET_PER_SQUARE == 0 {
            Squares(q)
        } else {
            Squares(q + 1)
        }
    }
}

impl vstd::std_specs::convert::FromSpecImpl<Feet> for Squares {
    open spec fn obeys_from_spec() -> bool {
        true
    }

    open spec fn from_spec(v: Feet) -> Squares {
        Squares(squares_covering(v.0 as int) as u32)
    }
}

impl Feet {
    /// The length in feet of `squares` grid squares.
    pub fn from_squares(squares: Squares) -> (res: Feet)
        requires
            squares.0 * 5 <= u32::MAX,
        ensures
            res.0 == squares.0 * 5,
    {
        Feet(squares.0 * FEET_PER_SQUARE)
    }

    /// Sum of two distances.
    pub fn add(self, rhs: Feet) -> (res: Feet)
        requires
            self.0 + rhs.0 <= u32::MAX,
        ensures
            res.0 == self.0 + rhs.0,
    {
        Feet(self.0 + rhs.0)
    }

    /// Difference of two distances.
    pub fn sub(self, rhs: Feet) -> (res: Feet)
        requires
            rhs.0 <= self.0,
        ensures
            res.0 == self.0 - rhs.0,
    {
        Feet(self.0 - rhs.0)
    }
}

/// Going from squares to feet and back gives the same number of squares.
pub proof fn lemma_squares_feet_round_trip(s: Squares)
    requires
        s.0 * 5 <= u32::MAX,
    ensures
        squares_covering(s.0 * 5) == s.0,
{
}

/// Going from feet to squares and back never loses distance, and adds less than one square.
pub proof fn lemma_feet_squares_cover(f: Feet)
    ensures
        f.0 <= squares_covering(f.0 as int) * 5 < f.0 + 5,
{
}

const SECS_PER_ROUND: u32 = 6;
const SECS_PER_MIN: u32 = 60;
const MIN_PER_HOUR: u32 = 60;

/// A span of in-game time, in seconds.
#[derive(Debug, Clone, Copy)]
pub struct Duration(u32);

impl View for Duration {
    type V = nat;

    /// The length in seconds.
    closed spec fn view(&self) -> nat {
        self.0 as nat
    }
}

impl Duration {
    pub fn rounds(rounds: u32) -> (res: Self)
        requires
            rounds * 6 <= u32::MAX,
        ensures
            res@ == rounds * 6,
    {
        Self(rounds * SECS_PER_ROUND)
    }

    pub fn round(round: u32) -> (res: Self)
        requires
            round * 6 <= u32::MAX,
        ensures
            res@ == round * 6,
    {
        Self::rounds(round)
    }

    pub fn hours(hours: u32) -> (res: Self)
        requires
            hours * 3600 <= u32::MAX,
        ensures
            res@ == hours * 3600,
    {
        Self(hours * SECS_PER_MIN * MIN_PER_HOUR)
    }

    pub fn hour(hour: u32) -> (res: Self)
        requires
            hour * 3600 <= u32::MAX,
        ensures
            res@ == hour * 3600,
    {
        Self::hours(hour)
    }

    pub fn minutes(minutes: u32) -> (res: Self)
        requires
            minutes * 60 <= u32::MAX,
        ensures
            res@ == minutes * 60,
    {
        Self(minutes * SECS_PER_MIN)
    }

    pub fn minute(minute: u32) -> (res: Self)
        requires
            minute * 60 <= u32::MAX,
        ensures
            res@ == minute * 60,
    {
        Self::minutes(minute)
    }

    pub fn seconds(seconds: u32) -> (res: Self)
        ensures
            res@ == seconds,
    {
        Self(seconds)
    }

    pub fn second(second: u32) -> (res: Self)
        ensures
            res@ == second,
    {
        Self::seconds(second)
    }

    /// Whole rounds (rounded down).
    pub fn as_rounds(self) -> (res: u32)
        ensures
            res == self@ / 6,
    {
        self.0 / SECS_PER_ROUND
    }

    /// Whole minutes (rounded down).
    pub fn as_mins(self) -> (res: u32)
        ensures
            res == self@ / 60,
    {
        self.0 / SECS_PER_MIN
    }

    /// Whole hours (rounded down).
    pub fn as_hours(self) -> (res: u32)
        ensures
            res == self@ / 3600,
    {
        assert(self.0 / 60 / 60 == self.0 / 3600) by (nonlinear_arith);
        self.0 / SECS_PER_MIN / MIN_PER_HOUR
    }
}

/// Each unit constructor and its reading agree: `n` rounds, minutes or hours read back as `n`.
pub proof fn lemma_duration_round_trip(n: nat)
    ensures
        (n * 6) / 6 == n,
        (n * 60) / 60 == n,
        (n * 3600) / 3600 == n,
{
    assert((n * 6) / 6 == n) by (nonlinear_arith);
    assert((n * 60) / 60 == n) by (nonlinear_arith);
    assert((n * 3600) / 3600 == n) by (nonlinear_arith);
}

/// A count of combat rounds.
#[derive(Debug, Clone, Copy, PartialEq, Eq, Structural)]
pub struct Rounds(pub u32);

/// A count of combat turns.
#[derive(Debug, Clone, Copy, PartialEq, Eq, Structural)]
pub struct Turns(pub u32);

impl Rounds {
    pub fn add(self, rhs: Self) -> (res: Self)
        requires
            self.0 + rhs.0 <= u32::MAX,
        ensures
            res.0 == self.0 + rhs.0,
    {
        Rounds(self.0 + rhs.0)
    }

    pub fn sub(self, rhs: Self) -> (res: Self)
        requires
            rhs.0 <= self.0,
        ensures
            res.0 == self.0 - rhs.0,
    {
        Rounds(self.0 - rhs.0)
    }
}

impl Turns {
    pub fn add(self, rhs: Self) -> (res: Self)
        requires
            self.0 + rhs.0 <= u32::MAX,
        ensures
            res.0 == self.0 + rhs.0,
    {
        Turns(self.0 + rhs.0)
    }

    pub fn sub(self, rhs: Self) -> (res: Self)
        requires
            rhs.0 <= self.0,
        ensures
            res.0 == self.0 - rhs.0,
    {
        Turns(self.0 - rhs.0)
    }
}

} // verus!
