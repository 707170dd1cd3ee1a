//! Availability of options, and "until your next turn" timing.

use vstd::prelude::*;

verus! {

/// A value, and whether it is currently available.
#[derive(Debug, Clone, Copy, PartialEq, Eq, Structural)]
pub struct Availability<T> {
    value: T,
    available: bool,
}

impl<T> Availability<T> {
    /// The value.
    pub closed spec fn spec_value(&self) -> T {
        self.value
    }

    /// Whether the value is available.
    pub closed spec fn spec_available(&self) -> bool {
        self.available
    }

    pub fn available(value: T) -> (res: Self)
        ensures
            res.spec_value() == value,
            res.spec_available(),
    {
        Availability { value, available: true }
    }

    pub fn unavailable(value: T) -> (res: Self)
        ensures
            res.spec_value() == value,
            !res.spec_available(),
    {
        Availability { value, available: false }
    }

    /// Available or not by `available`.
    pub fn with(value: T, available: bool) -> (res: Self)
        ensures
            res.spec_value() == value,
            res.spec_available() == available,
    {
        Availability { value, available }
    }

    pub fn is_available(&self) -> (res: bool)
        ensures
            res == self.spec_available(),
    {
        self.available
    }

    /// Transforms the value, keeping its availability.
    pub fn map<U, F: FnOnce(T) -> U>(self, f: F) -> (res: Availability<U>)
        requires
            f.requires((self.spec_value(),)),
        ensures
            f.ensures((self.spec_value(),), res.spec_value()),
            res.spec_available() == self.spec_available(),
    {
        Availability { value: f(self.value), available: self.available }
    }

    /// Available only if it was and `f` holds of the value.
    pub fn and<F: FnOnce(&T) -> bool>(self, f: F) -> (res: Self)
        requires
            self.spec_available() ==> f.requires((&self.spec_value(),)),
        ensures
            res.spec_value() == self.spec_value(),
            !self.spec_available() ==> !res.spec_available(),
            self.spec_available() ==> f.ensures((&self.spec_value(),), res.spec_available()),
    {
        let available = self.available && f(&self.value);
        Availability { available, value: self.value }
    }

    /// A view of the value.
    pub fn as_ref(&self) -> (res: Availability<&T>)
        ensures
            *res.spec_value() == self.spec_value(),
            res.spec_available() == self.spec_available(),
    {
        Availability { value: &self.value, available: self.available }
    }

    /// The value, whatever its availability.
    pub fn value(self) -> (res: T)
        ensures
            res == self.spec_value(),
    {
        self.value
    }
}

impl<T, E> Availability<Result<T, E>> {
    /// An available-or-not result turned into a result of an available-or-not value.
    pub fn transpose(self) -> (res: Result<Availability<T>, E>)
        ensures
            match self.spec_value() {
                Ok(v) => res matches Ok(a) && a.spec_value() == v && a.spec_available() == self.spec_available(),
                Err(e) => res == Err::<Availability<T>, E>(e),
            },
    {
        match self.value {
            Ok(value) => Ok(Availability { value, available: self.available }),
            Err(err) => Err(err),
        }
    }
}

/// Whether "your next turn" has come: marked in round `start`, it has come once a later round
/// reaches your place in the turn order (or has passed it).
pub open spec fn spec_next_turn_reached(start: u32, rounds: u32, my_order: int, current_order: int) -> bool {
    rounds > start && my_order >= current_order
}

/// Whether "your next turn" has come. The clock only goes forward: the round is never before
/// `start`, and within round `start` the current turn is never before yours.
pub fn next_turn_reached(start: u32, rounds: u32, my_order: usize, current_order: usize) -> (res: bool)
    requires
        rounds >= start,
        rounds == start ==> my_order >= current_order,
    ensures
        res == spec_next_turn_reached(start, rounds, my_order as int, current_order as int),
{
    if rounds == start {
        // Not our next turn yet.
        false
    } else if my_order < current_order {
        false
    } else {
        // Exactly at, or past, our turn.
        true
    }
}

} // verus!
