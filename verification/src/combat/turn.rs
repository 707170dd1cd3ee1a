//! A creature's turn: its movement and its action.

use vstd::prelude::*;

use crate::combat::action::{ActionType, NoActionLeft};
use crate::creature::CreatureId;
use crate::measure::Feet;

verus! {

/// Movement spent this turn.
#[derive(Debug, Clone, Copy, PartialEq, Eq, Structural)]
pub struct Movement {
    pub used: Feet,
}

impl Movement {
    /// No movement spent.
    pub fn new() -> (res: Self)
        ensures
            res.used.0 == 0,
    {
        Movement { used: Feet(0) }
    }

    /// Whether all of `speed` is spent.
    pub fn used_up(&self, speed: Feet) -> (res: bool)
        ensures
            res == (self.used.0 >= speed.0),
    {
        self.used.0 >= speed.0
    }
}

/// Why a creature cannot move where it asked.
#[derive(Debug, Clone, Copy, PartialEq, Eq, Structural)]
pub enum CannotMove {
    NoMovementLeft,
    OutOfBounds,
    SquareOccupied,
}

/// A turn under way.
#[derive(Debug, Clone, Copy, PartialEq, Eq, Structural)]
pub struct Turn {
    /// Whose turn it is.
    pub combatant: CreatureId,
    pub movement: Movement,
    /// The action taken this turn, if any.
    pub action: Option<ActionType>,
}

/// Whether `action` can be taken this turn: nothing taken yet, or another attack of an Attack
/// action already under way.
pub open spec fn spec_action_allowed(taken: Option<ActionType>, action: ActionType) -> bool {
    taken is None || (action == ActionType::Attack && taken == Some(ActionType::Attack))
}

/// An action about to be taken: committing records it as this turn's action, cancelling
/// leaves the turn as it was.
#[derive(Debug)]
pub struct ActionTransaction {
    action: ActionType,
}

impl ActionTransaction {
    pub closed spec fn spec_action(&self) -> ActionType {
        self.action
    }

    /// A transaction for `action`.
    pub fn new(action: ActionType) -> (res: Self)
        ensures
            res.spec_action() == action,
    {
        ActionTransaction { action }
    }

    /// The action about to be taken.
    pub fn action(&self) -> (res: ActionType)
        ensures
            res == self.spec_action(),
    {
        self.action
    }

    /// Records the action as this turn's action.
    pub fn commit(self, turn: &mut Turn)
        ensures
            final(turn).action == Some(self.spec_action()),
            final(turn).combatant == old(turn).combatant,
            final(turn).movement == old(turn).movement,
    {
        turn.action = Some(self.action);
    }

    /// Gives the action up: the turn is left as it was.
    pub fn cancel(self) {
    }
}

impl Turn {
    /// The start of `combatant`'s turn: nothing moved, no action taken.
    pub fn new(combatant: CreatureId) -> (res: Self)
        ensures
            res.combatant == combatant,
            res.movement.used.0 == 0,
            res.action is None,
    {
        Turn { combatant, movement: Movement::new(), action: None }
    }

    /// Starts taking `action`: refused once another action was taken this turn, though the
    /// attacks of one Attack action may follow each other.
    pub fn try_use_action(&self, action: ActionType) -> (res: Result<ActionTransaction, NoActionLeft>)
        ensures
            spec_action_allowed(self.action, action) ==> (res matches Ok(t) && t.spec_action() == action),
            !spec_action_allowed(self.action, action) ==> res matches Err(NoActionLeft),
    {
        match (action, self.action) {
            (_, None) => Ok(ActionTransaction { action }),
            (ActionType::Attack, Some(ActionType::Attack)) => Ok(ActionTransaction { action }),
            (_, Some(_)) => Err(NoActionLeft),
        }
    }

    /// The movement left of `speed`.
    pub fn movement_left(&self, speed: Feet) -> (res: Feet)
        requires
            self.movement.used.0 <= speed.0,
        ensures
            res.0 == speed.0 - self.movement.used.0,
    {
        speed.sub(self.movement.used)
    }
}

} // verus!
