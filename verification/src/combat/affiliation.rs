//! Which side a combatant is on.

use vstd::prelude::*;

verus! {

/// Which side a combatant is on.
#[derive(Debug, Clone, Copy, PartialEq, Eq, Structural)]
pub enum Affiliation {
    /// On nobody's side: every combatant for themselves.
    Solo,
}

impl Affiliation {
    /// No side.
    pub fn new() -> (res: Self)
        ensures
            res == Affiliation::Solo,
    {
        Affiliation::Solo
    }

    /// Whether two combatants are on the same side: with no sides, never.
    pub fn is_friendly(&self, other: &Self) -> (res: bool)
        ensures
            !res,
    {
        false
    }
}

} // verus!
