//! Temporary hit points.

use vstd::prelude::*;

verus! {

/// Temporary hit points: a buffer lost before real hit points.
#[derive(Debug, Clone, Copy, PartialEq, Eq, Structural)]
pub struct TempHp {
    pub hp_left: u32,
}

/// How much damage temporary hit points absorbed, and how much got through.
#[derive(Debug, Clone, Copy, PartialEq, Eq, Structural)]
pub struct Discounted {
    /// Damage absorbed (never zero).
    pub discounted: u32,
    /// Damage left over.
    pub remaining: u32,
}

impl TempHp {
    pub fn new(hp: u32) -> (res: Self)
        ensures
            res.hp_left == hp,
    {
        TempHp { hp_left: hp }
    }

    /// Temporary hit points last while any remain.
    pub fn is_alive(&self) -> (res: bool)
        ensures
            res == (self.hp_left > 0),
    {
        self.hp_left > 0
    }

    /// Takes `damage` from these temporary hit points first.
    pub fn discount(&mut self, damage: u32) -> (res: Discounted)
        requires
            old(self).hp_left > 0,
            damage > 0,
        ensures
            res.discounted == if old(self).hp_left < damage { old(self).hp_left } else { damage },
            res.discounted > 0,
            res.remaining == if damage > old(self).hp_left { damage - old(self).hp_left } else { 0 },
            res.discounted + res.remaining == damage,
            final(self).hp_left == if old(self).hp_left > damage { old(self).hp_left - damage } else { 0 },
            final(self).hp_left + res.discounted == old(self).hp_left,
    {
        let left = self.hp_left;
        let discounted = if left < damage { left } else { damage };
        let remaining = damage.saturating_sub(left);
        self.hp_left = left.saturating_sub(damage);
        Discounted { discounted, remaining }
    }
}

} // verus!
