//! Damage by type.

use vstd::prelude::*;

use crate::dice::{spec_face_sum, DiceExpr};
use crate::health::riv::{DamageRoll, DamageRollView, MAX_ROLL};

verus! {

/// The thirteen damage types, in their sort order.
#[derive(Debug, Clone, Copy, PartialEq, Eq, Structural)]
pub enum DamageType {
    Acid,
    Bludgeoning,
    Cold,
    Fire,
    Force,
    Lighting,
    Necrotic,
    Piercing,
    Poison,
    Psychic,
    Radiant,
    Slashing,
    Thunder,
}

/// The sort position of a damage type.
pub open spec fn spec_type_index(t: DamageType) -> int {
    match t {
        DamageType::Acid => 0,
        DamageType::Bludgeoning => 1,
        DamageType::Cold => 2,
        DamageType::Fire => 3,
        DamageType::Force => 4,
        DamageType::Lighting => 5,
        DamageType::Necrotic => 6,
        DamageType::Piercing => 7,
        DamageType::Poison => 8,
        DamageType::Psychic => 9,
        DamageType::Radiant => 10,
        DamageType::Slashing => 11,
        DamageType::Thunder => 12,
    }
}

/// The damage type at sort position `i`.
pub open spec fn spec_type_at(i: int) -> DamageType {
    if i == 0 {
        DamageType::Acid
    } else if i == 1 {
        DamageType::Bludgeoning
    } else if i == 2 {
        DamageType::Cold
    } else if i == 3 {
        DamageType::Fire
    } else if i == 4 {
        DamageType::Force
    } else if i == 5 {
        DamageType::Lighting
    } else if i == 6 {
        DamageType::Necrotic
    } else if i == 7 {
        DamageType::Piercing
    } else if i == 8 {
        DamageType::Poison
    } else if i == 9 {
        DamageType::Psychic
    } else if i == 10 {
        DamageType::Radiant
    } else if i == 11 {
        DamageType::Slashing
    } else {
        DamageType::Thunder
    }
}

/// Damage types and sort positions match one to one.
pub proof fn lemma_type_index(t: DamageType)
    ensures
        0 <= spec_type_index(t) < 13,
        spec_type_at(spec_type_index(t)) == t,
{
}

/// Sort positions and damage types match one to one.
pub proof fn lemma_type_at(i: int)
    requires
        0 <= i < 13,
    ensures
        spec_type_index(spec_type_at(i)) == i,
{
}

/// The name of each damage type.
pub open spec fn spec_damage_type_name(t: DamageType) -> Seq<char> {
    match t {
        DamageType::Acid => "Acid"@,
        DamageType::Bludgeoning => "Bludgeoning"@,
        DamageType::Cold => "Cold"@,
        DamageType::Fire => "Fire"@,
        DamageType::Force => "Force"@,
        DamageType::Lighting => "Lighting"@,
        DamageType::Necrotic => "Necrotic"@,
        DamageType::Piercing => "Piercing"@,
        DamageType::Poison => "Poison"@,
        DamageType::Psychic => "Psychic"@,
        DamageType::Radiant => "Radiant"@,
        DamageType::Slashing => "Slashing"@,
        DamageType::Thunder => "Thunder"@,
    }
}

impl DamageType {
    /// The damage type at sort position `i`.
    pub fn at(i: usize) -> (res: DamageType)
        requires
            i < 13,
        ensures
            res == spec_type_at(i as int),
    {
        if i == 0 {
            DamageType::Acid
        } else if i == 1 {
            DamageType::Bludgeoning
        } else if i == 2 {
            DamageType::Cold
        } else if i == 3 {
            DamageType::Fire
        } else if i == 4 {
            DamageType::Force
        } else if i == 5 {
            DamageType::Lighting
        } else if i == 6 {
            DamageType::Necrotic
        } else if i == 7 {
            DamageType::Piercing
        } else if i == 8 {
            DamageType::Poison
        } else if i == 9 {
            DamageType::Psychic
        } else if i == 10 {
            DamageType::Radiant
        } else if i == 11 {
            DamageType::Slashing
        } else {
            DamageType::Thunder
        }
    }

    /// The sort position of this damage type.
    pub fn index(self) -> (res: usize)
        ensures
            res == spec_type_index(self),
    {
        match self {
            DamageType::Acid => 0,
            DamageType::Bludgeoning => 1,
            DamageType::Cold => 2,
            DamageType::Fire => 3,
            DamageType::Force => 4,
            DamageType::Lighting => 5,
            DamageType::Necrotic => 6,
            DamageType::Piercing => 7,
            DamageType::Poison => 8,
            DamageType::Psychic => 9,
            DamageType::Radiant => 10,
            DamageType::Slashing => 11,
            DamageType::Thunder => 12,
        }
    }

    /// The name of this damage type.
    pub fn name(self) -> (res: &'static str)
        ensures
            res@ == spec_damage_type_name(self),
    {
        match self {
            DamageType::Acid => "Acid",
            DamageType::Bludgeoning => "Bludgeoning",
            DamageType::Cold => "Cold",
            DamageType::Fire => "Fire",
            DamageType::Force => "Force",
            DamageType::Lighting => "Lighting",
            DamageType::Necrotic => "Necrotic",
            DamageType::Piercing => "Piercing",
            DamageType::Poison => "Poison",
            DamageType::Psychic => "Psychic",
            DamageType::Radiant => "Radiant",
            DamageType::Slashing => "Slashing",
            DamageType::Thunder => "Thunder",
        }
    }
}

/// The number of present entries.
pub open spec fn count_present<T>(s: Seq<Option<T>>) -> nat
    decreases s.len(),
{
    if s.len() == 0 {
        0
    } else {
        count_present(s.drop_last()) + if s.last() is Some { 1nat } else { 0nat }
    }
}

/// An amount of something per damage type, each type at most once.
#[derive(Debug)]
pub struct Damage<T> {
    acid: Option<T>,
    bludgeoning: Option<T>,
    cold: Option<T>,
    fire: Option<T>,
    force: Option<T>,
    lighting: Option<T>,
    necrotic: Option<T>,
    piercing: Option<T>,
    poison: Option<T>,
    psychic: Option<T>,
    radiant: Option<T>,
    slashing: Option<T>,
    thunder: Option<T>,
}

impl<T> Damage<T> {
    /// The amount of type `ty`, if any.
    pub closed spec fn part(&self, ty: DamageType) -> Option<T> {
        match ty {
            DamageType::Acid => self.acid,
            DamageType::Bludgeoning => self.bludgeoning,
            DamageType::Cold => self.cold,
            DamageType::Fire => self.fire,
            DamageType::Force => self.force,
            DamageType::Lighting => self.lighting,
            DamageType::Necrotic => self.necrotic,
            DamageType::Piercing => self.piercing,
            DamageType::Poison => self.poison,
            DamageType::Psychic => self.psychic,
            DamageType::Radiant => self.radiant,
            DamageType::Slashing => self.slashing,
            DamageType::Thunder => self.thunder,
        }
    }

    /// The parts in sort order of their types (absent types included as `None`).
    pub open spec fn parts_seq(&self) -> Seq<Option<T>> {
        Seq::new(13, |i: int| self.part(spec_type_at(i)))
    }

    /// The number of damage types present.
    pub open spec fn spec_types(&self) -> nat {
        count_present(self.parts_seq())
    }

    /// No damage of any type.
    pub fn new() -> (res: Self)
        ensures
            forall|t: DamageType| (#[trigger] res.part(t)) is None,
    {
        Damage {
            acid: None,
            bludgeoning: None,
            cold: None,
            fire: None,
            force: None,
            lighting: None,
            necrotic: None,
            piercing: None,
            poison: None,
            psychic: None,
            radiant: None,
            slashing: None,
            thunder: None,
        }
    }

    /// The amount of type `ty`, if any.
    pub fn get(&self, ty: DamageType) -> (res: Option<&T>)
        ensures
            match self.part(ty) {
                Some(v) => res matches Some(r) && *r == v,
                None => res is None,
            },
    {
        match ty {
            DamageType::Acid => self.acid.as_ref(),
            DamageType::Bludgeoning => self.bludgeoning.as_ref(),
            DamageType::Cold => self.cold.as_ref(),
            DamageType::Fire => self.fire.as_ref(),
            DamageType::Force => self.force.as_ref(),
            DamageType::Lighting => self.lighting.as_ref(),
            DamageType::Necrotic => self.necrotic.as_ref(),
            DamageType::Piercing => self.piercing.as_ref(),
            DamageType::Poison => self.poison.as_ref(),
            DamageType::Psychic => self.psychic.as_ref(),
            DamageType::Radiant => self.radiant.as_ref(),
            DamageType::Slashing => self.slashing.as_ref(),
            DamageType::Thunder => self.thunder.as_ref(),
        }
    }

    /// Removes and returns the amount of type `ty`.
    pub fn take(&mut self, ty: DamageType) -> (res: Option<T>)
        ensures
            res == old(self).part(ty),
            final(self).part(ty) is None,
            forall|t: DamageType| t != ty ==> #[trigger] final(self).part(t) == old(self).part(t),
    {
        match ty {
            DamageType::Acid => self.acid.take(),
            DamageType::Bludgeoning => self.bludgeoning.take(),
            DamageType::Cold => self.cold.take(),
            DamageType::Fire => self.fire.take(),
            DamageType::Force => self.force.take(),
            DamageType::Lighting => self.lighting.take(),
            DamageType::Necrotic => self.necrotic.take(),
            DamageType::Piercing => self.piercing.take(),
            DamageType::Poison => self.poison.take(),
            DamageType::Psychic => self.psychic.take(),
            DamageType::Radiant => self.radiant.take(),
            DamageType::Slashing => self.slashing.take(),
            DamageType::Thunder => self.thunder.take(),
        }
    }

    /// Sets (or clears) the amount of type `ty`.
    pub fn set(&mut self, ty: DamageType, value: Option<T>)
        ensures
            final(self).part(ty) == value,
            forall|t: DamageType| t != ty ==> #[trigger] final(self).part(t) == old(self).part(t),
    {
        match ty {
            DamageType::Acid => { self.acid = value; },
            DamageType::Bludgeoning => { self.bludgeoning = value; },
            DamageType::Cold => { self.cold = value; },
            DamageType::Fire => { self.fire = value; },
            DamageType::Force => { self.force = value; },
            DamageType::Lighting => { self.lighting = value; },
            DamageType::Necrotic => { self.necrotic = value; },
            DamageType::Piercing => { self.piercing = value; },
            DamageType::Poison => { self.poison = value; },
            DamageType::Psychic => { self.psychic = value; },
            DamageType::Radiant => { self.radiant = value; },
            DamageType::Slashing => { self.slashing = value; },
            DamageType::Thunder => { self.thunder = value; },
        }
    }

    /// Damage of a single type.
    pub fn of(ty: DamageType, amount: T) -> (res: Self)
        ensures
            res.part(ty) == Some(amount),
            forall|t: DamageType| t != ty ==> (#[trigger] res.part(t)) is None,
    {
        let mut d = Self::new();
        d.set(ty, Some(amount));
        d
    }

    /// The number of damage types present.
    pub fn types(&self) -> (res: usize)
        ensures
            res == self.spec_types(),
    {
        let mut n: usize = 0;
        let mut i: usize = 0;
        while i < 13
            invariant
                i <= 13,
                n <= i,
                self.parts_seq().len() == 13,
                n == count_present(self.parts_seq().take(i as int)),
            decreases 13 - i,
        {
            assert(self.parts_seq().take(i + 1).drop_last() =~= self.parts_seq().take(i as int));
            if self.get(DamageType::at(i)).is_some() {
                n = n + 1;
            }
            i = i + 1;
        }
        assert(self.parts_seq().take(13) =~= self.parts_seq());
        n
    }

    /// Whether the part of `t` was kept or dropped according to `f`.
    pub open spec fn filtered_part<F: Fn(DamageType, &T) -> bool>(
        &self,
        res: &Damage<T>,
        f: F,
        t: DamageType,
    ) -> bool {
        match self.part(t) {
            None => res.part(t) is None,
            Some(v) => (res.part(t) == Some(v) && f.ensures((t, &v), true)) || (res.part(t) is None
                && f.ensures((t, &v), false)),
        }
    }

    /// Keeps the parts for which `f` holds.
    pub fn filter<F: Fn(DamageType, &T) -> bool>(self, f: F) -> (res: Damage<T>)
        requires
            forall|t: DamageType, v: &T| #[trigger] f.requires((t, v)),
        ensures
            forall|t: DamageType| #[trigger] self.filtered_part(&res, f, t),
    {
        let mut src = self;
        let mut out: Damage<T> = Damage::new();
        let mut i: usize = 0;
        while i < 13
            invariant
                i <= 13,
                forall|t: DamageType| #![trigger out.part(t)] spec_type_index(t) >= i ==> out.part(t) is None,
                forall|t: DamageType| #![trigger src.part(t)] spec_type_index(t) >= i ==> src.part(t) == self.part(t),
                forall|t: DamageType| #![trigger self.filtered_part(&out, f, t)] spec_type_index(t) < i ==> self.filtered_part(&out, f, t),
                forall|t: DamageType, v: &T| #[trigger] f.requires((t, v)),
            decreases 13 - i,
        {
            let ty = DamageType::at(i);
            proof {
                lemma_type_at(i as int);
            }
            let ghost out0 = out;
            let part = src.take(ty);
            match part {
                Some(v) => {
                    let keep = f(ty, &v);
                    if keep {
                        out.set(ty, Some(v));
                    }
                },
                None => {},
            }
            proof {
                assert forall|t: DamageType| #![trigger self.filtered_part(&out, f, t)] spec_type_index(t) < i + 1 implies self.filtered_part(&out, f, t) by {
                    lemma_type_index(t);
                    if spec_type_index(t) < i {
                        assert(self.filtered_part(&out0, f, t));
                        assert(out.part(t) == out0.part(t));
                    }
                }
            }
            i = i + 1;
        }
        proof {
            assert forall|t: DamageType| #[trigger] self.filtered_part(&out, f, t) by {
                lemma_type_index(t);
            }
        }
        out
    }

    /// Replaces each part by `f(type, part)`.
    pub fn map<U, F: Fn(DamageType, T) -> U>(self, f: F) -> (res: Damage<U>)
        requires
            forall|t: DamageType, v: T| #[trigger] f.requires((t, v)),
        ensures
            forall|t: DamageType| (#[trigger] res.part(t)) is Some <==> self.part(t) is Some,
            forall|t: DamageType| (#[trigger] res.part(t)) matches Some(u) ==> f.ensures((t, self.part(t)->0), u),
    {
        let mut src = self;
        let mut out: Damage<U> = Damage::new();
        let mut i: usize = 0;
        while i < 13
            invariant
                i <= 13,
                forall|t: DamageType| #![trigger out.part(t)] spec_type_index(t) >= i ==> out.part(t) is None,
                forall|t: DamageType| #![trigger src.part(t)] spec_type_index(t) >= i ==> src.part(t) == self.part(t),
                forall|t: DamageType| #![trigger out.part(t)] spec_type_index(t) < i ==> (out.part(t) is Some <==> self.part(t) is Some),
                forall|t: DamageType| #![trigger out.part(t)] spec_type_index(t) < i ==> (out.part(t) matches Some(u) ==> f.ensures((t, self.part(t)->0), u)),
                forall|t: DamageType, v: T| #[trigger] f.requires((t, v)),
            decreases 13 - i,
        {
            let ty = DamageType::at(i);
            proof {
                lemma_type_at(i as int);
            }
            let part = src.take(ty);
            match part {
                Some(v) => {
                    let u = f(ty, v);
                    out.set(ty, Some(u));
                },
                None => {},
            }
            proof {
                assert forall|t: DamageType| #![trigger out.part(t)] spec_type_index(t) < i + 1 implies (out.part(t) is Some <==> self.part(t) is Some) by {
                    lemma_type_index(t);
                }
                assert forall|t: DamageType| #![trigger out.part(t)] spec_type_index(t) < i + 1 implies (out.part(t) matches Some(u) ==> f.ensures((t, self.part(t)->0), u)) by {
                    lemma_type_index(t);
                }
            }
            i = i + 1;
        }
        proof {
            assert forall|t: DamageType| (#[trigger] out.part(t)) is Some <==> self.part(t) is Some by {
                lemma_type_index(t);
            }
            assert forall|t: DamageType| (#[trigger] out.part(t)) matches Some(u) ==> f.ensures((t, self.part(t)->0), u) by {
                lemma_type_index(t);
            }
        }
        out
    }

    /// Replaces each part by `f(type, part)`, dropping the parts where `f` gives nothing.
    pub fn filter_map<U, F: Fn(DamageType, T) -> Option<U>>(self, f: F) -> (res: Damage<U>)
        requires
            forall|t: DamageType, v: T| #[trigger] f.requires((t, v)),
        ensures
            forall|t: DamageType| (#[trigger] res.part(t)) is Some ==> self.part(t) is Some,
            forall|t: DamageType| (#[trigger] self.part(t)) is Some ==> f.ensures((t, self.part(t)->0), res.part(t)),
    {
        let mut src = self;
        let mut out: Damage<U> = Damage::new();
        let mut i: usize = 0;
        while i < 13
            invariant
                i <= 13,
                forall|t: DamageType| #![trigger out.part(t)] spec_type_index(t) >= i ==> out.part(t) is None,
                forall|t: DamageType| #![trigger src.part(t)] spec_type_index(t) >= i ==> src.part(t) == self.part(t),
                forall|t: DamageType| #![trigger out.part(t)] spec_type_index(t) < i ==> (out.part(t) is Some ==> self.part(t) is Some),
                forall|t: DamageType| #![trigger self.part(t)] spec_type_index(t) < i ==> (self.part(t) is Some ==> f.ensures((t, self.part(t)->0), out.part(t))),
                forall|t: DamageType, v: T| #[trigger] f.requires((t, v)),
            decreases 13 - i,
        {
            let ty = DamageType::at(i);
            proof {
                lemma_type_at(i as int);
            }
            let part = src.take(ty);
            match part {
                Some(v) => {
                    let u = f(ty, v);
                    out.set(ty, u);
                },
                None => {},
            }
            proof {
                assert forall|t: DamageType| #![trigger out.part(t)] spec_type_index(t) < i + 1 implies (out.part(t) is Some ==> self.part(t) is Some) by {
                    lemma_type_index(t);
                }
                assert forall|t: DamageType| #![trigger self.part(t)] spec_type_index(t) < i + 1 implies (self.part(t) is Some ==> f.ensures((t, self.part(t)->0), out.part(t))) by {
                    lemma_type_index(t);
                }
            }
            i = i + 1;
        }
        proof {
            assert forall|t: DamageType| (#[trigger] out.part(t)) is Some implies self.part(t) is Some by {
                lemma_type_index(t);
            }
            assert forall|t: DamageType| (#[trigger] self.part(t)) is Some implies f.ensures((t, self.part(t)->0), out.part(t)) by {
                lemma_type_index(t);
            }
        }
        out
    }

    /// The parts, borrowed.
    pub fn as_ref(&self) -> (res: Damage<&T>)
        ensures
            forall|t: DamageType| (#[trigger] res.part(t)) is Some <==> self.part(t) is Some,
            forall|t: DamageType| (#[trigger] res.part(t)) matches Some(r) ==> *r == self.part(t)->0,
    {
        let mut out: Damage<&T> = Damage::new();
        let mut i: usize = 0;
        while i < 13
            invariant
                i <= 13,
                forall|t: DamageType| #![trigger out.part(t)] spec_type_index(t) >= i ==> out.part(t) is None,
                forall|t: DamageType| #![trigger out.part(t)] spec_type_index(t) < i ==> (out.part(t) is Some <==> self.part(t) is Some),
                forall|t: DamageType| #![trigger out.part(t)] spec_type_index(t) < i ==> (out.part(t) matches Some(r) ==> *r == self.part(t)->0),
            decreases 13 - i,
        {
            let ty = DamageType::at(i);
            proof {
                lemma_type_at(i as int);
            }
            match self.get(ty) {
                Some(r) => {
                    out.set(ty, Some(r));
                },
                None => {},
            }
            proof {
                assert forall|t: DamageType| #![trigger out.part(t)] spec_type_index(t) < i + 1 implies (out.part(t) is Some <==> self.part(t) is Some)
                    && (out.part(t) matches Some(r) ==> *r == self.part(t)->0) by {
                    lemma_type_index(t);
                }
            }
            i = i + 1;
        }
        proof {
            assert forall|t: DamageType| ((#[trigger] out.part(t)) is Some <==> self.part(t) is Some)
                && (out.part(t) matches Some(r) ==> *r == self.part(t)->0) by {
                lemma_type_index(t);
            }
        }
        out
    }

    /// Calls `f` on each part, in sort order of the types.
    pub fn for_each<F: Fn(DamageType, T)>(self, f: F)
        requires
            forall|t: DamageType, v: T| #[trigger] f.requires((t, v)),
    {
        let mut src = self;
        let mut i: usize = 0;
        while i < 13
            invariant
                i <= 13,
                forall|t: DamageType, v: T| #[trigger] f.requires((t, v)),
            decreases 13 - i,
        {
            let ty = DamageType::at(i);
            match src.take(ty) {
                Some(v) => f(ty, v),
                None => {},
            }
            i = i + 1;
        }
    }

    /// The parts as (type, amount) pairs in sort order of their types.
    pub fn into_vec(self) -> (res: Vec<(DamageType, T)>)
        ensures
            forall|i: int, j: int| 0 <= i < j < res@.len() ==> spec_type_index(res@[i].0) < spec_type_index(res@[j].0),
            forall|i: int| 0 <= i < res@.len() ==> self.part(#[trigger] res@[i].0) == Some(res@[i].1),
            forall|t: DamageType| (#[trigger] self.part(t)) is Some ==> exists|i: int| 0 <= i < res@.len() && res@[i].0 == t,
    {
        let mut src = self;
        let mut out: Vec<(DamageType, T)> = Vec::new();
        let mut i: usize = 0;
        while i < 13
            invariant
                i <= 13,
                forall|t: DamageType| #![trigger src.part(t)] spec_type_index(t) >= i ==> src.part(t) == self.part(t),
                forall|a: int, b: int| 0 <= a < b < out@.len() ==> spec_type_index(out@[a].0) < spec_type_index(out@[b].0),
                forall|a: int| 0 <= a < out@.len() ==> spec_type_index(#[trigger] out@[a].0) < i,
                forall|a: int| 0 <= a < out@.len() ==> self.part(#[trigger] out@[a].0) == Some(out@[a].1),
                forall|t: DamageType| (#[trigger] self.part(t)) is Some && spec_type_index(t) < i ==> exists|a: int| 0 <= a < out@.len() && out@[a].0 == t,
            decreases 13 - i,
        {
            let ty = DamageType::at(i);
            proof {
                lemma_type_at(i as int);
            }
            let part = src.take(ty);
            let ghost prev = out@;
            match part {
                Some(v) => {
                    out.push((ty, v));
                    proof {
                        assert(out@[out@.len() - 1].0 == ty);
                    }
                },
                None => {},
            }
            proof {
                assert forall|t: DamageType| (#[trigger] self.part(t)) is Some && spec_type_index(t) < i + 1 implies exists|a: int| 0 <= a < out@.len() && out@[a].0 == t by {
                    lemma_type_index(t);
                    if spec_type_index(t) == i {
                        assert(out@[out@.len() - 1].0 == t);
                    } else {
                        let a = choose|a: int| 0 <= a < prev.len() && prev[a].0 == t;
                        assert(out@[a] == prev[a]);
                    }
                }
            }
            i = i + 1;
        }
        proof {
            assert forall|t: DamageType| (#[trigger] self.part(t)) is Some implies exists|a: int| 0 <= a < out@.len() && out@[a].0 == t by {
                lemma_type_index(t);
            }
        }
        out
    }
}

/// Adds, clamping the result to the `i32` range.
pub open spec fn spec_sat_add(a: int, b: int) -> int {
    if a + b > i32::MAX {
        i32::MAX as int
    } else if a + b < i32::MIN {
        i32::MIN as int
    } else {
        a + b
    }
}

/// Adds, clamping the result to the `i32` range.
pub fn sat_add(a: i32, b: i32) -> (res: i32)
    ensures
        res == spec_sat_add(a as int, b as int),
{
    match a.checked_add(b) {
        Some(v) => v,
        None => if b > 0 { i32::MAX } else { i32::MIN },
    }
}

/// The views of the rolls of each type, in type order.
pub open spec fn roll_views(d: &Damage<DamageRoll>) -> Seq<Option<DamageRollView>> {
    Seq::new(
        13,
        |i: int|
            match d.part(spec_type_at(i)) {
                Some(r) => Some(r@),
                None => None,
            },
    )
}

/// Sum of the present amounts, in order, with every step clamped to the `i32` range.
pub open spec fn spec_sat_total(s: Seq<Option<DamageRollView>>) -> int
    decreases s.len(),
{
    if s.len() == 0 {
        0
    } else {
        let rest = spec_sat_total(s.drop_last());
        match s.last() {
            Some(r) => spec_sat_add(rest, r.total()),
            None => rest,
        }
    }
}

/// Plain sum of the present amounts.
pub open spec fn spec_sum(s: Seq<Option<i32>>) -> int
    decreases s.len(),
{
    if s.len() == 0 {
        0
    } else {
        spec_sum(s.drop_last()) + match s.last() {
            Some(v) => v as int,
            None => 0,
        }
    }
}

/// Every running sum of the present amounts fits in an `i32`.
pub open spec fn sums_fit(s: Seq<Option<i32>>) -> bool {
    forall|k: int| 0 <= k <= s.len() ==> i32::MIN <= #[trigger] spec_sum(s.take(k)) <= i32::MAX
}

/// The part of type `t` after adding `rhs` onto `lhs`: a type present on one side keeps its
/// amount, a type present on both gets their sum.
pub open spec fn spec_add_part(lhs: Option<i32>, rhs: Option<i32>) -> Option<int> {
    match (lhs, rhs) {
        (None, None) => None,
        (Some(l), None) => Some(l as int),
        (None, Some(r)) => Some(r as int),
        (Some(l), Some(r)) => Some(l + r),
    }
}

/// The part of type `t` after subtracting `rhs` from `lhs`: a type only on the left keeps its
/// amount, a type only on the right is taken over as it is, a type on both gets the difference.
pub open spec fn spec_sub_part(lhs: Option<i32>, rhs: Option<i32>) -> Option<int> {
    match (lhs, rhs) {
        (None, None) => None,
        (Some(l), None) => Some(l as int),
        (None, Some(r)) => Some(r as int),
        (Some(l), Some(r)) => Some(l - r),
    }
}

/// The amount accumulated for type `t` from a list of (type, amount) pairs.
pub open spec fn spec_accumulate(pairs: Seq<(DamageType, i32)>, t: DamageType) -> Option<int>
    decreases pairs.len(),
{
    if pairs.len() == 0 {
        None
    } else {
        let prev = spec_accumulate(pairs.drop_last(), t);
        if pairs.last().0 == t {
            Some(
                match prev {
                    Some(p) => p,
                    None => 0,
                } + pairs.last().1,
            )
        } else {
            prev
        }
    }
}

/// Option of `i32` as an option of integer.
pub open spec fn opt_int(o: Option<i32>) -> Option<int> {
    match o {
        Some(v) => Some(v as int),
        None => None,
    }
}

impl Damage<i32> {
    /// The sum of all parts (0 when there are none).
    pub fn sum(&self) -> (res: i32)
        requires
            sums_fit(self.parts_seq()),
        ensures
            res == spec_sum(self.parts_seq()),
    {
        let mut acc: i32 = 0;
        let mut i: usize = 0;
        while i < 13
            invariant
                i <= 13,
                self.parts_seq().len() == 13,
                sums_fit(self.parts_seq()),
                acc == spec_sum(self.parts_seq().take(i as int)),
            decreases 13 - i,
        {
            let ghost pre = self.parts_seq().take(i as int);
            let ghost post = self.parts_seq().take(i + 1);
            assert(post.drop_last() =~= pre);
            assert(i32::MIN <= spec_sum(post) <= i32::MAX);
            match self.get(DamageType::at(i)) {
                Some(v) => {
                    acc = acc + *v;
                },
                None => {},
            }
            i = i + 1;
        }
        assert(self.parts_seq().take(13) =~= self.parts_seq());
        acc
    }

    /// Adds `rhs` part by part.
    pub fn add(self, rhs: Damage<i32>) -> (res: Damage<i32>)
        requires
            forall|t: DamageType| #![trigger self.part(t), rhs.part(t)] (self.part(t) is Some && rhs.part(t) is Some) ==>
                i32::MIN <= self.part(t)->0 + rhs.part(t)->0 <= i32::MAX,
        ensures
            forall|t: DamageType| #[trigger] opt_int(res.part(t)) == spec_add_part(self.part(t), rhs.part(t)),
    {
        let mut out = self;
        let mut src = rhs;
        let mut i: usize = 0;
        while i < 13
            invariant
                i <= 13,
                forall|t: DamageType| #![trigger src.part(t)] spec_type_index(t) >= i ==> src.part(t) == rhs.part(t),
                forall|t: DamageType| #![trigger out.part(t)] spec_type_index(t) >= i ==> out.part(t) == self.part(t),
                forall|t: DamageType| #![trigger out.part(t)] spec_type_index(t) < i ==> opt_int(out.part(t)) == spec_add_part(self.part(t), rhs.part(t)),
                forall|t: DamageType| #![trigger self.part(t), rhs.part(t)] (self.part(t) is Some && rhs.part(t) is Some) ==>
                    i32::MIN <= self.part(t)->0 + rhs.part(t)->0 <= i32::MAX,
            decreases 13 - i,
        {
            let ty = DamageType::at(i);
            proof {
                lemma_type_at(i as int);
            }
            let r = src.take(ty);
            let l = out.take(ty);
            let v = match (l, r) {
                (None, None) => None,
                (Some(l), None) => Some(l),
                (None, Some(r)) => Some(r),
                (Some(l), Some(r)) => Some(l + r),
            };
            out.set(ty, v);
            proof {
                assert forall|t: DamageType| #![trigger out.part(t)] spec_type_index(t) < i + 1 implies opt_int(out.part(t)) == spec_add_part(self.part(t), rhs.part(t)) by {
                    lemma_type_index(t);
                }
            }
            i = i + 1;
        }
        proof {
            assert forall|t: DamageType| #[trigger] opt_int(out.part(t)) == spec_add_part(self.part(t), rhs.part(t)) by {
                lemma_type_index(t);
            }
        }
        out
    }

    /// Subtracts `rhs` part by part; a type only in `rhs` is taken over unchanged.
    pub fn sub(self, rhs: Damage<i32>) -> (res: Damage<i32>)
        requires
            forall|t: DamageType| #![trigger self.part(t), rhs.part(t)] (self.part(t) is Some && rhs.part(t) is Some) ==>
                i32::MIN <= self.part(t)->0 - rhs.part(t)->0 <= i32::MAX,
        ensures
            forall|t: DamageType| #[trigger] opt_int(res.part(t)) == spec_sub_part(self.part(t), rhs.part(t)),
    {
        let mut out = self;
        let mut src = rhs;
        let mut i: usize = 0;
        while i < 13
            invariant
                i <= 13,
                forall|t: DamageType| #![trigger src.part(t)] spec_type_index(t) >= i ==> src.part(t) == rhs.part(t),
                forall|t: DamageType| #![trigger out.part(t)] spec_type_index(t) >= i ==> out.part(t) == self.part(t),
                forall|t: DamageType| #![trigger out.part(t)] spec_type_index(t) < i ==> opt_int(out.part(t)) == spec_sub_part(self.part(t), rhs.part(t)),
                forall|t: DamageType| #![trigger self.part(t), rhs.part(t)] (self.part(t) is Some && rhs.part(t) is Some) ==>
                    i32::MIN <= self.part(t)->0 - rhs.part(t)->0 <= i32::MAX,
            decreases 13 - i,
        {
            let ty = DamageType::at(i);
            proof {
                lemma_type_at(i as int);
            }
            let r = src.take(ty);
            let l = out.take(ty);
            let v = match (l, r) {
                (None, None) => None,
                (Some(l), None) => Some(l),
                (None, Some(r)) => Some(r),
                (Some(l), Some(r)) => Some(l - r),
            };
            out.set(ty, v);
            proof {
                assert forall|t: DamageType| #![trigger out.part(t)] spec_type_index(t) < i + 1 implies opt_int(out.part(t)) == spec_sub_part(self.part(t), rhs.part(t)) by {
                    lemma_type_index(t);
                }
            }
            i = i + 1;
        }
        proof {
            assert forall|t: DamageType| #[trigger] opt_int(out.part(t)) == spec_sub_part(self.part(t), rhs.part(t)) by {
                lemma_type_index(t);
            }
        }
        out
    }

    /// Collects (type, amount) pairs, adding up amounts of the same type.
    pub fn from_pairs(pairs: Vec<(DamageType, i32)>) -> (res: Damage<i32>)
        requires
            forall|k: int, t: DamageType| 0 <= k <= pairs@.len() ==> (#[trigger] spec_accumulate(pairs@.take(k), t)
                matches Some(v) ==> i32::MIN <= v <= i32::MAX),
        ensures
            forall|t: DamageType| #[trigger] opt_int(res.part(t)) == spec_accumulate(pairs@, t),
    {
        let mut out: Damage<i32> = Damage::new();
        let mut i: usize = 0;
        while i < pairs.len()
            invariant
                i <= pairs@.len(),
                forall|k: int, t: DamageType| 0 <= k <= pairs@.len() ==> (#[trigger] spec_accumulate(pairs@.take(k), t)
                    matches Some(v) ==> i32::MIN <= v <= i32::MAX),
                forall|t: DamageType| #[trigger] opt_int(out.part(t)) == spec_accumulate(pairs@.take(i as int), t),
            decreases pairs@.len() - i,
        {
            let (ty, value) = pairs[i];
            let ghost pre = pairs@.take(i as int);
            let ghost post = pairs@.take(i + 1);
            proof {
                assert(post.drop_last() =~= pre);
                assert(post.last() == (ty, value));
                assert forall|t: DamageType| #[trigger] spec_accumulate(post, t) == (if t == ty {
                    Some(match spec_accumulate(pre, t) { Some(p) => p, None => 0 } + value)
                } else {
                    spec_accumulate(pre, t)
                }) by {
                }
                assert(spec_accumulate(post, ty) matches Some(v) ==> i32::MIN <= v <= i32::MAX);
                assert(opt_int(out.part(ty)) == spec_accumulate(pre, ty));
            }
            let v = match out.take(ty) {
                None => value,
                Some(prev) => prev + value,
            };
            out.set(ty, Some(v));
            proof {
                assert forall|t: DamageType| #[trigger] opt_int(out.part(t)) == spec_accumulate(pairs@.take(i + 1), t) by {
                }
            }
            i = i + 1;
        }
        assert(pairs@.take(pairs@.len() as int) =~= pairs@);
        out
    }
}

impl Damage<DamageRoll> {
    /// The amount of each part after its mitigation.
    pub fn subtotal(&self) -> (res: Damage<i32>)
        ensures
            forall|t: DamageType| (#[trigger] res.part(t)) == match self.part(t) {
                Some(r) => Some(r@.total() as i32),
                None => None::<i32>,
            },
            forall|t: DamageType| (#[trigger] self.part(t)) matches Some(r) ==> i32::MIN <= r@.total() <= i32::MAX,
            res.parts_seq() == spec_subtotals(self),
    {
        let mut out: Damage<i32> = Damage::new();
        let mut i: usize = 0;
        while i < 13
            invariant
                i <= 13,
                forall|t: DamageType| #![trigger out.part(t)] spec_type_index(t) >= i ==> out.part(t) is None,
                forall|t: DamageType| #![trigger out.part(t)] spec_type_index(t) < i ==> out.part(t) == match self.part(t) {
                    Some(r) => Some(r@.total() as i32),
                    None => None::<i32>,
                },
                forall|t: DamageType| #![trigger self.part(t)] spec_type_index(t) < i && self.part(t) is Some ==> i32::MIN <= self.part(t)->0@.total() <= i32::MAX,
            decreases 13 - i,
        {
            let ty = DamageType::at(i);
            proof {
                lemma_type_at(i as int);
            }
            match self.get(ty) {
                Some(r) => {
                    let v = r.total();
                    out.set(ty, Some(v));
                },
                None => {},
            }
            proof {
                assert forall|t: DamageType| #![trigger out.part(t)] spec_type_index(t) < i + 1 implies out.part(t) == match self.part(t) {
                    Some(r) => Some(r@.total() as i32),
                    None => None::<i32>,
                } by {
                    lemma_type_index(t);
                }
                assert forall|t: DamageType| #![trigger self.part(t)] spec_type_index(t) < i + 1 && self.part(t) is Some implies i32::MIN <= self.part(t)->0@.total() <= i32::MAX by {
                    lemma_type_index(t);
                }
            }
            i = i + 1;
        }
        proof {
            assert forall|t: DamageType| #[trigger] out.part(t) == match self.part(t) {
                Some(r) => Some(r@.total() as i32),
                None => None::<i32>,
            } by {
                lemma_type_index(t);
            }
            assert forall|t: DamageType| (#[trigger] self.part(t)) is Some implies i32::MIN <= self.part(t)->0@.total() <= i32::MAX by {
                lemma_type_index(t);
            }
            assert(out.parts_seq() =~= spec_subtotals(self));
        }
        out
    }

    /// The total of all parts after mitigation, summed in type order with every step clamped to
    /// the `i32` range.
    pub fn total(&self) -> (res: i32)
        ensures
            res == spec_sat_total(roll_views(self)),
    {
        let mut acc: i32 = 0;
        let mut i: usize = 0;
        while i < 13
            invariant
                i <= 13,
                roll_views(self).len() == 13,
                acc == spec_sat_total(roll_views(self).take(i as int)),
            decreases 13 - i,
        {
            let ghost pre = roll_views(self).take(i as int);
            let ghost post = roll_views(self).take(i + 1);
            assert(post.drop_last() =~= pre);
            match self.get(DamageType::at(i)) {
                Some(r) => {
                    acc = sat_add(acc, r.total());
                },
                None => {},
            }
            i = i + 1;
        }
        assert(roll_views(self).take(13) =~= roll_views(self));
        acc
    }
}

/// The subtotal of each type, in type order (absent types as `None`).
pub open spec fn spec_subtotals(d: &Damage<DamageRoll>) -> Seq<Option<i32>> {
    Seq::new(
        13,
        |i: int|
            match d.part(spec_type_at(i)) {
                Some(r) => Some(r@.total() as i32),
                None => None,
            },
    )
}

/// Summing with clamping gives the plain sum when no running sum leaves the `i32` range.
proof fn lemma_sat_total_exact(s: Seq<Option<DamageRollView>>, t: Seq<Option<i32>>)
    requires
        s.len() == t.len(),
        forall|i: int| 0 <= i < s.len() ==> #[trigger] t[i] == match s[i] {
            Some(r) => Some(r.total() as i32),
            None => None::<i32>,
        },
        forall|i: int| 0 <= i < s.len() ==> (#[trigger] s[i] matches Some(r) ==> i32::MIN <= r.total() <= i32::MAX),
        sums_fit(t),
    ensures
        spec_sat_total(s) == spec_sum(t),
    decreases s.len(),
{
    if s.len() > 0 {
        let s2 = s.drop_last();
        let t2 = t.drop_last();
        assert forall|k: int| 0 <= k <= t2.len() implies i32::MIN <= #[trigger] spec_sum(t2.take(k)) <= i32::MAX by {
            assert(t2.take(k) =~= t.take(k));
        }
        assert forall|i: int| 0 <= i < s2.len() implies #[trigger] t2[i] == match s2[i] {
            Some(r) => Some(r.total() as i32),
            None => None::<i32>,
        } by {
            assert(t2[i] == t[i] && s2[i] == s[i]);
        }
        assert forall|i: int| 0 <= i < s2.len() implies (#[trigger] s2[i] matches Some(r) ==> i32::MIN <= r.total() <= i32::MAX) by {
            assert(s2[i] == s[i]);
        }
        lemma_sat_total_exact(s2, t2);
        assert(t.take(t.len() as int) =~= t);
        assert(i32::MIN <= spec_sum(t.take(t.len() as int)) <= i32::MAX);
        let last = s.len() - 1;
        assert(t[last] == match s[last] {
            Some(r) => Some(r.total() as i32),
            None => None::<i32>,
        });
        assert(s[last] matches Some(r) ==> i32::MIN <= r.total() <= i32::MAX);
    }
}

/// The total of a damage is the sum of its subtotals, when no running sum of the subtotals,
/// in type order, leaves the `i32` range (and no damage at all totals 0).
pub proof fn lemma_total_is_sum_of_subtotals(d: &Damage<DamageRoll>)
    requires
        forall|t: DamageType| (#[trigger] d.part(t)) matches Some(r) ==> i32::MIN <= r@.total() <= i32::MAX,
        sums_fit(spec_subtotals(d)),
    ensures
        spec_sat_total(roll_views(d)) == spec_sum(spec_subtotals(d)),
{
    let s = roll_views(d);
    let t = spec_subtotals(d);
    assert forall|i: int| 0 <= i < s.len() implies (#[trigger] s[i] matches Some(r) ==> i32::MIN <= r.total() <= i32::MAX) by {
        assert(d.part(spec_type_at(i)) matches Some(r) ==> i32::MIN <= r@.total() <= i32::MAX);
    }
    lemma_sat_total_exact(s, t);
}

/// Whether `faces` are a roll of `dice`: for each type present, as many faces as dice (at
/// index of the type), each within the die's size, with a total that a roll can hold.
pub open spec fn faces_fit(dice: &Damage<DiceExpr>, faces: Seq<Vec<u32>>) -> bool {
    &&& faces.len() == 13
    &&& forall|t: DamageType| (#[trigger] dice.part(t)) matches Some(d) ==> {
        let f = faces[spec_type_index(t)]@;
        &&& f.len() == d.qty
        &&& forall|k: int| 0 <= k < f.len() ==> 1 <= #[trigger] f[k] <= d.sides
        &&& d.qty <= 1_000_000_000
        &&& d.sides <= 1_000_000_000
        &&& -MAX_ROLL <= spec_face_sum(f) + d.bonus <= MAX_ROLL
    }
}

impl Damage<DiceExpr> {
    /// The damage rolled: for each type, the faces rolled for its dice plus its bonus.
    pub fn roll(&self, faces: &Vec<Vec<u32>>) -> (res: Damage<DamageRoll>)
        requires
            faces_fit(self, faces@),
        ensures
            forall|t: DamageType| match self.part(t) {
                Some(d) => (#[trigger] res.part(t)) matches Some(r) && r@ == DamageRollView {
                    base: spec_face_sum(faces@[spec_type_index(t)]@) + d.bonus,
                    effects: Seq::empty(),
                },
                None => res.part(t) is None,
            },
    {
        let mut out: Damage<DamageRoll> = Damage::new();
        let mut i: usize = 0;
        while i < 13
            invariant
                i <= 13,
                faces_fit(self, faces@),
                forall|t: DamageType| #![trigger out.part(t)] spec_type_index(t) >= i ==> out.part(t) is None,
                forall|t: DamageType| #![trigger out.part(t)] spec_type_index(t) < i ==> match self.part(t) {
                    Some(d) => out.part(t) matches Some(r) && r@ == DamageRollView {
                        base: spec_face_sum(faces@[spec_type_index(t)]@) + d.bonus,
                        effects: Seq::empty(),
                    },
                    None => out.part(t) is None,
                },
            decreases 13 - i,
        {
            let ty = DamageType::at(i);
            proof {
                lemma_type_at(i as int);
            }
            match self.get(ty) {
                Some(d) => {
                    let total = d.total_from(&faces[i]);
                    out.set(ty, Some(DamageRoll::new(total as i32)));
                },
                None => {},
            }
            proof {
                assert forall|t: DamageType| #![trigger out.part(t)] spec_type_index(t) < i + 1 implies match self.part(t) {
                    Some(d) => out.part(t) matches Some(r) && r@ == DamageRollView {
                        base: spec_face_sum(faces@[spec_type_index(t)]@) + d.bonus,
                        effects: Seq::empty(),
                    },
                    None => out.part(t) is None,
                } by {
                    lemma_type_index(t);
                }
            }
            i = i + 1;
        }
        proof {
            assert forall|t: DamageType| match self.part(t) {
                Some(d) => (#[trigger] out.part(t)) matches Some(r) && r@ == DamageRollView {
                    base: spec_face_sum(faces@[spec_type_index(t)]@) + d.bonus,
                    effects: Seq::empty(),
                },
                None => out.part(t) is None,
            } by {
                lemma_type_index(t);
            }
        }
        out
    }
}

} // verus!
