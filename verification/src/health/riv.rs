//! Resistances, immunities and vulnerabilities.

use vstd::prelude::*;

use crate::health::damage::{Damage, DamageType};

verus! {

/// How a mitigation rule changes damage.
#[derive(Debug, Clone, Copy, PartialEq, Eq, Structural)]
pub enum EffectKind {
    /// Halve, rounding down.
    Resistance,
    /// Double.
    Vulnerability,
    /// Reduce to zero.
    Immunity,
}

/// The amount after one effect.
pub open spec fn spec_apply_effect(k: EffectKind, v: int) -> int {
    match k {
        EffectKind::Resistance => v / 2,
        EffectKind::Vulnerability => v * 2,
        EffectKind::Immunity => 0,
    }
}

/// The amount after a chain of effects, applied in order.
pub open spec fn spec_eval(base: int, effects: Seq<EffectKind>) -> int
    decreases effects.len(),
{
    if effects.len() == 0 {
        base
    } else {
        spec_apply_effect(effects.last(), spec_eval(base, effects.drop_last()))
    }
}

/// The largest rolled amount a damage roll may start from.
pub const MAX_ROLL: i32 = 1073741823;

/// What a damage roll is: the rolled amount and the effects applied to it so far.
pub struct DamageRollView {
    pub base: int,
    pub effects: Seq<EffectKind>,
}

impl DamageRollView {
    /// The current amount.
    pub open spec fn total(self) -> int {
        spec_eval(self.base, self.effects)
    }
}

/// A rolled amount of damage of one type, with the trail of mitigation applied to it.
/// Each effect applies at most once ("they don't stack").
#[derive(Debug)]
pub struct DamageRoll {
    base: i32,
    effects: Vec<EffectKind>,
}

impl View for DamageRoll {
    type V = DamageRollView;

    closed spec fn view(&self) -> DamageRollView {
        DamageRollView { base: self.base as int, effects: self.effects@ }
    }
}

/// The amount after effects never exceeds twice the rolled amount in size, as doubling can
/// happen at most once.
proof fn lemma_eval_bound(base: int, effects: Seq<EffectKind>)
    requires
        effects.no_duplicates(),
    ensures
        spec_abs(spec_eval(base, effects)) <= spec_abs(base) * (if effects.contains(
            EffectKind::Vulnerability,
        ) {
            2int
        } else {
            1int
        }),
    decreases effects.len(),
{
    if effects.len() > 0 {
        let init = effects.drop_last();
        assert(init.no_duplicates()) by {
            assert forall|i: int, j: int| 0 <= i < init.len() && 0 <= j < init.len() && i != j implies init[i] != init[j] by {
                assert(init[i] == effects[i] && init[j] == effects[j]);
            }
        }
        lemma_eval_bound(base, init);
        assert forall|k: EffectKind| effects.contains(k) <==> (init.contains(k) || effects.last() == k) by {
            if effects.contains(k) {
                let i = choose|i: int| 0 <= i < effects.len() && effects[i] == k;
                if i < effects.len() - 1 {
                    assert(init[i] == k);
                }
            }
            if init.contains(k) {
                let i = choose|i: int| 0 <= i < init.len() && init[i] == k;
                assert(effects[i] == k);
            }
        }
        if effects.last() == EffectKind::Vulnerability {
            assert(!init.contains(EffectKind::Vulnerability)) by {
                if init.contains(EffectKind::Vulnerability) {
                    let i = choose|i: int| 0 <= i < init.len() && init[i] == EffectKind::Vulnerability;
                    assert(effects[i] == effects[effects.len() - 1]);
                }
            }
        }
    }
}

/// Absolute value.
pub open spec fn spec_abs(i: int) -> int {
    if i < 0 { -i } else { i }
}

impl DamageRoll {
    #[verifier::type_invariant]
    spec fn inv(self) -> bool {
        &&& -MAX_ROLL <= self.base <= MAX_ROLL
        &&& self.effects@.no_duplicates()
    }

    /// A freshly rolled amount.
    pub fn new(base: i32) -> (res: Self)
        requires
            -MAX_ROLL <= base <= MAX_ROLL,
        ensures
            res@.base == base,
            res@.effects == Seq::<EffectKind>::empty(),
    {
        DamageRoll { base, effects: Vec::new() }
    }

    /// The rolled amount.
    pub fn base(&self) -> (res: i32)
        ensures
            res == self@.base,
    {
        self.base
    }

    /// Whether `kind` has already been applied.
    pub fn has_effect(&self, kind: EffectKind) -> (res: bool)
        ensures
            res == self@.effects.contains(kind),
    {
        let mut i: usize = 0;
        while i < self.effects.len()
            invariant
                i <= self.effects@.len(),
                forall|j: int| 0 <= j < i ==> self.effects@[j] != kind,
            decreases self.effects@.len() - i,
        {
            if self.effects[i] == kind {
                return true;
            }
            i = i + 1;
        }
        false
    }

    /// Applies `kind` on top of the effects so far.
    pub fn with_effect(self, kind: EffectKind) -> (res: Self)
        requires
            !self@.effects.contains(kind),
        ensures
            res@.base == self@.base,
            res@.effects == self@.effects.push(kind),
    {
        proof {
            use_type_invariant(&self);
        }
        let DamageRoll { base, effects } = self;
        let mut effects = effects;
        let ghost prev = effects@;
        effects.push(kind);
        proof {
            assert(effects@.no_duplicates()) by {
                assert forall|i: int, j: int| 0 <= i < effects@.len() && 0 <= j < effects@.len() && i != j implies effects@[i] != effects@[j] by {
                    if i == prev.len() {
                        assert(prev[j] == effects@[j]);
                    } else if j == prev.len() {
                        assert(prev[i] == effects@[i]);
                    } else {
                        assert(prev[i] == effects@[i] && prev[j] == effects@[j]);
                    }
                }
            }
        }
        DamageRoll { base, effects }
    }

    /// The amount after all effects.
    pub fn total(&self) -> (res: i32)
        ensures
            res == self@.total(),
    {
        proof {
            use_type_invariant(self);
        }
        let mut v: i32 = self.base;
        let mut i: usize = 0;
        while i < self.effects.len()
            invariant
                i <= self.effects@.len(),
                -MAX_ROLL <= self.base <= MAX_ROLL,
                self.effects@.no_duplicates(),
                v == spec_eval(self.base as int, self.effects@.take(i as int)),
            decreases self.effects@.len() - i,
        {
            let ghost pre = self.effects@.take(i as int);
            let ghost post = self.effects@.take(i + 1);
            proof {
                assert(post.drop_last() =~= pre);
                assert(post.no_duplicates()) by {
                    assert forall|a: int, b: int| 0 <= a < post.len() && 0 <= b < post.len() && a != b implies post[a] != post[b] by {
                        assert(post[a] == self.effects@[a] && post[b] == self.effects@[b]);
                    }
                }
                assert(pre.no_duplicates()) by {
                    assert forall|a: int, b: int| 0 <= a < pre.len() && 0 <= b < pre.len() && a != b implies pre[a] != pre[b] by {
                        assert(pre[a] == self.effects@[a] && pre[b] == self.effects@[b]);
                    }
                }
                lemma_eval_bound(self.base as int, pre);
                lemma_eval_bound(self.base as int, post);
                if self.effects@[i as int] == EffectKind::Vulnerability {
                    assert(!pre.contains(EffectKind::Vulnerability)) by {
                        if pre.contains(EffectKind::Vulnerability) {
                            let k = choose|k: int| 0 <= k < pre.len() && pre[k] == EffectKind::Vulnerability;
                            assert(self.effects@[k] == self.effects@[i as int]);
                        }
                    }
                }
            }
            let k = self.effects[i];
            v = match k {
                EffectKind::Resistance => if v >= 0 { v / 2 } else { -((-v + 1) / 2) },
                EffectKind::Vulnerability => v * 2,
                EffectKind::Immunity => 0,
            };
            i = i + 1;
        }
        assert(self.effects@.take(self.effects@.len() as int) =~= self.effects@);
        v
    }
}

/// What a mitigation rule applies to.
#[derive(Debug, Clone, Copy, PartialEq, Eq, Structural)]
pub enum DamageFilter {
    Type(DamageType),
}

/// A rule that changes damage of some type.
#[derive(Debug, Clone, Copy, PartialEq, Eq, Structural)]
pub struct DamageEffect {
    pub to: DamageFilter,
}

/// Resistance: damage of the filtered type is halved.
#[derive(Debug, Clone, Copy, PartialEq, Eq, Structural)]
pub struct Resistance(pub DamageEffect);

/// Vulnerability: damage of the filtered type is doubled.
#[derive(Debug, Clone, Copy, PartialEq, Eq, Structural)]
pub struct Vulnerability(pub DamageEffect);

/// What an immunity protects against.
#[derive(Debug, Clone, Copy, PartialEq, Eq, Structural)]
pub enum ImmunityTarget {
    Damage(DamageFilter),
    Condition,
}

/// Immunity: damage of the filtered type is reduced to zero.
#[derive(Debug, Clone, Copy, PartialEq, Eq, Structural)]
pub struct Immunity {
    pub to: ImmunityTarget,
}

/// Applying an effect once more, unconditionally, is the same as applying it unconditionally.
proof fn lemma_apply_once_absorb(r: DamageRollView, kind: EffectKind, a: bool)
    ensures
        spec_apply_once(spec_apply_once(r, kind, a), kind, true) == spec_apply_once(r, kind, true),
{
    if a && !r.effects.contains(kind) {
        let p = r.effects.push(kind);
        assert(p[p.len() - 1] == kind);
        assert(p.contains(kind));
    }
}

/// A creature's resistances, immunities and vulnerabilities.
#[derive(Debug)]
pub struct RIV {
    pub resistances: Vec<Resistance>,
    pub immunities: Vec<Immunity>,
    pub vulnerabilities: Vec<Vulnerability>,
}

/// A roll after `kind` is applied, unless it already was.
pub open spec fn spec_apply_once(r: DamageRollView, kind: EffectKind, applies: bool) -> DamageRollView {
    if applies && !r.effects.contains(kind) {
        DamageRollView { base: r.base, effects: r.effects.push(kind) }
    } else {
        r
    }
}

/// A roll after a creature's rules: resistance, then vulnerability, then immunity, each at
/// most once.
pub open spec fn spec_apply_riv(r: DamageRollView, resists: bool, vulnerable: bool, immune: bool) -> DamageRollView {
    spec_apply_once(
        spec_apply_once(spec_apply_once(r, EffectKind::Resistance, resists), EffectKind::Vulnerability, vulnerable),
        EffectKind::Immunity,
        immune,
    )
}

impl RIV {
    /// Whether some resistance covers type `t`.
    pub open spec fn resists(&self, t: DamageType) -> bool {
        exists|i: int| 0 <= i < self.resistances@.len() && self.resistances@[i].0.to == DamageFilter::Type(t)
    }

    /// Whether some vulnerability covers type `t`.
    pub open spec fn vulnerable(&self, t: DamageType) -> bool {
        exists|i: int| 0 <= i < self.vulnerabilities@.len() && self.vulnerabilities@[i].0.to == DamageFilter::Type(t)
    }

    /// Whether some immunity covers type `t`.
    pub open spec fn immune(&self, t: DamageType) -> bool {
        exists|i: int| 0 <= i < self.immunities@.len() && self.immunities@[i].to == ImmunityTarget::Damage(DamageFilter::Type(t))
    }

    /// Whether every immunity is to damage (immunity to conditions is not handled).
    pub open spec fn damage_only(&self) -> bool {
        forall|i: int| 0 <= i < self.immunities@.len() ==> (#[trigger] self.immunities@[i].to) is Damage
    }

    pub fn new() -> (res: Self)
        ensures
            res.resistances@.len() == 0,
            res.immunities@.len() == 0,
            res.vulnerabilities@.len() == 0,
    {
        RIV { resistances: Vec::new(), immunities: Vec::new(), vulnerabilities: Vec::new() }
    }

    /// Applies `kind` to the part of type `ty`, unless that part already has it.
    fn apply_op(damage: &mut Damage<DamageRoll>, ty: DamageType, kind: EffectKind)
        ensures
            forall|t: DamageType| t != ty ==> #[trigger] final(damage).part(t) == old(damage).part(t),
            (final(damage).part(ty) is Some) == (old(damage).part(ty) is Some),
            old(damage).part(ty) matches Some(r) ==> final(damage).part(ty)->0@ == spec_apply_once(r@, kind, true),
    {
        match damage.take(ty) {
            Some(r) => {
                if r.has_effect(kind) {
                    damage.set(ty, Some(r));
                } else {
                    damage.set(ty, Some(r.with_effect(kind)));
                }
            },
            None => {},
        }
    }

    /// Applies resistance, then vulnerability, then immunity to each damage type they cover.
    pub fn apply_to_damage(&self, damage: &mut Damage<DamageRoll>)
        requires
            self.damage_only(),
        ensures
            forall|t: DamageType| (#[trigger] final(damage).part(t) is Some) == (old(damage).part(t) is Some),
            forall|t: DamageType| (#[trigger] old(damage).part(t)) matches Some(r) ==> final(damage).part(t)->0@
                == spec_apply_riv(r@, self.resists(t), self.vulnerable(t), self.immune(t)),
    {
        let ghost d0 = *damage;
        // Resistance.
        let mut i: usize = 0;
        while i < self.resistances.len()
            invariant
                i <= self.resistances@.len(),
                forall|t: DamageType| (#[trigger] damage.part(t) is Some) == (d0.part(t) is Some),
                forall|t: DamageType| (#[trigger] d0.part(t)) matches Some(r) ==> damage.part(t)->0@ == spec_apply_once(r@, EffectKind::Resistance,
                    exists|j: int| 0 <= j < i && self.resistances@[j].0.to == DamageFilter::Type(t)),
            decreases self.resistances@.len() - i,
        {
            let DamageFilter::Type(ty) = self.resistances[i].0.to;
            Self::apply_op(damage, ty, EffectKind::Resistance);
            proof {
                assert forall|t: DamageType| (#[trigger] d0.part(t)) is Some implies damage.part(t)->0@ == spec_apply_once(d0.part(t)->0@, EffectKind::Resistance,
                    exists|j: int| 0 <= j < i + 1 && self.resistances@[j].0.to == DamageFilter::Type(t)) by {
                    if t == ty {
                        assert(self.resistances@[i as int].0.to == DamageFilter::Type(t));
                        lemma_apply_once_absorb(d0.part(t)->0@, EffectKind::Resistance,
                            exists|j: int| 0 <= j < i && self.resistances@[j].0.to == DamageFilter::Type(t));
                    } else {
                        if exists|j: int| 0 <= j < i + 1 && self.resistances@[j].0.to == DamageFilter::Type(t) {
                            let j = choose|j: int| 0 <= j < i + 1 && self.resistances@[j].0.to == DamageFilter::Type(t);
                            assert(j != i);
                            assert(exists|j: int| 0 <= j < i && self.resistances@[j].0.to == DamageFilter::Type(t));
                        }
                        if exists|j: int| 0 <= j < i && self.resistances@[j].0.to == DamageFilter::Type(t) {
                            let j = choose|j: int| 0 <= j < i && self.resistances@[j].0.to == DamageFilter::Type(t);
                            assert(0 <= j < i + 1 && self.resistances@[j].0.to == DamageFilter::Type(t));
                        }
                    }
                }
            }
            i = i + 1;
        }
        let ghost d1 = *damage;
        // Vulnerability.
        let mut i: usize = 0;
        while i < self.vulnerabilities.len()
            invariant
                i <= self.vulnerabilities@.len(),
                forall|t: DamageType| (#[trigger] damage.part(t) is Some) == (d1.part(t) is Some),
                forall|t: DamageType| (#[trigger] d1.part(t)) matches Some(r) ==> damage.part(t)->0@ == spec_apply_once(r@, EffectKind::Vulnerability,
                    exists|j: int| 0 <= j < i && self.vulnerabilities@[j].0.to == DamageFilter::Type(t)),
            decreases self.vulnerabilities@.len() - i,
        {
            let DamageFilter::Type(ty) = self.vulnerabilities[i].0.to;
            Self::apply_op(damage, ty, EffectKind::Vulnerability);
            proof {
                assert forall|t: DamageType| (#[trigger] d1.part(t)) is Some implies damage.part(t)->0@ == spec_apply_once(d1.part(t)->0@, EffectKind::Vulnerability,
                    exists|j: int| 0 <= j < i + 1 && self.vulnerabilities@[j].0.to == DamageFilter::Type(t)) by {
                    if t == ty {
                        assert(self.vulnerabilities@[i as int].0.to == DamageFilter::Type(t));
                        lemma_apply_once_absorb(d1.part(t)->0@, EffectKind::Vulnerability,
                            exists|j: int| 0 <= j < i && self.vulnerabilities@[j].0.to == DamageFilter::Type(t));
                    } else {
                        if exists|j: int| 0 <= j < i + 1 && self.vulnerabilities@[j].0.to == DamageFilter::Type(t) {
                            let j = choose|j: int| 0 <= j < i + 1 && self.vulnerabilities@[j].0.to == DamageFilter::Type(t);
                            assert(j != i);
                            assert(exists|j: int| 0 <= j < i && self.vulnerabilities@[j].0.to == DamageFilter::Type(t));
                        }
                        if exists|j: int| 0 <= j < i && self.vulnerabilities@[j].0.to == DamageFilter::Type(t) {
                            let j = choose|j: int| 0 <= j < i && self.vulnerabilities@[j].0.to == DamageFilter::Type(t);
                            assert(0 <= j < i + 1 && self.vulnerabilities@[j].0.to == DamageFilter::Type(t));
                        }
                    }
                }
            }
            i = i + 1;
        }
        let ghost d2 = *damage;
        // Immunity.
        let mut i: usize = 0;
        while i < self.immunities.len()
            invariant
                i <= self.immunities@.len(),
                self.damage_only(),
                forall|t: DamageType| (#[trigger] damage.part(t) is Some) == (d2.part(t) is Some),
                forall|t: DamageType| (#[trigger] d2.part(t)) matches Some(r) ==> damage.part(t)->0@ == spec_apply_once(r@, EffectKind::Immunity,
                    exists|j: int| 0 <= j < i && self.immunities@[j].to == ImmunityTarget::Damage(DamageFilter::Type(t))),
            decreases self.immunities@.len() - i,
        {
            let target = self.immunities[i].to;
            assert(target is Damage);
            if let ImmunityTarget::Damage(DamageFilter::Type(ty)) = target {
                Self::apply_op(damage, ty, EffectKind::Immunity);
                proof {
                    assert forall|t: DamageType| (#[trigger] d2.part(t)) is Some implies damage.part(t)->0@ == spec_apply_once(d2.part(t)->0@, EffectKind::Immunity,
                        exists|j: int| 0 <= j < i + 1 && self.immunities@[j].to == ImmunityTarget::Damage(DamageFilter::Type(t))) by {
                        if t == ty {
                            assert(self.immunities@[i as int].to == ImmunityTarget::Damage(DamageFilter::Type(t)));
                            lemma_apply_once_absorb(d2.part(t)->0@, EffectKind::Immunity,
                                exists|j: int| 0 <= j < i && self.immunities@[j].to == ImmunityTarget::Damage(DamageFilter::Type(t)));
                        } else {
                            if exists|j: int| 0 <= j < i + 1 && self.immunities@[j].to == ImmunityTarget::Damage(DamageFilter::Type(t)) {
                                let j = choose|j: int| 0 <= j < i + 1 && self.immunities@[j].to == ImmunityTarget::Damage(DamageFilter::Type(t));
                                assert(j != i);
                                assert(exists|j: int| 0 <= j < i && self.immunities@[j].to == ImmunityTarget::Damage(DamageFilter::Type(t)));
                            }
                            if exists|j: int| 0 <= j < i && self.immunities@[j].to == ImmunityTarget::Damage(DamageFilter::Type(t)) {
                                let j = choose|j: int| 0 <= j < i && self.immunities@[j].to == ImmunityTarget::Damage(DamageFilter::Type(t));
                                assert(0 <= j < i + 1 && self.immunities@[j].to == ImmunityTarget::Damage(DamageFilter::Type(t)));
                            }
                        }
                    }
                }
            }
            i = i + 1;
        }
    }
}

/// A creature's rules never stack: applying them a second time changes nothing.
pub proof fn lemma_riv_idempotent(r: DamageRollView, resists: bool, vulnerable: bool, immune: bool)
    ensures
        spec_apply_riv(spec_apply_riv(r, resists, vulnerable, immune), resists, vulnerable, immune)
            == spec_apply_riv(r, resists, vulnerable, immune),
{
    let once = spec_apply_riv(r, resists, vulnerable, immune);
    let a = spec_apply_once(r, EffectKind::Resistance, resists);
    let b = spec_apply_once(a, EffectKind::Vulnerability, vulnerable);
    assert(resists ==> a.effects.contains(EffectKind::Resistance)) by {
        if resists && !r.effects.contains(EffectKind::Resistance) {
            assert(a.effects[a.effects.len() - 1] == EffectKind::Resistance);
        }
    }
    assert(resists ==> b.effects.contains(EffectKind::Resistance)) by {
        if resists && vulnerable && !a.effects.contains(EffectKind::Vulnerability) {
            let k = choose|k: int| 0 <= k < a.effects.len() && a.effects[k] == EffectKind::Resistance;
            assert(b.effects[k] == EffectKind::Resistance);
        }
    }
    assert(vulnerable ==> b.effects.contains(EffectKind::Vulnerability)) by {
        if vulnerable && !a.effects.contains(EffectKind::Vulnerability) {
            assert(b.effects[b.effects.len() - 1] == EffectKind::Vulnerability);
        }
    }
    assert forall|k: EffectKind| b.effects.contains(k) implies once.effects.contains(k) by {
        let j = choose|j: int| 0 <= j < b.effects.len() && b.effects[j] == k;
        assert(once.effects[j] == k);
    }
    assert(immune ==> once.effects.contains(EffectKind::Immunity)) by {
        if immune && !b.effects.contains(EffectKind::Immunity) {
            assert(once.effects[once.effects.len() - 1] == EffectKind::Immunity);
        }
    }
}

/// Immunity leaves nothing: an immune creature takes zero damage of that type.
pub proof fn lemma_immunity_zeroes(r: DamageRollView, resists: bool, vulnerable: bool)
    ensures
        spec_apply_riv(r, resists, vulnerable, true).total() == 0 || r.effects.contains(EffectKind::Immunity),
{
    let a = spec_apply_once(r, EffectKind::Resistance, resists);
    let b = spec_apply_once(a, EffectKind::Vulnerability, vulnerable);
    if !r.effects.contains(EffectKind::Immunity) {
        assert(!a.effects.contains(EffectKind::Immunity)) by {
            if a.effects.contains(EffectKind::Immunity) {
                let k = choose|k: int| 0 <= k < a.effects.len() && a.effects[k] == EffectKind::Immunity;
                if k < r.effects.len() {
                    assert(r.effects[k] == EffectKind::Immunity);
                }
            }
        }
        assert(!b.effects.contains(EffectKind::Immunity)) by {
            if b.effects.contains(EffectKind::Immunity) {
                let k = choose|k: int| 0 <= k < b.effects.len() && b.effects[k] == EffectKind::Immunity;
                if k < a.effects.len() {
                    assert(a.effects[k] == EffectKind::Immunity);
                }
            }
        }
        let c = spec_apply_riv(r, resists, vulnerable, true);
        assert(c.effects.drop_last() =~= b.effects);
    }
}

} // verus!
