//! Hit points, damage and its mitigation.

use vstd::prelude::*;

pub mod damage;
pub mod riv;
pub mod temp_hp;

pub use damage::{Damage, DamageType};
pub use temp_hp::TempHp;

use crate::creature::{CreatureKind, CreatureSize};
use damage::{roll_views, spec_sat_total, spec_type_at};
use riv::{DamageRoll, DamageRollView, RIV, spec_apply_riv};
use temp_hp::Discounted;

verus! {

/// Marks a dead creature.
#[derive(Debug, Clone, Copy, PartialEq, Eq, Structural)]
pub struct Dead;

/// Current hit points.
#[derive(Debug, Clone, Copy, PartialEq, Eq, Structural)]
pub struct CurrentHp {
    pub value: u32,
}

impl CurrentHp {
    pub fn new(value: u32) -> (res: Self)
        ensures
            res.value == value,
    {
        CurrentHp { value }
    }
}

/// The hit point maximum is zero.
#[derive(Debug, Clone, Copy, PartialEq, Eq, Structural)]
pub struct HitPointMaxZero;

/// The hit point maximum.
#[derive(Debug, Clone, Copy, PartialEq, Eq, Structural)]
pub struct MaxHp {
    value: u32,
}

impl View for MaxHp {
    type V = u32;

    closed spec fn view(&self) -> u32 {
        self.value
    }
}

impl MaxHp {
    /// A maximum that nothing has set yet (zero).
    pub fn new() -> (res: Self)
        ensures
            res@ == 0,
    {
        MaxHp { value: 0 }
    }

    /// A maximum set to `max_hp`, which must not be zero.
    pub fn with_set(max_hp: u32) -> (res: Option<Self>)
        ensures
            max_hp == 0 <==> res is None,
            res matches Some(m) ==> m@ == max_hp,
    {
        if max_hp == 0 {
            return None;
        }
        Some(MaxHp { value: max_hp })
    }

    /// Sets the maximum, reporting when it ends up zero (the value is set either way).
    pub fn enroll(&mut self, max_hp: u32) -> (res: Result<(), HitPointMaxZero>)
        ensures
            final(self)@ == max_hp,
            res is Err <==> max_hp == 0,
    {
        self.value = max_hp;
        if max_hp == 0 {
            Err(HitPointMaxZero)
        } else {
            Ok(())
        }
    }

    /// The maximum.
    pub fn get(&self) -> (res: u32)
        ensures
            res == self@,
    {
        self.value
    }
}

/// A creature's hit die.
#[derive(Debug, Clone, Copy, PartialEq, Eq, Structural)]
pub struct HitDie;

/// The sides of a monster's hit die by its size.
pub open spec fn spec_hit_die_sides(size: CreatureSize) -> u32 {
    match size {
        CreatureSize::Tiny => 4,
        CreatureSize::Small => 6,
        CreatureSize::Medium => 8,
        CreatureSize::Large => 10,
        CreatureSize::Huge => 12,
        CreatureSize::Gargantuan(_, _) => 20,
    }
}

impl HitDie {
    pub fn new() -> (res: Self) {
        HitDie
    }

    /// The number of sides of the hit die of a monster of `size`.
    pub fn die(&self, kind: &CreatureKind, size: CreatureSize) -> (res: u32)
        requires
            *kind is Monster,
        ensures
            res == spec_hit_die_sides(size),
    {
        match size {
            CreatureSize::Tiny => 4,
            CreatureSize::Small => 6,
            CreatureSize::Medium => 8,
            CreatureSize::Large => 10,
            CreatureSize::Huge => 12,
            CreatureSize::Gargantuan(_, _) => 20,
        }
    }
}

/// What damage did to a creature.
#[derive(Debug, Clone, Copy, PartialEq, Eq, Structural)]
pub enum DamageOutcome {
    Nothing,
    Hurt,
    KnockedOut,
    Killed,
}

/// The account of one instance of damage.
#[derive(Debug)]
pub struct DamageReport {
    /// Damage absorbed by temporary hit points.
    pub discounted: Option<u32>,
    /// Damage that got through to hit points.
    pub total: u32,
    /// The damage after resistances, vulnerabilities and immunities.
    pub source: Damage<DamageRoll>,
    pub outcome: DamageOutcome,
}

/// A creature's hit points and what protects them.
#[derive(Debug)]
pub struct Health {
    pub hit_die: HitDie,
    pub temp_hp: Option<TempHp>,
    pub max_hp: MaxHp,
    pub current: CurrentHp,
    pub riv: RIV,
    pub dead: Option<Dead>,
}

/// The rolls of each type after a creature's resistances, vulnerabilities and immunities.
pub open spec fn spec_mitigated(riv: &RIV, d: &Damage<DamageRoll>) -> Seq<Option<DamageRollView>> {
    Seq::new(
        13,
        |i: int|
            match d.part(spec_type_at(i)) {
                Some(r) => Some(
                    spec_apply_riv(
                        r@,
                        riv.resists(spec_type_at(i)),
                        riv.vulnerable(spec_type_at(i)),
                        riv.immune(spec_type_at(i)),
                    ),
                ),
                None => None,
            },
    )
}

/// Temporary hit points are present and not used up.
pub open spec fn temp_alive(t: Option<TempHp>) -> bool {
    t matches Some(tp) && tp.hp_left > 0
}

/// The damage that reaches hit points, after temporary hit points take their share.
pub open spec fn spec_after_temp(t: Option<TempHp>, total: int) -> int {
    if temp_alive(t) {
        if total > t->0.hp_left { total - t->0.hp_left } else { 0 }
    } else {
        total
    }
}

/// What taking `damage` does to a creature's health (`old` before, `new` after, `res` the
/// report): resistances, vulnerabilities and immunities apply first, then temporary hit
/// points; a negative total does nothing; otherwise a creature left with no hit points dies.
/// Hit points themselves are left as they were.
pub open spec fn spec_damage_taken(old: Health, new: Health, kind: CreatureKind, damage: Damage<DamageRoll>, res: DamageReport) -> bool {
    &&& roll_views(&res.source) == spec_mitigated(&old.riv, &damage)
    &&& ({
        let total = spec_sat_total(spec_mitigated(&old.riv, &damage));
        let through = spec_after_temp(old.temp_hp, total);
        let hp = old.current.value as int;
        if total < 0 {
            &&& res.outcome == DamageOutcome::Nothing
            &&& res.total == 0
            &&& res.discounted is None
            &&& new.temp_hp == old.temp_hp
            &&& new.spec_dead() == old.spec_dead()
        } else {
            &&& res.total == through
            &&& res.discounted == (if temp_alive(old.temp_hp) {
                Some((total - through) as u32)
            } else {
                None::<u32>
            })
            &&& new.temp_hp == (if temp_alive(old.temp_hp) {
                Some(TempHp { hp_left: (old.temp_hp->0.hp_left - (total - through)) as u32 })
            } else {
                old.temp_hp
            })
            &&& if through < hp {
                &&& res.outcome == DamageOutcome::Hurt
                &&& new.spec_dead() == old.spec_dead()
            } else {
                &&& res.outcome == DamageOutcome::Killed
                &&& new.spec_dead()
            }
        }
    })
    &&& new.current == old.current
    &&& new.max_hp == old.max_hp
    &&& new.riv == old.riv
    &&& new.hit_die == old.hit_die
}

impl Health {
    /// Whether the creature is dead.
    pub open spec fn spec_dead(&self) -> bool {
        self.dead is Some
    }

    /// A creature with no hit points yet and no protections.
    pub fn new() -> (res: Self)
        ensures
            res.current.value == 0,
            res.max_hp@ == 0,
            res.temp_hp is None,
            !res.spec_dead(),
            res.riv.resistances@.len() == 0,
            res.riv.immunities@.len() == 0,
            res.riv.vulnerabilities@.len() == 0,
    {
        Health {
            hit_die: HitDie::new(),
            temp_hp: None,
            max_hp: MaxHp::new(),
            current: CurrentHp::new(0),
            riv: RIV::new(),
            dead: None,
        }
    }

    /// A creature at full health with a maximum of `max_hp`, which must not be zero.
    pub fn with_set_max(max_hp: u32) -> (res: Option<Self>)
        ensures
            max_hp == 0 <==> res is None,
            res matches Some(h) ==> {
                &&& h.current.value == max_hp
                &&& h.max_hp@ == max_hp
                &&& h.temp_hp is None
                &&& !h.spec_dead()
                &&& h.riv.resistances@.len() == 0
                &&& h.riv.immunities@.len() == 0
                &&& h.riv.vulnerabilities@.len() == 0
            },
    {
        let max = match MaxHp::with_set(max_hp) {
            Some(m) => m,
            None => return None,
        };
        Some(Health {
            hit_die: HitDie::new(),
            temp_hp: None,
            max_hp: max,
            current: CurrentHp::new(max_hp),
            riv: RIV::new(),
            dead: None,
        })
    }

    /// Whether the creature is dead.
    pub fn is_dead(&self) -> (res: bool)
        ensures
            res == self.spec_dead(),
    {
        self.dead.is_some()
    }

    /// Whether taking `damage` is handled: immunities are to damage only, temporary hit points
    /// only ever absorb a positive amount, and a character is not left at zero hit points short
    /// of dying outright (falling unconscious is not handled).
    pub open spec fn can_take(&self, kind: &CreatureKind, damage: &Damage<DamageRoll>) -> bool {
        let total = spec_sat_total(spec_mitigated(&self.riv, damage));
        let through = spec_after_temp(self.temp_hp, total);
        &&& self.riv.damage_only()
        &&& (total >= 0 && temp_alive(self.temp_hp)) ==> total > 0
        &&& (total >= 0 && *kind is Character && through >= self.current.value) ==> through
            - self.current.value >= self.max_hp@
    }

    /// Takes damage: resistances, vulnerabilities and immunities first, then temporary hit
    /// points; a monster brought to zero hit points dies, as does anyone whose excess damage
    /// reaches their hit point maximum. Hit points themselves are left as they were.
    pub fn damage(&mut self, kind: &CreatureKind, damage: Damage<DamageRoll>) -> (res: DamageReport)
        requires
            old(self).can_take(kind, &damage),
        ensures
            spec_damage_taken(*old(self), *final(self), *kind, damage, res),
            res.discounted matches Some(d) ==> (final(self).temp_hp matches Some(t) && old(self).temp_hp matches Some(
                o,
            ) && t.hp_left + d == o.hp_left && d + res.total == spec_sat_total(spec_mitigated(&old(self).riv, &damage))),
            res.discounted is None ==> final(self).temp_hp == old(self).temp_hp,
    {
        let ghost d0 = damage;
        let mut damage = damage;
        self.riv.apply_to_damage(&mut damage);
        proof {
            assert(roll_views(&damage) =~= spec_mitigated(&self.riv, &d0));
        }
        let total = damage.total();
        if total < 0 {
            return DamageReport {
                discounted: None,
                total: 0,
                source: damage,
                outcome: DamageOutcome::Nothing,
            };
        }
        let mut total: u32 = total as u32;
        let mut discounted: Option<u32> = None;
        // Temporary hit points are lost first.
        match self.temp_hp {
            Some(tp) => {
                if tp.is_alive() {
                    let mut tp = tp;
                    let Discounted { discounted: d, remaining } = tp.discount(total);
                    self.temp_hp = Some(tp);
                    total = remaining;
                    discounted = Some(d);
                }
            },
            None => {},
        }
        let current_hp = self.current.value;
        let hp_after = current_hp.saturating_sub(total);
        let excess = total.saturating_sub(current_hp);
        let mut outcome = DamageOutcome::Hurt;
        if hp_after == 0 {
            match kind {
                CreatureKind::Monster(_) => {
                    // Instant death: a monster at zero hit points dies.
                    self.dead = Some(Dead);
                    outcome = DamageOutcome::Killed;
                },
                CreatureKind::Character(_) => {
                    // Instant death from massive damage.
                    self.dead = Some(Dead);
                    outcome = DamageOutcome::Killed;
                },
            }
        }
        DamageReport { discounted, total, source: damage, outcome }
    }
}

/// Temporary hit points lose exactly what they absorb: when damage is taken while they last,
/// what they absorbed and what got through make up the damage, and they are left with what
/// they had less what they absorbed; when they absorbed nothing, they are untouched.
pub proof fn lemma_temp_hp_lose_what_they_absorb(
    old: Health,
    new: Health,
    kind: CreatureKind,
    damage: Damage<DamageRoll>,
    res: DamageReport,
)
    requires
        spec_damage_taken(old, new, kind, damage, res),
    ensures
        res.discounted matches Some(d) ==> (new.temp_hp matches Some(t) && old.temp_hp matches Some(o) && t.hp_left
            + d == o.hp_left && d + res.total == spec_sat_total(spec_mitigated(&old.riv, &damage))),
        res.discounted is None ==> new.temp_hp == old.temp_hp,
        res.discounted is Some <==> (temp_alive(old.temp_hp) && spec_sat_total(spec_mitigated(&old.riv, &damage)) >= 0),
{
}

} // verus!
