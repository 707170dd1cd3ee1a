//! A creature as a creature file describes it, and the creature it makes.

use vstd::prelude::*;

use crate::combat::action::{Attack as RsAttack, AttackKind as RsAttackKind, Range as RsRange, SetMonsterAttack};
use crate::creature::actions::{Actions as RsActions, Attacks, Reaction, DEFAULT_NUM_ATTACKS};
use crate::creature::marker::Markers;
use crate::creature::monster::{Cr, Monster as RsMonster, MonsterType as RsMonsterType, Type as RsType};
use crate::creature::size::{GargantuanDim, CreatureSize as RsCreatureSize};
use crate::creature::stat_block::{spec_modifier_of, spec_score, AbilityModifiers, AbilityScores as RsAbilityScores, StatBlock};
use crate::creature::{Creature as RsCreature, CreatureId, CreatureKind as RsCreatureKind};
use crate::health::damage::DamageType as RsDamageType;
use crate::health::riv::{DamageEffect, DamageFilter, Immunity, ImmunityTarget, Resistance, Vulnerability};
use crate::health::Health as RsHealth;
use crate::json::stats::{distinct_types, spec_ability, spec_damage_type, spec_dice_for, Ability, DamageDice, DamageType};
use crate::json::utils::WithId;
use crate::measure::Feet;
use crate::stats::ability::{spec_modifier, Ability as RsAbility, AbilityScore as RsAbilityScore, IllegalAbilityScore};
use crate::stats::proficiency::Proficiencies;

verus! {

/// A creature as a creature file describes it.
#[derive(Debug)]
pub struct Creature {
    pub name: String,
    pub size: CreatureSize,
    pub kind: CreatureKind,
    pub stats: Stats,
}

/// A creature's size, checked.
#[derive(Debug, Clone, Copy, PartialEq, Eq, Structural)]
pub struct CreatureSize(pub RsCreatureSize);

/// A side of a gargantuan creature, in feet.
#[derive(Debug, Clone, Copy, PartialEq, Eq, Structural)]
pub struct GargantuanDimension(pub u16);

/// A creature's size as written.
#[derive(Debug, Clone, Copy, PartialEq, Eq)]
pub enum CreatureSizeInner {
    Tiny,
    Small,
    Medium,
    Large,
    Gargantuan(Option<(GargantuanDimension, GargantuanDimension)>),
}

/// A gargantuan size given with a side too short (under 20 feet, or not a multiple of 5).
#[derive(Debug, Clone, Copy, PartialEq, Eq, Structural)]
pub struct InvalidCreatureSize(pub u16, pub u16);

/// The size a written size stands for. A written "medium" stands for Huge; a gargantuan
/// creature with no sides given is 20 by 20 feet.
pub open spec fn spec_size_of(inner: CreatureSizeInner) -> Result<RsCreatureSize, InvalidCreatureSize> {
    match inner {
        CreatureSizeInner::Tiny => Ok(RsCreatureSize::Tiny),
        CreatureSizeInner::Small => Ok(RsCreatureSize::Small),
        CreatureSizeInner::Medium => Ok(RsCreatureSize::Huge),
        CreatureSizeInner::Large => Ok(RsCreatureSize::Large),
        CreatureSizeInner::Gargantuan(None) => Err(InvalidCreatureSize(0, 0)),
        CreatureSizeInner::Gargantuan(Some((w, h))) => Err(InvalidCreatureSize(w.0, h.0)),
    }
}

impl CreatureSize {
    /// The size a written size stands for; refused for a gargantuan side that is too short.
    pub fn try_from_inner(value: CreatureSizeInner) -> (res: Result<CreatureSize, InvalidCreatureSize>)
        ensures
            match value {
                CreatureSizeInner::Gargantuan(None) => res matches Ok(CreatureSize(RsCreatureSize::Gargantuan(w, h)))
                    && w@ == 20 && h@ == 20,
                CreatureSizeInner::Gargantuan(Some((w, h))) => if crate::creature::size::valid_gargantuan_dim(w.0 as int)
                    && crate::creature::size::valid_gargantuan_dim(h.0 as int) {
                    res matches Ok(CreatureSize(RsCreatureSize::Gargantuan(gw, gh))) && gw@ == w.0 && gh@ == h.0
                } else {
                    res == Err::<CreatureSize, InvalidCreatureSize>(InvalidCreatureSize(w.0, h.0))
                },
                _ => res == match spec_size_of(value) {
                    Ok(s) => Ok::<CreatureSize, InvalidCreatureSize>(CreatureSize(s)),
                    Err(e) => Err(e),
                },
            },
    {
        match value {
            CreatureSizeInner::Tiny => Ok(CreatureSize(RsCreatureSize::Tiny)),
            CreatureSizeInner::Small => Ok(CreatureSize(RsCreatureSize::Small)),
            CreatureSizeInner::Medium => Ok(CreatureSize(RsCreatureSize::Huge)),
            CreatureSizeInner::Large => Ok(CreatureSize(RsCreatureSize::Large)),
            CreatureSizeInner::Gargantuan(None) => {
                match (GargantuanDim::new(20), GargantuanDim::new(20)) {
                    (Some(w), Some(h)) => Ok(CreatureSize(RsCreatureSize::Gargantuan(w, h))),
                    _ => Err(InvalidCreatureSize(20, 20)),
                }
            },
            CreatureSizeInner::Gargantuan(Some((GargantuanDimension(w), GargantuanDimension(h)))) => {
                match (GargantuanDim::new(w), GargantuanDim::new(h)) {
                    (Some(gw), Some(gh)) => Ok(CreatureSize(RsCreatureSize::Gargantuan(gw, gh))),
                    _ => Err(InvalidCreatureSize(w, h)),
                }
            },
        }
    }
}

/// What a creature is, as written: so far, monsters only.
#[derive(Debug)]
pub enum CreatureKind {
    Monster(Monster),
}

/// A challenge rating as written: a fraction in text, or an integer.
#[derive(Debug, Clone, PartialEq, Eq)]
pub enum CrRaw {
    String(String),
    U8(u8),
}

/// The rating written: an integer 0 to 30, or the text of a rating ("1/8", "1/4", "1/2" or an
/// integer); `None` for anything else.
pub fn deserialize_cr(raw: &CrRaw) -> (res: Option<Cr>)
    ensures
        match raw {
            CrRaw::U8(v) => if *v <= 30 {
                res matches Some(c) && c == crate::creature::monster::spec_integer_cr(*v as int)
            } else {
                res is None
            },
            CrRaw::String(s) => res == match crate::creature::monster::spec_parse_cr(s@) {
                Ok(c) => Some(c),
                Err(_) => None::<Cr>,
            },
        },
{
    match raw {
        CrRaw::U8(v) => match Cr::try_new(*v) {
            Ok(c) => Some(c),
            Err(_) => None,
        },
        CrRaw::String(s) => match Cr::parse(s.as_str()) {
            Ok(c) => Some(c),
            Err(_) => None,
        },
    }
}

/// A monster as written.
#[derive(Debug)]
pub struct Monster {
    pub cr: Cr,
    pub ty: MonsterType,
}

/// A monster's type and tags as written.
#[derive(Debug)]
pub struct MonsterType {
    pub ty: RsMonsterType,
    pub tags: Vec<String>,
}

impl MonsterType {
    /// The monster type with id `ty`, and the tags with ids `tags`; `None` when an id names
    /// nothing (no tags are defined).
    pub fn resolve(ty: &str, tags: &Vec<String>) -> (res: Option<MonsterType>)
        ensures
            res is Some <==> ((exists|t: RsMonsterType| crate::creature::monster::spec_monster_type_id(t) == ty@)
                && tags@.len() == 0),
            res matches Some(m) ==> crate::creature::monster::spec_monster_type_id(m.ty) == ty@ && m.tags@.len() == 0,
    {
        let found = RsMonsterType::lookup(ty);
        match found {
            Some(t) => if tags.len() == 0 {
                Some(MonsterType { ty: t, tags: Vec::new() })
            } else {
                None
            },
            None => None,
        }
    }
}

/// A creature's statistics as written.
#[derive(Debug)]
pub struct Stats {
    pub speed: u32,
    pub scores: AbilityScores,
    pub health: Health,
    pub actions: Actions,
    pub ac: i32,
}

/// Ability scores as written.
#[derive(Debug, Clone, Copy)]
pub struct AbilityScores {
    pub str: AbilityScore,
    pub dex: AbilityScore,
    pub con: AbilityScore,
    pub int: AbilityScore,
    pub wis: AbilityScore,
    pub cha: AbilityScore,
}

/// An ability score, checked to lie in 1 to 30.
#[derive(Debug, Clone, Copy)]
pub struct AbilityScore(pub RsAbilityScore);

impl AbilityScore {
    /// A score from a number; refused outside 1 to 30.
    pub fn try_from_u8(value: u8) -> (res: Result<AbilityScore, IllegalAbilityScore>)
        ensures
            1 <= value <= 30 ==> (res matches Ok(s) && s.0@ == value),
            !(1 <= value <= 30) ==> res == Err::<AbilityScore, IllegalAbilityScore>(IllegalAbilityScore(value)),
    {
        match RsAbilityScore::try_from_u8(value) {
            Ok(s) => Ok(AbilityScore(s)),
            Err(e) => Err(e),
        }
    }
}

/// Hit points and damage rules as written.
#[derive(Debug)]
pub struct Health {
    /// Not zero.
    pub max_hp: u32,
    pub resistances: Vec<DamageType>,
    pub immunities: Vec<DamageType>,
    pub vulnerabilities: Vec<DamageType>,
}

/// Attacks as written.
#[derive(Debug)]
pub struct Actions {
    pub attacks: Vec<Attack>,
}

/// An attack as written.
#[derive(Debug)]
pub struct Attack {
    pub name: String,
    pub kind: AttackKind,
    pub hit: DamageDice,
    pub ability: Ability,
}

/// Melee (with an optional reach) or ranged, in feet.
#[derive(Debug, Clone, Copy, PartialEq, Eq)]
pub enum AttackKind {
    Melee { reach: Option<u32> },
    Ranged { range: Range },
}

/// A single range, or a normal and a long range, in feet.
#[derive(Debug, Clone, Copy, PartialEq, Eq)]
pub enum Range {
    Single(u32),
    Long([u32; 2]),
}

/// The attack kind written.
pub open spec fn spec_attack_kind(k: AttackKind) -> RsAttackKind {
    match k {
        AttackKind::Melee { reach } => RsAttackKind::Melee {
            reach: match reach {
                Some(r) => Some(Feet(r)),
                None => None,
            },
        },
        AttackKind::Ranged { range: Range::Single(s) } => RsAttackKind::Ranged { range: RsRange::Single(Feet(s)) },
        AttackKind::Ranged { range: Range::Long(l) } => RsAttackKind::Ranged {
            range: RsRange::Long { short: Feet(l[0]), long: Feet(l[1]) },
        },
    }
}

impl AttackKind {
    /// The attack kind written.
    pub fn into_rust(self) -> (res: RsAttackKind)
        ensures
            res == spec_attack_kind(self),
    {
        match self {
            AttackKind::Melee { reach } => RsAttackKind::Melee {
                reach: match reach {
                    Some(r) => Some(Feet(r)),
                    None => None,
                },
            },
            AttackKind::Ranged { range: Range::Single(s) } => RsAttackKind::Ranged { range: RsRange::Single(Feet(s)) },
            AttackKind::Ranged { range: Range::Long(l) } => RsAttackKind::Ranged {
                range: RsRange::Long { short: Feet(l[0]), long: Feet(l[1]) },
            },
        }
    }
}

/// The attack an attack as written makes: a set monster attack with no proficiency.
pub open spec fn spec_attack_made(raw: Attack, a: RsAttack) -> bool {
    &&& a.name == raw.name
    &&& a.base == SetMonsterAttack
    &&& a.kind == spec_attack_kind(raw.kind)
    &&& forall|t: RsDamageType| #[trigger] a.hit.part(t) == spec_dice_for(raw.hit.0@, t)
    &&& a.prof is None
    &&& a.ability == spec_ability(raw.ability)
}

/// The damage types of each attack are listed once each.
pub open spec fn attacks_ok(attacks: Seq<Attack>) -> bool {
    forall|k: int| 0 <= k < attacks.len() ==> distinct_types((#[trigger] attacks[k]).hit.0@)
}

/// The health a creature file describes: full hit points, the resistances, immunities (to
/// damage) and vulnerabilities in the order written.
pub open spec fn spec_health_made(raw: Health, h: RsHealth) -> bool {
    &&& h.current.value == raw.max_hp
    &&& h.max_hp@ == raw.max_hp
    &&& h.temp_hp is None
    &&& !h.spec_dead()
    &&& h.riv.resistances@ == raw.resistances@.map_values(|t: DamageType| Resistance(DamageEffect { to: DamageFilter::Type(spec_damage_type(t)) }))
    &&& h.riv.immunities@ == raw.immunities@.map_values(|t: DamageType| Immunity { to: ImmunityTarget::Damage(DamageFilter::Type(spec_damage_type(t))) })
    &&& h.riv.vulnerabilities@ == raw.vulnerabilities@.map_values(|t: DamageType| Vulnerability(DamageEffect { to: DamageFilter::Type(spec_damage_type(t)) }))
}

impl Health {
    /// The health described.
    pub fn into_rust(self) -> (res: RsHealth)
        requires
            self.max_hp > 0,
        ensures
            spec_health_made(self, res),
    {
        let mut resistances: Vec<Resistance> = Vec::new();
        let mut i: usize = 0;
        while i < self.resistances.len()
            invariant
                i <= self.resistances@.len(),
                resistances@ == self.resistances@.take(i as int).map_values(|t: DamageType| Resistance(DamageEffect { to: DamageFilter::Type(spec_damage_type(t)) })),
            decreases self.resistances@.len() - i,
        {
            resistances.push(Resistance(DamageEffect { to: DamageFilter::Type(self.resistances[i].into_rust()) }));
            assert(self.resistances@.take(i + 1) =~= self.resistances@.take(i as int).push(self.resistances@[i as int]));
            i = i + 1;
        }
        let mut immunities: Vec<Immunity> = Vec::new();
        let mut i: usize = 0;
        while i < self.immunities.len()
            invariant
                i <= self.immunities@.len(),
                immunities@ == self.immunities@.take(i as int).map_values(|t: DamageType| Immunity { to: ImmunityTarget::Damage(DamageFilter::Type(spec_damage_type(t))) }),
            decreases self.immunities@.len() - i,
        {
            immunities.push(Immunity { to: ImmunityTarget::Damage(DamageFilter::Type(self.immunities[i].into_rust())) });
            assert(self.immunities@.take(i + 1) =~= self.immunities@.take(i as int).push(self.immunities@[i as int]));
            i = i + 1;
        }
        let mut vulnerabilities: Vec<Vulnerability> = Vec::new();
        let mut i: usize = 0;
        while i < self.vulnerabilities.len()
            invariant
                i <= self.vulnerabilities@.len(),
                vulnerabilities@ == self.vulnerabilities@.take(i as int).map_values(|t: DamageType| Vulnerability(DamageEffect { to: DamageFilter::Type(spec_damage_type(t)) })),
            decreases self.vulnerabilities@.len() - i,
        {
            vulnerabilities.push(Vulnerability(DamageEffect { to: DamageFilter::Type(self.vulnerabilities[i].into_rust()) }));
            assert(self.vulnerabilities@.take(i + 1) =~= self.vulnerabilities@.take(i as int).push(self.vulnerabilities@[i as int]));
            i = i + 1;
        }
        proof {
            assert(self.resistances@.take(self.resistances@.len() as int) =~= self.resistances@);
            assert(self.immunities@.take(self.immunities@.len() as int) =~= self.immunities@);
            assert(self.vulnerabilities@.take(self.vulnerabilities@.len() as int) =~= self.vulnerabilities@);
        }
        let mut h = match RsHealth::with_set_max(self.max_hp) {
            Some(h) => h,
            None => RsHealth::new(),
        };
        h.riv.resistances = resistances;
        h.riv.immunities = immunities;
        h.riv.vulnerabilities = vulnerabilities;
        h
    }
}

impl Attack {
    /// The attack described.
    pub fn into_rust(self) -> (res: RsAttack)
        requires
            distinct_types(self.hit.0@),
        ensures
            spec_attack_made(self, res),
    {
        RsAttack {
            name: self.name,
            base: SetMonsterAttack,
            kind: self.kind.into_rust(),
            hit: self.hit.into_damage(),
            prof: None,
            ability: self.ability.into_rust(),
        }
    }
}

/// The ability scores as written.
pub open spec fn spec_scores(raw: AbilityScores) -> RsAbilityScores {
    RsAbilityScores { str: raw.str.0, dex: raw.dex.0, con: raw.con.0, int: raw.int.0, wis: raw.wis.0, cha: raw.cha.0 }
}

/// The creature a creature file describes, with id `id`: a monster of the rating and type
/// written, with the speed, ability scores (and their modifiers), health, attacks and armour
/// class written; no proficiencies, no markers, its reaction unused, one attack per Attack
/// action.
pub open spec fn spec_creature_made(raw: Creature, id: CreatureId, c: RsCreature) -> bool {
    let CreatureKind::Monster(m) = raw.kind;
    &&& c.id == id
    &&& c.name == raw.name
    &&& c.size == raw.size.0
    &&& c.kind == RsCreatureKind::Monster(RsMonster { cr: m.cr, ty: RsType { ty: m.ty.ty, tags: m.ty.tags } })
    &&& c.stats.speed == Feet(raw.stats.speed)
    &&& c.stats.proficiencies@.len() == 0
    &&& c.stats.scores == spec_scores(raw.stats.scores)
    &&& forall|a: RsAbility| (#[trigger] spec_modifier_of(c.stats.modifiers, a))@ == spec_modifier(spec_score(c.stats.scores, a)@ as int)
    &&& spec_health_made(raw.stats.health, c.stats.health)
    &&& c.stats.actions.attacks.max_attacks == DEFAULT_NUM_ATTACKS
    &&& c.stats.actions.attacks.left@ == DEFAULT_NUM_ATTACKS
    &&& c.stats.actions.attacks.attacks@.len() == raw.stats.actions.attacks@.len()
    &&& forall|k: int| 0 <= k < raw.stats.actions.attacks@.len() ==> spec_attack_made(
        raw.stats.actions.attacks@[k],
        #[trigger] c.stats.actions.attacks.attacks@[k],
    )
    &&& c.stats.reaction@ is None
    &&& c.stats.ac == raw.stats.ac
    &&& c.stats.markers@.len() == 0
}

impl WithId<Creature, CreatureId> {
    /// The creature described, with its id.
    pub fn into_creature(self) -> (res: RsCreature)
        requires
            self.value.stats.health.max_hp > 0,
            attacks_ok(self.value.stats.actions.attacks@),
        ensures
            spec_creature_made(self.value, self.id, res),
    {
        let WithId { value, id } = self;
        let Creature { name, size, kind, stats } = value;
        let kind = match kind {
            CreatureKind::Monster(Monster { cr, ty: MonsterType { ty, tags } }) => RsCreatureKind::Monster(
                RsMonster { cr, ty: RsType { ty, tags } },
            ),
        };
        let Stats { speed, scores, health, actions, ac } = stats;
        let scores = RsAbilityScores {
            str: scores.str.0,
            dex: scores.dex.0,
            con: scores.con.0,
            int: scores.int.0,
            wis: scores.wis.0,
            cha: scores.cha.0,
        };
        let modifiers = AbilityModifiers::new(&scores);
        let health = health.into_rust();
        let mut attacks = Attacks::new();
        let raw_attacks = actions.attacks;
        let ghost raw = raw_attacks@;
        let n_raw = raw_attacks.len();
        let mut remaining = raw_attacks;
        let mut k: usize = 0;
        while remaining.len() > 0
            invariant
                k + remaining@.len() == raw.len(),
                raw.len() == n_raw,
                remaining@ == raw.subrange(k as int, raw.len() as int),
                attacks_ok(raw),
                attacks.max_attacks == DEFAULT_NUM_ATTACKS,
                attacks.left@ == DEFAULT_NUM_ATTACKS,
                attacks.attacks@.len() == k,
                forall|x: int| 0 <= x < k ==> spec_attack_made(raw[x], #[trigger] attacks.attacks@[x]),
            decreases remaining@.len(),
        {
            let a = remaining.remove(0);
            proof {
                assert(a == raw[k as int]);
                assert(raw[k as int] == raw[k as int]);
            }
            let made = a.into_rust();
            attacks.attacks.push(made);
            proof {
                assert(remaining@ =~= raw.subrange(k + 1, raw.len() as int));
            }
            k = k + 1;
        }
        RsCreature {
            id,
            name,
            size: size.0,
            kind,
            stats: StatBlock {
                speed: Feet(speed),
                proficiencies: Proficiencies::new(),
                scores,
                modifiers,
                health,
                actions: RsActions { attacks },
                reaction: Reaction::new(),
                ac,
                markers: Markers::new(),
            },
        }
    }
}

} // verus!
