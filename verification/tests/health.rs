use xander::creature::monster::{Cr, Monster, MonsterType, Type};
use xander::creature::{Character, CreatureKind, CreatureSize};
use xander::health::damage::{Damage, DamageType};
use xander::health::riv::{
    DamageEffect, DamageFilter, DamageRoll, EffectKind, Immunity, ImmunityTarget, Resistance, Vulnerability,
};
use xander::health::temp_hp::TempHp;
use xander::health::{DamageOutcome, Health, HitDie, MaxHp};
use xander::dice::DiceExpr;

fn monster() -> CreatureKind {
    CreatureKind::Monster(Monster { cr: Cr::Quarter, ty: Type { ty: MonsterType::Beast, tags: vec![] } })
}

fn one(ty: DamageType, amount: i32) -> Damage<DamageRoll> {
    Damage::of(ty, DamageRoll::new(amount))
}

#[test]
fn resistance_halves_vulnerability_doubles_immunity_zeroes() {
    let mut health = Health::with_set_max(20).unwrap();
    health.riv.resistances.push(Resistance(DamageEffect { to: DamageFilter::Type(DamageType::Fire) }));
    health.riv.vulnerabilities.push(Vulnerability(DamageEffect { to: DamageFilter::Type(DamageType::Cold) }));
    health.riv.immunities.push(Immunity { to: ImmunityTarget::Damage(DamageFilter::Type(DamageType::Poison)) });

    let report = health.damage(&monster(), one(DamageType::Fire, 9));
    assert_eq!(report.total, 4);
    assert_eq!(report.outcome, DamageOutcome::Hurt);
    assert!(report.source.get(DamageType::Fire).unwrap().has_effect(EffectKind::Resistance));

    let report = health.damage(&monster(), one(DamageType::Cold, 5));
    assert_eq!(report.total, 10);

    let report = health.damage(&monster(), one(DamageType::Poison, 50));
    assert_eq!(report.total, 0);
    assert!(!health.is_dead());
    // Hit points themselves stay where they were.
    assert_eq!(health.current.value, 20);
}

#[test]
fn enough_damage_kills_a_monster() {
    let mut health = Health::with_set_max(7).unwrap();
    let report = health.damage(&monster(), one(DamageType::Slashing, 7));
    assert_eq!(report.outcome, DamageOutcome::Killed);
    assert!(health.is_dead());
}

#[test]
fn negative_damage_does_nothing() {
    let mut health = Health::with_set_max(7).unwrap();
    let report = health.damage(&monster(), one(DamageType::Acid, -3));
    assert_eq!(report.outcome, DamageOutcome::Nothing);
    assert_eq!(report.total, 0);
    assert_eq!(report.discounted, None);
}

#[test]
fn temporary_hit_points_go_first() {
    let mut health = Health::with_set_max(10).unwrap();
    health.temp_hp = Some(TempHp::new(4));
    let report = health.damage(&monster(), one(DamageType::Force, 6));
    assert_eq!(report.discounted, Some(4));
    assert_eq!(report.total, 2);
    assert_eq!(health.temp_hp, Some(TempHp { hp_left: 0 }));
}

#[test]
fn massive_damage_kills_a_character() {
    let mut health = Health::with_set_max(5).unwrap();
    let report = health.damage(&CreatureKind::Character(Character {}), one(DamageType::Thunder, 10));
    assert_eq!(report.outcome, DamageOutcome::Killed);
    assert!(health.is_dead());
}

#[test]
fn discounting_temporary_hit_points() {
    let mut t = TempHp::new(5);
    let d = t.discount(3);
    assert_eq!((d.discounted, d.remaining, t.hp_left), (3, 0, 2));
    let d = t.discount(7);
    assert_eq!((d.discounted, d.remaining, t.hp_left), (2, 5, 0));
    assert!(!t.is_alive());
}

#[test]
fn hit_point_maximum() {
    assert!(MaxHp::with_set(0).is_none());
    assert_eq!(MaxHp::with_set(9).unwrap().get(), 9);
    let mut m = MaxHp::new();
    assert!(m.enroll(0).is_err());
    assert!(m.enroll(12).is_ok());
    assert_eq!(m.get(), 12);
    assert!(Health::with_set_max(0).is_none());
    assert_eq!(HitDie::new().die(&monster(), CreatureSize::Large), 10);
    assert_eq!(HitDie::new().die(&monster(), CreatureSize::Tiny), 4);
}

#[test]
fn damage_by_type() {
    let mut d: Damage<i32> = Damage::new();
    assert_eq!(d.types(), 0);
    d.set(DamageType::Fire, Some(3));
    d.set(DamageType::Acid, Some(2));
    assert_eq!(d.types(), 2);
    assert_eq!(d.sum(), 5);
    let e = Damage::of(DamageType::Fire, 4);
    let sum = d.add(e);
    assert_eq!(sum.get(DamageType::Fire), Some(&7));
    assert_eq!(sum.get(DamageType::Acid), Some(&2));
    let diff = sum.sub(Damage::of(DamageType::Cold, 1));
    assert_eq!(diff.get(DamageType::Cold), Some(&1));
    assert_eq!(diff.into_vec(), vec![(DamageType::Acid, 2), (DamageType::Cold, 1), (DamageType::Fire, 7)]);
    let pairs = Damage::from_pairs(vec![(DamageType::Radiant, 2), (DamageType::Radiant, 5), (DamageType::Psychic, 1)]);
    assert_eq!(pairs.get(DamageType::Radiant), Some(&7));
    assert_eq!(pairs.get(DamageType::Psychic), Some(&1));
    let only_big = pairs.filter(|_, v| *v > 3);
    assert_eq!(only_big.types(), 1);
    let doubled = Damage::of(DamageType::Acid, 2).map(|_, v| v * 2);
    assert_eq!(doubled.get(DamageType::Acid), Some(&4));
    let halves = Damage::of(DamageType::Acid, 3).filter_map(|_, v| if v % 2 == 0 { Some(v / 2) } else { None });
    assert_eq!(halves.types(), 0);
    let d2 = Damage::of(DamageType::Cold, 8);
    assert_eq!(d2.as_ref().get(DamageType::Cold), Some(&&8));
    d2.for_each(|t, v| assert_eq!((t, v), (DamageType::Cold, 8)));
    let mut taken = Damage::of(DamageType::Lighting, 1);
    assert_eq!(taken.take(DamageType::Lighting), Some(1));
    assert_eq!(taken.types(), 0);
    assert_eq!(DamageType::at(12), DamageType::Thunder);
    assert_eq!(DamageType::Piercing.index(), 7);
    assert_eq!(DamageType::Necrotic.name(), "Necrotic");
}

#[test]
fn rolling_damage_dice() {
    let dice = Damage::of(DamageType::Fire, DiceExpr { qty: 2, sides: 6, bonus: 1 });
    let mut faces: Vec<Vec<u32>> = vec![vec![]; 13];
    faces[3] = vec![6, 2];
    let rolled = dice.roll(&faces);
    assert_eq!(rolled.total(), 9);
    assert_eq!(rolled.subtotal().get(DamageType::Fire), Some(&9));
}

#[test]
fn test_recur_find() {
    // No effects.
    let damage = DamageRoll::new(2);
    assert!(!damage.has_effect(EffectKind::Resistance));
    assert!(!damage.has_effect(EffectKind::Vulnerability));

    // One effect.
    let damage = DamageRoll::new(13).with_effect(EffectKind::Resistance);
    assert!(damage.has_effect(EffectKind::Resistance));
    assert_eq!(damage.total(), 6);
    let damage = DamageRoll::new(13).with_effect(EffectKind::Vulnerability);
    assert!(damage.has_effect(EffectKind::Vulnerability));
    assert_eq!(damage.total(), 26);

    // Both effects, in either order.
    let damage = DamageRoll::new(13)
        .with_effect(EffectKind::Resistance)
        .with_effect(EffectKind::Vulnerability);
    assert!(damage.has_effect(EffectKind::Resistance));
    assert!(damage.has_effect(EffectKind::Vulnerability));

    let damage = DamageRoll::new(13)
        .with_effect(EffectKind::Vulnerability)
        .with_effect(EffectKind::Resistance);
    assert!(damage.has_effect(EffectKind::Resistance));
    assert!(damage.has_effect(EffectKind::Vulnerability));
}

#[test]
fn total_is_the_sum_of_subtotals() {
    let mut d = one(DamageType::Fire, 7);
    d.set(DamageType::Cold, Some(DamageRoll::new(5).with_effect(EffectKind::Resistance)));
    assert_eq!(d.total(), 9);
    assert_eq!(d.subtotal().sum(), d.total());
    let empty: Damage<DamageRoll> = Damage::new();
    assert_eq!(empty.total(), 0);
    assert_eq!(empty.subtotal().sum(), 0);
}
