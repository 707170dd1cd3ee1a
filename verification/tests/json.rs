use xander::combat::action::{AttackKind as RsAttackKind, Range as RsRange, SetMonsterAttack};
use xander::combat::arena::Arena;
use xander::combat::combatant::Combat;
use xander::creature::monster::{Cr, MonsterType as RsMonsterType};
use xander::creature::size::CreatureSize as RsCreatureSize;
use xander::creature::{CreatureId, CreatureKind as RsCreatureKind};
use xander::dice::DiceExpr;
use xander::health::damage::DamageType as RsDamageType;
use xander::health::riv::{DamageEffect, DamageFilter, Resistance};
use xander::json::creature::{
    deserialize_cr, AbilityScore, AbilityScores, Actions, Attack, AttackKind, Creature, CreatureKind, CreatureSize,
    CreatureSizeInner, CrRaw, GargantuanDimension, Health, InvalidCreatureSize, Monster, MonsterType, Range, Stats,
};
use xander::json::stats::{Ability, DExpr, DamageDice, DamageType};
use xander::json::utils::WithId;
use xander::measure::Feet;
use xander::stats::ability::{Ability as RsAbility, IllegalAbilityScore};

fn score(v: u8) -> AbilityScore {
    AbilityScore::try_from_u8(v).unwrap()
}

fn goblin() -> Creature {
    Creature {
        name: "Goblin".to_string(),
        size: CreatureSize::try_from_inner(CreatureSizeInner::Small).unwrap(),
        kind: CreatureKind::Monster(Monster {
            cr: Cr::Quarter,
            ty: MonsterType::resolve("HUMANOID", &vec![]).unwrap(),
        }),
        stats: Stats {
            speed: 30,
            scores: AbilityScores { str: score(8), dex: score(14), con: score(10), int: score(10), wis: score(8), cha: score(8) },
            health: Health { max_hp: 7, resistances: vec![DamageType::Fire], immunities: vec![], vulnerabilities: vec![DamageType::Cold] },
            actions: Actions {
                attacks: vec![
                    Attack {
                        name: "Scimitar".to_string(),
                        kind: AttackKind::Melee { reach: None },
                        hit: DamageDice(vec![(DamageType::Slashing, DExpr::try_from_str("1d6").unwrap())]),
                        ability: Ability::Dexterity,
                    },
                    Attack {
                        name: "Shortbow".to_string(),
                        kind: AttackKind::Ranged { range: Range::Long([80, 320]) },
                        hit: DamageDice(vec![(DamageType::Piercing, DExpr::try_from_str("1d6+2").unwrap())]),
                        ability: Ability::Dexterity,
                    },
                ],
            },
            ac: 15,
        },
    }
}

#[test]
fn written_sizes() {
    assert_eq!(CreatureSize::try_from_inner(CreatureSizeInner::Tiny).unwrap().0, RsCreatureSize::Tiny);
    // A written "medium" stands for Huge.
    assert_eq!(CreatureSize::try_from_inner(CreatureSizeInner::Medium).unwrap().0, RsCreatureSize::Huge);
    assert_eq!(CreatureSize::try_from_inner(CreatureSizeInner::Large).unwrap().0, RsCreatureSize::Large);
    let default = CreatureSize::try_from_inner(CreatureSizeInner::Gargantuan(None)).unwrap();
    assert_eq!(default.0.dims_squares(), (xander::measure::Squares(4), xander::measure::Squares(4)));
    let ok = CreatureSize::try_from_inner(CreatureSizeInner::Gargantuan(Some((GargantuanDimension(25), GargantuanDimension(30))))).unwrap();
    assert_eq!(ok.0.dims_squares(), (xander::measure::Squares(5), xander::measure::Squares(6)));
    assert_eq!(
        CreatureSize::try_from_inner(CreatureSizeInner::Gargantuan(Some((GargantuanDimension(10), GargantuanDimension(30))))).err(),
        Some(InvalidCreatureSize(10, 30))
    );
}

#[test]
fn written_challenge_ratings() {
    assert_eq!(deserialize_cr(&CrRaw::U8(2)), Some(Cr::try_new(2).unwrap()));
    assert_eq!(deserialize_cr(&CrRaw::U8(31)), None);
    assert_eq!(deserialize_cr(&CrRaw::String("1/4".to_string())), Some(Cr::Quarter));
    assert_eq!(deserialize_cr(&CrRaw::String("12".to_string())), Some(Cr::try_new(12).unwrap()));
    assert_eq!(deserialize_cr(&CrRaw::String("1/3".to_string())), None);
}

#[test]
fn written_stats() {
    assert_eq!(DamageType::Lighting.into_rust(), RsDamageType::Lighting);
    assert_eq!(DamageType::Thunder.into_rust(), RsDamageType::Thunder);
    assert_eq!(Ability::Charisma.into_rust(), RsAbility::Charisma);
    assert!(DExpr::try_from_str("three").is_err());
    assert_eq!(DExpr::try_from_str("2d8+1").unwrap().0, DiceExpr { qty: 2, sides: 8, bonus: 1 });
    let dice = DamageDice(vec![
        (DamageType::Fire, DExpr(DiceExpr { qty: 1, sides: 6, bonus: 0 })),
        (DamageType::Acid, DExpr(DiceExpr { qty: 2, sides: 4, bonus: 0 })),
    ])
    .into_damage();
    assert_eq!(dice.types(), 2);
    assert_eq!(dice.get(RsDamageType::Acid), Some(&DiceExpr { qty: 2, sides: 4, bonus: 0 }));
    assert_eq!(AbilityScore::try_from_u8(0).err(), Some(IllegalAbilityScore(0)));
    assert_eq!(
        AttackKind::Ranged { range: Range::Long([30, 120]) }.into_rust(),
        RsAttackKind::Ranged { range: RsRange::Long { short: Feet(30), long: Feet(120) } }
    );
    assert_eq!(AttackKind::Melee { reach: Some(10) }.into_rust(), RsAttackKind::Melee { reach: Some(Feet(10)) });
    assert!(MonsterType::resolve("DRAGON", &vec!["chromatic".to_string()]).is_none());
    assert!(MonsterType::resolve("WYRM", &vec![]).is_none());
}

#[test]
fn a_creature_from_its_file() {
    let creature = WithId { value: goblin(), id: CreatureId(9) }.into_creature();
    assert_eq!(creature.id, CreatureId(9));
    assert_eq!(creature.name, "Goblin");
    assert_eq!(creature.size, RsCreatureSize::Small);
    match &creature.kind {
        RsCreatureKind::Monster(m) => {
            assert_eq!(m.cr, Cr::Quarter);
            assert_eq!(m.ty.ty, RsMonsterType::Humanoid);
        },
        RsCreatureKind::Character(_) => panic!("a monster was expected"),
    }
    assert_eq!(creature.stats.speed, Feet(30));
    assert_eq!(creature.modifier(RsAbility::Dexterity).value(), 2);
    assert_eq!(creature.stats.health.current.value, 7);
    assert_eq!(creature.stats.health.riv.resistances, vec![Resistance(DamageEffect { to: DamageFilter::Type(RsDamageType::Fire) })]);
    assert_eq!(creature.stats.health.riv.vulnerabilities.len(), 1);
    assert_eq!(creature.stats.ac, 15);
    let attacks = &creature.stats.actions.attacks.attacks;
    assert_eq!(attacks.len(), 2);
    assert_eq!(attacks[0].name, "Scimitar");
    assert_eq!(attacks[0].base, SetMonsterAttack);
    assert_eq!(attacks[1].kind, RsAttackKind::Ranged { range: RsRange::Long { short: Feet(80), long: Feet(320) } });
    assert_eq!(attacks[1].hit.get(RsDamageType::Piercing), Some(&DiceExpr { qty: 1, sides: 6, bonus: 2 }));
    assert_eq!(attacks[1].ability, RsAbility::Dexterity);
    assert_eq!(creature.stats.actions.attacks.left.count(), 1);
    assert!(creature.proficiency_bonus().value() == 2);
}

#[test]
fn loading_hands_out_ids() {
    let mut combat = Combat::new(Arena::test());
    let a = combat.load_raw_character(goblin());
    let b = combat.load_raw_character(goblin());
    assert_eq!((a.id, b.id), (CreatureId(0), CreatureId(1)));
    assert_eq!(combat.creature_id, 2);
}
