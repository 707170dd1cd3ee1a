use xander::creature::actions::{AlreadyUsedReaction, AttacksLeft, Attacks, Reaction};
use xander::creature::character::{InvalidLevel, Level};
use xander::creature::marker::{Marker, MarkerKind, Markers};
use xander::creature::monster::{check_cr_repr, parse_u8, Cr, CrParseError, IntErrorKind, InvalidArchivedCrError, MonsterType, NonIntegerError, OutOfBoundsError};
use xander::creature::size::{ArchivedCreatureSize, CreatureSize, GargantuanDim, InvalidCreatureSizeError};
use xander::combat::action::{test_attack, AttackKind, AttackUseError, Range};
use xander::combat::clock::CombatClock;
use xander::dice::DiceExpr;
use xander::measure::currency::{Coin, Currency, CP, EP, GP, PP, SP};
use xander::measure::{Duration, Feet, Rounds, Squares, Turns};
use xander::stats::ability::{Ability, AbilityScore, IllegalAbilityScore};
use xander::stats::proficiency::{
    Proficiencies, ProficiencyApplicationBase, ProficiencyBase, ProficiencyBonus, SaveProficiency, SkillProficiency,
};
use xander::stats::skill::Skill;

#[test]
fn ability_scores_and_modifiers() {
    assert_eq!(AbilityScore::try_from_u8(31).err(), Some(IllegalAbilityScore(31)));
    assert_eq!(AbilityScore::try_from_u8(0).err(), Some(IllegalAbilityScore(0)));
    assert_eq!(AbilityScore::try_from_u8(10).unwrap().modifier().value(), 0);
    assert_eq!(AbilityScore::try_from_u8(9).unwrap().modifier().value(), -1);
    assert_eq!(AbilityScore::try_from_u8(1).unwrap().modifier().value(), -5);
    assert_eq!(AbilityScore::try_from_u8(30).unwrap().modifier().value(), 10);
    assert_eq!(AbilityScore::zero().value(), 0);
    assert_eq!(Ability::len(), 6);
    assert_eq!(Ability::Wisdom.as_index(), 4);
    assert_eq!(Skill::len(), 18);
    assert_eq!(Skill::Stealth.ability(), Ability::Dexterity);
    assert_eq!(Skill::Acrobatics.as_index(), 0);
}

#[test]
fn proficiencies_apply_to_what_they_name() {
    let mut profs = Proficiencies::new();
    profs.insert(ProficiencyBase::Skill(SkillProficiency { skill: Skill::Stealth }));
    profs.insert(ProficiencyBase::Save(SaveProficiency { ability: Ability::Constitution }));
    assert_eq!(
        profs.get(&ProficiencyApplicationBase::Skill(Skill::Stealth)),
        Some(ProficiencyBase::Skill(SkillProficiency { skill: Skill::Stealth }))
    );
    assert_eq!(profs.get(&ProficiencyApplicationBase::Skill(Skill::Arcana)), None);
    assert!(profs.get(&ProficiencyApplicationBase::Ability(Ability::Constitution)).is_some());
    assert!(ProficiencyApplicationBase::Skill(Skill::Arcana).contains(&ProficiencyApplicationBase::Skill(Skill::Arcana)));
    assert_eq!(ProficiencyBonus::new(3).value(), 3);
}

#[test]
fn levels_and_their_bonus() {
    assert_eq!(Level::try_from_u8(0).err(), Some(InvalidLevel(0)));
    assert_eq!(Level::try_from_u8(21).err(), Some(InvalidLevel(21)));
    assert_eq!(Level::try_from_u8(1).unwrap().proficiency_bonus().value(), 2);
    assert_eq!(Level::try_from_u8(5).unwrap().proficiency_bonus().value(), 3);
    assert_eq!(Level::try_from_u8(20).unwrap().proficiency_bonus().value(), 6);
    assert_eq!(Level::try_from_u8(13).unwrap().value(), 13);
}

#[test]
fn challenge_ratings() {
    assert_eq!(Cr::try_new(31).err(), Some(OutOfBoundsError(31)));
    assert_eq!(Cr::parse("1/4"), Ok(Cr::Quarter));
    assert_eq!(Cr::parse("17").unwrap().to_integer(), Ok(17));
    assert_eq!(Cr::parse("31"), Err(CrParseError::Bounds(OutOfBoundsError(31))));
    assert_eq!(Cr::parse("x"), Err(CrParseError::Format(IntErrorKind::InvalidDigit)));
    assert_eq!(Cr::parse(""), Err(CrParseError::Format(IntErrorKind::Empty)));
    assert_eq!(parse_u8("256"), Err(IntErrorKind::PosOverflow));
    assert_eq!(parse_u8("255"), Ok(255));
    assert_eq!(Cr::Half.to_integer(), Err(NonIntegerError(Cr::Half)));
    assert_eq!(Cr::Eighth.to_string(), "1/8");
    assert_eq!(Cr::try_new(23).unwrap().to_string(), "23");
    assert_eq!(Cr::Eighth.cmp(&Cr::Half), std::cmp::Ordering::Less);
    assert_eq!(Cr::try_new(0).unwrap().cmp(&Cr::Eighth), std::cmp::Ordering::Less);
    assert_eq!(Cr::try_new(1).unwrap().cmp(&Cr::Half), std::cmp::Ordering::Greater);
    assert_eq!(Cr::try_new(4).unwrap().proficiency_bonus().value(), 2);
    assert_eq!(Cr::try_new(5).unwrap().proficiency_bonus().value(), 3);
    assert_eq!(Cr::try_new(30).unwrap().proficiency_bonus().value(), 9);
    assert_eq!(Cr::Quarter.proficiency_bonus().value(), 2);
    assert_eq!(check_cr_repr(Cr::Half.to_repr()), Ok(Cr::Half));
    assert_eq!(check_cr_repr(Cr::try_new(12).unwrap().to_repr()), Ok(Cr::try_new(12).unwrap()));
    assert_eq!(check_cr_repr(31), Err(InvalidArchivedCrError));
}

#[test]
fn monster_types_by_id() {
    assert_eq!(MonsterType::lookup("UNDEAD"), Some(MonsterType::Undead));
    assert_eq!(MonsterType::lookup("undead"), None);
    assert_eq!(MonsterType::Fey.id(), "FEY");
    assert_eq!(MonsterType::Fey.title(), "Fey");
    assert_eq!(MonsterType::all().len(), 14);
}

#[test]
fn creature_sizes() {
    assert_eq!(CreatureSize::Medium.dims_squares(), (Squares(1), Squares(1)));
    assert_eq!(CreatureSize::Huge.dims_squares(), (Squares(3), Squares(3)));
    let garg = CreatureSize::Gargantuan(GargantuanDim::new(25).unwrap(), GargantuanDim::new(40).unwrap());
    assert_eq!(garg.dims_squares(), (Squares(5), Squares(8)));
    assert!(GargantuanDim::new(15).is_none());
    assert!(GargantuanDim::new(22).is_none());
    assert_eq!(ArchivedCreatureSize::from_size(CreatureSize::Large), ArchivedCreatureSize(4, 0));
    assert_eq!(ArchivedCreatureSize::from_size(garg).as_size(), garg);
    assert_eq!(ArchivedCreatureSize(3, 1).check(), Err(InvalidCreatureSizeError::NonzeroSecondComponent(1)));
    assert_eq!(ArchivedCreatureSize(21, 20).check(), Err(InvalidCreatureSizeError::NotMultipleOfFive(21, 20)));
    assert_eq!(ArchivedCreatureSize(7, 0).check(), Err(InvalidCreatureSizeError::InvalidFirstComponent(7)));
}

#[test]
fn distances_and_durations() {
    assert_eq!(Squares::from(Feet(12)), Squares(3));
    assert_eq!(Squares::from(Feet(15)), Squares(3));
    assert_eq!(Feet::from_squares(Squares(4)), Feet(20));
    assert_eq!(Squares(3).checked_add_signed(-4), None);
    assert_eq!(Squares(3).checked_add_signed(-3), Some(Squares(0)));
    assert_eq!(Feet(10).add(Feet(5)), Feet(15));
    assert_eq!(Feet(10).sub(Feet(5)), Feet(5));
    assert_eq!(Duration::rounds(10).as_mins(), 1);
    assert_eq!(Duration::hour(1).as_rounds(), 600);
    assert_eq!(Duration::minutes(120).as_hours(), 2);
    assert_eq!(Duration::seconds(59).as_mins(), 0);
    assert_eq!(Duration::round(1).as_rounds(), 1);
    assert_eq!(Duration::minute(1).as_rounds(), 10);
    assert_eq!(Duration::second(7).as_rounds(), 1);
    assert_eq!(Duration::hours(2).as_mins(), 120);
    assert_eq!(Rounds(3).add(Rounds(4)), Rounds(7));
    assert_eq!(Turns(9).sub(Turns(4)), Turns(5));
}

#[test]
fn coins_are_worth_copper() {
    assert_eq!(GP(3).value().0, 300);
    assert_eq!(PP(2).value().0, 2000);
    assert_eq!(EP(1).value().0, 50);
    assert_eq!(SP(4).value().0, 40);
    assert_eq!(CP(4).amount(), 4);
    assert_eq!(PP(u32::MAX).value().0, u32::MAX);
    let purse = Currency { cp: CP(1), sp: SP(2), ep: EP(3), gp: GP(4), pp: PP(5) };
    assert_eq!(GP::currency(&purse).amount(), 4);
}

#[test]
fn dice_expressions() {
    assert_eq!(DiceExpr::parse("2d6+3"), Some(DiceExpr { qty: 2, sides: 6, bonus: 3 }));
    assert_eq!(DiceExpr::parse("d4"), Some(DiceExpr { qty: 1, sides: 4, bonus: 0 }));
    assert_eq!(DiceExpr::parse("1d8-1"), Some(DiceExpr { qty: 1, sides: 8, bonus: -1 }));
    assert_eq!(DiceExpr::parse("7"), Some(DiceExpr { qty: 0, sides: 0, bonus: 7 }));
    assert_eq!(DiceExpr::parse("2x6"), None);
    assert_eq!(DiceExpr::parse(""), None);
    assert_eq!(DiceExpr { qty: 2, sides: 6, bonus: 3 }.total_from(&vec![1, 6]), 10);
    assert_eq!(DiceExpr::flat(4).doubled_dice(), DiceExpr::flat(4));
    assert_eq!(DiceExpr { qty: 3, sides: 4, bonus: 1 }.doubled_dice().qty, 6);
    assert_eq!(DiceExpr { qty: 3, sides: 4, bonus: 1 }.plus(-2).bonus, -1);
}

#[test]
fn attacks_left_and_reactions() {
    let mut left = AttacksLeft::new();
    assert!(left.can_attack());
    assert_eq!(left.use_attack(), Ok(()));
    assert_eq!(left.use_attack(), Err(AttackUseError::OutOfAttacks));
    assert_eq!(left.count(), 0);
    left.reset(2);
    assert_eq!(left.count(), 2);

    let mut reaction = Reaction::new();
    assert!(!reaction.used(Rounds(2), 1, 1));
    assert_eq!(reaction.mark_used(Rounds(2), 1, 1), Ok(()));
    assert_eq!(reaction.used_in(), Some(Rounds(2)));
    assert!(reaction.used(Rounds(2), 1, 1));
    assert_eq!(reaction.mark_used(Rounds(2), 1, 1), Err(AlreadyUsedReaction));
    // It comes back at the creature's next turn.
    assert!(!reaction.used(Rounds(3), 1, 1));
}

#[test]
fn attack_availability_by_range() {
    let mut attacks = Attacks::new();
    attacks.attacks.push(test_attack("Club"));
    let mut bow = test_attack("Bow");
    bow.kind = AttackKind::Ranged { range: Range::Single(Feet(80)) };
    attacks.attacks.push(bow);
    let near: Vec<bool> = attacks.attacks(false, Feet(5)).iter().map(|a| a.is_available()).collect();
    assert_eq!(near, vec![true, true]);
    let reacting: Vec<bool> = attacks.attacks(true, Feet(5)).iter().map(|a| a.is_available()).collect();
    assert_eq!(reacting, vec![true, false]);
    let far: Vec<bool> = attacks.attacks(false, Feet(10)).iter().map(|a| a.is_available()).collect();
    assert_eq!(far, vec![false, true]);
    assert!(Range::Long { short: Feet(30), long: Feet(120) }.within(Feet(40)));
    assert!(!Range::Long { short: Feet(30), long: Feet(120) }.within(Feet(20)));
}

#[test]
fn markers_last_their_time() {
    let mut markers = Markers::new();
    markers.push(Marker { kind: MarkerKind::Dashing, turn: Turns(4), round: Rounds(2) });
    markers.push(Marker { kind: MarkerKind::Dodging, turn: Turns(4), round: Rounds(2) });
    assert!(markers.contains(MarkerKind::Dashing, Turns(4), Rounds(2), 1, 1));
    assert!(!markers.contains(MarkerKind::Dashing, Turns(5), Rounds(2), 1, 1));
    assert!(markers.contains(MarkerKind::Dodging, Turns(5), Rounds(2), 1, 1));
    assert!(!markers.contains(MarkerKind::Dodging, Turns(6), Rounds(3), 1, 1));
    assert!(!markers.contains(MarkerKind::Disengaging, Turns(4), Rounds(2), 1, 1));
    assert_eq!(markers.count_alive(MarkerKind::Dashing, Turns(4), Rounds(2), 1, 1), 1);
    assert_eq!(markers.iter().len(), 2);
}

#[test]
fn the_clock_counts_turns_and_rounds() {
    let mut clock = CombatClock::new();
    clock.tick(3);
    clock.tick(3);
    assert_eq!((clock.rounds().0, clock.turns().0, clock.current_turn_order()), (0, 2, 2));
    clock.tick(3);
    assert_eq!((clock.rounds().0, clock.turns().0, clock.current_turn_order()), (1, 3, 0));
}

#[test]
fn many_ticks_count_turns_places_and_rounds() {
    for n in 1..5usize {
        let mut clock = CombatClock::new();
        for k in 1..=23u32 {
            clock.tick(n);
            assert_eq!(clock.turns().0, k);
            assert_eq!(clock.current_turn_order(), k as usize % n);
            assert_eq!(clock.rounds().0, k / n as u32);
        }
    }
}
