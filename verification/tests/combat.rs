use xander::combat::action::{test_attack, Action, ActionType, AttackKind, AttackUseError, Attacking, NoActionLeft, Range};
use xander::combat::arena::{Arena, Dimensions, Direction, Position};
use xander::combat::combatant::{Actor, Combat, CombatStep, EnrollCombatantError, MAX_TURNS};
use xander::combat::reaction::{AttackOfOpportunity, Reaction, Timeslot};
use xander::combat::strike::{hit_damage_dice, initiative_check, initiative_score, resolve_attack_roll, AttackResult};
use xander::combat::turn::CannotMove;
use xander::combat::win::GameEndReport;
use xander::creature::actions::{Actions, Reaction as CreatureReaction};
use xander::creature::marker::Markers;
use xander::creature::monster::{Cr, Monster, MonsterType, Type};
use xander::creature::stat_block::{AbilityModifiers, AbilityScores, StatBlock};
use xander::creature::{Creature, CreatureId, CreatureKind, CreatureSize};
use xander::health::damage::DamageType;
use xander::health::riv::DamageRoll;
use xander::health::{Dead, Health};
use xander::measure::{Feet, Squares};
use xander::stats::ability::{Ability, AbilityScore};
use xander::stats::d20_test::{AttackRollResult, Check, Critical, D20Roll, DC};
use xander::stats::proficiency::Proficiencies;

fn score(v: u8) -> AbilityScore {
    AbilityScore::try_from_u8(v).unwrap()
}

fn test_creature(id: u32, name: &str) -> Creature {
    let scores = AbilityScores { str: score(9), dex: score(6), con: score(8), int: score(10), wis: score(6), cha: score(12) };
    let mut actions = Actions::new();
    actions.attacks.attacks.push(test_attack("Club"));
    Creature {
        id: CreatureId(id),
        name: name.to_string(),
        size: CreatureSize::Medium,
        kind: CreatureKind::Monster(Monster { cr: Cr::Half, ty: Type { ty: MonsterType::Humanoid, tags: vec![] } }),
        stats: StatBlock {
            speed: Feet(30),
            proficiencies: Proficiencies::new(),
            scores,
            modifiers: AbilityModifiers::new(&scores),
            health: Health::with_set_max(7).unwrap(),
            actions,
            reaction: CreatureReaction::new(),
            ac: 6,
            markers: Markers::new(),
        },
    }
}

fn pos(x: u32, y: u32) -> Position {
    Position { x: Squares(x), y: Squares(y) }
}

fn ids(combat: &Combat) -> Vec<u32> {
    combat.initiative.iter().map(|c| c.creature.id.0).collect()
}

/// Two creatures side by side on a 5 by 5 grid, the turn of the first under way.
fn duel() -> Combat {
    let mut combat = Combat::new(Arena::test());
    combat.enroll(test_creature(0, "Alice"), Actor::GameMaster, pos(0, 0), 12).unwrap();
    combat.enroll(test_creature(1, "Bob"), Actor::Agent(0), pos(1, 0), 8).unwrap();
    combat.start();
    assert_eq!(combat.advance(), CombatStep::Turn(CreatureId(1)));
    assert_eq!(combat.advance(), CombatStep::Turn(CreatureId(0)));
    combat
}

#[test]
fn enroll_sorts_by_initiative_keeping_ties_in_order() {
    let mut combat = Combat::new(Arena::test());
    assert_eq!(combat.enroll(test_creature(1, "A"), Actor::GameMaster, pos(0, 0), 10), Ok(CreatureId(1)));
    assert_eq!(combat.enroll(test_creature(2, "B"), Actor::GameMaster, pos(1, 0), 15), Ok(CreatureId(2)));
    assert_eq!(combat.enroll(test_creature(3, "C"), Actor::GameMaster, pos(2, 0), 10), Ok(CreatureId(3)));
    assert_eq!(combat.enroll(test_creature(4, "D"), Actor::GameMaster, pos(3, 0), -2), Ok(CreatureId(4)));
    assert_eq!(ids(&combat), vec![2, 1, 3, 4]);
    assert_eq!(combat.turn_order_of(CreatureId(3)), 2);
    assert_eq!(combat.len_members(), 4);
    assert_eq!(combat.arena.at(pos(2, 0)).unwrap().occupants(), vec![3]);
}

#[test]
fn enroll_off_the_grid_is_refused() {
    let mut combat = Combat::new(Arena::test());
    assert_eq!(
        combat.enroll(test_creature(1, "A"), Actor::GameMaster, pos(5, 0), 10),
        Err(EnrollCombatantError::OutOfBounds)
    );
    assert_eq!(combat.len_members(), 0);
}

#[test]
fn turns_pass_in_initiative_order_and_rounds_wrap() {
    let mut combat = Combat::new(Arena::test());
    combat.enroll(test_creature(0, "A"), Actor::GameMaster, pos(0, 0), 3).unwrap();
    combat.enroll(test_creature(1, "B"), Actor::GameMaster, pos(4, 4), 9).unwrap();
    combat.start();
    assert!(combat.started);
    // The first tick moves past the first place.
    assert_eq!(combat.advance(), CombatStep::Turn(CreatureId(0)));
    assert_eq!(combat.clock.current_turn_order(), 1);
    assert_eq!(combat.advance(), CombatStep::Turn(CreatureId(1)));
    assert_eq!(combat.clock.current_turn_order(), 0);
    assert_eq!(combat.clock.rounds().0, 1);
    assert_eq!(combat.clock.turns().0, 2);
    assert_eq!(combat.current_turn.unwrap().combatant, CreatureId(1));
}

#[test]
fn dead_creatures_are_skipped_and_the_last_standing_wins() {
    let mut combat = Combat::new(Arena::test());
    combat.enroll(test_creature(0, "A"), Actor::GameMaster, pos(0, 0), 3).unwrap();
    combat.enroll(test_creature(1, "B"), Actor::GameMaster, pos(4, 4), 9).unwrap();
    combat.enroll(test_creature(2, "C"), Actor::GameMaster, pos(2, 2), 5).unwrap();
    combat.initiative[1].creature.stats.health.dead = Some(Dead);
    assert!(!combat.is_terminating());
    assert_eq!(combat.end_reports(), None);
    combat.start();
    assert_eq!(combat.advance(), CombatStep::Skipped(CreatureId(2)));
    combat.initiative[0].creature.stats.health.dead = Some(Dead);
    assert!(combat.is_terminating());
    let reports = vec![
        GameEndReport { won: true, me: CreatureId(0) },
        GameEndReport { won: false, me: CreatureId(1) },
        GameEndReport { won: false, me: CreatureId(2) },
    ];
    assert_eq!(combat.advance(), CombatStep::Finished(reports));
    assert_eq!(combat.dead_ids(), vec![1, 2]);
}

#[test]
fn everyone_dead_means_nobody_wins() {
    let mut combat = Combat::new(Arena::test());
    combat.enroll(test_creature(0, "A"), Actor::GameMaster, pos(0, 0), 3).unwrap();
    combat.enroll(test_creature(1, "B"), Actor::GameMaster, pos(4, 4), 9).unwrap();
    combat.initiative[0].creature.stats.health.dead = Some(Dead);
    combat.initiative[1].creature.stats.health.dead = Some(Dead);
    let reports = combat.end_reports().unwrap();
    assert_eq!(reports, vec![GameEndReport { won: false, me: CreatureId(1) }, GameEndReport { won: false, me: CreatureId(0) }]);
}

#[test]
fn a_lone_combatant_ends_the_combat() {
    let mut combat = Combat::new(Arena::test());
    assert!(combat.is_terminating());
    combat.enroll(test_creature(7, "A"), Actor::GameMaster, pos(0, 0), 3).unwrap();
    assert!(combat.is_terminating());
    assert_eq!(combat.end_reports(), Some(vec![GameEndReport { won: true, me: CreatureId(7) }]));
}

#[test]
fn the_combat_stops_at_the_turn_limit() {
    let mut combat = Combat::new(Arena::test());
    combat.enroll(test_creature(0, "A"), Actor::GameMaster, pos(0, 0), 3).unwrap();
    combat.enroll(test_creature(1, "B"), Actor::GameMaster, pos(4, 4), 9).unwrap();
    combat.start();
    let mut steps: u32 = 0;
    loop {
        match combat.advance() {
            CombatStep::TurnLimitReached => break,
            CombatStep::Turn(_) => steps += 1,
            other => panic!("unexpected step {other:?}"),
        }
    }
    assert_eq!(steps, MAX_TURNS);
    assert_eq!(combat.clock.turns().0, MAX_TURNS);
}

#[test]
fn next_creature_ids_count_up() {
    let mut combat = Combat::new(Arena::test());
    assert_eq!(combat.next_creature_id(), 0);
    assert_eq!(combat.next_creature_id(), 1);
    assert_eq!(combat.creature_id, 2);
}

#[test]
fn an_attack_in_reach_is_set_up_and_spends_an_attack() {
    let mut combat = duel();
    let setup = combat.begin_attack(0, CreatureId(1)).unwrap();
    assert_eq!(setup.attacker, CreatureId(0));
    assert_eq!(setup.target, CreatureId(1));
    assert_eq!(setup.test_dice, D20Roll::Single);
    assert_eq!(setup.modifier.value(), -1);
    assert_eq!(setup.prof_bonus, None);
    assert_eq!(setup.ac.0, 6);
    let dice = setup.damage.get(DamageType::Bludgeoning).copied().unwrap();
    assert_eq!((dice.qty, dice.sides, dice.bonus), (1, 4, -1));
    assert_eq!(combat.initiative[0].creature.stats.actions.attacks.left.count(), 0);
    // No attack is left for a second one.
    assert_eq!(combat.begin_attack(0, CreatureId(1)).err(), Some(AttackUseError::OutOfAttacks));
}

#[test]
fn an_attack_out_of_reach_is_refused() {
    let mut combat = Combat::new(Arena::test());
    combat.enroll(test_creature(0, "A"), Actor::GameMaster, pos(0, 0), 12).unwrap();
    combat.enroll(test_creature(1, "B"), Actor::GameMaster, pos(3, 0), 8).unwrap();
    combat.start();
    combat.advance();
    combat.advance();
    assert_eq!(combat.begin_attack(0, CreatureId(1)).err(), Some(AttackUseError::OutOfRange));
    assert_eq!(combat.initiative[0].creature.stats.actions.attacks.left.count(), 1);
}

#[test]
fn no_attack_after_another_action() {
    let mut combat = duel();
    assert_eq!(combat.dash(), Ok(()));
    assert_eq!(combat.begin_attack(0, CreatureId(1)).err(), Some(AttackUseError::NoActionLeft(NoActionLeft)));
    assert_eq!(combat.dodge(), Err(NoActionLeft));
}

#[test]
fn a_hit_deals_damage_and_records_the_attack() {
    let mut combat = duel();
    let setup = combat.begin_attack(0, CreatureId(1)).unwrap();
    let (total, result) = resolve_attack_roll(&setup, &vec![12]);
    assert_eq!(total, 11);
    assert_eq!(result, AttackRollResult::Hit(None));
    let dice = hit_damage_dice(setup.damage, false);
    let faces: Vec<Vec<u32>> = (0..13).map(|i| if i == 1 { vec![4] } else { vec![] }).collect();
    let rolled = dice.roll(&faces);
    assert_eq!(rolled.total(), 3);
    let report = combat.finish_attack(CreatureId(1), total, result, Some(rolled));
    assert_eq!(report.attack_roll_total, 11);
    match report.result {
        AttackResult::Hit { critical: None, report: Some(r) } => assert_eq!(r.total, 3),
        other => panic!("unexpected result {other:?}"),
    }
    assert_eq!(combat.current_turn.unwrap().action, Some(ActionType::Attack));
    // Hit points are left as they were, and Bob lives.
    assert_eq!(combat.initiative[1].creature.stats.health.current.value, 7);
    assert!(!combat.initiative[1].creature.is_dead());
}

#[test]
fn a_big_hit_kills_a_monster() {
    let mut combat = duel();
    let setup = combat.begin_attack(0, CreatureId(1)).unwrap();
    let (total, result) = resolve_attack_roll(&setup, &vec![20]);
    assert_eq!(result, AttackRollResult::Hit(Some(Critical)));
    let dice = hit_damage_dice(setup.damage, true);
    assert_eq!(dice.get(DamageType::Bludgeoning).unwrap().qty, 2);
    let mut damage = xander::health::damage::Damage::new();
    damage.set(DamageType::Bludgeoning, Some(DamageRoll::new(9)));
    combat.finish_attack(CreatureId(1), total, result, Some(damage));
    assert!(combat.initiative[1].creature.is_dead());
}

#[test]
fn a_miss_records_the_attack_and_deals_nothing() {
    let mut combat = duel();
    let setup = combat.begin_attack(0, CreatureId(1)).unwrap();
    let (total, result) = resolve_attack_roll(&setup, &vec![1]);
    assert_eq!(result, AttackRollResult::Miss);
    let report = combat.finish_attack(CreatureId(1), total, result, None);
    assert!(matches!(report.result, AttackResult::Miss));
    assert_eq!(combat.current_turn.unwrap().action, Some(ActionType::Attack));
}

#[test]
fn attacks_on_a_dodging_creature_have_disadvantage() {
    let mut combat = duel();
    // Alice dodges on her turn in the first round.
    assert_eq!(combat.dodge(), Ok(()));
    assert_eq!(combat.advance(), CombatStep::Turn(CreatureId(1)));
    assert_eq!(combat.advance(), CombatStep::Turn(CreatureId(0)));
    assert_eq!(combat.advance(), CombatStep::Turn(CreatureId(1)));
    // Bob attacks her in the next round, before her next turn has come round again.
    let setup = combat.begin_attack(0, CreatureId(0)).unwrap();
    assert_eq!(setup.test_dice, D20Roll::KeepLowest);
    let (_, result) = resolve_attack_roll(&setup, &vec![18, 3]);
    assert_eq!(result, AttackRollResult::Miss);
}

#[test]
fn dashing_doubles_speed_for_the_turn() {
    let mut combat = duel();
    assert_eq!(combat.mover_speed(), Feet(30));
    assert_eq!(combat.dash(), Ok(()));
    assert_eq!(combat.mover_speed(), Feet(60));
    assert_eq!(combat.current_turn.unwrap().action, Some(ActionType::Dash));
    assert_eq!(combat.advance(), CombatStep::Turn(CreatureId(1)));
    assert_eq!(combat.advance(), CombatStep::Turn(CreatureId(0)));
    assert_eq!(combat.mover_speed(), Feet(30));
}

#[test]
fn moving_costs_five_feet_until_speed_is_spent() {
    let mut combat = duel();
    assert_eq!(combat.plan_move(Direction::Right), Err(CannotMove::SquareOccupied));
    assert_eq!(combat.plan_move(Direction::Up), Err(CannotMove::OutOfBounds));
    assert_eq!(combat.plan_move(Direction::Left), Err(CannotMove::OutOfBounds));
    let to = combat.plan_move(Direction::Bottom).unwrap();
    assert_eq!(to, pos(0, 1));
    combat.complete_move(to);
    assert_eq!(combat.initiative[0].position, pos(0, 1));
    assert_eq!(combat.arena.at(pos(0, 0)).unwrap().occupants(), Vec::<u32>::new());
    assert_eq!(combat.arena.at(pos(0, 1)).unwrap().occupants(), vec![0]);
    for _ in 0..4 {
        let to = combat.plan_move(Direction::Right).unwrap();
        combat.complete_move(to);
    }
    let to = combat.plan_move(Direction::Bottom).unwrap();
    combat.complete_move(to);
    assert_eq!(combat.initiative[0].position, pos(4, 2));
    assert_eq!(combat.current_turn.unwrap().movement.used, Feet(30));
    assert_eq!(combat.plan_move(Direction::Up), Err(CannotMove::NoMovementLeft));
    assert_eq!(combat.available_movement_directions(), vec![None; 8]);
}

#[test]
fn open_directions_from_a_corner() {
    let combat = duel();
    let dirs = combat.available_movement_directions();
    assert_eq!(
        dirs,
        vec![None, None, None, Some(Direction::BottomRight), Some(Direction::Bottom), None, None, None]
    );
}

#[test]
fn a_dead_creature_does_not_block_a_square() {
    let mut combat = duel();
    combat.initiative[1].creature.stats.health.dead = Some(Dead);
    assert!(!combat.square_occupied(pos(1, 0)));
    assert_eq!(combat.plan_move(Direction::Right), Ok(pos(1, 0)));
}

#[test]
fn options_on_a_turn() {
    let mut combat = duel();
    let options = combat.available_for_slot(Timeslot::Turn);
    let pairs: Vec<(Action, bool)> = options.iter().map(|a| (*a.as_ref().value(), a.is_available())).collect();
    let club = Action::Attack(Attacking { me: CreatureId(0), target: CreatureId(1), attack: 0 });
    assert_eq!(pairs, vec![(Action::Dash, true), (Action::Disengage, true), (Action::Dodge, true), (club, true)]);
    assert_eq!(combat.disengage(), Ok(()));
    let options = combat.available_for_slot(Timeslot::Turn);
    assert!(options.iter().all(|a| !a.is_available()));
    assert_eq!(combat.actions_for(CreatureId(0)), vec![Action::Dash, Action::Disengage, Action::Dodge, club]);
}

#[test]
fn leaving_reach_provokes_an_attack_of_opportunity() {
    let mut combat = duel();
    // Alice walks away from Bob.
    let to = combat.plan_move(Direction::Bottom).unwrap();
    assert!(!combat.provokes_opportunity_attack(CreatureId(1), CreatureId(0), to));
    combat.complete_move(to);
    let to = combat.plan_move(Direction::Bottom).unwrap();
    assert!(combat.provokes_opportunity_attack(CreatureId(1), CreatureId(0), to));
    assert!(!combat.provokes_opportunity_attack(CreatureId(0), CreatureId(0), to));
    let aoo = AttackOfOpportunity { to, me: CreatureId(1), target: CreatureId(0) };
    assert_eq!(Reaction::AttackOfOpportunity(aoo).me(), CreatureId(1));
    assert_eq!(Timeslot::Reaction(Reaction::AttackOfOpportunity(aoo)).me(&combat), CreatureId(1));
    let setup = combat.begin_opportunity_attack(aoo, 0).unwrap();
    assert_eq!(setup.attacker, CreatureId(1));
    // Nothing is spent by an attack of opportunity.
    assert_eq!(combat.initiative[1].creature.stats.actions.attacks.left.count(), 1);
}

#[test]
fn ranged_attacks_are_not_reactions() {
    let mut combat = duel();
    combat.initiative[1].creature.stats.actions.attacks.attacks[0].kind =
        AttackKind::Ranged { range: Range::Single(Feet(60)) };
    let aoo = AttackOfOpportunity { to: pos(0, 1), me: CreatureId(1), target: CreatureId(0) };
    assert_eq!(combat.begin_opportunity_attack(aoo, 0).err(), Some(AttackUseError::OutOfTurn));
}

#[test]
fn ranged_attack_in_close_combat_has_disadvantage() {
    let mut combat = duel();
    combat.initiative[0].creature.stats.actions.attacks.attacks[0].kind =
        AttackKind::Ranged { range: Range::Single(Feet(60)) };
    let setup = combat.begin_attack(0, CreatureId(1)).unwrap();
    assert_eq!(setup.test_dice, D20Roll::KeepLowest);
}

#[test]
fn the_grid_picture_shows_initials() {
    let combat = duel();
    let picture = combat.display_debug();
    let border = "─".repeat(11);
    let empty = "│ · · · · · │\n";
    let expected = format!("┌{border}┐\n│ A B · · · │\n{empty}{empty}{empty}{empty}└{border}┘\n");
    assert_eq!(picture, expected);
}

#[test]
fn everyone_else_is_an_enemy() {
    let combat = duel();
    let view = combat.view(CreatureId(0));
    assert_eq!(view.allies, vec![]);
    assert_eq!(view.enemies, vec![CreatureId(1)]);
}

#[test]
fn initiative_is_a_dexterity_check() {
    assert_eq!(initiative_check(), Check { ability: Ability::Dexterity, prof: None, dc: Some(DC(100)) });
    let creature = test_creature(0, "A");
    assert_eq!(initiative_score(&creature, 15), 13);
}

#[test]
fn dodging_grants_advantage_on_dexterity_saves() {
    let mut combat = duel();
    let dex = xander::stats::d20_test::Save { ability: Ability::Dexterity, prof: None, dc: Some(DC(12)) };
    let str_save = xander::stats::d20_test::Save { ability: Ability::Strength, prof: None, dc: Some(DC(12)) };
    assert_eq!(combat.save_test_dice(0, &dex), D20Roll::Single);
    combat.dodge().unwrap();
    assert_eq!(combat.save_test_dice(0, &dex), D20Roll::KeepHighest);
    assert_eq!(combat.save_test_dice(0, &str_save), D20Roll::Single);
}

#[test]
fn grid_dimensions() {
    let arena = Arena::new(Dimensions { width: Squares(3), height: Squares(2) });
    assert_eq!(arena.dimensions(), Dimensions { width: Squares(3), height: Squares(2) });
    assert!(arena.at(pos(2, 1)).is_some());
    assert!(arena.at(pos(3, 1)).is_none());
}

#[test]
fn checks_and_saves_add_modifier_and_proficiency() {
    let mut creature = test_creature(0, "A");
    creature.stats.proficiencies.insert(xander::stats::proficiency::ProficiencyBase::Skill(
        xander::stats::proficiency::SkillProficiency { skill: xander::stats::skill::Skill::Stealth },
    ));
    let stealth = Check::for_skill(xander::stats::skill::Skill::Stealth, Some(DC(15)));
    // Dexterity 6 gives -2; a monster of rating 1/2 has a proficiency bonus of 2.
    assert_eq!(creature.check_roll(&stealth, 15), (15, Some(xander::stats::d20_test::CheckResult::Pass)));
    assert_eq!(creature.check_roll(&stealth, 14), (14, Some(xander::stats::d20_test::CheckResult::Fail)));
    let arcana = Check::for_skill(xander::stats::skill::Skill::Arcana, None);
    assert_eq!(creature.check_roll(&arcana, 10), (10, None));
    let save = xander::stats::d20_test::Save { ability: Ability::Charisma, prof: None, dc: Some(DC(11)) };
    assert_eq!(creature.save_roll(&save, 10), (11, Some(xander::stats::d20_test::SaveResult::Pass)));
}

#[test]
fn a_move_is_called_off_when_the_mover_dies() {
    let mut combat = duel();
    assert_eq!(combat.move_cancelled(CreatureId(0)), None);
    combat.initiative[0].creature.stats.health.dead = Some(Dead);
    assert_eq!(combat.move_cancelled(CreatureId(0)), Some(xander::combat::moves::MovedCancelledReason::Died));
}
