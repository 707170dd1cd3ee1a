use xander::combat::arena::{Arena, Dimensions, Direction, Position, Square};
use xander::combat::turn::{ActionTransaction, Movement, Turn};
use xander::combat::action::{ActionType, NoActionLeft};
use xander::combat::utils::{next_turn_reached, Availability};
use xander::combat::affiliation::Affiliation;
use xander::combat::combatant::{test_combatant, Actor};
use xander::creature::{test_creature, Cr, CreatureId, CreatureKind, CreatureSize};
use xander::measure::{Feet, Squares};
use xander::stats::d20_test::{
    d20_test, equals_or_exceeds, Advantage, AttackRollResult, Check, CheckResult, Critical, D20Roll, D20TestRoll,
    Disadvantage, Save, SaveResult, AC, DC,
};
use xander::stats::ability::Ability;
use xander::stats::skill::Skill;
use xander::stats::proficiency::ProficiencyApplicationBase;

fn pos(x: u32, y: u32) -> Position {
    Position { x: Squares(x), y: Squares(y) }
}

#[test]
fn distance_between() {
    fn dist(p1: (u32, u32), p2: (u32, u32)) -> u32 {
        let from = Position { x: Squares(p1.0), y: Squares(p1.1) };
        let to = Position { x: Squares(p2.0), y: Squares(p2.1) };
        Arena::distance(from, to).0
    }

    let d1 = dist((3, 3), (2, 2));
    assert_eq!(d1, 1);
}

#[test]
fn distance_counts_diagonals_as_one_step() {
    assert_eq!(Arena::distance(pos(0, 0), pos(4, 1)).0, 4);
    assert_eq!(Arena::distance(pos(4, 1), pos(0, 0)).0, 4);
    assert_eq!(Arena::distance(pos(2, 7), pos(2, 7)).0, 0);
    assert_eq!(Arena::distance(pos(10, 0), pos(0, 3)).0, 10);
}

#[test]
fn around() {
    let mut arena = Arena::new(Dimensions { width: Squares(5), height: Squares(5) });
    assert!(arena.add_occupant(pos(0, 0), 0));
    assert_eq!(arena.at(pos(0, 0)).unwrap().occupants(), vec![0]);

    let around = arena.around(Position { x: Squares(0), y: Squares(5343) });
    assert!(around.is_none());

    let around = arena.around(pos(0, 0)).unwrap();
    assert_eq!(
        around.clockwise,
        vec![None, None, Some(pos(1, 0)), Some(pos(1, 1)), Some(pos(0, 1)), None, None, None]
    );
    let around = arena.around(pos(2, 2)).unwrap();
    assert_eq!(around.clockwise[0], Some(pos(2, 1)));
    assert_eq!(around.clockwise[7], Some(pos(1, 1)));
}

#[test]
fn steps_in_each_direction() {
    let p = pos(5, 5);
    assert_eq!(p.add(Direction::Up), Some(pos(5, 4)));
    assert_eq!(p.add(Direction::TopRight), Some(pos(6, 4)));
    assert_eq!(p.add(Direction::Left), Some(pos(4, 5)));
    assert_eq!(pos(0, 3).add(Direction::TopLeft), None);
    assert_eq!(Direction::at(4), Direction::Bottom);
    assert_eq!(Direction::BottomLeft.offset(), (-1, 1));
}

#[test]
fn squares_hold_occupants_in_order() {
    let mut sq = Square::new();
    sq.add_occupant(3);
    sq.add_occupant(4);
    sq.add_occupant(5);
    assert!(sq.is_occupied(&vec![3]));
    assert!(!sq.is_occupied(&vec![3, 4, 5]));
    sq.remove_occupant(3);
    assert_eq!(sq.occupants(), vec![5, 4]);
    sq.remove_occupant(9);
    assert_eq!(sq.occupants(), vec![5, 4]);
    assert!(!Square::new().is_occupied(&vec![]));
}

#[test]
fn arena_changes_touch_one_square() {
    let mut arena = Arena::test();
    assert!(arena.add_occupant(pos(1, 2), 7));
    assert!(!arena.add_occupant(pos(5, 2), 7));
    assert!(arena.remove_occupant(pos(1, 2), 7));
    assert_eq!(arena.at(pos(1, 2)).unwrap().occupants(), Vec::<u32>::new());
    assert_eq!(arena.dimensions().check_pos(pos(4, 4)), Some(pos(4, 4)));
    assert_eq!(arena.dimensions().check_pos(pos(4, 5)), None);
}

fn turn() -> Turn {
    Turn { combatant: CreatureId(0), movement: Movement { used: Feet::default() }, action: None }
}

#[test]
fn test_transaction() {
    let mut turn = turn();

    let res = (|| -> Result<(), NoActionLeft> {
        let transaction = turn.try_use_action(ActionType::Attack)?;
        transaction.commit(&mut turn);
        Ok(())
    })();

    assert!(!res.is_err());
    assert!(turn.action.is_some());

    let res = (|| -> Result<(), NoActionLeft> {
        let trans = turn.try_use_action(ActionType::Dash)?;
        trans.commit(&mut turn);
        Ok(())
    })();

    assert!(res.is_err());
}

#[test]
fn test_transaction_cancelled() {
    let mut turn = turn();

    let res = (|| -> Result<(), NoActionLeft> {
        let trans = turn.try_use_action(ActionType::Attack)?;
        trans.cancel();
        Ok(())
    })();

    assert!(!res.is_err());
    assert!(turn.action.is_none());

    let res = (|| -> Result<(), NoActionLeft> {
        let trans = turn.try_use_action(ActionType::Dash)?;
        trans.commit(&mut turn);
        Ok(())
    })();

    assert!(res.is_ok());
    assert!(turn.action.is_some());
}

#[test]
fn attacks_of_one_action_may_follow_each_other() {
    let mut turn = Turn::new(CreatureId(2));
    ActionTransaction::new(ActionType::Attack).commit(&mut turn);
    assert!(turn.try_use_action(ActionType::Attack).is_ok());
    assert!(turn.try_use_action(ActionType::Dodge).is_err());
    assert_eq!(turn.movement_left(Feet(30)), Feet(30));
    assert!(!turn.movement.used_up(Feet(30)));
    assert!(Movement { used: Feet(30) }.used_up(Feet(30)));
}

#[test]
fn roll_effect_properties() {
    let d20 = d20_test();

    let adv = d20.clone().grant(Advantage { reason: None });
    let adv_adv = adv.clone().grant(Advantage { reason: None });
    assert_eq!(adv, adv_adv); // Idempotence

    let dis = d20.clone().impose(Disadvantage { reason: None });
    let dis_dis = dis.clone().impose(Disadvantage { reason: None });
    assert_eq!(dis, dis_dis); // Idempotence

    let adv_dis = adv.clone().impose(Disadvantage { reason: None });
    let dis_adv = dis.clone().grant(Advantage { reason: None });
    assert_eq!(adv_dis, dis_adv); // Symmetry when cancelling out.
}

#[test]
fn cancelled_rolls_stay_cancelled() {
    let cancelled = D20Roll::CancelledOut;
    assert_eq!(cancelled.grant(Advantage { reason: None }), D20Roll::CancelledOut);
    assert_eq!(cancelled.impose(Disadvantage { reason: Some(1) }), D20Roll::CancelledOut);
    assert_eq!(cancelled.dice(), 1);
    assert_eq!(D20Roll::KeepHighest.dice(), 2);
    assert_eq!(D20Roll::KeepHighest.kept(&vec![4, 17]), 17);
    assert_eq!(D20Roll::KeepLowest.kept(&vec![4, 17]), 4);
    assert_eq!(D20Roll::Single.kept(&vec![9]), 9);
}

#[test]
fn attack_roll_results() {
    let ac = AC(15);
    assert_eq!(AttackRollResult::result_for(&ac, 1, 30), AttackRollResult::Miss);
    assert_eq!(AttackRollResult::result_for(&ac, 20, 3), AttackRollResult::Hit(Some(Critical)));
    assert_eq!(AttackRollResult::result_for(&ac, 10, 15), AttackRollResult::Hit(None));
    assert_eq!(AttackRollResult::result_for(&ac, 10, 14), AttackRollResult::Miss);
    assert!(equals_or_exceeds(15, 15));
    assert!(!equals_or_exceeds(14, 15));
}

#[test]
fn checks_and_saves() {
    let check = Check::for_skill(Skill::Stealth, Some(DC(15)));
    assert_eq!(check.ability, Ability::Dexterity);
    assert_eq!(check.prof, Some(ProficiencyApplicationBase::Skill(Skill::Stealth)));
    assert_eq!(check.resolve(15), Some(CheckResult::Pass));
    assert_eq!(check.resolve(14), Some(CheckResult::Fail));
    assert_eq!(Check { ability: Ability::Wisdom, prof: None, dc: None }.resolve(30), None);
    let save = Save { ability: Ability::Constitution, prof: None, dc: Some(DC(10)) };
    assert_eq!(save.resolve(9), Some(SaveResult::Fail));
    assert_eq!(save.resolve(10), Some(SaveResult::Pass));
}

#[test]
fn next_turn_comes_in_a_later_round_at_or_after_ones_place() {
    assert!(!next_turn_reached(3, 3, 2, 1));
    assert!(!next_turn_reached(3, 4, 0, 1));
    assert!(next_turn_reached(3, 4, 1, 1));
    assert!(next_turn_reached(3, 5, 2, 0));
}

#[test]
fn availability_combinators() {
    let a = Availability::available(3);
    assert!(a.is_available());
    assert_eq!(*a.as_ref().value(), 3);
    let b = a.map(|v| v * 2);
    assert_eq!(b.value(), 6);
    let c = Availability::available(5).and(|v| *v > 9);
    assert!(!c.is_available());
    let d = Availability::unavailable(5).and(|_| true);
    assert!(!d.is_available());
    let e: Result<Availability<i32>, &str> = Availability::available(Ok::<i32, &str>(4)).transpose();
    assert!(e.unwrap().is_available());
    let f: Result<Availability<i32>, &str> = Availability::with(Err::<i32, &str>("no"), true).transpose();
    assert_eq!(f.err(), Some("no"));
}

#[test]
fn the_sample_creature_and_combatant() {

    let c = test_creature();
    assert_eq!(c.id, CreatureId(0));
    assert_eq!(c.name, "Test-Creature");
    assert_eq!(c.size, CreatureSize::Medium);
    assert!(matches!(&c.kind, CreatureKind::Monster(m) if m.cr == Cr::Half));
    assert_eq!(c.stats.ac, 6);
    assert_eq!(c.stats.speed, Feet(30));
    assert_eq!(c.stats.health.max_hp.get(), 7);
    assert_eq!(c.stats.actions.attacks.attacks.len(), 1);
    assert_eq!(c.stats.actions.attacks.attacks[0].name, "Club");
    assert_eq!(c.modifier(Ability::Dexterity).value(), -2);
    assert_eq!(c.modifier(Ability::Charisma).value(), 1);

    let t = test_combatant();
    assert_eq!(t.creature.id, CreatureId(0));
    assert_eq!(t.actor, Actor::GameMaster);
    assert_eq!(t.position, pos(0, 0));
    assert_eq!(t.initiative_score, 0);
    assert_eq!(t.affiliation, Affiliation::Solo);
}
