//! The walks and answers the land tests lean on, on boards where the answer
//! is known.

use baylee_engine::catalog::{forest, island, mountain, plains, swamp};
use baylee_engine::engine::{Pending, PlayerAction};
use baylee_engine::helpers::{basic, reach_the_search, reach_the_unless_question, Astray};
use baylee_engine::ids::{ObjectId, PlayerId};
use baylee_engine::mana::ManaColor;
use baylee_engine::testkit::{keep_mulligans, on_battlefield, reach_main_phase, Duel};

#[test]
fn each_basic_is_named_by_its_own_name_and_nothing_else_names_one() {
    assert_eq!(basic("Plains"), Some(plains()));
    assert_eq!(basic("Island"), Some(island()));
    assert_eq!(basic("Swamp"), Some(swamp()));
    assert_eq!(basic("Mountain"), Some(mountain()));
    assert_eq!(basic("Forest"), Some(forest()));
    assert_eq!(basic("forest"), None);
    assert_eq!(basic("Wastes"), None);
}

#[test]
fn a_walk_to_the_unless_question_that_meets_a_mulligan_went_astray() {
    let mut engine = Duel::new(5, forest()).battlefield(0, &[forest()]).start();
    let land = on_battlefield(&engine, PlayerId::new(0), forest()).unwrap();
    assert_eq!(reach_the_unless_question(&mut engine, land), Err(Astray::UnexpectedWait));
}

#[test]
fn a_land_that_is_gone_asked_nothing() {
    let mut engine = Duel::new(6, forest()).start();
    assert_eq!(reach_the_unless_question(&mut engine, ObjectId(9999)), Ok(None));
}

#[test]
fn with_nothing_on_the_stack_the_search_asked_nothing() {
    let mut engine = Duel::new(7, forest()).start();
    assert_eq!(reach_the_search(&mut engine), Ok(None));
}

#[test]
fn a_first_pass_hands_priority_to_the_other_player_and_changes_nothing_else() {
    let p0 = PlayerId::new(0);
    let mut engine = Duel::new(8, forest()).battlefield(0, &[forest()]).start();
    keep_mulligans(&mut engine).unwrap();
    assert!(reach_main_phase(&mut engine, p0));
    let before = engine.state().clone();
    engine.apply(p0, PlayerAction::PassPriority).unwrap();
    assert!(matches!(engine.pending(), Pending::Priority { player, .. } if *player == PlayerId::new(1)));
    assert_eq!(engine.state(), &before);
}

#[test]
fn a_basic_land_tapped_for_its_type_adds_one_mana_of_its_colour_and_nothing_else() {
    let p0 = PlayerId::new(0);
    let mut engine = Duel::new(9, forest()).battlefield(0, &[forest()]).start();
    keep_mulligans(&mut engine).unwrap();
    assert!(reach_main_phase(&mut engine, p0));
    let land = on_battlefield(&engine, p0, forest()).unwrap();
    engine.apply(p0, PlayerAction::ActivateManaAbility { source: land }).unwrap();
    let pool = &engine.state().players[0].mana_pool;
    assert_eq!(pool.available(ManaColor::Green), 1);
    assert_eq!(pool.available(ManaColor::White), 0);
    assert!(engine.state().objects[land.0 as usize].tapped);
    assert!(matches!(engine.pending(), Pending::Priority { player, .. } if *player == p0));
}
