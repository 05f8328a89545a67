//! Casting spells: paying with mana a land restricts, and a land that
//! leaves something behind when a spell destroys it.

use baylee_engine::testkit::{Duel, activate, cast_from_hand, in_graveyard, in_hand, keep_mulligans, on_battlefield, pass_until, pt, reach_main_phase, stack_is_empty, tap_all_mana, tap_mana_except, tokens_of};
use baylee_engine::engine::{EngineError, Pending, PlayerAction};
use baylee_engine::ids::PlayerId;
use baylee_engine::mana::ManaColor;
use baylee_engine::catalog::{baleful_strix, dunes_of_the_dead, forest, llanowar_elves, pillar_of_the_paruns, plains, swamp, vindicate};

/// Pillar of the Paruns: "{T}: Add one mana of any color. Spend this mana only to cast a multicolored spell."
/// Activating the land produces mana marked with a multicolored spell restriction.
/// Alongside a Swamp, the restricted blue mana successfully casts Baleful Strix.
#[test]
fn pillar_of_the_paruns_adds_restricted_mana_for_multicolored_spells() {
    let p0 = PlayerId::new(0);
    let mut engine = Duel::new(118, forest())
        .battlefield(0, &[pillar_of_the_paruns(), swamp()])
        .hand(0, &[baleful_strix()])
        .start();
    keep_mulligans(&mut engine).unwrap();
    assert!(reach_main_phase(&mut engine, p0));

    activate(&mut engine, p0, pillar_of_the_paruns(), 0).unwrap();
    let Pending::ChooseColor { .. } = engine.pending().clone() else {
        panic!("expected color choice, got {:?}", engine.pending());
    };
    engine
        .apply(p0, PlayerAction::ChooseColor(ManaColor::Blue))
        .unwrap();

    let pool = &engine.state().players[0].mana_pool;
    assert_eq!(pool.restricted().len(), 1);
    assert_eq!(pool.restricted()[0].color, ManaColor::Blue);

    tap_all_mana(&mut engine, p0);

    let Pending::Priority { legal, .. } = engine.pending().clone() else {
        panic!("expected priority, got {:?}", engine.pending());
    };
    let strix = in_hand(&engine, p0, baleful_strix()).expect("Strix in hand");
    assert!(
        legal.castable.contains(&strix),
        "Baleful Strix is castable with restricted mana"
    );

    engine
        .apply(p0, PlayerAction::CastSpell { card: strix })
        .unwrap();

    assert!(pass_until(&mut engine, stack_is_empty));

    assert!(
        on_battlefield(&engine, p0, baleful_strix()).is_some(),
        "Baleful Strix resolved"
    );
    assert_eq!(
        engine.state().players[0].mana_pool.total(),
        0,
        "restricted mana was spent"
    );
}

/// Dunes of the Dead: "{T}: Add {C}." / "When this land is put into a graveyard from the battlefield, create a 2/2 black Zombie creature token."
/// Destroying Dunes of the Dead with Vindicate triggers its death trigger.
/// On resolution, Dunes of the Dead is in the graveyard and a 2/2 Zombie creature token is created on the battlefield.
#[test]
fn dunes_of_the_dead_creates_zombie_token_on_death() {
    let p0 = PlayerId::new(0);
    let mut engine = Duel::new(122, forest())
        .battlefield(0, &[dunes_of_the_dead(), plains(), swamp(), forest()])
        .hand(0, &[vindicate()])
        .start();
    keep_mulligans(&mut engine).unwrap();
    assert!(reach_main_phase(&mut engine, p0));

    let dunes = on_battlefield(&engine, p0, dunes_of_the_dead()).expect("Dunes deployed");
    tap_mana_except(&mut engine, p0, dunes);

    cast_from_hand(&mut engine, p0, vindicate()).unwrap();
    let Pending::ChooseTargets { options, .. } = engine.pending().clone() else {
        panic!("expected target choice for Vindicate");
    };
    assert!(options.contains(&dunes));

    engine
        .apply(
            p0,
            PlayerAction::ChooseObjects {
                objects: vec![dunes],
            },
        )
        .unwrap();

    assert!(pass_until(&mut engine, stack_is_empty));

    assert!(in_graveyard(&engine, p0, dunes_of_the_dead()).is_some());
    let tokens = tokens_of(&engine, p0);
    assert_eq!(tokens.len(), 1, "one Zombie token created");
    assert_eq!(pt(&engine, tokens[0]), (2, 2));
}

#[test]
fn a_sorcery_goes_to_the_graveyard_once_it_resolves() {
    let p0 = PlayerId::new(0);
    let mut engine = Duel::new(3, forest())
        .battlefield(0, &[plains(), swamp(), forest()])
        .battlefield(1, &[llanowar_elves()])
        .hand(0, &[vindicate()])
        .start();
    keep_mulligans(&mut engine).unwrap();
    assert!(reach_main_phase(&mut engine, p0));
    tap_all_mana(&mut engine, p0);
    assert_eq!(engine.state().players[0].mana_pool.total(), 3);
    let elves = on_battlefield(&engine, PlayerId::new(1), llanowar_elves()).unwrap();
    cast_from_hand(&mut engine, p0, vindicate()).unwrap();
    assert_eq!(engine.state().players[0].mana_pool.total(), 0, "the whole cost is paid at once");
    engine.apply(p0, PlayerAction::ChooseObjects { objects: vec![elves] }).unwrap();
    assert!(pass_until(&mut engine, stack_is_empty));
    assert!(in_graveyard(&engine, PlayerId::new(1), llanowar_elves()).is_some());
    assert!(in_graveyard(&engine, p0, vindicate()).is_some());
}

#[test]
fn a_spell_the_pool_cannot_pay_for_is_refused_and_nothing_changes() {
    let p0 = PlayerId::new(0);
    let mut engine = Duel::new(4, forest())
        .battlefield(0, &[plains(), swamp()])
        .hand(0, &[vindicate()])
        .start();
    keep_mulligans(&mut engine).unwrap();
    assert!(reach_main_phase(&mut engine, p0));
    tap_all_mana(&mut engine, p0);
    let before = engine.clone();
    assert_eq!(cast_from_hand(&mut engine, p0, vindicate()), Err(EngineError::IllegalAction));
    assert!(engine == before);
    let Pending::Priority { legal, .. } = engine.pending().clone() else {
        panic!("expected priority");
    };
    assert!(legal.castable.is_empty(), "two mana do not pay for three");
}

#[test]
fn mana_kept_for_multicolored_spells_does_not_pay_for_a_monocolored_one() {
    let p0 = PlayerId::new(0);
    let mut engine = Duel::new(9, forest())
        .battlefield(0, &[pillar_of_the_paruns(), pillar_of_the_paruns(), plains()])
        .hand(0, &[vindicate(), baleful_strix()])
        .start();
    keep_mulligans(&mut engine).unwrap();
    assert!(reach_main_phase(&mut engine, p0));
    let pillars = baylee_engine::testkit::all_on_battlefield(&engine, p0, pillar_of_the_paruns());
    for (pillar, colour) in pillars.iter().zip([ManaColor::White, ManaColor::Black]) {
        engine
            .apply(p0, PlayerAction::ActivateAbility { source: *pillar, ability_index: 0 })
            .unwrap();
        engine.apply(p0, PlayerAction::ChooseColor(colour)).unwrap();
    }
    tap_all_mana(&mut engine, p0);
    let Pending::Priority { legal, .. } = engine.pending().clone() else {
        panic!("expected priority");
    };
    let vindicate_card = in_hand(&engine, p0, vindicate()).unwrap();
    assert!(legal.castable.contains(&vindicate_card), "Vindicate is white and black");
    let strix = in_hand(&engine, p0, baleful_strix()).unwrap();
    assert!(!legal.castable.contains(&strix), "the Strix needs blue, which nothing here makes");
    cast_from_hand(&mut engine, p0, vindicate()).unwrap();
    assert_eq!(engine.state().players[0].mana_pool.total(), 0);
}
