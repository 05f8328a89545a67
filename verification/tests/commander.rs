//! A land that reads its controller's commander.

use baylee_engine::testkit::{Duel, activate, is_tapped, keep_mulligans, on_battlefield, reach_main_phase, tap_mana_except};
use baylee_engine::engine::{Pending, PlayerAction};
use baylee_engine::ids::PlayerId;
use baylee_engine::mana::ManaColor;
use baylee_engine::catalog::{baleful_strix, forest, opal_palace, sheoldred_the_apocalypse};

/// Opal Palace: "{T}: Add {C}." / "{1}, {T}: Add one mana of any color in your commander's color identity..."
/// The spend rider adding extra +1/+1 counters to a cast commander is not carried out.
/// Activating ability 1 with a black commander produces one black mana in the player's pool.
#[test]
fn opal_palace_produces_commander_identity_mana() {
    let p0 = PlayerId::new(0);
    let mut engine = Duel::new(319, forest())
        .commander(0, &[sheoldred_the_apocalypse()])
        .battlefield(0, &[opal_palace(), forest()])
        .start();
    keep_mulligans(&mut engine).unwrap();
    assert!(reach_main_phase(&mut engine, p0));

    let palace = on_battlefield(&engine, p0, opal_palace()).expect("palace deployed");
    tap_mana_except(&mut engine, p0, palace);
    activate(&mut engine, p0, opal_palace(), 1).unwrap();

    let pool = &engine.state().players[0].mana_pool;
    assert_eq!(pool.available(ManaColor::Black), 1);
    assert!(is_tapped(&engine, palace));
}

#[test]
fn a_two_coloured_commander_asks_which_of_its_colours() {
    let p0 = PlayerId::new(0);
    let mut engine = Duel::new(320, forest())
        .commander(0, &[baleful_strix()])
        .battlefield(0, &[opal_palace(), forest()])
        .start();
    keep_mulligans(&mut engine).unwrap();
    assert!(reach_main_phase(&mut engine, p0));
    let palace = on_battlefield(&engine, p0, opal_palace()).unwrap();
    tap_mana_except(&mut engine, p0, palace);
    activate(&mut engine, p0, opal_palace(), 1).unwrap();
    let Pending::ChooseColor { options, .. } = engine.pending().clone() else {
        panic!("expected a colour choice, got {:?}", engine.pending());
    };
    assert_eq!(options, vec![ManaColor::Blue, ManaColor::Black]);
    engine.apply(p0, PlayerAction::ChooseColor(ManaColor::Blue)).unwrap();
    assert_eq!(engine.state().players[0].mana_pool.available(ManaColor::Blue), 1);
}

#[test]
fn without_a_commander_the_palace_makes_nothing_of_it() {
    let p0 = PlayerId::new(0);
    let mut engine = Duel::new(321, forest())
        .battlefield(0, &[opal_palace(), forest()])
        .start();
    keep_mulligans(&mut engine).unwrap();
    assert!(reach_main_phase(&mut engine, p0));
    let palace = on_battlefield(&engine, p0, opal_palace()).unwrap();
    tap_mana_except(&mut engine, p0, palace);
    activate(&mut engine, p0, opal_palace(), 1).unwrap();
    assert_eq!(engine.state().players[0].mana_pool.total(), 0, "the generic mana was paid and nothing made");
    assert!(is_tapped(&engine, palace));
}
