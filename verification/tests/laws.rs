//! The library's laws and error answers, played on concrete boards.

use baylee_engine::catalog::{
    deserted_beach, dwarven_mine, forest, island, mountain, seachrome_coast, sunken_hollow,
    treetop_village,
};
use baylee_engine::engine::{EngineError, Pending, PlayerAction};
use baylee_engine::ids::PlayerId;
use baylee_engine::mana::ManaColor;
use baylee_engine::testkit::{
    activate, entered_tapped, in_hand, keep_mulligans, on_battlefield, play_land, reach_main_phase,
    Duel,
};

#[test]
fn a_lower_bound_and_the_upper_bound_below_it_divide_the_board() {
    let p0 = PlayerId::new(0);
    for (mountains, mine_tapped) in [(2, true), (3, false)] {
        let board = vec![mountain(); mountains];
        let mut mine_game = Duel::new(5, forest())
            .battlefield(0, &board)
            .hand(0, &[dwarven_mine()])
            .start();
        keep_mulligans(&mut mine_game).unwrap();
        assert!(reach_main_phase(&mut mine_game, p0));
        let mine = play_land(&mut mine_game, p0, dwarven_mine()).unwrap();

        let mut fast_game = Duel::new(5, forest())
            .battlefield(0, &board)
            .hand(0, &[seachrome_coast()])
            .start();
        keep_mulligans(&mut fast_game).unwrap();
        assert!(reach_main_phase(&mut fast_game, p0));
        let fast = play_land(&mut fast_game, p0, seachrome_coast()).unwrap();

        assert_eq!(entered_tapped(&mine_game, mine), mine_tapped, "{mountains} Mountains");
        assert_eq!(
            entered_tapped(&fast_game, fast),
            !mine_tapped,
            "at least three and at most two never agree"
        );
    }
}

#[test]
fn a_count_reads_neither_the_land_itself_nor_the_other_seat() {
    let p0 = PlayerId::new(0);
    let mut engine = Duel::new(6, forest())
        .battlefield(0, &[island()])
        .battlefield(1, &[forest(), forest(), forest()])
        .hand(0, &[deserted_beach()])
        .start();
    keep_mulligans(&mut engine).unwrap();
    assert!(reach_main_phase(&mut engine, p0));
    let beach = play_land(&mut engine, p0, deserted_beach()).unwrap();
    assert!(
        entered_tapped(&engine, beach),
        "one Island of its own and three Forests across the table are not two other lands"
    );

    let mut hollow_game = Duel::new(7, forest())
        .battlefield(0, &[island()])
        .battlefield(1, &[forest(), forest()])
        .hand(0, &[sunken_hollow()])
        .start();
    keep_mulligans(&mut hollow_game).unwrap();
    assert!(reach_main_phase(&mut hollow_game, p0));
    let hollow = play_land(&mut hollow_game, p0, sunken_hollow()).unwrap();
    assert!(entered_tapped(&hollow_game, hollow), "the opponent's basics count for nothing");
}

#[test]
fn mana_just_made_pays_for_itself_and_leaves_the_pool_as_it_was() {
    let p0 = PlayerId::new(0);
    let mut engine = Duel::new(8, forest())
        .battlefield(0, &[treetop_village(), forest(), forest()])
        .start();
    keep_mulligans(&mut engine).unwrap();
    assert!(reach_main_phase(&mut engine, p0));
    assert_eq!(engine.state().players[0].mana_pool.total(), 0);
    let forests = baylee_engine::testkit::all_on_battlefield(&engine, p0, forest());
    for source in forests {
        engine.apply(p0, PlayerAction::ActivateManaAbility { source }).unwrap();
    }
    assert_eq!(engine.state().players[0].mana_pool.available(ManaColor::Green), 2);
    activate(&mut engine, p0, treetop_village(), 1).unwrap();
    assert_eq!(
        engine.state().players[0].mana_pool.total(),
        0,
        "{{1}}{{G}} took both green mana and nothing else"
    );
}

#[test]
fn a_refused_action_changes_nothing() {
    let p0 = PlayerId::new(0);
    let p1 = PlayerId::new(1);
    let mut engine = Duel::new(9, forest())
        .battlefield(0, &[forest()])
        .hand(0, &[island(), mountain()])
        .start();
    keep_mulligans(&mut engine).unwrap();
    assert!(reach_main_phase(&mut engine, p0));

    let before = engine.clone();
    assert_eq!(
        engine.apply(p1, PlayerAction::PassPriority),
        Err(EngineError::NotYourDecision),
        "the engine waits for the starting player"
    );
    assert_eq!(engine, before);
    assert_eq!(
        engine.apply(p0, PlayerAction::ChooseColor(ManaColor::Green)),
        Err(EngineError::WrongKindOfAction),
        "no colour was asked for"
    );
    assert_eq!(engine, before);
    let forest_id = on_battlefield(&engine, p0, forest()).unwrap();
    assert_eq!(
        engine.apply(p0, PlayerAction::PlayLand { card: forest_id }),
        Err(EngineError::IllegalAction),
        "a land on the battlefield is not in hand"
    );
    assert_eq!(engine, before);
}

#[test]
fn a_player_plays_one_land_a_turn_and_nothing_else_moves_the_turn() {
    let p0 = PlayerId::new(0);
    let mut engine = Duel::new(10, forest())
        .hand(0, &[island(), mountain()])
        .start();
    keep_mulligans(&mut engine).unwrap();
    assert!(reach_main_phase(&mut engine, p0));
    let turn = engine.state().turn;
    assert_eq!(turn.lands_played, 0);
    let island_id = play_land(&mut engine, p0, island()).unwrap();
    assert_eq!(engine.state().turn.lands_played, 1);
    assert_eq!(engine.state().turn.number, turn.number);
    assert_eq!(engine.state().turn.phase, turn.phase);
    engine
        .apply(p0, PlayerAction::ActivateManaAbility { source: island_id })
        .unwrap();
    assert_eq!(engine.state().turn.phase, turn.phase, "making mana moves no step");
    let mountain_id = in_hand(&engine, p0, mountain()).unwrap();
    assert_eq!(
        engine.apply(p0, PlayerAction::PlayLand { card: mountain_id }),
        Err(EngineError::IllegalAction),
        "a second land in the same turn is refused"
    );
}

#[test]
fn an_answer_outside_the_offer_is_refused() {
    let p0 = PlayerId::new(0);
    let mut engine = Duel::new(11, forest())
        .battlefield(0, &[baylee_engine::catalog::tainted_isle(), baylee_engine::catalog::swamp()])
        .start();
    keep_mulligans(&mut engine).unwrap();
    assert!(reach_main_phase(&mut engine, p0));
    activate(&mut engine, p0, baylee_engine::catalog::tainted_isle(), 1).unwrap();
    let Pending::ChooseColor { options, .. } = engine.pending().clone() else {
        panic!("expected a colour choice, got {:?}", engine.pending());
    };
    assert_eq!(options, vec![ManaColor::Blue, ManaColor::Black]);
    let before = engine.clone();
    assert_eq!(
        engine.apply(p0, PlayerAction::ChooseColor(ManaColor::Green)),
        Err(EngineError::InvalidChoice),
        "green was not offered"
    );
    assert_eq!(engine, before);
    engine.apply(p0, PlayerAction::ChooseColor(ManaColor::Black)).unwrap();
    assert_eq!(engine.state().players[0].mana_pool.available(ManaColor::Black), 1);
}
