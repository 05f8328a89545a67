//! Lands whose printed abilities the engine carries out in part, and the ones it carries
//! out whole.

use baylee_engine::testkit::{Duel, activate, all_on_battlefield, counters_on, destroy, entered_tapped, in_graveyard, in_hand, is_tapped, keep_mulligans, keywords, mine, on_battlefield, pass_until, play_land, pt, reach_main_phase, reach_their_main_phase, seed_graveyard, stack_is_empty, tap_mana_except, types};
use baylee_engine::helpers::{basic, offered};
use baylee_engine::engine::{CastModeKind, Pending, PlayerAction, YesNoPrompt};
use baylee_engine::ids::PlayerId;
use baylee_engine::mana::ManaColor;
use baylee_engine::state::ZoneLocation;
use baylee_engine::sets::{CounterKind, KeywordSet, TypeSet};
use baylee_engine::catalog::{aether_hub, agna_qel_a, ancient_amphitheater, auntie_s_hovel, barkchannel_pathway, blighted_fen, blighted_steppe, blightstep_pathway, bonders_enclave, branchloft_pathway, command_beacon, cradle_of_the_accursed, cragcrown_pathway, crypt_of_agadeem, dark_fortress, darkbore_pathway, desert, drannith_ruins, dread_statuary, eiganjo_castle, emergence_zone, festering_goblin, forest, gathering_place, ghost_town, gilt_leaf_palace, gleaming_bastion, glimmervoid, gods_eye_gate_to_the_reikai, gond_gate, grasping_dunes, great_hall_of_the_citadel, hall_of_heliod_s_generosity, hall_of_the_bandit_lord, haunted_fengraf, hidden_lair, island, kessig_wolf_run, llanowar_elves, lotus_field, luminarch_ascension, miren_the_moaning_well, moorland_haunt, mountain, mutavault, needleverge_pathway, ominous_cemetery, oran_rief_the_vastwood, petrified_field, plains, prahv_spires_of_order, r_d_s_secret_lair, rainbow_vale, ramunap_ruins, rhystic_cave, riftstone_portal, riverglide_pathway, sanctum_of_eternity, sandstorm_verge, sapseep_forest, sea_gate_wreckage, secluded_glen, secret_base, sheoldred_the_apocalypse, skycoach_waypoint, smoldering_spires, soulstone_sanctuary, stalking_stones, swamp, terrain_generator, the_tabernacle_at_pendrell_vale, thespian_s_stage, thran_quarry, training_compound, unholy_grotto, unstable_frontier, untaidake_the_cloud_keeper, urza_s_mine, urza_s_tower, vault_of_the_archangel, war_room, wintermoon_mesa};

/// Barkchannel Pathway // Tidechannel Pathway: Modal double-faced land.
#[test]
fn barkchannel_pathway_back_face_taps_for_blue() {
    let p0 = PlayerId::new(0);
    let mut engine = Duel::new(101, forest())
        .hand(0, &[barkchannel_pathway()])
        .start();
    keep_mulligans(&mut engine).unwrap();
    assert!(reach_main_phase(&mut engine, p0));

    let card = in_hand(&engine, p0, barkchannel_pathway()).expect("pathway in hand");
    engine.apply(p0, PlayerAction::PlayLand { card }).unwrap();

    let Pending::ChooseCastMode {
        player, options, ..
    } = engine.pending().clone()
    else {
        panic!("expected face choice");
    };
    let slot = options
        .iter()
        .position(|o| matches!(o.kind, CastModeKind::PlayLandFace(1)))
        .expect("face 1 offered");
    engine
        .apply(player, PlayerAction::ChooseMode(slot))
        .unwrap();

    let land = on_battlefield(&engine, p0, barkchannel_pathway()).expect("land deployed");
    assert_eq!(engine.state().object(land).unwrap().face_index, 1);
    assert!(!is_tapped(&engine, land));

    activate(&mut engine, p0, barkchannel_pathway(), 0).unwrap();
    assert_eq!(
        engine.state().players[0]
            .mana_pool
            .available(ManaColor::Blue),
        1
    );
    assert!(is_tapped(&engine, land));
}

/// Blighted Fen: "{T}: Add {C}." / "{4}{B}, {T}, Sacrifice this land: Target opponent sacrifices a creature of their choice."
#[test]
fn blighted_fen_forces_opponent_to_sacrifice_creature() {
    let (p0, p1) = (PlayerId::new(0), PlayerId::new(1));
    let mut engine = Duel::new(132, forest())
        .battlefield(
            0,
            &[blighted_fen(), swamp(), swamp(), swamp(), swamp(), swamp()],
        )
        .battlefield(1, &[llanowar_elves()])
        .start();
    keep_mulligans(&mut engine).unwrap();
    assert!(reach_main_phase(&mut engine, p0));

    let fen = on_battlefield(&engine, p0, blighted_fen()).expect("Fen deployed");
    let elves = on_battlefield(&engine, p1, llanowar_elves()).expect("Elves deployed");

    tap_mana_except(&mut engine, p0, fen);
    activate(&mut engine, p0, blighted_fen(), 1).unwrap();

    let Pending::ChooseTargets {
        player,
        player_options,
        ..
    } = engine.pending().clone()
    else {
        panic!("expected target choice, got {:?}", engine.pending());
    };
    assert_eq!(player, p0);
    assert!(player_options.contains(&p1));

    engine
        .apply(
            p0,
            PlayerAction::ChooseTargets {
                objects: vec![],
                players: vec![p1],
            },
        )
        .unwrap();

    assert!(pass_until(&mut engine, |e| {
        matches!(e.pending(), Pending::ChooseCards { .. })
    }));
    let Pending::ChooseCards {
        player: chooser,
        options,
        ..
    } = engine.pending().clone()
    else {
        panic!("expected sacrifice choice, got {:?}", engine.pending());
    };
    assert_eq!(chooser, p1);
    assert!(options.contains(&elves));

    engine
        .apply(
            p1,
            PlayerAction::ChooseObjects {
                objects: vec![elves],
            },
        )
        .unwrap();

    assert!(pass_until(&mut engine, stack_is_empty));

    assert!(on_battlefield(&engine, p1, llanowar_elves()).is_none());
    assert!(in_graveyard(&engine, p1, llanowar_elves()).is_some());
    assert!(on_battlefield(&engine, p0, blighted_fen()).is_none());
    assert!(in_graveyard(&engine, p0, blighted_fen()).is_some());
}

/// Blighted Steppe: "{T}: Add {C}." / "{3}{W}, {T}, Sacrifice this land: You gain 2 life for each creature you control."
#[test]
fn blighted_steppe_taps_for_colorless_mana() {
    let p0 = PlayerId::new(0);
    let mut engine = Duel::new(116, forest())
        .battlefield(0, &[blighted_steppe()])
        .start();
    keep_mulligans(&mut engine).unwrap();
    assert!(reach_main_phase(&mut engine, p0));

    let steppe = on_battlefield(&engine, p0, blighted_steppe()).expect("Steppe deployed");
    activate(&mut engine, p0, blighted_steppe(), 0).unwrap();

    let pool = &engine.state().players[0].mana_pool;
    assert_eq!(pool.total(), 1);
    assert_eq!(pool.available(ManaColor::Colorless), 1);
    assert!(is_tapped(&engine, steppe));
}

/// Blightstep Pathway // Searstep Pathway: Modal double-faced land.
#[test]
fn blightstep_pathway_back_face_taps_for_red() {
    let p0 = PlayerId::new(0);
    let mut engine = Duel::new(102, forest())
        .hand(0, &[blightstep_pathway()])
        .start();
    keep_mulligans(&mut engine).unwrap();
    assert!(reach_main_phase(&mut engine, p0));

    let card = in_hand(&engine, p0, blightstep_pathway()).expect("pathway in hand");
    engine.apply(p0, PlayerAction::PlayLand { card }).unwrap();

    let Pending::ChooseCastMode {
        player, options, ..
    } = engine.pending().clone()
    else {
        panic!("expected face choice");
    };
    let slot = options
        .iter()
        .position(|o| matches!(o.kind, CastModeKind::PlayLandFace(1)))
        .expect("face 1 offered");
    engine
        .apply(player, PlayerAction::ChooseMode(slot))
        .unwrap();

    let land = on_battlefield(&engine, p0, blightstep_pathway()).expect("land deployed");
    assert_eq!(engine.state().object(land).unwrap().face_index, 1);
    assert!(!is_tapped(&engine, land));

    activate(&mut engine, p0, blightstep_pathway(), 0).unwrap();
    assert_eq!(
        engine.state().players[0]
            .mana_pool
            .available(ManaColor::Red),
        1
    );
    assert!(is_tapped(&engine, land));
}

/// Bonders' Enclave: "{T}: Add {C}." / "{3}, {T}: Draw a card. Activate only if you control a creature with power 4 or greater."
#[test]
fn bonders_enclave_taps_for_colorless_mana() {
    let p0 = PlayerId::new(0);
    let mut engine = Duel::new(130, forest())
        .battlefield(0, &[bonders_enclave()])
        .start();
    keep_mulligans(&mut engine).unwrap();
    assert!(reach_main_phase(&mut engine, p0));

    let enclave = on_battlefield(&engine, p0, bonders_enclave()).expect("Enclave deployed");
    activate(&mut engine, p0, bonders_enclave(), 0).unwrap();

    let pool = &engine.state().players[0].mana_pool;
    assert_eq!(pool.total(), 1);
    assert_eq!(pool.available(ManaColor::Colorless), 1);
    assert!(is_tapped(&engine, enclave));
}

/// Branchloft Pathway // Boulderloft Pathway: Modal double-faced land.
#[test]
fn branchloft_pathway_back_face_taps_for_white() {
    let p0 = PlayerId::new(0);
    let mut engine = Duel::new(103, forest())
        .hand(0, &[branchloft_pathway()])
        .start();
    keep_mulligans(&mut engine).unwrap();
    assert!(reach_main_phase(&mut engine, p0));

    let card = in_hand(&engine, p0, branchloft_pathway()).expect("pathway in hand");
    engine.apply(p0, PlayerAction::PlayLand { card }).unwrap();

    let Pending::ChooseCastMode {
        player, options, ..
    } = engine.pending().clone()
    else {
        panic!("expected face choice");
    };
    let slot = options
        .iter()
        .position(|o| matches!(o.kind, CastModeKind::PlayLandFace(1)))
        .expect("face 1 offered");
    engine
        .apply(player, PlayerAction::ChooseMode(slot))
        .unwrap();

    let land = on_battlefield(&engine, p0, branchloft_pathway()).expect("land deployed");
    assert_eq!(engine.state().object(land).unwrap().face_index, 1);
    assert!(!is_tapped(&engine, land));

    activate(&mut engine, p0, branchloft_pathway(), 0).unwrap();
    assert_eq!(
        engine.state().players[0]
            .mana_pool
            .available(ManaColor::White),
        1
    );
    assert!(is_tapped(&engine, land));
}

/// Command Beacon: "{T}: Add {C}." / "{T}, Sacrifice this land: Put your commander into your hand from the command zone."
#[test]
fn command_beacon_taps_for_colorless_mana() {
    let p0 = PlayerId::new(0);
    let mut engine = Duel::new(119, forest())
        .battlefield(0, &[command_beacon()])
        .start();
    keep_mulligans(&mut engine).unwrap();
    assert!(reach_main_phase(&mut engine, p0));

    let beacon = on_battlefield(&engine, p0, command_beacon()).expect("Beacon deployed");
    activate(&mut engine, p0, command_beacon(), 0).unwrap();

    let pool = &engine.state().players[0].mana_pool;
    assert_eq!(pool.total(), 1);
    assert_eq!(pool.available(ManaColor::Colorless), 1);
    assert!(is_tapped(&engine, beacon));
}

/// Cragcrown Pathway // Timbercrown Pathway: Modal double-faced land.
#[test]
fn cragcrown_pathway_back_face_taps_for_green() {
    let p0 = PlayerId::new(0);
    let mut engine = Duel::new(104, forest())
        .hand(0, &[cragcrown_pathway()])
        .start();
    keep_mulligans(&mut engine).unwrap();
    assert!(reach_main_phase(&mut engine, p0));

    let card = in_hand(&engine, p0, cragcrown_pathway()).expect("pathway in hand");
    engine.apply(p0, PlayerAction::PlayLand { card }).unwrap();

    let Pending::ChooseCastMode {
        player, options, ..
    } = engine.pending().clone()
    else {
        panic!("expected face choice");
    };
    let slot = options
        .iter()
        .position(|o| matches!(o.kind, CastModeKind::PlayLandFace(1)))
        .expect("face 1 offered");
    engine
        .apply(player, PlayerAction::ChooseMode(slot))
        .unwrap();

    let land = on_battlefield(&engine, p0, cragcrown_pathway()).expect("land deployed");
    assert_eq!(engine.state().object(land).unwrap().face_index, 1);
    assert!(!is_tapped(&engine, land));

    activate(&mut engine, p0, cragcrown_pathway(), 0).unwrap();
    assert_eq!(
        engine.state().players[0]
            .mana_pool
            .available(ManaColor::Green),
        1
    );
    assert!(is_tapped(&engine, land));
}

/// Crypt of Agadeem: "This land enters tapped." / "{T}: Add {B}." / "{2}, {T}: Add {B} for each black creature card in your graveyard."
#[test]
fn crypt_of_agadeem_adds_black_mana_per_black_creature_in_graveyard() {
    let p0 = PlayerId::new(0);
    let mut engine = Duel::new(134, sheoldred_the_apocalypse())
        .battlefield(0, &[crypt_of_agadeem(), swamp(), swamp()])
        .start();
    keep_mulligans(&mut engine).unwrap();
    assert!(reach_main_phase(&mut engine, p0));

    seed_graveyard(&mut engine, p0, 2);
    let crypt = on_battlefield(&engine, p0, crypt_of_agadeem()).expect("Crypt deployed");

    tap_mana_except(&mut engine, p0, crypt);
    assert_eq!(
        engine.state().players[0]
            .mana_pool
            .available(ManaColor::Black),
        2
    );

    activate(&mut engine, p0, crypt_of_agadeem(), 1).unwrap();

    assert_eq!(
        engine.state().players[0]
            .mana_pool
            .available(ManaColor::Black),
        2,
        "spent 2 black mana to activate, gained 2 black mana from 2 black creature cards"
    );
    assert!(is_tapped(&engine, crypt));
}

/// Darkbore Pathway // Slitherbore Pathway: Modal double-faced land.
#[test]
fn darkbore_pathway_back_face_taps_for_green() {
    let p0 = PlayerId::new(0);
    let mut engine = Duel::new(105, forest())
        .hand(0, &[darkbore_pathway()])
        .start();
    keep_mulligans(&mut engine).unwrap();
    assert!(reach_main_phase(&mut engine, p0));

    let card = in_hand(&engine, p0, darkbore_pathway()).expect("pathway in hand");
    engine.apply(p0, PlayerAction::PlayLand { card }).unwrap();

    let Pending::ChooseCastMode {
        player, options, ..
    } = engine.pending().clone()
    else {
        panic!("expected face choice");
    };
    let slot = options
        .iter()
        .position(|o| matches!(o.kind, CastModeKind::PlayLandFace(1)))
        .expect("face 1 offered");
    engine
        .apply(player, PlayerAction::ChooseMode(slot))
        .unwrap();

    let land = on_battlefield(&engine, p0, darkbore_pathway()).expect("land deployed");
    assert_eq!(engine.state().object(land).unwrap().face_index, 1);
    assert!(!is_tapped(&engine, land));

    activate(&mut engine, p0, darkbore_pathway(), 0).unwrap();
    assert_eq!(
        engine.state().players[0]
            .mana_pool
            .available(ManaColor::Green),
        1
    );
    assert!(is_tapped(&engine, land));
}

/// Drannith Ruins: "{T}: Add {C}." / "{2}, {T}: Put two +1/+1 counters on target non-Human creature that entered this turn."
#[test]
fn drannith_ruins_places_counters_on_non_human_creature() {
    let p0 = PlayerId::new(0);
    let mut engine = Duel::new(124, forest())
        .battlefield(0, &[drannith_ruins(), forest(), forest(), llanowar_elves()])
        .start();
    keep_mulligans(&mut engine).unwrap();
    assert!(reach_main_phase(&mut engine, p0));

    let ruins = on_battlefield(&engine, p0, drannith_ruins()).expect("Ruins deployed");
    let elves = on_battlefield(&engine, p0, llanowar_elves()).expect("Elves deployed");
    assert_eq!(counters_on(&engine, elves, CounterKind::P1P1), 0);
    assert_eq!(pt(&engine, elves), (1, 1));

    tap_mana_except(&mut engine, p0, ruins);
    activate(&mut engine, p0, drannith_ruins(), 1).unwrap();

    let Pending::ChooseTargets { options, .. } = engine.pending().clone() else {
        panic!("expected target choice, got {:?}", engine.pending());
    };
    assert!(options.contains(&elves));

    engine
        .apply(
            p0,
            PlayerAction::ChooseObjects {
                objects: vec![elves],
            },
        )
        .unwrap();

    assert!(pass_until(&mut engine, stack_is_empty));

    assert_eq!(counters_on(&engine, elves, CounterKind::P1P1), 2);
    assert_eq!(pt(&engine, elves), (3, 3));
    assert!(is_tapped(&engine, ruins));
}

/// Dread Statuary: "{T}: Add {C}." / "{4}: This land becomes a 4/2 Golem artifact creature until end of turn. It's still a land."
#[test]
fn dread_statuary_animates_into_golem_artifact_creature() {
    let p0 = PlayerId::new(0);
    let mut engine = Duel::new(133, forest())
        .battlefield(
            0,
            &[dread_statuary(), forest(), forest(), forest(), forest()],
        )
        .start();
    keep_mulligans(&mut engine).unwrap();
    assert!(reach_main_phase(&mut engine, p0));

    let statuary = on_battlefield(&engine, p0, dread_statuary()).expect("Statuary deployed");
    assert!(!types(&engine, statuary).contains(TypeSet::CREATURE));

    tap_mana_except(&mut engine, p0, statuary);
    activate(&mut engine, p0, dread_statuary(), 1).unwrap();

    assert!(pass_until(&mut engine, stack_is_empty));

    let t = types(&engine, statuary);
    assert!(t.contains(TypeSet::LAND));
    assert!(t.contains(TypeSet::CREATURE));
    assert!(t.contains(TypeSet::ARTIFACT));
    assert_eq!(pt(&engine, statuary), (4, 2));
    assert!(!is_tapped(&engine, statuary));
}

/// Eiganjo Castle: "{T}: Add {W}." / "{W}, {T}: Prevent the next 2 damage that would be dealt to target legendary creature this turn."
#[test]
fn eiganjo_castle_taps_for_white_mana() {
    let p0 = PlayerId::new(0);
    let mut engine = Duel::new(139, forest())
        .battlefield(0, &[eiganjo_castle()])
        .start();
    keep_mulligans(&mut engine).unwrap();
    assert!(reach_main_phase(&mut engine, p0));

    let castle = on_battlefield(&engine, p0, eiganjo_castle()).expect("Castle deployed");
    activate(&mut engine, p0, eiganjo_castle(), 0).unwrap();

    let pool = &engine.state().players[0].mana_pool;
    assert_eq!(pool.total(), 1);
    assert_eq!(pool.available(ManaColor::White), 1);
    assert!(is_tapped(&engine, castle));
}

/// Emergence Zone: "{T}: Add {C}." / "{1}, {T}, Sacrifice this land: You may cast spells this turn as though they had flash."
#[test]
fn emergence_zone_sacrifices_to_grant_flash() {
    let p0 = PlayerId::new(0);
    let mut engine = Duel::new(127, forest())
        .battlefield(0, &[emergence_zone(), forest()])
        .start();
    keep_mulligans(&mut engine).unwrap();
    assert!(reach_main_phase(&mut engine, p0));

    let zone = on_battlefield(&engine, p0, emergence_zone()).expect("Zone deployed");
    tap_mana_except(&mut engine, p0, zone);

    activate(&mut engine, p0, emergence_zone(), 1).unwrap();
    assert!(pass_until(&mut engine, stack_is_empty));

    assert!(on_battlefield(&engine, p0, emergence_zone()).is_none());
    assert!(in_graveyard(&engine, p0, emergence_zone()).is_some());
}

/// Ghost Town: "{T}: Add {C}." / "{0}: Return this land to its owner's hand. Activate only if it's not your turn."
#[test]
fn ghost_town_returns_to_hand_on_activation() {
    let p0 = PlayerId::new(0);
    let mut engine = Duel::new(113, forest())
        .battlefield(0, &[ghost_town()])
        .start();
    keep_mulligans(&mut engine).unwrap();
    assert!(reach_main_phase(&mut engine, p0));

    assert!(on_battlefield(&engine, p0, ghost_town()).is_some());
    assert!(in_hand(&engine, p0, ghost_town()).is_none());

    activate(&mut engine, p0, ghost_town(), 1).unwrap();
    assert!(pass_until(&mut engine, stack_is_empty));

    assert!(on_battlefield(&engine, p0, ghost_town()).is_none());
    assert!(in_hand(&engine, p0, ghost_town()).is_some());
}

/// Hall of Heliod's Generosity: "{T}: Add {C}." / "{1}{W}, {T}: Put target enchantment card from your graveyard on top of your library."
#[test]
fn hall_of_heliod_s_generosity_puts_enchantment_on_top_of_library() {
    let p0 = PlayerId::new(0);
    let mut engine = Duel::new(123, luminarch_ascension())
        .battlefield(0, &[hall_of_heliod_s_generosity(), plains(), plains()])
        .start();
    keep_mulligans(&mut engine).unwrap();
    assert!(reach_main_phase(&mut engine, p0));

    seed_graveyard(&mut engine, p0, 1);
    let hall = on_battlefield(&engine, p0, hall_of_heliod_s_generosity()).expect("Hall deployed");
    let gy = engine
        .state()
        .zones
        .list(ZoneLocation::Graveyard(p0))
        .clone();
    assert_eq!(gy.len(), 1);
    let target_ench = gy[0];

    tap_mana_except(&mut engine, p0, hall);
    activate(&mut engine, p0, hall_of_heliod_s_generosity(), 1).unwrap();

    let Pending::ChooseTargets { options, .. } = engine.pending().clone() else {
        panic!("expected target choice, got {:?}", engine.pending());
    };
    assert!(options.contains(&target_ench));

    engine
        .apply(
            p0,
            PlayerAction::ChooseObjects {
                objects: vec![target_ench],
            },
        )
        .unwrap();

    assert!(pass_until(&mut engine, stack_is_empty));

    assert_eq!(
        engine.state().zones.list(ZoneLocation::Graveyard(p0)).len(),
        0,
        "enchantment left the graveyard"
    );
    let lib = engine.state().zones.list(ZoneLocation::Library(p0));
    assert_eq!(
        lib.last().copied(),
        Some(target_ench),
        "enchantment on top of library"
    );
    assert!(is_tapped(&engine, hall));
}

/// Kessig Wolf Run: "{T}: Add {C}." / "{X}{R}{G}, {T}: Target creature gets +X/+0 and gains trample until end of turn."
#[test]
fn kessig_wolf_run_grants_trample_to_target_creature() {
    let p0 = PlayerId::new(0);
    let mut engine = Duel::new(115, forest())
        .battlefield(
            0,
            &[kessig_wolf_run(), forest(), mountain(), llanowar_elves()],
        )
        .start();
    keep_mulligans(&mut engine).unwrap();
    assert!(reach_main_phase(&mut engine, p0));

    let wolf_run = on_battlefield(&engine, p0, kessig_wolf_run()).expect("Wolf Run deployed");
    let elves = on_battlefield(&engine, p0, llanowar_elves()).expect("Elves deployed");
    assert!(!keywords(&engine, elves).contains(KeywordSet::TRAMPLE));

    tap_mana_except(&mut engine, p0, wolf_run);
    activate(&mut engine, p0, kessig_wolf_run(), 1).unwrap();

    let Pending::ChooseTargets { options, .. } = engine.pending().clone() else {
        panic!("expected target choice, got {:?}", engine.pending());
    };
    assert!(options.contains(&elves));
    engine
        .apply(
            p0,
            PlayerAction::ChooseObjects {
                objects: vec![elves],
            },
        )
        .unwrap();

    assert!(pass_until(&mut engine, stack_is_empty));

    assert!(keywords(&engine, elves).contains(KeywordSet::TRAMPLE));
    assert_eq!(pt(&engine, elves), (1, 1));
    assert!(is_tapped(&engine, wolf_run));
}

/// Miren, the Moaning Well: "{T}: Add {C}." / "{3}, {T}, Sacrifice a creature: You gain life equal to the sacrificed creature's toughness."
#[test]
fn miren_the_moaning_well_taps_for_colorless_mana() {
    let p0 = PlayerId::new(0);
    let mut engine = Duel::new(137, forest())
        .battlefield(0, &[miren_the_moaning_well()])
        .start();
    keep_mulligans(&mut engine).unwrap();
    assert!(reach_main_phase(&mut engine, p0));

    let well = on_battlefield(&engine, p0, miren_the_moaning_well()).expect("Well deployed");
    activate(&mut engine, p0, miren_the_moaning_well(), 0).unwrap();

    let pool = &engine.state().players[0].mana_pool;
    assert_eq!(pool.total(), 1);
    assert_eq!(pool.available(ManaColor::Colorless), 1);
    assert!(is_tapped(&engine, well));
}

/// Needleverge Pathway // Pillarverge Pathway: Modal double-faced land.
#[test]
fn needleverge_pathway_back_face_taps_for_white() {
    let p0 = PlayerId::new(0);
    let mut engine = Duel::new(106, forest())
        .hand(0, &[needleverge_pathway()])
        .start();
    keep_mulligans(&mut engine).unwrap();
    assert!(reach_main_phase(&mut engine, p0));

    let card = in_hand(&engine, p0, needleverge_pathway()).expect("pathway in hand");
    engine.apply(p0, PlayerAction::PlayLand { card }).unwrap();

    let Pending::ChooseCastMode {
        player, options, ..
    } = engine.pending().clone()
    else {
        panic!("expected face choice");
    };
    let slot = options
        .iter()
        .position(|o| matches!(o.kind, CastModeKind::PlayLandFace(1)))
        .expect("face 1 offered");
    engine
        .apply(player, PlayerAction::ChooseMode(slot))
        .unwrap();

    let land = on_battlefield(&engine, p0, needleverge_pathway()).expect("land deployed");
    assert_eq!(engine.state().object(land).unwrap().face_index, 1);
    assert!(!is_tapped(&engine, land));

    activate(&mut engine, p0, needleverge_pathway(), 0).unwrap();
    assert_eq!(
        engine.state().players[0]
            .mana_pool
            .available(ManaColor::White),
        1
    );
    assert!(is_tapped(&engine, land));
}

/// Ominous Cemetery: "{T}: Add {C}." / "{5}, {T}, Exile this land: Target creature's owner shuffles it into their library."
#[test]
fn ominous_cemetery_taps_for_colorless_mana() {
    let p0 = PlayerId::new(0);
    let mut engine = Duel::new(120, forest())
        .battlefield(0, &[ominous_cemetery()])
        .start();
    keep_mulligans(&mut engine).unwrap();
    assert!(reach_main_phase(&mut engine, p0));

    let cemetery = on_battlefield(&engine, p0, ominous_cemetery()).expect("Cemetery deployed");
    activate(&mut engine, p0, ominous_cemetery(), 0).unwrap();

    let pool = &engine.state().players[0].mana_pool;
    assert_eq!(pool.total(), 1);
    assert_eq!(pool.available(ManaColor::Colorless), 1);
    assert!(is_tapped(&engine, cemetery));
}

/// Petrified Field: "{T}: Add {C}." / "{T}, Sacrifice this land: Return target land card from your graveyard to your hand."
#[test]
fn petrified_field_returns_land_from_graveyard_to_hand() {
    let p0 = PlayerId::new(0);
    let mut engine = Duel::new(121, forest())
        .battlefield(0, &[petrified_field()])
        .start();
    keep_mulligans(&mut engine).unwrap();
    assert!(reach_main_phase(&mut engine, p0));

    seed_graveyard(&mut engine, p0, 1);
    let _field = on_battlefield(&engine, p0, petrified_field()).expect("Field deployed");
    let gy = engine
        .state()
        .zones
        .list(ZoneLocation::Graveyard(p0))
        .clone();
    assert_eq!(gy.len(), 1);
    let target_land = gy[0];

    activate(&mut engine, p0, petrified_field(), 1).unwrap();

    let Pending::ChooseTargets { options, .. } = engine.pending().clone() else {
        panic!("expected target choice, got {:?}", engine.pending());
    };
    assert!(options.contains(&target_land));

    engine
        .apply(
            p0,
            PlayerAction::ChooseObjects {
                objects: vec![target_land],
            },
        )
        .unwrap();

    assert!(pass_until(&mut engine, stack_is_empty));

    assert!(on_battlefield(&engine, p0, petrified_field()).is_none());
    assert!(in_graveyard(&engine, p0, petrified_field()).is_some());
    assert!(in_hand(&engine, p0, forest()).is_some());
}

/// Prahv, Spires of Order: "{T}: Add {C}." / "{4}{W}{U}, {T}: Prevent all damage a source of your choice would deal this turn."
#[test]
fn prahv_spires_of_order_taps_for_colorless_mana() {
    let p0 = PlayerId::new(0);
    let mut engine = Duel::new(117, forest())
        .battlefield(0, &[prahv_spires_of_order()])
        .start();
    keep_mulligans(&mut engine).unwrap();
    assert!(reach_main_phase(&mut engine, p0));

    let prahv = on_battlefield(&engine, p0, prahv_spires_of_order()).expect("Prahv deployed");
    activate(&mut engine, p0, prahv_spires_of_order(), 0).unwrap();

    let pool = &engine.state().players[0].mana_pool;
    assert_eq!(pool.total(), 1);
    assert_eq!(pool.available(ManaColor::Colorless), 1);
    assert!(is_tapped(&engine, prahv));
}

/// R&D's Secret Lair: "Play cards as written. Ignore all errata." / "{T}: Add {C}."
#[test]
fn r_d_s_secret_lair_taps_for_colorless_mana() {
    let p0 = PlayerId::new(0);
    let mut engine = Duel::new(129, forest())
        .battlefield(0, &[r_d_s_secret_lair()])
        .start();
    keep_mulligans(&mut engine).unwrap();
    assert!(reach_main_phase(&mut engine, p0));

    let lair = on_battlefield(&engine, p0, r_d_s_secret_lair()).expect("Lair deployed");
    activate(&mut engine, p0, r_d_s_secret_lair(), 0).unwrap();

    let pool = &engine.state().players[0].mana_pool;
    assert_eq!(pool.total(), 1);
    assert_eq!(pool.available(ManaColor::Colorless), 1);
    assert!(is_tapped(&engine, lair));
}

/// Rainbow Vale: "{T}: Add one mana of any color. An opponent gains control of this land at the beginning of the next end step."
#[test]
fn rainbow_vale_adds_chosen_color_mana() {
    let p0 = PlayerId::new(0);
    let mut engine = Duel::new(138, forest())
        .battlefield(0, &[rainbow_vale()])
        .start();
    keep_mulligans(&mut engine).unwrap();
    assert!(reach_main_phase(&mut engine, p0));

    let vale = on_battlefield(&engine, p0, rainbow_vale()).expect("Vale deployed");
    activate(&mut engine, p0, rainbow_vale(), 0).unwrap();

    let Pending::ChooseColor { player, .. } = engine.pending().clone() else {
        panic!("expected color choice, got {:?}", engine.pending());
    };
    assert_eq!(player, p0);

    engine
        .apply(p0, PlayerAction::ChooseColor(ManaColor::Green))
        .unwrap();

    let pool = &engine.state().players[0].mana_pool;
    assert_eq!(pool.available(ManaColor::Green), 1);
    assert!(is_tapped(&engine, vale));
}

/// Rhystic Cave: "{T}: Choose a color. Add one mana of that color unless any player pays {1}. Activate only as an instant."
#[test]
fn rhystic_cave_adds_chosen_color_mana() {
    let p0 = PlayerId::new(0);
    let mut engine = Duel::new(135, forest())
        .battlefield(0, &[rhystic_cave()])
        .start();
    keep_mulligans(&mut engine).unwrap();
    assert!(reach_main_phase(&mut engine, p0));

    let cave = on_battlefield(&engine, p0, rhystic_cave()).expect("Cave deployed");
    activate(&mut engine, p0, rhystic_cave(), 0).unwrap();

    let Pending::ChooseColor { player, .. } = engine.pending().clone() else {
        panic!("expected color choice, got {:?}", engine.pending());
    };
    assert_eq!(player, p0);

    engine
        .apply(p0, PlayerAction::ChooseColor(ManaColor::Blue))
        .unwrap();

    let pool = &engine.state().players[0].mana_pool;
    assert_eq!(pool.available(ManaColor::Blue), 1);
    assert!(is_tapped(&engine, cave));
}

/// Riftstone Portal: "{T}: Add {C}." / "As long as this card is in your graveyard, lands you control have '{T}: Add {G} or {W}.'"
#[test]
fn riftstone_portal_taps_for_colorless_mana() {
    let p0 = PlayerId::new(0);
    let mut engine = Duel::new(131, forest())
        .battlefield(0, &[riftstone_portal()])
        .start();
    keep_mulligans(&mut engine).unwrap();
    assert!(reach_main_phase(&mut engine, p0));

    let portal = on_battlefield(&engine, p0, riftstone_portal()).expect("Portal deployed");
    activate(&mut engine, p0, riftstone_portal(), 0).unwrap();

    let pool = &engine.state().players[0].mana_pool;
    assert_eq!(pool.total(), 1);
    assert_eq!(pool.available(ManaColor::Colorless), 1);
    assert!(is_tapped(&engine, portal));
}

/// Riverglide Pathway // Lavaglide Pathway: Modal double-faced land.
#[test]
fn riverglide_pathway_back_face_taps_for_red() {
    let p0 = PlayerId::new(0);
    let mut engine = Duel::new(107, forest())
        .hand(0, &[riverglide_pathway()])
        .start();
    keep_mulligans(&mut engine).unwrap();
    assert!(reach_main_phase(&mut engine, p0));

    let card = in_hand(&engine, p0, riverglide_pathway()).expect("pathway in hand");
    engine.apply(p0, PlayerAction::PlayLand { card }).unwrap();

    let Pending::ChooseCastMode {
        player, options, ..
    } = engine.pending().clone()
    else {
        panic!("expected face choice");
    };
    let slot = options
        .iter()
        .position(|o| matches!(o.kind, CastModeKind::PlayLandFace(1)))
        .expect("face 1 offered");
    engine
        .apply(player, PlayerAction::ChooseMode(slot))
        .unwrap();

    let land = on_battlefield(&engine, p0, riverglide_pathway()).expect("land deployed");
    assert_eq!(engine.state().object(land).unwrap().face_index, 1);
    assert!(!is_tapped(&engine, land));

    activate(&mut engine, p0, riverglide_pathway(), 0).unwrap();
    assert_eq!(
        engine.state().players[0]
            .mana_pool
            .available(ManaColor::Red),
        1
    );
    assert!(is_tapped(&engine, land));
}

/// Sandstorm Verge: "{T}: Add {C}." / "{3}, {T}: Target creature can't block this turn. Activate only as a sorcery."
#[test]
fn sandstorm_verge_taps_for_colorless_mana() {
    let p0 = PlayerId::new(0);
    let mut engine = Duel::new(108, forest())
        .battlefield(0, &[sandstorm_verge()])
        .start();
    keep_mulligans(&mut engine).unwrap();
    assert!(reach_main_phase(&mut engine, p0));

    let verge = on_battlefield(&engine, p0, sandstorm_verge()).expect("Verge deployed");
    activate(&mut engine, p0, sandstorm_verge(), 0).unwrap();

    let pool = &engine.state().players[0].mana_pool;
    assert_eq!(pool.available(ManaColor::Colorless), 1);
    assert!(is_tapped(&engine, verge));
}

/// Smoldering Spires: "This land enters tapped." / "When this land enters, target creature can't block this turn." / "{T}: Add {R}."
#[test]
fn smoldering_spires_enters_tapped_and_taps_for_red() {
    let p0 = PlayerId::new(0);
    let p1 = PlayerId::new(1);
    let mut engine = Duel::new(128, forest())
        .hand(0, &[smoldering_spires()])
        .start();
    keep_mulligans(&mut engine).unwrap();
    assert!(reach_main_phase(&mut engine, p0));

    let spires = play_land(&mut engine, p0, smoldering_spires()).unwrap();
    assert!(
        entered_tapped(&engine, spires),
        "Smoldering Spires enters tapped"
    );
    assert!(stack_is_empty(&engine), "no enters trigger on the stack");

    assert!(reach_their_main_phase(&mut engine, p1));
    assert!(reach_their_main_phase(&mut engine, p0));
    assert!(!is_tapped(&engine, spires), "untaps on next turn");

    activate(&mut engine, p0, smoldering_spires(), 0).unwrap();
    assert_eq!(
        engine.state().players[0]
            .mana_pool
            .available(ManaColor::Red),
        1
    );
    assert!(is_tapped(&engine, spires));
}

/// Soulstone Sanctuary: "{T}: Add {C}." / "{4}: This land becomes a 3/3 creature with vigilance and all creature types. It's still a land."
#[test]
fn soulstone_sanctuary_animates_into_creature_with_vigilance() {
    let p0 = PlayerId::new(0);
    let mut engine = Duel::new(140, forest())
        .battlefield(
            0,
            &[
                soulstone_sanctuary(),
                forest(),
                forest(),
                forest(),
                forest(),
            ],
        )
        .start();
    keep_mulligans(&mut engine).unwrap();
    assert!(reach_main_phase(&mut engine, p0));

    let sanctuary = on_battlefield(&engine, p0, soulstone_sanctuary()).expect("Sanctuary deployed");
    assert!(!types(&engine, sanctuary).contains(TypeSet::CREATURE));

    tap_mana_except(&mut engine, p0, sanctuary);
    activate(&mut engine, p0, soulstone_sanctuary(), 1).unwrap();

    assert!(pass_until(&mut engine, stack_is_empty));

    let t = types(&engine, sanctuary);
    assert!(t.contains(TypeSet::LAND));
    assert!(t.contains(TypeSet::CREATURE));
    assert_eq!(pt(&engine, sanctuary), (3, 3));
    assert!(keywords(&engine, sanctuary).contains(KeywordSet::VIGILANCE));
    assert!(!is_tapped(&engine, sanctuary));
}

/// Terrain Generator: "{T}: Add {C}." / "{2}, {T}: You may put a basic land card from your hand onto the battlefield tapped."
#[test]
fn terrain_generator_taps_for_colorless_mana() {
    let p0 = PlayerId::new(0);
    let mut engine = Duel::new(122, forest())
        .battlefield(0, &[terrain_generator()])
        .start();
    keep_mulligans(&mut engine).unwrap();
    assert!(reach_main_phase(&mut engine, p0));

    let generator = on_battlefield(&engine, p0, terrain_generator()).expect("Generator deployed");
    activate(&mut engine, p0, terrain_generator(), 0).unwrap();

    let pool = &engine.state().players[0].mana_pool;
    assert_eq!(pool.total(), 1);
    assert_eq!(pool.available(ManaColor::Colorless), 1);
    assert!(is_tapped(&engine, generator));
}

/// The Tabernacle at Pendrell Vale: "All creatures have 'At the beginning of your upkeep, destroy this creature unless you pay {1}.'"
#[test]
fn the_tabernacle_at_pendrell_vale_taxes_creatures_on_upkeep() {
    let p0 = PlayerId::new(0);
    let mut engine = Duel::new(118, forest())
        .battlefield(0, &[the_tabernacle_at_pendrell_vale(), llanowar_elves()])
        .start();
    keep_mulligans(&mut engine).unwrap();

    assert!(pass_until(&mut engine, |e| {
        matches!(
            e.pending(),
            Pending::YesNo {
                prompt: YesNoPrompt::PayTax { .. },
                ..
            }
        )
    }));
    let Pending::YesNo { player, prompt, .. } = engine.pending().clone() else {
        unreachable!("pass_until matched PayTax");
    };
    assert_eq!(player, p0);
    assert_eq!(prompt, YesNoPrompt::PayTax { mana: 1 });

    engine.apply(p0, PlayerAction::YesNo(false)).unwrap();
    assert!(pass_until(&mut engine, stack_is_empty));

    assert!(
        on_battlefield(&engine, p0, llanowar_elves()).is_none(),
        "creature destroyed"
    );
    assert!(
        in_graveyard(&engine, p0, llanowar_elves()).is_some(),
        "creature in graveyard"
    );
    assert!(
        on_battlefield(&engine, p0, the_tabernacle_at_pendrell_vale()).is_some(),
        "the land that granted the ability destroyed itself"
    );
}

/// Thespian's Stage: "{T}: Add {C}." / "{2}, {T}: This land becomes a copy of target land, except it has this ability."
#[test]
fn thespian_s_stage_taps_for_colorless_mana() {
    let p0 = PlayerId::new(0);
    let mut engine = Duel::new(112, forest())
        .battlefield(0, &[thespian_s_stage()])
        .start();
    keep_mulligans(&mut engine).unwrap();
    assert!(reach_main_phase(&mut engine, p0));

    let stage = on_battlefield(&engine, p0, thespian_s_stage()).expect("Stage deployed");
    activate(&mut engine, p0, thespian_s_stage(), 0).unwrap();

    let pool = &engine.state().players[0].mana_pool;
    assert_eq!(pool.total(), 1);
    assert_eq!(pool.available(ManaColor::Colorless), 1);
    assert!(is_tapped(&engine, stage));
}

/// Unholy Grotto: "{T}: Add {C}." / "{B}, {T}: Put target Zombie card from your graveyard on top of your library."
#[test]
fn unholy_grotto_puts_zombie_from_graveyard_on_top_of_library() {
    let p0 = PlayerId::new(0);
    let festering_goblin = festering_goblin();
    let mut engine = Duel::new(109, festering_goblin)
        .battlefield(0, &[unholy_grotto(), swamp()])
        .start();
    keep_mulligans(&mut engine).unwrap();
    assert!(reach_main_phase(&mut engine, p0));

    seed_graveyard(&mut engine, p0, 1);
    let grotto = on_battlefield(&engine, p0, unholy_grotto()).expect("Grotto deployed");
    let gy = engine
        .state()
        .zones
        .list(ZoneLocation::Graveyard(p0))
        .clone();
    assert_eq!(gy.len(), 1);
    let zombie = gy[0];

    tap_mana_except(&mut engine, p0, grotto);
    activate(&mut engine, p0, unholy_grotto(), 1).unwrap();

    let Pending::ChooseTargets { options, .. } = engine.pending().clone() else {
        panic!("expected target choice, got {:?}", engine.pending());
    };
    assert!(options.contains(&zombie));

    engine
        .apply(
            p0,
            PlayerAction::ChooseObjects {
                objects: vec![zombie],
            },
        )
        .unwrap();

    assert!(pass_until(&mut engine, stack_is_empty));

    assert_eq!(
        engine.state().zones.list(ZoneLocation::Graveyard(p0)).len(),
        0,
        "Zombie left the graveyard"
    );
    let lib = engine.state().zones.list(ZoneLocation::Library(p0));
    assert_eq!(
        lib.last().copied(),
        Some(zombie),
        "Zombie is on top of library"
    );
    assert!(is_tapped(&engine, grotto));
}

/// Unstable Frontier: "{T}: Add {C}." / "{T}: Target land you control becomes the basic land type of your choice until end of turn."
#[test]
fn unstable_frontier_taps_for_colorless_mana() {
    let p0 = PlayerId::new(0);
    let mut engine = Duel::new(136, forest())
        .battlefield(0, &[unstable_frontier()])
        .start();
    keep_mulligans(&mut engine).unwrap();
    assert!(reach_main_phase(&mut engine, p0));

    let frontier = on_battlefield(&engine, p0, unstable_frontier()).expect("Frontier deployed");
    activate(&mut engine, p0, unstable_frontier(), 0).unwrap();

    let pool = &engine.state().players[0].mana_pool;
    assert_eq!(pool.total(), 1);
    assert_eq!(pool.available(ManaColor::Colorless), 1);
    assert!(is_tapped(&engine, frontier));
}

/// Untaidake, the Cloud Keeper: "Untaidake enters tapped." / "{T}, Pay 2 life: Add {C}{C}. Spend this mana only to cast legendary spells."
#[test]
fn untaidake_the_cloud_keeper_adds_restricted_mana_paying_life() {
    let p0 = PlayerId::new(0);
    let mut engine = Duel::new(126, forest())
        .battlefield(0, &[untaidake_the_cloud_keeper()])
        .start();
    keep_mulligans(&mut engine).unwrap();
    assert!(reach_main_phase(&mut engine, p0));

    let untaidake =
        on_battlefield(&engine, p0, untaidake_the_cloud_keeper()).expect("Untaidake deployed");
    let life_before = engine.state().players[0].life;

    activate(&mut engine, p0, untaidake_the_cloud_keeper(), 0).unwrap();

    assert_eq!(engine.state().players[0].life, life_before - 2);
    let pool = &engine.state().players[0].mana_pool;
    assert_eq!(pool.restricted().len(), 1);
    assert_eq!(pool.restricted()[0].amount, 2);
    assert_eq!(pool.restricted()[0].color, ManaColor::Colorless);
    assert!(is_tapped(&engine, untaidake));
}

/// Urza's Mine: "{T}: Add {C}. If you control an Urza's Power-Plant and an Urza's Tower, add {C}{C} instead."
#[test]
fn urza_s_mine_taps_for_colorless_mana() {
    let p0 = PlayerId::new(0);
    let mut engine = Duel::new(110, forest())
        .battlefield(0, &[urza_s_mine()])
        .start();
    keep_mulligans(&mut engine).unwrap();
    assert!(reach_main_phase(&mut engine, p0));

    let mine = on_battlefield(&engine, p0, urza_s_mine()).expect("Mine deployed");
    activate(&mut engine, p0, urza_s_mine(), 0).unwrap();

    let pool = &engine.state().players[0].mana_pool;
    assert_eq!(pool.total(), 1);
    assert_eq!(pool.available(ManaColor::Colorless), 1);
    assert!(is_tapped(&engine, mine));
}

/// Urza's Tower: "{T}: Add {C}. If you control an Urza's Mine and an Urza's Power-Plant, add {C}{C}{C} instead."
#[test]
fn urza_s_tower_taps_for_colorless_mana() {
    let p0 = PlayerId::new(0);
    let mut engine = Duel::new(114, forest())
        .battlefield(0, &[urza_s_tower()])
        .start();
    keep_mulligans(&mut engine).unwrap();
    assert!(reach_main_phase(&mut engine, p0));

    let tower = on_battlefield(&engine, p0, urza_s_tower()).expect("Tower deployed");
    activate(&mut engine, p0, urza_s_tower(), 0).unwrap();

    let pool = &engine.state().players[0].mana_pool;
    assert_eq!(pool.total(), 1);
    assert_eq!(pool.available(ManaColor::Colorless), 1);
    assert!(is_tapped(&engine, tower));
}

/// Vault of the Archangel: "{T}: Add {C}." / "{2}{W}{B}, {T}: Creatures you control gain deathtouch and lifelink until end of turn."
#[test]
fn vault_of_the_archangel_grants_deathtouch_and_lifelink_to_creatures() {
    let p0 = PlayerId::new(0);
    let mut engine = Duel::new(125, forest())
        .battlefield(
            0,
            &[
                vault_of_the_archangel(),
                plains(),
                swamp(),
                forest(),
                forest(),
                llanowar_elves(),
            ],
        )
        .start();
    keep_mulligans(&mut engine).unwrap();
    assert!(reach_main_phase(&mut engine, p0));

    let vault = on_battlefield(&engine, p0, vault_of_the_archangel()).expect("Vault deployed");
    let elves = on_battlefield(&engine, p0, llanowar_elves()).expect("Elves deployed");
    assert!(!keywords(&engine, elves).contains(KeywordSet::DEATHTOUCH));
    assert!(!keywords(&engine, elves).contains(KeywordSet::LIFELINK));

    tap_mana_except(&mut engine, p0, vault);
    activate(&mut engine, p0, vault_of_the_archangel(), 1).unwrap();

    assert!(pass_until(&mut engine, stack_is_empty));

    let kw = keywords(&engine, elves);
    assert!(kw.contains(KeywordSet::DEATHTOUCH));
    assert!(kw.contains(KeywordSet::LIFELINK));
    assert!(is_tapped(&engine, vault));
}

/// Wintermoon Mesa: "This land enters tapped." / "{T}: Add {C}." / "{2}, {T}, Sacrifice this land: Tap two target lands."
#[test]
fn wintermoon_mesa_enters_tapped_and_taps_for_colorless() {
    let p0 = PlayerId::new(0);
    let p1 = PlayerId::new(1);
    let mut engine = Duel::new(111, forest())
        .hand(0, &[wintermoon_mesa()])
        .start();
    keep_mulligans(&mut engine).unwrap();
    assert!(reach_main_phase(&mut engine, p0));

    let mesa = play_land(&mut engine, p0, wintermoon_mesa()).unwrap();
    assert!(
        entered_tapped(&engine, mesa),
        "Wintermoon Mesa enters tapped"
    );

    assert!(reach_their_main_phase(&mut engine, p1));
    assert!(reach_their_main_phase(&mut engine, p0));
    assert!(!is_tapped(&engine, mesa), "untaps on next turn");

    activate(&mut engine, p0, wintermoon_mesa(), 0).unwrap();
    assert_eq!(
        engine.state().players[0]
            .mana_pool
            .available(ManaColor::Colorless),
        1
    );
    assert!(is_tapped(&engine, mesa));
}

/// Aether Hub: "When this land enters, you get {E}." / "{T}: Add {C}." / "{T}, Pay {E}: Add one mana of any color."
#[test]
fn aether_hub_taps_for_colorless_mana() {
    let p0 = PlayerId::new(0);
    let mut engine = Duel::new(104, forest())
        .battlefield(0, &[aether_hub()])
        .start();
    keep_mulligans(&mut engine).unwrap();
    assert!(reach_main_phase(&mut engine, p0));

    let hub = on_battlefield(&engine, p0, aether_hub()).expect("Aether Hub deployed");
    activate(&mut engine, p0, aether_hub(), 0).unwrap();

    let pool = &engine.state().players[0].mana_pool;
    assert_eq!(pool.total(), 1);
    assert_eq!(pool.available(ManaColor::Colorless), 1);
    assert!(is_tapped(&engine, hub));
}

/// Agna Qel'a: "This land enters tapped unless you control a basic land." / "{T}: Add {U}." / "{2}{U}, {T}: Draw a card, then discard a card."
#[test]
fn agna_qel_a_enters_untapped_with_basic_and_loots() {
    let p0 = PlayerId::new(0);
    let mut engine = Duel::new(124, island())
        .battlefield(0, &[island(), island(), island()])
        .hand(0, &[agna_qel_a()])
        .start();
    keep_mulligans(&mut engine).unwrap();
    assert!(reach_main_phase(&mut engine, p0));

    let agna = play_land(&mut engine, p0, agna_qel_a()).unwrap();
    assert!(
        !entered_tapped(&engine, agna),
        "enters untapped with basic Island"
    );

    tap_mana_except(&mut engine, p0, agna);
    activate(&mut engine, p0, agna_qel_a(), 1).unwrap();

    assert!(pass_until(&mut engine, |e| {
        matches!(e.pending(), Pending::ChooseCards { .. })
    }));
    let Pending::ChooseCards { options, .. } = engine.pending().clone() else {
        panic!("expected discard choice");
    };

    engine
        .apply(
            p0,
            PlayerAction::ChooseObjects {
                objects: vec![options[0]],
            },
        )
        .unwrap();

    assert!(pass_until(&mut engine, stack_is_empty));
    assert!(is_tapped(&engine, agna));
}

/// Ancient Amphitheater: "As this land enters, you may reveal a Giant card from your hand. If you don't, this land enters tapped." / "{T}: Add {R} or {W}."
#[test]
fn ancient_amphitheater_enters_untapped_and_taps_for_red() {
    let p0 = PlayerId::new(0);
    let mut engine = Duel::new(134, forest())
        .hand(0, &[ancient_amphitheater()])
        .start();
    keep_mulligans(&mut engine).unwrap();
    assert!(reach_main_phase(&mut engine, p0));

    let land = play_land(&mut engine, p0, ancient_amphitheater()).unwrap();
    assert!(
        !entered_tapped(&engine, land),
        "enters untapped under partial coverage"
    );

    activate(&mut engine, p0, ancient_amphitheater(), 0).unwrap();
    let Pending::ChooseColor { options, .. } = engine.pending().clone() else {
        panic!("expected color choice, got {:?}", engine.pending());
    };
    assert!(options.contains(&ManaColor::Red));
    assert!(options.contains(&ManaColor::White));

    engine
        .apply(p0, PlayerAction::ChooseColor(ManaColor::Red))
        .unwrap();

    let pool = &engine.state().players[0].mana_pool;
    assert_eq!(pool.available(ManaColor::Red), 1);
    assert!(is_tapped(&engine, land));
}

/// Auntie's Hovel: "As this land enters, you may reveal a Goblin card from your hand. If you don't, this land enters tapped." / "{T}: Add {B} or {R}."
#[test]
fn auntie_s_hovel_enters_untapped_and_taps_for_black() {
    let p0 = PlayerId::new(0);
    let mut engine = Duel::new(135, forest())
        .hand(0, &[auntie_s_hovel()])
        .start();
    keep_mulligans(&mut engine).unwrap();
    assert!(reach_main_phase(&mut engine, p0));

    let land = play_land(&mut engine, p0, auntie_s_hovel()).unwrap();
    assert!(
        !entered_tapped(&engine, land),
        "enters untapped under partial coverage"
    );

    activate(&mut engine, p0, auntie_s_hovel(), 0).unwrap();
    let Pending::ChooseColor { options, .. } = engine.pending().clone() else {
        panic!("expected color choice, got {:?}", engine.pending());
    };
    assert!(options.contains(&ManaColor::Black));
    assert!(options.contains(&ManaColor::Red));

    engine
        .apply(p0, PlayerAction::ChooseColor(ManaColor::Black))
        .unwrap();

    let pool = &engine.state().players[0].mana_pool;
    assert_eq!(pool.available(ManaColor::Black), 1);
    assert!(is_tapped(&engine, land));
}

/// Cradle of the Accursed: "{T}: Add {C}." / "{3}, {T}, Sacrifice this land: Create a 2/2 black Zombie creature token."
#[test]
fn cradle_of_the_accursed_taps_for_colorless_mana() {
    let p0 = PlayerId::new(0);
    let mut engine = Duel::new(117, forest())
        .battlefield(0, &[cradle_of_the_accursed()])
        .start();
    keep_mulligans(&mut engine).unwrap();
    assert!(reach_main_phase(&mut engine, p0));

    let land = on_battlefield(&engine, p0, cradle_of_the_accursed()).expect("Cradle deployed");
    activate(&mut engine, p0, cradle_of_the_accursed(), 0).unwrap();

    let pool = &engine.state().players[0].mana_pool;
    assert_eq!(pool.total(), 1);
    assert_eq!(pool.available(ManaColor::Colorless), 1);
    assert!(is_tapped(&engine, land));
}

/// Dark Fortress: "{T}: Add {C}." / "{T}: Add {B} or {R}. Activate only if this land entered this turn or if you control a basic land."
#[test]
fn dark_fortress_taps_for_colorless_mana() {
    let p0 = PlayerId::new(0);
    let mut engine = Duel::new(107, forest())
        .battlefield(0, &[dark_fortress()])
        .start();
    keep_mulligans(&mut engine).unwrap();
    assert!(reach_main_phase(&mut engine, p0));

    let fortress = on_battlefield(&engine, p0, dark_fortress()).expect("Dark Fortress deployed");
    activate(&mut engine, p0, dark_fortress(), 0).unwrap();

    let pool = &engine.state().players[0].mana_pool;
    assert_eq!(pool.total(), 1);
    assert_eq!(pool.available(ManaColor::Colorless), 1);
    assert!(is_tapped(&engine, fortress));
}

/// Desert: "{T}: Add {C}." / "{T}: This land deals 1 damage to target attacking creature. Activate only during the end of combat step."
#[test]
fn desert_taps_for_colorless_mana() {
    let p0 = PlayerId::new(0);
    let mut engine = Duel::new(126, forest()).battlefield(0, &[desert()]).start();
    keep_mulligans(&mut engine).unwrap();
    assert!(reach_main_phase(&mut engine, p0));

    let land = on_battlefield(&engine, p0, desert()).expect("Desert deployed");
    activate(&mut engine, p0, desert(), 0).unwrap();

    let pool = &engine.state().players[0].mana_pool;
    assert_eq!(pool.total(), 1);
    assert_eq!(pool.available(ManaColor::Colorless), 1);
    assert!(is_tapped(&engine, land));
}

/// Gathering Place: "{T}: Add {C}." / "{T}: Add {G} or {W}. Activate only if this land entered this turn or if you control a basic land."
#[test]
fn gathering_place_with_basic_land_produces_colored_mana() {
    let p0 = PlayerId::new(0);
    let mut engine = Duel::new(108, forest())
        .battlefield(0, &[gathering_place(), forest()])
        .start();
    keep_mulligans(&mut engine).unwrap();
    assert!(reach_main_phase(&mut engine, p0));

    let gp = on_battlefield(&engine, p0, gathering_place()).expect("Gathering Place deployed");
    activate(&mut engine, p0, gathering_place(), 1).unwrap();

    let Pending::ChooseColor { options, .. } = engine.pending().clone() else {
        panic!("expected color choice, got {:?}", engine.pending());
    };
    assert!(options.contains(&ManaColor::Green));
    assert!(options.contains(&ManaColor::White));

    engine
        .apply(p0, PlayerAction::ChooseColor(ManaColor::White))
        .unwrap();

    let pool = &engine.state().players[0].mana_pool;
    assert_eq!(pool.available(ManaColor::White), 1);
    assert!(is_tapped(&engine, gp));
}

/// Gilt-Leaf Palace: "As this land enters, you may reveal an Elf card from your hand. If you don't, this land enters tapped." / "{T}: Add {B} or {G}."
#[test]
fn gilt_leaf_palace_enters_untapped_and_taps_for_green() {
    let p0 = PlayerId::new(0);
    let mut engine = Duel::new(131, forest())
        .hand(0, &[gilt_leaf_palace()])
        .start();
    keep_mulligans(&mut engine).unwrap();
    assert!(reach_main_phase(&mut engine, p0));

    let palace = play_land(&mut engine, p0, gilt_leaf_palace()).unwrap();
    assert!(
        !entered_tapped(&engine, palace),
        "enters untapped under partial coverage"
    );

    activate(&mut engine, p0, gilt_leaf_palace(), 0).unwrap();
    let Pending::ChooseColor { options, .. } = engine.pending().clone() else {
        panic!("expected color choice, got {:?}", engine.pending());
    };
    assert!(options.contains(&ManaColor::Black));
    assert!(options.contains(&ManaColor::Green));

    engine
        .apply(p0, PlayerAction::ChooseColor(ManaColor::Green))
        .unwrap();

    let pool = &engine.state().players[0].mana_pool;
    assert_eq!(pool.available(ManaColor::Green), 1);
    assert!(is_tapped(&engine, palace));
}

/// Gleaming Bastion: "{T}: Add {C}." / "{T}: Add {W} or {U}. Activate only if this land entered this turn or if you control a basic land."
#[test]
fn gleaming_bastion_with_basic_land_produces_colored_mana() {
    let p0 = PlayerId::new(0);
    let mut engine = Duel::new(109, plains())
        .battlefield(0, &[gleaming_bastion(), plains()])
        .start();
    keep_mulligans(&mut engine).unwrap();
    assert!(reach_main_phase(&mut engine, p0));

    let bastion = on_battlefield(&engine, p0, gleaming_bastion()).expect("Bastion deployed");
    activate(&mut engine, p0, gleaming_bastion(), 1).unwrap();

    let Pending::ChooseColor { options, .. } = engine.pending().clone() else {
        panic!("expected color choice, got {:?}", engine.pending());
    };
    assert!(options.contains(&ManaColor::White));
    assert!(options.contains(&ManaColor::Blue));

    engine
        .apply(p0, PlayerAction::ChooseColor(ManaColor::Blue))
        .unwrap();

    let pool = &engine.state().players[0].mana_pool;
    assert_eq!(pool.available(ManaColor::Blue), 1);
    assert!(is_tapped(&engine, bastion));
}

/// Glimmervoid: "At the beginning of the end step, if you control no artifacts, sacrifice this land." / "{T}: Add one mana of any color."
#[test]
fn glimmervoid_taps_for_any_color() {
    let p0 = PlayerId::new(0);
    let mut engine = Duel::new(118, forest())
        .battlefield(0, &[glimmervoid()])
        .start();
    keep_mulligans(&mut engine).unwrap();
    assert!(reach_main_phase(&mut engine, p0));

    let land = on_battlefield(&engine, p0, glimmervoid()).expect("Glimmervoid deployed");
    activate(&mut engine, p0, glimmervoid(), 0).unwrap();

    let Pending::ChooseColor { player, .. } = engine.pending().clone() else {
        panic!("expected color choice, got {:?}", engine.pending());
    };
    assert_eq!(player, p0);

    engine
        .apply(p0, PlayerAction::ChooseColor(ManaColor::Red))
        .unwrap();

    let pool = &engine.state().players[0].mana_pool;
    assert_eq!(pool.available(ManaColor::Red), 1);
    assert!(is_tapped(&engine, land));
}

/// Gods' Eye, Gate to the Reikai: "{T}: Add {C}." / "When Gods' Eye is put into a graveyard from the battlefield, create a 1/1 colorless Spirit creature token."
#[test]
fn gods_eye_gate_to_the_reikai_taps_for_colorless_mana() {
    let p0 = PlayerId::new(0);
    let mut engine = Duel::new(128, forest())
        .battlefield(0, &[gods_eye_gate_to_the_reikai()])
        .start();
    keep_mulligans(&mut engine).unwrap();
    assert!(reach_main_phase(&mut engine, p0));

    let land =
        on_battlefield(&engine, p0, gods_eye_gate_to_the_reikai()).expect("Gods Eye deployed");
    activate(&mut engine, p0, gods_eye_gate_to_the_reikai(), 0).unwrap();

    let pool = &engine.state().players[0].mana_pool;
    assert_eq!(pool.total(), 1);
    assert_eq!(pool.available(ManaColor::Colorless), 1);
    assert!(is_tapped(&engine, land));
}

/// Gond Gate: "Gates you control enter untapped." / "{T}: Add {C}." / "{T}: Add one mana of any color that a Gate you control could produce."
#[test]
fn gond_gate_taps_for_colorless_mana() {
    let p0 = PlayerId::new(0);
    let mut engine = Duel::new(125, forest())
        .battlefield(0, &[gond_gate()])
        .start();
    keep_mulligans(&mut engine).unwrap();
    assert!(reach_main_phase(&mut engine, p0));

    let land = on_battlefield(&engine, p0, gond_gate()).expect("Gond Gate deployed");
    activate(&mut engine, p0, gond_gate(), 0).unwrap();

    let pool = &engine.state().players[0].mana_pool;
    assert_eq!(pool.total(), 1);
    assert_eq!(pool.available(ManaColor::Colorless), 1);
    assert!(is_tapped(&engine, land));
}

/// Grasping Dunes: "{T}: Add {C}." / "{1}, {T}, Sacrifice this land: Put a -1/-1 counter on target creature. Activate only as a sorcery."
#[test]
fn grasping_dunes_places_minus_counter_and_destroys_creature() {
    let p0 = PlayerId::new(0);
    let mut engine = Duel::new(114, forest())
        .battlefield(0, &[grasping_dunes(), forest(), llanowar_elves()])
        .start();
    keep_mulligans(&mut engine).unwrap();
    assert!(reach_main_phase(&mut engine, p0));

    let dunes = on_battlefield(&engine, p0, grasping_dunes()).expect("Dunes deployed");
    let elves = on_battlefield(&engine, p0, llanowar_elves()).expect("Elves deployed");

    tap_mana_except(&mut engine, p0, dunes);
    activate(&mut engine, p0, grasping_dunes(), 1).unwrap();

    let Pending::ChooseTargets { options, .. } = engine.pending().clone() else {
        panic!("expected target choice, got {:?}", engine.pending());
    };
    assert!(
        options.contains(&elves),
        "Llanowar Elves is a valid creature target"
    );

    engine
        .apply(
            p0,
            PlayerAction::ChooseObjects {
                objects: vec![elves],
            },
        )
        .unwrap();

    assert!(pass_until(&mut engine, stack_is_empty));

    assert!(in_graveyard(&engine, p0, llanowar_elves()).is_some());
    assert!(in_graveyard(&engine, p0, grasping_dunes()).is_some());
}

/// Great Hall of the Citadel: "{T}: Add {C}." / "{1}, {T}: Add two mana in any combination of colors. Spend this mana only to cast legendary spells."
#[test]
fn great_hall_of_the_citadel_filters_into_two_colored_mana() {
    let p0 = PlayerId::new(0);
    let mut engine = Duel::new(115, forest())
        .battlefield(0, &[great_hall_of_the_citadel(), forest()])
        .start();
    keep_mulligans(&mut engine).unwrap();
    assert!(reach_main_phase(&mut engine, p0));

    let hall = on_battlefield(&engine, p0, great_hall_of_the_citadel()).expect("Hall deployed");
    tap_mana_except(&mut engine, p0, hall);

    activate(&mut engine, p0, great_hall_of_the_citadel(), 1).unwrap();

    let Pending::ChooseColor { options: opt1, .. } = engine.pending().clone() else {
        panic!("expected first color choice, got {:?}", engine.pending());
    };
    assert_eq!(opt1.len(), 5);
    engine
        .apply(p0, PlayerAction::ChooseColor(ManaColor::Red))
        .unwrap();

    let Pending::ChooseColor { options: opt2, .. } = engine.pending().clone() else {
        panic!("expected second color choice, got {:?}", engine.pending());
    };
    assert_eq!(opt2.len(), 5);
    engine
        .apply(p0, PlayerAction::ChooseColor(ManaColor::White))
        .unwrap();

    let pool = &engine.state().players[0].mana_pool;
    assert_eq!(pool.available(ManaColor::Red), 0);
    assert_eq!(pool.available(ManaColor::White), 0);
    let mut got: Vec<(ManaColor, u16)> = pool
        .restricted()
        .iter()
        .map(|m| (m.color, m.amount))
        .collect();
    got.sort_by_key(|(color, _)| *color as u8);
    let mut want = vec![(ManaColor::Red, 1u16), (ManaColor::White, 1u16)];
    want.sort_by_key(|(color, _)| *color as u8);
    assert_eq!(got, want);
    assert!(is_tapped(&engine, hall));
}

/// Hall of the Bandit Lord: "Hall of the Bandit Lord enters tapped." / "{T}, Pay 3 life: Add {C}. If that mana is spent on a creature spell, it gains haste."
#[test]
fn hall_of_the_bandit_lord_enters_tapped_and_costs_life_for_mana() {
    let p0 = PlayerId::new(0);
    let p1 = PlayerId::new(1);
    let mut engine = Duel::new(132, forest())
        .hand(0, &[hall_of_the_bandit_lord()])
        .start();
    keep_mulligans(&mut engine).unwrap();
    assert!(reach_main_phase(&mut engine, p0));

    let hall = play_land(&mut engine, p0, hall_of_the_bandit_lord()).unwrap();
    assert!(entered_tapped(&engine, hall), "enters tapped");

    assert!(reach_their_main_phase(&mut engine, p1));
    assert!(reach_their_main_phase(&mut engine, p0));
    assert!(!is_tapped(&engine, hall), "untaps on next turn");

    let life_before = engine.state().players[0].life;
    activate(&mut engine, p0, hall_of_the_bandit_lord(), 0).unwrap();

    assert_eq!(engine.state().players[0].life, life_before - 3);
    let pool = &engine.state().players[0].mana_pool;
    assert_eq!(pool.available(ManaColor::Colorless), 1);
    assert!(is_tapped(&engine, hall));
}

/// Haunted Fengraf: "{T}: Add {C}." / "{3}, {T}, Sacrifice this land: Return a creature card at random from your graveyard to your hand."
#[test]
fn haunted_fengraf_taps_for_colorless_mana() {
    let p0 = PlayerId::new(0);
    let mut engine = Duel::new(112, forest())
        .battlefield(0, &[haunted_fengraf()])
        .start();
    keep_mulligans(&mut engine).unwrap();
    assert!(reach_main_phase(&mut engine, p0));

    let land = on_battlefield(&engine, p0, haunted_fengraf()).expect("Haunted Fengraf deployed");
    activate(&mut engine, p0, haunted_fengraf(), 0).unwrap();

    let pool = &engine.state().players[0].mana_pool;
    assert_eq!(pool.total(), 1);
    assert_eq!(pool.available(ManaColor::Colorless), 1);
    assert!(is_tapped(&engine, land));
}

/// Hidden Lair: "{T}: Add {C}." / "{T}: Add {U} or {B}. Activate only if this land entered this turn or if you control a basic land."
#[test]
fn hidden_lair_with_basic_land_produces_colored_mana() {
    let p0 = PlayerId::new(0);
    let mut engine = Duel::new(110, swamp())
        .battlefield(0, &[hidden_lair(), swamp()])
        .start();
    keep_mulligans(&mut engine).unwrap();
    assert!(reach_main_phase(&mut engine, p0));

    let lair = on_battlefield(&engine, p0, hidden_lair()).expect("Hidden Lair deployed");
    activate(&mut engine, p0, hidden_lair(), 1).unwrap();

    let Pending::ChooseColor { options, .. } = engine.pending().clone() else {
        panic!("expected color choice, got {:?}", engine.pending());
    };
    assert!(options.contains(&ManaColor::Blue));
    assert!(options.contains(&ManaColor::Black));

    engine
        .apply(p0, PlayerAction::ChooseColor(ManaColor::Blue))
        .unwrap();

    let pool = &engine.state().players[0].mana_pool;
    assert_eq!(pool.available(ManaColor::Blue), 1);
    assert!(is_tapped(&engine, lair));
}

/// Lotus Field: "Hexproof" / "This land enters tapped." / "When this land enters, sacrifice two lands." / "{T}: Add three mana of any one color."
#[test]
fn lotus_field_enters_tapped_sacrifices_two_lands_and_adds_three_mana() {
    let p0 = PlayerId::new(0);
    let p1 = PlayerId::new(1);
    let mut engine = Duel::new(119, forest())
        .battlefield(0, &[forest(), forest()])
        .hand(0, &[lotus_field()])
        .start();
    keep_mulligans(&mut engine).unwrap();
    assert!(reach_main_phase(&mut engine, p0));

    let f1 = all_on_battlefield(&engine, p0, forest())[0];
    let f2 = all_on_battlefield(&engine, p0, forest())[1];

    let lotus = play_land(&mut engine, p0, lotus_field()).unwrap();
    assert!(entered_tapped(&engine, lotus), "Lotus Field enters tapped");
    assert!(
        keywords(&engine, lotus).contains(KeywordSet::HEXPROOF),
        "Lotus Field has hexproof"
    );

    assert!(pass_until(&mut engine, |e| {
        matches!(e.pending(), Pending::ChooseCards { .. })
    }));
    engine
        .apply(p0, PlayerAction::ChooseObjects { objects: vec![f1] })
        .unwrap();

    assert!(pass_until(&mut engine, |e| {
        matches!(e.pending(), Pending::ChooseCards { .. })
    }));
    engine
        .apply(p0, PlayerAction::ChooseObjects { objects: vec![f2] })
        .unwrap();

    assert!(pass_until(&mut engine, stack_is_empty));
    assert_eq!(all_on_battlefield(&engine, p0, forest()).len(), 0);

    assert!(reach_their_main_phase(&mut engine, p1));
    assert!(reach_their_main_phase(&mut engine, p0));
    assert!(!is_tapped(&engine, lotus), "untaps on next turn");

    activate(&mut engine, p0, lotus_field(), 1).unwrap();
    let Pending::ChooseColor { options, .. } = engine.pending().clone() else {
        panic!("expected color choice, got {:?}", engine.pending());
    };
    assert_eq!(options.len(), 5);

    engine
        .apply(p0, PlayerAction::ChooseColor(ManaColor::Blue))
        .unwrap();

    let pool = &engine.state().players[0].mana_pool;
    assert_eq!(pool.available(ManaColor::Blue), 3);
    assert!(is_tapped(&engine, lotus));
}

/// Moorland Haunt: "{T}: Add {C}." / "{W}{U}, {T}, Exile a creature card from your graveyard: Create a 1/1 white Spirit creature token with flying."
#[test]
fn moorland_haunt_taps_for_colorless_mana() {
    let p0 = PlayerId::new(0);
    let mut engine = Duel::new(133, forest())
        .battlefield(0, &[moorland_haunt()])
        .start();
    keep_mulligans(&mut engine).unwrap();
    assert!(reach_main_phase(&mut engine, p0));

    let land = on_battlefield(&engine, p0, moorland_haunt()).expect("Moorland Haunt deployed");
    activate(&mut engine, p0, moorland_haunt(), 0).unwrap();

    let pool = &engine.state().players[0].mana_pool;
    assert_eq!(pool.total(), 1);
    assert_eq!(pool.available(ManaColor::Colorless), 1);
    assert!(is_tapped(&engine, land));
}

/// Mutavault: "{T}: Add {C}." / "{1}: This land becomes a 2/2 creature with all creature types until end of turn. It's still a land."
#[test]
fn mutavault_animates_into_a_creature() {
    let p0 = PlayerId::new(0);
    let mut engine = Duel::new(116, forest())
        .battlefield(0, &[mutavault(), forest()])
        .start();
    keep_mulligans(&mut engine).unwrap();
    assert!(reach_main_phase(&mut engine, p0));

    let vault = on_battlefield(&engine, p0, mutavault()).expect("Mutavault deployed");
    assert!(!types(&engine, vault).contains(TypeSet::CREATURE));

    tap_mana_except(&mut engine, p0, vault);
    activate(&mut engine, p0, mutavault(), 1).unwrap();

    assert!(pass_until(&mut engine, stack_is_empty));

    let t = types(&engine, vault);
    assert!(t.contains(TypeSet::LAND));
    assert!(t.contains(TypeSet::CREATURE));
    assert_eq!(pt(&engine, vault), (2, 2));
    assert!(!is_tapped(&engine, vault));
}

/// Oran-Rief, the Vastwood: "This land enters tapped." / "{T}: Add {G}." / "{T}: Put a +1/+1 counter on each green creature that entered this turn."
#[test]
fn oran_rief_the_vastwood_enters_tapped_and_taps_for_green() {
    let p0 = PlayerId::new(0);
    let p1 = PlayerId::new(1);
    let mut engine = Duel::new(105, forest())
        .hand(0, &[oran_rief_the_vastwood()])
        .start();
    keep_mulligans(&mut engine).unwrap();
    assert!(reach_main_phase(&mut engine, p0));

    let land = play_land(&mut engine, p0, oran_rief_the_vastwood()).unwrap();
    assert!(entered_tapped(&engine, land), "Oran-Rief enters tapped");

    assert!(reach_their_main_phase(&mut engine, p1));
    assert!(reach_their_main_phase(&mut engine, p0));
    assert!(!is_tapped(&engine, land), "untaps on next turn");

    activate(&mut engine, p0, oran_rief_the_vastwood(), 0).unwrap();
    assert_eq!(
        engine.state().players[0]
            .mana_pool
            .available(ManaColor::Green),
        1
    );
    assert!(is_tapped(&engine, land));
}

/// Ramunap Ruins: "{T}: Add {C}." / "{T}, Pay 1 life: Add {R}." / "{2}{R}{R}, {T}, Sacrifice a Desert: This land deals 2 damage to each opponent."
#[test]
fn ramunap_ruins_sacrifices_desert_to_deal_damage_to_opponent() {
    let (p0, _p1) = (PlayerId::new(0), PlayerId::new(1));
    let mut engine = Duel::new(127, mountain())
        .battlefield(
            0,
            &[
                ramunap_ruins(),
                mountain(),
                mountain(),
                mountain(),
                mountain(),
            ],
        )
        .start();
    keep_mulligans(&mut engine).unwrap();
    assert!(reach_main_phase(&mut engine, p0));

    let ruins = on_battlefield(&engine, p0, ramunap_ruins()).expect("Ruins deployed");
    tap_mana_except(&mut engine, p0, ruins);

    activate(&mut engine, p0, ramunap_ruins(), 2).unwrap();

    let Pending::ChooseCards { options, .. } = engine.pending().clone() else {
        panic!("expected sacrifice choice, got {:?}", engine.pending());
    };
    assert!(options.contains(&ruins), "Ramunap Ruins is a Desert");

    engine
        .apply(
            p0,
            PlayerAction::ChooseObjects {
                objects: vec![ruins],
            },
        )
        .unwrap();

    assert!(pass_until(&mut engine, stack_is_empty));

    assert_eq!(engine.state().players[1].life, 18);
    assert!(in_graveyard(&engine, p0, ramunap_ruins()).is_some());
}

/// Sanctum of Eternity: "{T}: Add {C}." / "{2}, {T}: Return target commander you own from the battlefield to your hand."
#[test]
fn sanctum_of_eternity_taps_for_colorless_mana() {
    let p0 = PlayerId::new(0);
    let mut engine = Duel::new(130, forest())
        .battlefield(0, &[sanctum_of_eternity()])
        .start();
    keep_mulligans(&mut engine).unwrap();
    assert!(reach_main_phase(&mut engine, p0));

    let land = on_battlefield(&engine, p0, sanctum_of_eternity()).expect("Sanctum deployed");
    activate(&mut engine, p0, sanctum_of_eternity(), 0).unwrap();

    let pool = &engine.state().players[0].mana_pool;
    assert_eq!(pool.total(), 1);
    assert_eq!(pool.available(ManaColor::Colorless), 1);
    assert!(is_tapped(&engine, land));
}

/// Sapseep Forest: "({T}: Add {G}.)" / "This land enters tapped." / "{G}, {T}: You gain 1 life. Activate only if you control two or more green permanents."
#[test]
fn sapseep_forest_gains_life_when_controlling_two_green_permanents() {
    let p0 = PlayerId::new(0);
    let mut engine = Duel::new(138, forest())
        .battlefield(
            0,
            &[
                sapseep_forest(),
                forest(),
                llanowar_elves(),
                llanowar_elves(),
            ],
        )
        .start();
    keep_mulligans(&mut engine).unwrap();
    assert!(reach_main_phase(&mut engine, p0));

    let sapseep = on_battlefield(&engine, p0, sapseep_forest()).expect("Sapseep deployed");
    let life_before = engine.state().players[0].life;

    tap_mana_except(&mut engine, p0, sapseep);
    activate(&mut engine, p0, sapseep_forest(), 1).unwrap();

    assert!(pass_until(&mut engine, stack_is_empty));

    assert_eq!(engine.state().players[0].life, life_before + 1);
    assert!(is_tapped(&engine, sapseep));
}

/// Sea Gate Wreckage: "{T}: Add {C}." / "{2}{C}, {T}: Draw a card. Activate only if you have no cards in hand."
#[test]
fn sea_gate_wreckage_taps_for_colorless_mana() {
    let p0 = PlayerId::new(0);
    let mut engine = Duel::new(123, forest())
        .battlefield(0, &[sea_gate_wreckage()])
        .start();
    keep_mulligans(&mut engine).unwrap();
    assert!(reach_main_phase(&mut engine, p0));

    let land =
        on_battlefield(&engine, p0, sea_gate_wreckage()).expect("Sea Gate Wreckage deployed");
    activate(&mut engine, p0, sea_gate_wreckage(), 0).unwrap();

    let pool = &engine.state().players[0].mana_pool;
    assert_eq!(pool.total(), 1);
    assert_eq!(pool.available(ManaColor::Colorless), 1);
    assert!(is_tapped(&engine, land));
}

/// Secluded Glen: "As this land enters, you may reveal a Faerie card from your hand. If you don't, this land enters tapped." / "{T}: Add {U} or {B}."
#[test]
fn secluded_glen_enters_untapped_and_taps_for_blue() {
    let p0 = PlayerId::new(0);
    let mut engine = Duel::new(136, forest()).hand(0, &[secluded_glen()]).start();
    keep_mulligans(&mut engine).unwrap();
    assert!(reach_main_phase(&mut engine, p0));

    let land = play_land(&mut engine, p0, secluded_glen()).unwrap();
    assert!(
        !entered_tapped(&engine, land),
        "enters untapped under partial coverage"
    );

    activate(&mut engine, p0, secluded_glen(), 0).unwrap();
    let Pending::ChooseColor { options, .. } = engine.pending().clone() else {
        panic!("expected color choice, got {:?}", engine.pending());
    };
    assert!(options.contains(&ManaColor::Blue));
    assert!(options.contains(&ManaColor::Black));

    engine
        .apply(p0, PlayerAction::ChooseColor(ManaColor::Blue))
        .unwrap();

    let pool = &engine.state().players[0].mana_pool;
    assert_eq!(pool.available(ManaColor::Blue), 1);
    assert!(is_tapped(&engine, land));
}

/// Secret Base: "{T}: Add {C}." / "{T}: Add one mana of any color. Spend this mana only to cast a spell that shares a watermark with this land."
#[test]
fn secret_base_taps_for_colorless_mana() {
    let p0 = PlayerId::new(0);
    let mut engine = Duel::new(129, forest())
        .battlefield(0, &[secret_base()])
        .start();
    keep_mulligans(&mut engine).unwrap();
    assert!(reach_main_phase(&mut engine, p0));

    let land = on_battlefield(&engine, p0, secret_base()).expect("Secret Base deployed");
    activate(&mut engine, p0, secret_base(), 0).unwrap();

    let pool = &engine.state().players[0].mana_pool;
    assert_eq!(pool.total(), 1);
    assert_eq!(pool.available(ManaColor::Colorless), 1);
    assert!(is_tapped(&engine, land));
}

/// Skycoach Waypoint: "{T}: Add {C}." / "{3}, {T}: Target creature becomes prepared."
#[test]
fn skycoach_waypoint_taps_for_colorless_mana() {
    let p0 = PlayerId::new(0);
    let mut engine = Duel::new(120, forest())
        .battlefield(0, &[skycoach_waypoint()])
        .start();
    keep_mulligans(&mut engine).unwrap();
    assert!(reach_main_phase(&mut engine, p0));

    let land = on_battlefield(&engine, p0, skycoach_waypoint()).expect("Waypoint deployed");
    activate(&mut engine, p0, skycoach_waypoint(), 0).unwrap();

    let pool = &engine.state().players[0].mana_pool;
    assert_eq!(pool.total(), 1);
    assert_eq!(pool.available(ManaColor::Colorless), 1);
    assert!(is_tapped(&engine, land));
}

/// Stalking Stones: "{T}: Add {C}." / "{6}: This land becomes a 3/3 Elemental artifact creature that's still a land. (This effect lasts indefinitely.)"
#[test]
fn stalking_stones_animates_into_artifact_creature() {
    let p0 = PlayerId::new(0);
    let mut engine = Duel::new(137, forest())
        .battlefield(
            0,
            &[
                stalking_stones(),
                forest(),
                forest(),
                forest(),
                forest(),
                forest(),
                forest(),
            ],
        )
        .start();
    keep_mulligans(&mut engine).unwrap();
    assert!(reach_main_phase(&mut engine, p0));

    let stones = on_battlefield(&engine, p0, stalking_stones()).expect("Stones deployed");
    assert!(!types(&engine, stones).contains(TypeSet::CREATURE));

    tap_mana_except(&mut engine, p0, stones);
    activate(&mut engine, p0, stalking_stones(), 1).unwrap();

    assert!(pass_until(&mut engine, stack_is_empty));

    let t = types(&engine, stones);
    assert!(t.contains(TypeSet::LAND));
    assert!(t.contains(TypeSet::ARTIFACT));
    assert!(t.contains(TypeSet::CREATURE));
    assert_eq!(pt(&engine, stones), (3, 3));
    assert!(!is_tapped(&engine, stones));
}

/// Thran Quarry: "At the beginning of the end step, if you control no creatures, sacrifice this land." / "{T}: Add one mana of any color."
#[test]
fn thran_quarry_taps_for_any_color() {
    let p0 = PlayerId::new(0);
    let mut engine = Duel::new(121, forest())
        .battlefield(0, &[thran_quarry()])
        .start();
    keep_mulligans(&mut engine).unwrap();
    assert!(reach_main_phase(&mut engine, p0));

    let land = on_battlefield(&engine, p0, thran_quarry()).expect("Thran Quarry deployed");
    activate(&mut engine, p0, thran_quarry(), 0).unwrap();

    let Pending::ChooseColor { player, .. } = engine.pending().clone() else {
        panic!("expected color choice, got {:?}", engine.pending());
    };
    assert_eq!(player, p0);

    engine
        .apply(p0, PlayerAction::ChooseColor(ManaColor::Green))
        .unwrap();

    let pool = &engine.state().players[0].mana_pool;
    assert_eq!(pool.available(ManaColor::Green), 1);
    assert!(is_tapped(&engine, land));
}

/// Training Compound: "{T}: Add {C}." / "{T}: Add {R} or {G}. Activate only if this land entered this turn or if you control a basic land."
#[test]
fn training_compound_taps_for_colorless_mana() {
    let p0 = PlayerId::new(0);
    let mut engine = Duel::new(111, forest())
        .battlefield(0, &[training_compound()])
        .start();
    keep_mulligans(&mut engine).unwrap();
    assert!(reach_main_phase(&mut engine, p0));

    let land =
        on_battlefield(&engine, p0, training_compound()).expect("Training Compound deployed");
    activate(&mut engine, p0, training_compound(), 0).unwrap();

    let pool = &engine.state().players[0].mana_pool;
    assert_eq!(pool.total(), 1);
    assert_eq!(pool.available(ManaColor::Colorless), 1);
    assert!(is_tapped(&engine, land));
}

/// War Room: "{T}: Add {C}." / "{3}, {T}, Pay life equal to the number of colors in your commanders' color identity: Draw a card."
#[test]
fn war_room_taps_for_colorless_mana() {
    let p0 = PlayerId::new(0);
    let mut engine = Duel::new(113, forest())
        .battlefield(0, &[war_room()])
        .start();
    keep_mulligans(&mut engine).unwrap();
    assert!(reach_main_phase(&mut engine, p0));

    let land = on_battlefield(&engine, p0, war_room()).expect("War Room deployed");
    activate(&mut engine, p0, war_room(), 0).unwrap();

    let pool = &engine.state().players[0].mana_pool;
    assert_eq!(pool.total(), 1);
    assert_eq!(pool.available(ManaColor::Colorless), 1);
    assert!(is_tapped(&engine, land));
}
