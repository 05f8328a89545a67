//! Lands and the rules they lean on hardest: entry clauses, counters, costs paid on
//! entering, and abilities with a clause on when they may be activated.

use baylee_engine::testkit::{Duel, activate, all_on_battlefield, at_rest, bury_from_hand, counters_on, destroy, entered_tapped, in_graveyard, in_hand, is_tapped, keep_mulligans, keywords, library_size, mine, on_battlefield, pass_until, place, play_land, play_land_face, pt, reach_main_phase, reach_their_main_phase, seed_graveyard, stack_is_empty, tap_all_mana, tap_all_mana_but, tap_mana_except, tokens_of, types, walk_to_own_main};
use baylee_engine::helpers::{a_land_that_searches, ability_that_asks, arrives_tapped, basic, basic_of, cross_into_the_next_own_main, no_basic_land_on_the_menu, offered, on_to_this_turn_s_main, one_counted_land, one_filter_land, reach_the_search, reach_the_unless_question, spend_storage, store_a_counter, surveil_offer, the_object_paid, walk_to_the_untap_question};
use baylee_engine::engine::{ChoicePrompt, Pending, PlayerAction};
use baylee_engine::ids::{CardIndex, ObjectId, Phase, PlayerId};
use baylee_engine::mana::ManaColor;
use baylee_engine::state::{Zone, ZoneLocation};
use baylee_engine::sets::{CounterKind, KeywordSet, TypeSet};
use baylee_engine::catalog::{abandoned_campground, abraded_bluffs, academy_ruins, archway_commons, arid_mesa, azorius_chancery, azorius_guildgate, badlands, baldurs_gate, baleful_strix, bant_panorama, black_dragon_gate, blackcleave_cliffs, blazemire_verge, bleachbone_verge, bleeding_woods, blighted_gorge, blooming_marsh, bojuka_bog, boros_garrison, boros_guildgate, boseiju_who_endures, botanical_sanctum, bottomless_vault, buried_ruin, cabal_coffers, cabal_stronghold, calciform_pools, cascade_bluffs, cascading_cataracts, cephalid_coliseum, citadel_gate, cliffgate, cloudpost, command_bridge, commercial_district, concealed_courtyard, conduit_pylons, copperline_gorge, coral_atoll, crosis_s_catacombs, crossroads_village, cryptic_caves, darigaaz_s_caldera, darkslick_shores, deserted_beach, dimir_aqueduct, dormant_volcano, doubling_season, dreadship_reef, dromar_s_cavern, dust_bowl, dwarven_hold, dwarven_mine, elegant_parlor, esper_panorama, etched_cornfield, everglades, fellwar_stone, fetid_heath, fields_of_strife, fire_lit_thicket, flooded_grove, floodfarm_verge, fogwell_s_gym, forest, forum_of_amity, fountain_of_cho, fungal_reaches, gaea_s_cradle, gateway_plaza, gemstone_caverns, gemstone_mine, gingerbread_cabin, glimmerpost, gloomlake_verge, golgari_rot_farm, graven_cairns, grim_backwoods, grixis_panorama, gruul_turf, guildless_commons, heap_gate, hedge_maze, hickory_woodlot, hidden_grotto, high_market, holdout_settlement, hollow_trees, hushwood_verge, icatian_store, idyllic_grange, inspiring_vantage, inventors_fair, ipnu_rivulet, irrigated_farmland, island, izzet_boilerworks, jin_gitaxias, jund_panorama, jungle_basin, karoo, keldon_necropolis, kishla_village, lakeside_shack, lightning_greaves, llanowar_elves, lush_portico, mage_ring_network, manor_gate, mercadian_bazaar, meticulous_archive, mirage_mesa, mirrodin_s_core, molten_slagheap, mountain, murky_sewer, mystic_gate, naya_panorama, neglected_manor, nephalia_drownyard, nimbus_maze, ominous_asylum, orzhov_basilica, otawara_soaring_city, paradox_gardens, peat_bog, peculiar_lighthouse, phyrexia_s_core, phyrexian_tower, plains, prairie_stream, prismatic_vista, promising_vein, quiet_artifact, rakdos_carnarium, rath_s_edge, raucous_carnival, raucous_theater, razortrap_gorge, razorverge_thicket, reflecting_pool, remote_farm, rith_s_grove, rivendell, riverpyre_verge, rugged_prairie, rupture_spire, rushwood_grove, saltcrusted_steppe, sand_silos, sandstone_needle, saprazzan_cove, saprazzan_skerry, savage_mansion, scene_of_the_crime, sea_gate, seachrome_coast, seaside_haven, selesnya_sanctuary, serra_s_sanctum, shadowy_backstreet, shimmerdrift_vale, shire_terrace, simic_growth_chamber, sinister_hideout, spectacle_summit, spire_of_industry, spirebluff_canal, strangled_cemetery, subterranean_hangar, suburban_sanctuary, sunbillow_verge, sunken_hollow, sunken_ruins, surveillance_room, survivors_encampment, swamp, tainted_field, tainted_isle, tainted_peak, tainted_wood, takenuma_abandoned_mire, temple_of_the_false_god, tendo_ice_bridge, terminal_moraine, the_land_creature, the_shire, thornspire_verge, thriving_bluff, thriving_grove, thriving_heath, thriving_isle, thriving_moor, thundering_falls, titan_s_grave, tocasia_s_dig_site, tolarian_academy, transguild_promenade, treetop_village, treva_s_ruins, turbulent_fen, turbulent_moor, turbulent_springs, turbulent_steppe, turbulent_wilderness, twilight_mire, uncharted_haven, undercity_sewers, underground_mortuary, university_campus, valgavoth_s_lair, vibrant_cityscape, vivid_crag, vivid_creek, vivid_grove, vivid_marsh, vivid_meadow, warped_landscape, wastewood_verge, willowrush_verge, wooded_bastion};
use baylee_engine::cards::SearchDest;


#[test]
fn an_enters_trigger_can_burn_target_opponent_but_never_its_controller() {
    let p0 = PlayerId::new(0);
    let p1 = PlayerId::new(1);
    let mut engine = Duel::new(23, forest()).hand(0, &[abraded_bluffs()]).start();
    keep_mulligans(&mut engine).unwrap();
    assert!(reach_main_phase(&mut engine, p0));

    let land = engine
        .state()
        .zones
        .list(ZoneLocation::Hand(p0))
        .iter()
        .copied()
        .find(|id| {
            engine
                .state()
                .object(*id)
                .is_some_and(|o| o.card == abraded_bluffs())
        })
        .expect("the land is in hand");
    let before = engine.state().players[1].life;
    engine
        .apply(p0, PlayerAction::PlayLand { card: land })
        .unwrap();

    for _ in 0..8 {
        if matches!(engine.pending(), Pending::ChooseTargets { .. }) {
            break;
        }
        let Pending::Priority { player, .. } = engine.pending().clone() else {
            panic!(
                "unexpected while waiting for the trigger: {:?}",
                engine.pending()
            )
        };
        engine.apply(player, PlayerAction::PassPriority).unwrap();
    }
    let Pending::ChooseTargets {
        player,
        options,
        player_options,
        min,
        max,
        ..
    } = engine.pending().clone()
    else {
        panic!("expected a target choice, got {:?}", engine.pending())
    };
    assert_eq!(player, p0);
    assert!(
        options.is_empty(),
        "the damage points at a player, not an object"
    );
    assert_eq!(
        player_options,
        vec![p1],
        "only the opponent is a legal target"
    );
    assert_eq!((min, max), (1, 1));

    assert!(
        engine
            .apply(
                p0,
                PlayerAction::ChooseTargets {
                    objects: vec![],
                    players: vec![p0],
                },
            )
            .is_err(),
        "a card that says `target opponent` must not be pointable at its controller"
    );

    engine
        .apply(
            p0,
            PlayerAction::ChooseTargets {
                objects: vec![],
                players: vec![p1],
            },
        )
        .unwrap();
    assert!(pass_until(&mut engine, |e| e.state().players[1].life < before));
    assert_eq!(engine.state().players[1].life, before - 1);
}

/// Treetop Village: "{1}{G}: This land becomes a 3/3 green Ape creature with
/// trample until end of turn. It's still a land."
#[test]
fn an_animated_land_becomes_a_creature_and_stays_a_land() {
    let p0 = PlayerId::new(0);
    let mut engine = Duel::new(37, forest())
        .battlefield(0, &[treetop_village(), forest(), forest()])
        .start();
    keep_mulligans(&mut engine).unwrap();
    assert!(reach_main_phase(&mut engine, p0));
    let village = on_battlefield(&engine, p0, treetop_village()).expect("village deployed");
    assert!(
        !engine
            .state()
            .object(village)
            .expect("village exists")
            .characteristics()
            .types
            .contains(TypeSet::CREATURE),
        "a land is not a creature before anyone pays for it"
    );

    let Pending::Priority { legal, .. } = engine.pending().clone() else {
        panic!("expected priority, got {:?}", engine.pending())
    };
    for source in legal.mana_abilities.clone() {
        engine
            .apply(p0, PlayerAction::ActivateManaAbility { source })
            .unwrap();
    }
    let Pending::Priority { legal, .. } = engine.pending().clone() else {
        panic!("expected priority, got {:?}", engine.pending())
    };
    let (source, ability_index) = legal
        .abilities
        .iter()
        .copied()
        .find(|(id, index)| *id == village && *index == 1)
        .expect("the animate ability is offered");
    engine
        .apply(
            p0,
            PlayerAction::ActivateAbility {
                source,
                ability_index,
            },
        )
        .unwrap();
    assert!(pass_until(&mut engine, |e| {
        e.state()
            .object(village)
            .is_some_and(|o| o.characteristics().types.contains(TypeSet::CREATURE))
    }));

    let types = engine
        .state()
        .object(village)
        .expect("village exists")
        .characteristics()
        .types;
    assert!(types.contains(TypeSet::CREATURE));
    assert!(types.contains(TypeSet::LAND), "it's still a land");
    assert_eq!(pt(&engine, village), (3, 3));
    assert!(
        engine
            .state()
            .object(village)
            .expect("village exists")
            .characteristics()
            .keywords
            .contains(KeywordSet::TRAMPLE),
        "with trample"
    );
}

/// Sunken Hollow, a battle land: "This land enters tapped unless you control
/// two or more basic lands."
#[test]
fn a_battle_land_counts_two_basics_of_any_kind() {
    let p0 = PlayerId::new(0);
    let mut engine = Duel::new(111, forest())
        .battlefield(0, &[forest(), forest()])
        .hand(0, &[sunken_hollow()])
        .start();
    keep_mulligans(&mut engine).unwrap();
    assert!(reach_main_phase(&mut engine, p0));

    let hollow = play_land(&mut engine, p0, sunken_hollow()).unwrap();
    assert!(
        !entered_tapped(&engine, hollow),
        "two Forests are two basic lands"
    );
}

/// The other half, and it carries both bystanders the sentence needs.
#[test]
fn a_battle_land_counts_only_your_own_basic_lands() {
    let p0 = PlayerId::new(0);
    let mut engine = Duel::new(112, forest())
        .battlefield(0, &[island(), irrigated_farmland()])
        .battlefield(1, &[forest(), forest()])
        .hand(0, &[sunken_hollow()])
        .start();
    keep_mulligans(&mut engine).unwrap();
    assert!(reach_main_phase(&mut engine, p0));

    let hollow = play_land(&mut engine, p0, sunken_hollow()).unwrap();
    assert!(
        entered_tapped(&engine, hollow),
        "one basic land, a nonbasic Island and two basics across the table"
    );
}

/// Deserted Beach, a slow land: "This land enters tapped unless you control two
/// or more **other** lands."
#[test]
fn a_slow_land_counts_the_other_lands_and_never_itself() {
    let (p0, p1) = (PlayerId::new(0), PlayerId::new(1));
    let mut engine = Duel::new(113, forest())
        .battlefield(0, &[island()])
        .battlefield(1, &[forest(), forest(), forest()])
        .hand(0, &[deserted_beach(), deserted_beach()])
        .start();
    keep_mulligans(&mut engine).unwrap();
    assert!(reach_main_phase(&mut engine, p0));

    let first = play_land(&mut engine, p0, deserted_beach()).unwrap();
    assert!(
        entered_tapped(&engine, first),
        "an Island and the Beach itself are not two other lands"
    );

    assert!(pass_until(&mut engine, |e| e.state().turn.active == p1));
    assert!(reach_their_main_phase(&mut engine, p0));

    let second = play_land(&mut engine, p0, deserted_beach()).unwrap();
    assert!(
        !entered_tapped(&engine, second),
        "the Island and the first Beach are two other lands"
    );
}

/// Nephalia Drownyard: "{1}{U}{B}, {T}: Target player mills three cards."
#[test]
fn a_land_that_mills_target_player_can_be_activated() {
    let (p0, p1) = (PlayerId::new(0), PlayerId::new(1));
    let mut engine = Duel::new(203, forest())
        .battlefield(0, &[nephalia_drownyard(), island(), island(), swamp()])
        .start();
    keep_mulligans(&mut engine).unwrap();
    assert!(reach_main_phase(&mut engine, p0));
    let drownyard = on_battlefield(&engine, p0, nephalia_drownyard()).expect("the Drownyard");
    tap_mana_except(&mut engine, p0, drownyard);
    let before = library_size(&engine, p1);
    engine
        .apply(
            p0,
            PlayerAction::ActivateAbility {
                source: drownyard,
                ability_index: 1,
            },
        )
        .expect("two Islands and a Swamp pay {1}{U}{B}");
    let Pending::ChooseTargets {
        options,
        player_options,
        ..
    } = engine.pending().clone()
    else {
        panic!("the mill asks whose library: {:?}", engine.pending())
    };
    assert!(options.is_empty(), "a seat is not an object");
    assert!(
        player_options.contains(&p1),
        "and the other seat is one of the answers"
    );
    engine
        .apply(
            p0,
            PlayerAction::ChooseTargets {
                objects: vec![],
                players: vec![p1],
            },
        )
        .unwrap();
    assert!(pass_until(&mut engine, |e| {
        matches!(e.pending(), Pending::Priority { .. }) && stack_is_empty(e)
    }));
    assert_eq!(
        library_size(&engine, p1),
        before - 3,
        "three cards off the top of the library that was named"
    );
}

/// Blighted Gorge: "{4}{R}, {T}, Sacrifice this land: it deals 2 damage to any
/// target" — at a table with no creature on it.
#[test]
fn a_land_that_burns_any_target_reaches_a_face_across_an_empty_board() {
    let (p0, p1) = (PlayerId::new(0), PlayerId::new(1));
    let mut engine = Duel::new(204, forest())
        .battlefield(
            0,
            &[
                blighted_gorge(),
                mountain(),
                mountain(),
                mountain(),
                mountain(),
                mountain(),
            ],
        )
        .start();
    keep_mulligans(&mut engine).unwrap();
    assert!(reach_main_phase(&mut engine, p0));
    let gorge = on_battlefield(&engine, p0, blighted_gorge()).expect("the Gorge");
    tap_mana_except(&mut engine, p0, gorge);
    let Pending::Priority { legal, .. } = engine.pending().clone() else {
        panic!("still priority");
    };
    assert!(
        legal.abilities.contains(&(gorge, 1)),
        "a face is a legal target even with nothing on the battlefield"
    );
    let life = engine.state().players[1].life;
    engine
        .apply(
            p0,
            PlayerAction::ActivateAbility {
                source: gorge,
                ability_index: 1,
            },
        )
        .expect("five Mountains pay {4}{R}");
    let Pending::ChooseTargets {
        options,
        player_options,
        ..
    } = engine.pending().clone()
    else {
        panic!("the damage asks where: {:?}", engine.pending())
    };
    assert!(options.is_empty(), "no creature at the table");
    assert!(player_options.contains(&p1), "but both faces are there");
    engine
        .apply(
            p0,
            PlayerAction::ChooseTargets {
                objects: vec![],
                players: vec![p1],
            },
        )
        .unwrap();
    assert!(pass_until(&mut engine, |e| {
        matches!(e.pending(), Pending::Priority { .. }) && stack_is_empty(e)
    }));
    assert_eq!(
        engine.state().players[1].life,
        life - 2,
        "two damage to the seat that was named"
    );
}

/// Fellwar Stone reads what an opponent's land "could produce" (CR 106.7), and
/// a restriction on activating is not part of that answer.
#[test]
fn a_conditional_mana_ability_still_says_what_its_land_could_produce() {
    let p0 = PlayerId::new(0);
    let mut engine = Duel::new(733, forest())
        .battlefield(0, &[fellwar_stone()])
        .battlefield(1, &[bleachbone_verge()])
        .start();
    keep_mulligans(&mut engine).unwrap();
    assert!(reach_main_phase(&mut engine, p0));

    let stone = on_battlefield(&engine, p0, fellwar_stone()).expect("the Stone is on the table");
    let Pending::Priority { legal, .. } = engine.pending().clone() else {
        panic!("expected priority, got {:?}", engine.pending())
    };
    let (_, ability_index) = legal
        .abilities
        .iter()
        .copied()
        .find(|(id, _)| *id == stone)
        .expect("the Stone's mana ability is offered");
    engine
        .apply(
            p0,
            PlayerAction::ActivateAbility {
                source: stone,
                ability_index,
            },
        )
        .expect("a mana ability with no cost but the tap");

    let Pending::ChooseColor { options, .. } = engine.pending().clone() else {
        panic!("expected a colour choice, got {:?}", engine.pending())
    };
    assert!(
        options.contains(&ManaColor::White),
        "the Verge could produce {{W}} however the condition stands: {options:?}"
    );
    assert!(
        options.contains(&ManaColor::Black),
        "and {{B}} outright: {options:?}"
    );
}

/// Bojuka Bog: "When this land enters, exile **target player's** graveyard."
#[test]
fn bojuka_bog_exiles_only_the_graveyard_it_targeted() {
    let (p0, p1) = (PlayerId::new(0), PlayerId::new(1));
    let mut engine = Duel::new(29, forest()).hand(0, &[bojuka_bog()]).start();
    keep_mulligans(&mut engine).unwrap();
    assert!(reach_main_phase(&mut engine, p0));

    seed_graveyard(&mut engine, p0, 3);
    seed_graveyard(&mut engine, p1, 3);
    let mine_before = engine.state().zones.list(ZoneLocation::Graveyard(p0)).len();
    assert_eq!(
        mine_before, 3,
        "both graveyards start with something in them"
    );
    assert_eq!(
        engine.state().zones.list(ZoneLocation::Graveyard(p1)).len(),
        3
    );

    let land = in_hand(&engine, p0, bojuka_bog()).expect("the bog is in hand");
    engine
        .apply(p0, PlayerAction::PlayLand { card: land })
        .unwrap();

    for _ in 0..8 {
        if matches!(engine.pending(), Pending::ChooseTargets { .. }) {
            break;
        }
        let Pending::Priority { player, .. } = engine.pending().clone() else {
            panic!(
                "the enters trigger never asked for a player: {:?}",
                engine.pending()
            )
        };
        engine.apply(player, PlayerAction::PassPriority).unwrap();
    }
    let Pending::ChooseTargets { player_options, .. } = engine.pending().clone() else {
        panic!("expected a player choice, got {:?}", engine.pending())
    };
    assert_eq!(
        player_options,
        vec![p0, p1],
        "\"target player\" is anyone at the table (CR 115.1), the caster included"
    );
    engine
        .apply(
            p0,
            PlayerAction::ChooseTargets {
                objects: vec![],
                players: vec![p1],
            },
        )
        .expect("the bog points at the opponent");

    assert!(pass_until(&mut engine, |e| {
        e.state().zones.list(ZoneLocation::Graveyard(p1)).is_empty()
    }));
    assert_eq!(
        engine.state().zones.list(ZoneLocation::Exile(p1)).len(),
        3,
        "the cards are exiled, not merely gone"
    );
    assert_eq!(
        engine.state().zones.list(ZoneLocation::Graveyard(p0)).len(),
        mine_before,
        "one graveyard was named and only that one is emptied"
    );
}

/// A battle land fetched onto the battlefield still counts basics.
#[test]
fn a_fetched_battle_land_counts_the_basics_it_finds() {
    let p0 = PlayerId::new(0);
    let mut engine = Duel::new(43, prairie_stream())
        .battlefield(0, &[plains(), arid_mesa()])
        .start();
    keep_mulligans(&mut engine).unwrap();
    assert!(reach_main_phase(&mut engine, p0));

    let mesa = on_battlefield(&engine, p0, arid_mesa()).expect("the fetchland is out");
    engine
        .apply(
            p0,
            PlayerAction::ActivateAbility {
                source: mesa,
                ability_index: 0,
            },
        )
        .unwrap();
    engine.apply(p0, PlayerAction::PassPriority).unwrap();
    engine
        .apply(PlayerId::new(1), PlayerAction::PassPriority)
        .unwrap();

    let Pending::ChooseCards { options, .. } = engine.pending().clone() else {
        panic!("expected the fetch's search, got {:?}", engine.pending())
    };
    let found = *options.first().expect("the library is all Prairie Stream");
    engine
        .apply(
            p0,
            PlayerAction::ChooseObjects {
                objects: vec![found],
            },
        )
        .unwrap();

    let obj = engine.state().object(found).expect("the land arrived");
    assert_eq!(obj.zone, Zone::Battlefield);
    assert!(
        obj.tapped,
        "one Plains is not two basic lands"
    );
}

/// Gaea's Cradle: "{T}: Add {G} for each creature you control."
#[test]
fn a_counted_mana_ability_counts_your_creatures_and_nobody_elses() {
    let p0 = PlayerId::new(0);
    let mut engine = Duel::new(61, forest())
        .battlefield(0, &[gaea_s_cradle(), llanowar_elves(), llanowar_elves()])
        .battlefield(1, &[llanowar_elves()])
        .start();
    keep_mulligans(&mut engine).unwrap();
    assert!(reach_main_phase(&mut engine, p0));

    let cradle = on_battlefield(&engine, p0, gaea_s_cradle()).expect("the Cradle is out");
    assert_eq!(
        engine.state().players[0].mana_pool.total(),
        0,
        "the pool starts empty, so what is counted below is this ability's"
    );
    engine
        .apply(
            p0,
            PlayerAction::ActivateAbility {
                source: cradle,
                ability_index: 0,
            },
        )
        .unwrap();

    let pool = &engine.state().players[0].mana_pool;
    assert_eq!(
        pool.available(ManaColor::Green),
        2,
        "two creatures of mine and one of theirs: \"each creature you \
         control\" is two"
    );
    assert_eq!(pool.total(), 2, "and it made nothing else");

    let mut barren = Duel::new(61, forest())
        .battlefield(0, &[gaea_s_cradle()])
        .battlefield(1, &[llanowar_elves()])
        .start();
    keep_mulligans(&mut barren).unwrap();
    assert!(reach_main_phase(&mut barren, p0));
    let cradle = on_battlefield(&barren, p0, gaea_s_cradle()).expect("the Cradle is out");
    barren
        .apply(
            p0,
            PlayerAction::ActivateAbility {
                source: cradle,
                ability_index: 0,
            },
        )
        .unwrap();
    assert_eq!(
        barren.state().players[0].mana_pool.total(),
        0,
        "an empty board makes no mana at all, so the amount is read and not \
         assumed"
    );
}

/// Academy Ruins: "{T}: Add {C}." and "{1}{U}, {T}: Put target artifact card
/// from **your** graveyard on top of **your** library."
#[test]
#[allow(clippy::too_many_lines)]
fn academy_ruins_reach_only_the_artifacts_in_your_own_graveyard() {
    let (p0, p1) = (PlayerId::new(0), PlayerId::new(1));
    let mut engine = Duel::new(311, forest())
        .battlefield(
            0,
            &[academy_ruins(), island(), island(), lightning_greaves()],
        )
        .battlefield(1, &[fellwar_stone()])
        .start();
    keep_mulligans(&mut engine).unwrap();

    let stone = on_battlefield(&engine, p1, fellwar_stone()).expect("their Stone is on the table");
    destroy(&mut engine, stone);
    seed_graveyard(&mut engine, p0, 1);

    assert!(reach_main_phase(&mut engine, p0));
    let ruins = on_battlefield(&engine, p0, academy_ruins()).expect("the Ruins are on the table");
    let greaves =
        on_battlefield(&engine, p0, lightning_greaves()).expect("the Greaves are on the table");
    tap_mana_except(&mut engine, p0, ruins);

    let Pending::Priority { legal, .. } = engine.pending().clone() else {
        panic!("expected priority, got {:?}", engine.pending())
    };
    assert!(
        !legal.mana_abilities.contains(&ruins),
        "the Ruins print no basic land type, so the CR 305.6 shortcut is not \
         theirs: their mana comes from a printed ability"
    );
    assert!(
        legal.abilities.contains(&(ruins, 0)),
        "and that printed ability is offered like any other activation: {:?}",
        legal.abilities
    );
    assert!(
        !legal.abilities.contains(&(ruins, 1)),
        "the mana is floating and the land is untapped, so the only thing \
         standing between the recursion and the offer is its target: an \
         artifact card in the *opponent's* graveyard is none, and neither is \
         the land in my own: {:?}",
        legal.abilities
    );

    destroy(&mut engine, greaves);
    engine.refresh_offer();
    let Pending::Priority { legal, .. } = engine.pending().clone() else {
        panic!("expected priority, got {:?}", engine.pending())
    };
    assert!(
        legal.abilities.contains(&(ruins, 1)),
        "with an artifact card of my own lying there the ability has a target \
         and is offered: {:?}",
        legal.abilities
    );

    engine
        .apply(
            p0,
            PlayerAction::ActivateAbility {
                source: ruins,
                ability_index: 1,
            },
        )
        .expect("two Islands pay the {1}{U}");
    let Pending::ChooseTargets { options, .. } = engine.pending().clone() else {
        panic!("the recursion asks which card: {:?}", engine.pending())
    };
    let their_stone = in_graveyard(&engine, p1, fellwar_stone()).expect("their Stone is in theirs");
    let my_forest = in_graveyard(&engine, p0, forest()).expect("a land of mine is in mine");
    assert!(
        options.contains(&greaves),
        "my own artifact card is the target: {options:?}"
    );
    assert!(
        !options.contains(&their_stone),
        "and an artifact card in the opponent's graveyard is not, because the \
         card says *your* graveyard: {options:?}"
    );
    assert!(
        !options.contains(&my_forest),
        "nor is a card of mine that is no artifact: {options:?}"
    );
    engine
        .apply(
            p0,
            PlayerAction::ChooseObjects {
                objects: vec![greaves],
            },
        )
        .expect("the Greaves are one of the legal targets");
    assert!(pass_until(&mut engine, stack_is_empty));

    assert!(
        in_graveyard(&engine, p0, lightning_greaves()).is_none(),
        "the ability resolved and the Greaves left the graveyard"
    );
    let top = *engine
        .state()
        .zones
        .list(ZoneLocation::Library(p0))
        .last()
        .expect("p0 still has a library");
    assert_eq!(
        top, greaves,
        "and they are the card on top of my own library"
    );
    assert_eq!(
        in_graveyard(&engine, p1, fellwar_stone()),
        Some(their_stone),
        "one graveyard was reachable and the other was never touched"
    );
    assert!(
        is_tapped(&engine, ruins),
        "the {{T}} in the cost tapped the land"
    );

    assert!(cross_into_the_next_own_main(&mut engine, p0));
    assert!(
        in_hand(&engine, p0, lightning_greaves()).is_some(),
        "the card that was put on top is the card that was drawn"
    );

    let Pending::Priority { legal, .. } = engine.pending().clone() else {
        panic!("expected priority, got {:?}", engine.pending())
    };
    assert!(
        !is_tapped(&engine, ruins),
        "the untap step gave the land back"
    );
    assert!(
        legal.abilities.contains(&(ruins, 0)),
        "and the mana ability is offered again: {:?}",
        legal.abilities
    );
    let before = engine.state().players[0]
        .mana_pool
        .available(ManaColor::Colorless);
    engine
        .apply(
            p0,
            PlayerAction::ActivateAbility {
                source: ruins,
                ability_index: 0,
            },
        )
        .expect("a mana ability whose whole cost is the tap");
    assert!(
        matches!(engine.pending(), Pending::Priority { .. }),
        "a fixed {{C}} asks nothing and never reaches the stack (CR 605.1): {:?}",
        engine.pending()
    );
    assert_eq!(
        engine.state().players[0]
            .mana_pool
            .available(ManaColor::Colorless),
        before + 1,
        "one colourless mana in the pool, which is what the land adds"
    );
    assert!(is_tapped(&engine, ruins), "and the land is tapped for it");
}

/// Buried Ruin: "{2}, {T}, Sacrifice this land: Return target artifact card
/// from your graveyard to your hand."
#[test]
fn buried_ruin_pays_itself_into_the_graveyard_and_returns_only_your_own_artifact_card() {
    let (p0, p1) = (PlayerId::new(0), PlayerId::new(1));
    let mut engine = Duel::new(311, forest())
        .battlefield(0, &[buried_ruin(), forest(), forest()])
        .hand(0, &[quiet_artifact(), llanowar_elves()])
        .hand(1, &[quiet_artifact()])
        .start();
    keep_mulligans(&mut engine).unwrap();
    assert!(walk_to_own_main(&mut engine, p0), "p0 reaches its own main");
    let ruin = on_battlefield(&engine, p0, buried_ruin()).expect("the Ruin is on the table");

    let elf = bury_from_hand(&mut engine, p0, llanowar_elves()).unwrap();
    let theirs = bury_from_hand(&mut engine, p1, quiet_artifact()).unwrap();
    assert!(
        in_graveyard(&engine, p1, quiet_artifact()).is_some(),
        "an artifact card really is lying in the other graveyard, so the \
         refusal below is about whose it is"
    );

    tap_mana_except(&mut engine, p0, ruin);
    let Pending::Priority { legal, .. } = engine.pending().clone() else {
        panic!("still priority, got {:?}", engine.pending())
    };
    assert!(
        !legal.abilities.contains(&(ruin, 1)),
        "with two mana floating and no artifact card of my own in the \
         graveyard, the ability has nothing to point at: {:?}",
        legal.abilities
    );

    let mine = bury_from_hand(&mut engine, p0, quiet_artifact()).unwrap();
    let Pending::Priority { legal, .. } = engine.pending().clone() else {
        panic!("still priority, got {:?}", engine.pending())
    };
    assert!(
        legal.abilities.contains(&(ruin, 1)),
        "and with one it is offered: {:?}",
        legal.abilities
    );

    engine
        .apply(
            p0,
            PlayerAction::ActivateAbility {
                source: ruin,
                ability_index: 1,
            },
        )
        .expect("two Forests pay {2}");
    let Pending::ChooseTargets { options, .. } = engine.pending().clone() else {
        panic!("the return asks which card: {:?}", engine.pending())
    };
    assert!(
        options.contains(&mine),
        "my own artifact card is the answer: {options:?}"
    );
    assert!(
        !options.contains(&elf),
        "a creature card in the same graveyard is not an artifact card: \
         {options:?}"
    );
    assert!(
        !options.contains(&theirs),
        "and an artifact card in their graveyard is not in *your* graveyard: \
         {options:?}"
    );

    engine
        .apply(
            p0,
            PlayerAction::ChooseObjects {
                objects: vec![mine],
            },
        )
        .expect("the one legal target");

    assert!(
        !stack_is_empty(&engine),
        "the ability is on the stack and has not resolved yet"
    );
    assert!(
        on_battlefield(&engine, p0, buried_ruin()).is_none(),
        "the sacrifice is a cost, so the land left the battlefield to pay it"
    );
    assert!(
        in_graveyard(&engine, p0, buried_ruin()).is_some(),
        "and a sacrificed permanent goes to its owner's graveyard (CR 701.21a)"
    );

    assert!(pass_until(&mut engine, stack_is_empty));
    assert!(
        in_hand(&engine, p0, quiet_artifact()).is_some(),
        "the artifact card came back to hand"
    );
    assert!(
        in_graveyard(&engine, p0, quiet_artifact()).is_none(),
        "and it is no longer in the graveyard it came from"
    );
    assert!(
        in_graveyard(&engine, p1, quiet_artifact()).is_some(),
        "their artifact card was never touched"
    );
    assert!(
        in_graveyard(&engine, p0, llanowar_elves()).is_some(),
        "nor was the creature card lying beside mine"
    );
}

/// Dryad Arbor prints no rules text at all — its whole card is reminder text
/// saying it is affected by summoning sickness and has "{T}: Add {G}".
#[test]
fn a_land_creature_played_this_turn_makes_no_mana_and_a_seated_one_does() {
    let p0 = PlayerId::new(0);
    let mut engine = Duel::new(59, forest())
        .battlefield(0, &[the_land_creature()])
        .hand(0, &[the_land_creature()])
        .start();
    keep_mulligans(&mut engine).unwrap();
    assert!(walk_to_own_main(&mut engine, p0), "p0 reaches its own main");

    let preset = on_battlefield(&engine, p0, the_land_creature()).expect("the seated Arbor");
    let fresh = play_land(&mut engine, p0, the_land_creature()).unwrap();
    assert_ne!(preset, fresh, "two Arbors, not one object read twice");
    assert_eq!(
        all_on_battlefield(&engine, p0, the_land_creature()).len(),
        2,
        "the land drop put the second Arbor on the battlefield"
    );

    for id in [preset, fresh] {
        assert!(
            types(&engine, id).contains(TypeSet::CREATURE),
            "an Arbor is a creature"
        );
        assert!(
            types(&engine, id).contains(TypeSet::LAND),
            "and a land at the same time"
        );
        assert!(!is_tapped(&engine, id), "both Arbors stand untapped");
    }

    let Pending::Priority { legal, .. } = engine.pending().clone() else {
        panic!(
            "a land drop hands priority back, got {:?}",
            engine.pending()
        )
    };
    assert!(
        legal.mana_abilities.contains(&preset),
        "the seated Arbor was refused the Forest tap CR 305.6 gives it"
    );
    assert!(
        legal.abilities.contains(&(preset, 0)),
        "and the {{T}}: Add {{G}} it actually prints"
    );
    assert!(
        !legal.mana_abilities.contains(&fresh),
        "an Arbor played this turn was offered the Forest tap anyway"
    );
    assert!(
        !legal.abilities.iter().any(|(id, _)| *id == fresh),
        "an Arbor played this turn was offered its printed {{T}} anyway"
    );

    assert!(
        engine
            .apply(p0, PlayerAction::ActivateManaAbility { source: fresh })
            .is_err(),
        "the engine tapped a summoning-sick Arbor for its intrinsic mana"
    );
    assert!(
        engine
            .apply(
                p0,
                PlayerAction::ActivateAbility {
                    source: fresh,
                    ability_index: 0,
                },
            )
            .is_err(),
        "the engine tapped a summoning-sick Arbor for its printed mana"
    );
    assert_eq!(
        engine.state().players[0].mana_pool.total(),
        0,
        "two refusals still made mana"
    );

    engine
        .apply(
            p0,
            PlayerAction::ActivateAbility {
                source: preset,
                ability_index: 0,
            },
        )
        .expect("the seated Arbor taps for {G}");
    let pool = &engine.state().players[0].mana_pool;
    assert_eq!(pool.total(), 1, "one activation, one mana");
    assert_eq!(
        pool.available(ManaColor::Green),
        1,
        "and it is the colour the card prints"
    );
    assert!(is_tapped(&engine, preset), "paying {{T}} left it tapped");
    assert!(
        !is_tapped(&engine, fresh),
        "while the Arbor that could not be activated is still untapped"
    );
}

/// Phyrexian Tower: "{T}: Add {C}." and "{T}, Sacrifice a creature: Add
/// {B}{B}."
#[allow(clippy::too_many_lines)]
#[test]
fn the_tower_eats_one_creature_and_the_shared_tap_closes_both_lines() {
    let p0 = PlayerId::new(0);
    let p1 = PlayerId::new(1);
    let mut engine = Duel::new(313, swamp())
        .battlefield(0, &[phyrexian_tower(), llanowar_elves(), llanowar_elves()])
        .battlefield(1, &[llanowar_elves()])
        .start();
    keep_mulligans(&mut engine).unwrap();
    assert!(reach_main_phase(&mut engine, p0));

    let tower = on_battlefield(&engine, p0, phyrexian_tower()).expect("the Tower is on the table");
    let fodder = mine(&engine, p0, llanowar_elves(), Zone::Battlefield);
    assert_eq!(
        fodder.len(),
        2,
        "two creatures stand beside the Tower, so the two-entry list below is \
         the filter answering and not an empty table"
    );
    let theirs = mine(&engine, p1, llanowar_elves(), Zone::Battlefield);
    assert_eq!(
        theirs.len(),
        1,
        "and the opponent has one of their own, so its absence below is a rule \
         and not a missing creature"
    );

    let Pending::Priority { player, legal } = engine.pending().clone() else {
        panic!("expected a quiet main phase, got {:?}", engine.pending())
    };
    assert_eq!(player, p0, "and it is the Tower's controller who holds it");
    assert!(
        !legal.mana_abilities.contains(&tower),
        "the Tower prints no basic land type, so it is no CR 305.6 shortcut: \
         its mana belongs to `legal.abilities` and not to this list: {:?}",
        legal.mana_abilities
    );

    let offered: Vec<u32> = legal
        .abilities
        .iter()
        .filter(|(source, _)| *source == tower)
        .map(|(_, index)| *index)
        .collect();
    assert_eq!(
        offered.as_slice(),
        [0, 1],
        "both printed lines are offered: the Tower is untapped, so `{{T}}: Add \
         {{C}}` is payable, and two creatures stand under it, so `{{T}}, \
         Sacrifice a creature: Add {{B}}{{B}}` is too. `[0]` means the \
         sacrifice cost is being refused for the board instead of asked \
         about. Got: {offered:?}"
    );

    engine
        .apply(
            p0,
            PlayerAction::ActivateAbility {
                source: tower,
                ability_index: 1,
            },
        )
        .expect("the sacrifice line is offered, so it activates");
    let Pending::ChooseCards {
        player,
        options,
        min,
        max,
        prompt,
    } = engine.pending().clone()
    else {
        panic!(
            "paying `Sacrifice a creature` asks which one, and the engine is \
             at {:?}",
            engine.pending()
        )
    };
    assert_eq!(player, p0, "the question goes to the activating player");
    assert_eq!((min, max), (1, 1), "one creature, no more and no fewer");
    assert_eq!(
        prompt,
        ChoicePrompt::CostSacrifice,
        "a cost is not a search (CR 115.1), and the prompt is the only thing \
         that says so to a client"
    );
    assert_eq!(
        options.len(),
        2,
        "both Elves under the Tower may be eaten, and nothing else: {options:?}"
    );
    assert!(
        options.contains(&fodder[0]) && options.contains(&fodder[1]),
        "each of the controller's own creatures is on the list: {options:?}"
    );
    assert!(
        !options.contains(&tower),
        "the Tower is a land, so it is no creature to feed itself: {options:?}"
    );
    assert!(
        !options.contains(&theirs[0]),
        "and CR 701.21a lets a player sacrifice only what they control, so the \
         opponent's Elf is not on the menu: {options:?}"
    );

    engine
        .apply(
            p0,
            PlayerAction::ChooseObjects {
                objects: vec![fodder[0]],
            },
        )
        .expect("the answer names a creature the engine itself offered");
    let pool = &engine.state().players[0].mana_pool;
    assert_eq!(
        pool.available(ManaColor::Black),
        2,
        "a mana ability resolves without the stack (CR 605.3b), so the \
         {{B}}{{B}} is in the pool the moment the cost is answered"
    );
    assert_eq!(
        pool.available(ManaColor::Colorless),
        0,
        "and it is the second line that was activated, not the first"
    );
    assert!(
        is_tapped(&engine, tower),
        "the {{T}} half of the cost was paid"
    );
    assert_eq!(
        mine(&engine, p0, llanowar_elves(), Zone::Battlefield).len(),
        1,
        "exactly one Elf was eaten for it"
    );
    assert_eq!(
        mine(&engine, p0, llanowar_elves(), Zone::Graveyard).len(),
        1,
        "and it is in its owner's graveyard, which is where a sacrifice puts it"
    );
    assert_eq!(
        mine(&engine, p1, llanowar_elves(), Zone::Battlefield).len(),
        1,
        "while the opponent's creature never moved"
    );

    let Pending::Priority { player, legal } = engine.pending().clone() else {
        panic!(
            "a mana ability hands priority straight back, and the engine is at \
             {:?}",
            engine.pending()
        )
    };
    assert_eq!(player, p0, "and to the same player");
    let after: Vec<u32> = legal
        .abilities
        .iter()
        .filter(|(source, _)| *source == tower)
        .map(|(_, index)| *index)
        .collect();
    assert!(
        after.is_empty(),
        "both printed lines cost `{{T}}` and the Tower is tapped, so neither is \
         offered again this turn. Got: {after:?}"
    );

    for index in [0, 1] {
        assert!(
            engine
                .apply(
                    p0,
                    PlayerAction::ActivateAbility {
                        source: tower,
                        ability_index: index,
                    }
                )
                .is_err(),
            "pressing line {index} by hand is refused too, so it is unreachable \
             rather than merely unlisted"
        );
        assert!(
            matches!(engine.pending(), Pending::Priority { .. }),
            "and the refusal of line {index} asks nothing: a sacrifice question \
             is put only after the cost is known to be payable, so nobody is \
             made to give up a creature for an activation that cannot happen"
        );
    }
    assert_eq!(
        mine(&engine, p0, llanowar_elves(), Zone::Battlefield).len(),
        1,
        "and the surviving Elf survived the two refusals as well"
    );
    assert_eq!(
        engine.state().players[0]
            .mana_pool
            .available(ManaColor::Colorless),
        0,
        "with no {{C}} squeezed out of a tapped Tower"
    );
}

/// The convoke lands: "{T}, Tap an untapped creature you control: Add one mana
/// of any color."
#[allow(clippy::too_many_lines)]
#[test]
fn a_convoke_land_taps_a_creature_of_yours_for_a_colour_of_your_choosing() {
    let p0 = PlayerId::new(0);
    let p1 = PlayerId::new(1);
    let lands = [
        survivors_encampment(),
        holdout_settlement(),
        scene_of_the_crime(),
    ];
    let mut engine = Duel::new(83, forest())
        .battlefield(
            0,
            &[
                lands[0],
                lands[1],
                lands[2],
                llanowar_elves(),
                llanowar_elves(),
                llanowar_elves(),
            ],
        )
        .battlefield(1, &[llanowar_elves()])
        .start();
    keep_mulligans(&mut engine).unwrap();
    assert!(reach_main_phase(&mut engine, p0));

    let theirs = on_battlefield(&engine, p1, llanowar_elves()).expect("their Elf");
    let colours = [ManaColor::Blue, ManaColor::Red, ManaColor::White];

    for (land_index, (card, colour)) in lands.iter().zip(colours).enumerate() {
        let land = on_battlefield(&engine, p0, *card).expect("the land is on the battlefield");
        let Pending::Priority { legal, .. } = engine.pending().clone() else {
            panic!("expected priority, got {:?}", engine.pending())
        };
        assert!(
            legal.abilities.contains(&(land, 1)),
            "land {land_index}: the convoke line is offered while a creature \
             of mine stands untapped: {:?}",
            legal.abilities
        );

        engine
            .apply(
                p0,
                PlayerAction::ActivateAbility {
                    source: land,
                    ability_index: 1,
                },
            )
            .expect("the cost asks which creature instead of refusing");

        let Pending::ChooseCards {
            options,
            min,
            max,
            prompt,
            ..
        } = engine.pending().clone()
        else {
            panic!(
                "land {land_index}: the cost asks which creature to tap: {:?}",
                engine.pending()
            )
        };
        assert_eq!(
            prompt,
            ChoicePrompt::CostTap,
            "land {land_index}: a tap, and not a sacrifice"
        );
        assert_eq!((min, max), (1, 1), "land {land_index}: one creature");
        assert!(
            !options.contains(&theirs),
            "land {land_index}: a creature I do not control is not mine to \
             tap: {options:?}"
        );
        assert!(
            !options.contains(&land),
            "land {land_index}: and the land is no creature: {options:?}"
        );
        let victim = *options.first().expect("an untapped creature of my own");
        assert!(
            !is_tapped(&engine, victim),
            "land {land_index}: the menu holds only untapped creatures \
             (CR 118.3)"
        );

        let before = engine.state().players[0].mana_pool.available(colour);
        engine
            .apply(
                p0,
                PlayerAction::ChooseObjects {
                    objects: vec![victim],
                },
            )
            .expect("the Elf is one of the answers the engine listed");

        let Pending::ChooseColor { options, .. } = engine.pending().clone() else {
            panic!(
                "land {land_index}: any colour is a choice: {:?}",
                engine.pending()
            )
        };
        assert_eq!(options.len(), 5, "land {land_index}: all five colours");
        engine
            .apply(p0, PlayerAction::ChooseColor(colour))
            .expect("a colour the engine offered");

        assert!(
            is_tapped(&engine, victim),
            "land {land_index}: the creature that paid is tapped"
        );
        assert!(
            engine.state().object(victim).is_some(),
            "land {land_index}: and still on the battlefield — a tap is not \
             a sacrifice"
        );
        assert!(
            is_tapped(&engine, land),
            "land {land_index}: the land spent its own {{T}} too"
        );
        assert!(
            stack_is_empty(&engine),
            "land {land_index}: a mana ability uses no stack (CR 605.3b)"
        );
        assert_eq!(
            engine.state().players[0].mana_pool.available(colour),
            before + 1,
            "land {land_index}: one mana of the colour that was named"
        );

        let Pending::Priority { legal, .. } = engine.pending().clone() else {
            panic!("expected priority, got {:?}", engine.pending())
        };
        assert!(
            !legal.abilities.contains(&(land, 1)) && !legal.mana_abilities.contains(&land),
            "land {land_index}: both printed lines cost {{T}}, and it is \
             spent: {:?} / {:?}",
            legal.abilities,
            legal.mana_abilities
        );
    }
}

/// The Vivid cycle: "This land enters tapped with two charge counters on it."
#[test]
fn the_vivid_cycle_arrives_tapped_and_brings_two_counters_with_it() {
    let p0 = PlayerId::new(0);
    let cycle = [
        vivid_crag(),
        vivid_creek(),
        vivid_grove(),
        vivid_marsh(),
        vivid_meadow(),
    ];
    let mut engine = Duel::new(541, forest()).hand(0, &cycle).start();
    keep_mulligans(&mut engine).unwrap();
    assert!(reach_main_phase(&mut engine, p0));

    for (n, card) in cycle.into_iter().enumerate() {
        let land = play_land(&mut engine, p0, card).unwrap();
        assert!(
            entered_tapped(&engine, land),
            "vivid land {n}: the sentence says tapped"
        );
        assert_eq!(
            counters_on(&engine, land, CounterKind::Charge),
            2,
            "vivid land {n}: and the same sentence says two charge counters"
        );
        assert!(cross_into_the_next_own_main(&mut engine, p0));
    }
}

/// The other half of the Vivid land, which is the counter being **spent**.
#[test]
fn a_vivid_land_pays_a_counter_for_a_colour_it_could_not_otherwise_make() {
    let p0 = PlayerId::new(0);
    let mut engine = Duel::new(542, forest()).hand(0, &[vivid_crag()]).start();
    keep_mulligans(&mut engine).unwrap();
    assert!(reach_main_phase(&mut engine, p0));

    let land = play_land(&mut engine, p0, vivid_crag()).unwrap();
    let Pending::Priority { legal, .. } = engine.pending().clone() else {
        panic!("expected priority, got {:?}", engine.pending())
    };
    assert!(
        !legal.abilities.contains(&(land, 1)),
        "the turn it arrives it is tapped, so neither line is payable: {:?}",
        legal.abilities
    );

    for turn in 0..2u16 {
        assert!(cross_into_the_next_own_main(&mut engine, p0));
        let Pending::Priority { legal, .. } = engine.pending().clone() else {
            panic!("expected priority, got {:?}", engine.pending())
        };
        assert!(
            legal.abilities.contains(&(land, 1)),
            "turn {turn}: {} counter(s) left, so the any-colour line is on \
             offer: {:?}",
            counters_on(&engine, land, CounterKind::Charge),
            legal.abilities
        );

        engine
            .apply(
                p0,
                PlayerAction::ActivateAbility {
                    source: land,
                    ability_index: 1,
                },
            )
            .expect("a counter is there to pay with");

        let Pending::ChooseColor { options, .. } = engine.pending().clone() else {
            panic!(
                "turn {turn}: any colour is a choice and the cost is not: {:?}",
                engine.pending()
            )
        };
        assert_eq!(options.len(), 5, "turn {turn}: all five colours");
        engine
            .apply(p0, PlayerAction::ChooseColor(ManaColor::Blue))
            .expect("a colour the engine offered");

        assert_eq!(
            counters_on(&engine, land, CounterKind::Charge),
            1 - turn,
            "turn {turn}: exactly one counter came off"
        );
        assert_eq!(
            engine.state().players[0]
                .mana_pool
                .available(ManaColor::Blue),
            1,
            "turn {turn}: and a blue mana a Vivid Crag's own line cannot make"
        );
        assert!(
            is_tapped(&engine, land),
            "turn {turn}: the {{T}} was paid too"
        );
    }

    assert!(cross_into_the_next_own_main(&mut engine, p0));
    let Pending::Priority { legal, .. } = engine.pending().clone() else {
        panic!("expected priority, got {:?}", engine.pending())
    };
    assert_eq!(
        counters_on(&engine, land, CounterKind::Charge),
        0,
        "both counters are spent"
    );
    assert!(
        !legal.abilities.contains(&(land, 1)),
        "an untapped land with no counters cannot pay the any-colour line: \
         {:?}",
        legal.abilities
    );
    assert!(
        legal.abilities.contains(&(land, 0)),
        "and its own {{T}}: Add {{R}} is untouched, which is what says the \
         refusal above is about the counter and not about the tap: {:?}",
        legal.abilities
    );
}

/// Tendo Ice Bridge: "This land enters **with** a charge counter on it."
#[test]
fn tendo_ice_bridge_enters_untapped_and_spends_its_one_counter_at_once() {
    let p0 = PlayerId::new(0);
    let mut engine = Duel::new(543, forest())
        .hand(0, &[tendo_ice_bridge()])
        .start();
    keep_mulligans(&mut engine).unwrap();
    assert!(reach_main_phase(&mut engine, p0));

    let land = play_land(&mut engine, p0, tendo_ice_bridge()).unwrap();
    assert!(
        !entered_tapped(&engine, land),
        "the printing does not say tapped"
    );
    assert_eq!(
        counters_on(&engine, land, CounterKind::Charge),
        1,
        "and it says one counter"
    );

    engine
        .apply(
            p0,
            PlayerAction::ActivateAbility {
                source: land,
                ability_index: 1,
            },
        )
        .expect("the counter arrived with the land and can be spent at once");
    let Pending::ChooseColor { .. } = engine.pending().clone() else {
        panic!("any colour is a choice: {:?}", engine.pending())
    };
    engine
        .apply(p0, PlayerAction::ChooseColor(ManaColor::Green))
        .expect("a colour the engine offered");

    assert_eq!(
        counters_on(&engine, land, CounterKind::Charge),
        0,
        "the counter is gone"
    );
    assert_eq!(
        engine.state().players[0]
            .mana_pool
            .available(ManaColor::Green),
        1,
        "and green came out of a land that otherwise makes {{C}}"
    );

    assert!(cross_into_the_next_own_main(&mut engine, p0));
    let Pending::Priority { legal, .. } = engine.pending().clone() else {
        panic!("expected priority, got {:?}", engine.pending())
    };
    assert!(
        legal.abilities.contains(&(land, 0)) && !legal.abilities.contains(&(land, 1)),
        "untapped again, and only the line that costs no counter is offered: \
         {:?}",
        legal.abilities
    );
}

/// Mirrodin's Core, which is the only land in the pool that fills itself.
#[test]
fn mirrodin_s_core_fills_itself_and_then_spends_what_it_put_on() {
    let p0 = PlayerId::new(0);
    let mut engine = Duel::new(544, forest())
        .hand(0, &[mirrodin_s_core()])
        .start();
    keep_mulligans(&mut engine).unwrap();
    assert!(reach_main_phase(&mut engine, p0));

    let land = play_land(&mut engine, p0, mirrodin_s_core()).unwrap();
    assert!(!entered_tapped(&engine, land), "the Core enters untapped");
    assert_eq!(
        counters_on(&engine, land, CounterKind::Charge),
        0,
        "and empty"
    );

    engine
        .apply(
            p0,
            PlayerAction::ActivateAbility {
                source: land,
                ability_index: 1,
            },
        )
        .expect("the Core may charge itself");
    assert!(pass_until(&mut engine, stack_is_empty));
    assert!(
        is_tapped(&engine, land),
        "it charged itself with its own {{T}}"
    );

    assert!(cross_into_the_next_own_main(&mut engine, p0));
    engine
        .apply(
            p0,
            PlayerAction::ActivateAbility {
                source: land,
                ability_index: 2,
            },
        )
        .expect("the counter it put on itself is the one it spends");
    let Pending::ChooseColor { .. } = engine.pending().clone() else {
        panic!("any colour is a choice: {:?}", engine.pending())
    };
    engine
        .apply(p0, PlayerAction::ChooseColor(ManaColor::White))
        .expect("a colour the engine offered");

    assert_eq!(
        counters_on(&engine, land, CounterKind::Charge),
        0,
        "and it is empty again"
    );
    assert_eq!(
        engine.state().players[0]
            .mana_pool
            .available(ManaColor::White),
        1,
    );
}

/// CR 614.16 has a direction, and this is it.
#[test]
fn a_doubler_doubles_the_counters_a_land_arrives_with_and_never_the_cost() {
    let p0 = PlayerId::new(0);
    let mut engine = Duel::new(545, forest())
        .battlefield(0, &[doubling_season()])
        .hand(0, &[vivid_crag()])
        .start();
    keep_mulligans(&mut engine).unwrap();
    assert!(reach_main_phase(&mut engine, p0));

    let land = play_land(&mut engine, p0, vivid_crag()).unwrap();
    assert_eq!(
        counters_on(&engine, land, CounterKind::Charge),
        4,
        "two printed counters, put on as the land enters, doubled once"
    );

    assert!(cross_into_the_next_own_main(&mut engine, p0));
    engine
        .apply(
            p0,
            PlayerAction::ActivateAbility {
                source: land,
                ability_index: 1,
            },
        )
        .expect("four counters is enough for one");
    engine
        .apply(p0, PlayerAction::ChooseColor(ManaColor::Blue))
        .expect("a colour the engine offered");

    assert_eq!(
        counters_on(&engine, land, CounterKind::Charge),
        3,
        "a cost of one counter is a cost of one counter — a doubler has \
         nothing to say about a removal"
    );
}

/// The five Mercadian Masques depletion lands: "This land enters tapped with
/// two depletion counters on it."
#[test]
fn the_depletion_cycle_arrives_tapped_with_counters_of_its_own_kind() {
    let p0 = PlayerId::new(0);
    let cycle = [
        hickory_woodlot(),
        peat_bog(),
        remote_farm(),
        sandstone_needle(),
        saprazzan_skerry(),
    ];
    let mut engine = Duel::new(551, forest()).hand(0, &cycle).start();
    keep_mulligans(&mut engine).unwrap();
    assert!(reach_main_phase(&mut engine, p0));

    for (n, card) in cycle.into_iter().enumerate() {
        let land = play_land(&mut engine, p0, card).unwrap();
        assert!(
            entered_tapped(&engine, land),
            "depletion land {n}: the sentence says tapped"
        );
        assert_eq!(
            counters_on(&engine, land, CounterKind::Depletion),
            2,
            "depletion land {n}: and the same sentence says two depletion \
             counters"
        );
        assert_eq!(
            counters_on(&engine, land, CounterKind::Charge),
            0,
            "depletion land {n}: depletion and charge are two counters, and \
             this is the assertion a reader that dropped the noun fails"
        );
        assert!(cross_into_the_next_own_main(&mut engine, p0));
    }
}

/// Peat Bog's whole life: "{T}, Remove a depletion counter from this land: Add
/// {B}{B}. If there are no depletion counters on this land, sacrifice it."
#[test]
fn a_depletion_land_pays_twice_and_the_second_payment_kills_it() {
    let p0 = PlayerId::new(0);
    let mut engine = Duel::new(552, forest()).hand(0, &[peat_bog()]).start();
    keep_mulligans(&mut engine).unwrap();
    assert!(reach_main_phase(&mut engine, p0));

    let land = play_land(&mut engine, p0, peat_bog()).unwrap();
    assert!(entered_tapped(&engine, land), "it arrives tapped");

    for turn in 0..2u16 {
        assert!(cross_into_the_next_own_main(&mut engine, p0));
        let Pending::Priority { legal, .. } = engine.pending().clone() else {
            panic!("expected priority, got {:?}", engine.pending())
        };
        assert!(
            legal.abilities.contains(&(land, 0)),
            "turn {turn}: {} counter(s) left, so the line is payable: {:?}",
            counters_on(&engine, land, CounterKind::Depletion),
            legal.abilities
        );

        engine
            .apply(
                p0,
                PlayerAction::ActivateAbility {
                    source: land,
                    ability_index: 0,
                },
            )
            .expect("a counter is there to pay with");

        assert!(
            matches!(engine.pending(), Pending::Priority { .. }),
            "turn {turn}: a fixed colour asks nobody anything: {:?}",
            engine.pending()
        );
        assert_eq!(
            engine.state().players[0]
                .mana_pool
                .available(ManaColor::Black),
            2,
            "turn {turn}: two black, which is what the land prints"
        );
    }

    assert!(
        in_graveyard(&engine, p0, peat_bog()).is_some(),
        "the second activation left no depletion counters, so the same \
         ability that made the mana sacrificed the land"
    );
    let Pending::Priority { legal, .. } = engine.pending().clone() else {
        panic!("expected priority, got {:?}", engine.pending())
    };
    assert!(
        !legal.abilities.iter().any(|(id, _)| *id == land),
        "and a land in a graveyard is offered nothing: {:?}",
        legal.abilities
    );
}

/// Gemstone Mine, which is the same card asked one question: "Add one mana of
/// any color."
#[test]
fn gemstone_mine_dies_on_the_far_side_of_the_colour_it_asks_for() {
    let p0 = PlayerId::new(0);
    let mut engine = Duel::new(553, forest()).hand(0, &[gemstone_mine()]).start();
    keep_mulligans(&mut engine).unwrap();
    assert!(reach_main_phase(&mut engine, p0));

    let land = play_land(&mut engine, p0, gemstone_mine()).unwrap();
    assert!(
        !entered_tapped(&engine, land),
        "Gemstone Mine prints no `tapped`, so it works the turn it arrives"
    );
    assert_eq!(
        counters_on(&engine, land, CounterKind::Mining),
        3,
        "three mining counters, which is three activations"
    );

    for turn in 0..3u16 {
        if turn > 0 {
            assert!(cross_into_the_next_own_main(&mut engine, p0));
        }
        engine
            .apply(
                p0,
                PlayerAction::ActivateAbility {
                    source: land,
                    ability_index: 0,
                },
            )
            .expect("a mining counter is there to pay with");

        let Pending::ChooseColor { options, .. } = engine.pending().clone() else {
            panic!(
                "turn {turn}: any colour is a choice: {:?}",
                engine.pending()
            )
        };
        assert_eq!(options.len(), 5, "turn {turn}: all five colours");
        assert_eq!(
            counters_on(&engine, land, CounterKind::Mining),
            2 - turn,
            "turn {turn}: the cost is paid before the question is asked"
        );
        assert!(
            in_graveyard(&engine, p0, gemstone_mine()).is_none(),
            "turn {turn}: and the clause that would sacrifice it has not run \
             yet, because the resolution is parked on this question"
        );

        engine
            .apply(p0, PlayerAction::ChooseColor(ManaColor::Green))
            .expect("a colour the engine offered");
        assert_eq!(
            engine.state().players[0]
                .mana_pool
                .available(ManaColor::Green),
            1,
            "turn {turn}: one green, from a land that prints no green symbol"
        );
    }

    assert!(
        in_graveyard(&engine, p0, gemstone_mine()).is_some(),
        "the third answer emptied the land and the clause after the mana \
         sacrificed it"
    );
}

/// Fountain of Cho: `{T}: Put a storage counter on this land.` and `{T}, Remove
/// any number of storage counters from this land: Add {W} for each storage
/// counter removed this way.`
#[test]
#[allow(clippy::too_many_lines)]
fn a_storage_land_asks_how_many_counters_and_the_bound_shrinks_with_them() {
    let p0 = PlayerId::new(0);
    let mut engine = Duel::new(881, forest())
        .hand(0, &[fountain_of_cho()])
        .start();
    keep_mulligans(&mut engine).unwrap();
    assert!(reach_main_phase(&mut engine, p0));

    let land = play_land(&mut engine, p0, fountain_of_cho()).unwrap();
    assert!(
        entered_tapped(&engine, land),
        "Fountain of Cho prints `This land enters tapped`"
    );
    assert_eq!(
        counters_on(&engine, land, CounterKind::Storage),
        0,
        "and it arrives empty: the counters are banked one turn at a time"
    );

    for banked in 1..=2u16 {
        assert!(cross_into_the_next_own_main(&mut engine, p0));
        assert!(store_a_counter(&mut engine, p0, land, 0));
        assert_eq!(
            counters_on(&engine, land, CounterKind::Storage),
            banked,
            "one counter per activation, and the land is spent for the turn"
        );
        assert!(is_tapped(&engine, land), "which is what `{{T}}` means");
    }

    assert!(cross_into_the_next_own_main(&mut engine, p0));
    engine
        .apply(
            p0,
            PlayerAction::ActivateAbility {
                source: land,
                ability_index: 1,
            },
        )
        .expect("the storage line is activatable");
    let Pending::ChooseNumber { min, max, .. } = engine.pending().clone() else {
        panic!("expected a number, got {:?}", engine.pending())
    };
    assert_eq!(
        (min, max),
        (0, 2),
        "`any number` is bounded below by nothing and above by the counters \
         that are actually on the land"
    );
    assert!(
        engine.apply(p0, PlayerAction::ChooseNumber(3)).is_err(),
        "three counters is a cost nothing on this land could pay"
    );
    engine
        .apply(p0, PlayerAction::ChooseNumber(1))
        .expect("one of the two is an answer inside the range");
    assert_eq!(
        engine.state().players[0]
            .mana_pool
            .available(ManaColor::White),
        1,
        "one counter removed this way is one {{W}}"
    );
    assert_eq!(
        counters_on(&engine, land, CounterKind::Storage),
        1,
        "and exactly the announced number came off — the other is still banked"
    );

    assert!(cross_into_the_next_own_main(&mut engine, p0));
    assert_eq!(
        spend_storage(&mut engine, p0, land, 1, 1).unwrap(),
        (0, 1),
        "one counter left, so one is the most the next activation may announce"
    );
    assert_eq!(
        engine.state().players[0]
            .mana_pool
            .available(ManaColor::White),
        1,
        "and the mana follows the number that was just announced, not the \
         one announced last turn"
    );
    assert_eq!(counters_on(&engine, land, CounterKind::Storage), 0);

    assert!(cross_into_the_next_own_main(&mut engine, p0));
    let Pending::Priority { legal, .. } = engine.pending().clone() else {
        panic!("expected priority, got {:?}", engine.pending())
    };
    assert!(
        legal.abilities.contains(&(land, 1)),
        "`any number` includes none, so there is no counter count at which \
         the ability stops being affordable: {:?}",
        legal.abilities
    );
    assert_eq!(
        spend_storage(&mut engine, p0, land, 1, 0).unwrap(),
        (0, 0),
        "with nothing banked, nothing is the only thing that may be announced"
    );
    assert_eq!(
        engine.state().players[0]
            .mana_pool
            .available(ManaColor::White),
        0,
        "and none of a counter is none of a mana"
    );
    assert!(
        is_tapped(&engine, land),
        "the tap was still paid, whatever the announced number was"
    );
    assert!(
        in_graveyard(&engine, p0, fountain_of_cho()).is_none(),
        "and the land is still a land: unlike the depletion cycle, nothing \
         here sacrifices anything when the counters run out"
    );
}

/// Mage-Ring Network, which prints three abilities where the five Mercadian
/// Masques lands print two: `{T}: Add {C}.`, `{1}, {T}: Put a storage counter
/// on this land.` and the storage line itself. Seven of the pool's seventeen
/// counter-X lands have three ability lines — the five Time Spiral ones and
/// Crucible of the Spirit Dragon are the rest — so this is a shape rather than
/// a card; it is simply the only one of them the engine can play today.
#[test]
fn only_the_storage_line_of_mage_ring_network_asks_for_a_number() {
    let p0 = PlayerId::new(0);
    let mut engine = Duel::new(883, forest())
        .battlefield(0, &[mage_ring_network(), forest()])
        .start();
    keep_mulligans(&mut engine).unwrap();
    assert!(reach_main_phase(&mut engine, p0));
    let net = on_battlefield(&engine, p0, mage_ring_network()).expect("the land is on the table");

    tap_mana_except(&mut engine, p0, net);
    assert_eq!(
        engine.state().players[0]
            .mana_pool
            .available(ManaColor::Green),
        1,
        "one Forest, floating"
    );
    assert!(store_a_counter(&mut engine, p0, net, 1));
    assert_eq!(counters_on(&engine, net, CounterKind::Storage), 1);
    assert_eq!(
        engine.state().players[0]
            .mana_pool
            .available(ManaColor::Green),
        0,
        "and the {{1}} really was paid out of the pool"
    );

    assert!(cross_into_the_next_own_main(&mut engine, p0));
    engine
        .apply(
            p0,
            PlayerAction::ActivateAbility {
                source: net,
                ability_index: 0,
            },
        )
        .expect("a printed mana ability of an untapped land");
    assert!(
        matches!(engine.pending(), Pending::Priority { .. }),
        "the number belongs to the cost that removes counters, not to the \
         land that has some: {:?}",
        engine.pending()
    );
    assert_eq!(
        engine.state().players[0]
            .mana_pool
            .available(ManaColor::Colorless),
        1,
        "one colourless, and none of it came from the counter"
    );
    assert_eq!(
        counters_on(&engine, net, CounterKind::Storage),
        1,
        "which is still sitting there untouched"
    );

    assert!(cross_into_the_next_own_main(&mut engine, p0));
    assert_eq!(
        spend_storage(&mut engine, p0, net, 2, 1).unwrap(),
        (0, 1),
        "one banked counter is a bound of one"
    );
    assert_eq!(
        engine.state().players[0]
            .mana_pool
            .available(ManaColor::Colorless),
        1,
        "`Add {{C}} for each storage counter removed this way`"
    );
    assert_eq!(counters_on(&engine, net, CounterKind::Storage), 0);
}

/// The five Mercadian Masques storage lands, which are a cycle: Fountain of
/// Cho, Saprazzan Cove, Subterranean Hangar, Mercadian Bazaar and Rushwood
/// Grove print one text with one symbol changed.
#[test]
fn the_storage_cycle_spends_its_counter_for_the_colour_it_prints() {
    let p0 = PlayerId::new(0);
    let cycle = [
        (fountain_of_cho(), ManaColor::White),
        (saprazzan_cove(), ManaColor::Blue),
        (subterranean_hangar(), ManaColor::Black),
        (mercadian_bazaar(), ManaColor::Red),
        (rushwood_grove(), ManaColor::Green),
    ];
    let mut engine = Duel::new(887, forest())
        .battlefield(0, &cycle.map(|(card, _)| card))
        .start();
    keep_mulligans(&mut engine).unwrap();
    assert!(reach_main_phase(&mut engine, p0));

    let lands: Vec<ObjectId> = cycle
        .iter()
        .map(|(card, _)| on_battlefield(&engine, p0, *card).expect("the land is on the table"))
        .collect();
    for land in &lands {
        assert!(store_a_counter(&mut engine, p0, *land, 0));
        assert_eq!(counters_on(&engine, *land, CounterKind::Storage), 1);
    }

    assert!(cross_into_the_next_own_main(&mut engine, p0));
    for (land, (_, color)) in lands.iter().zip(cycle) {
        assert_eq!(
            spend_storage(&mut engine, p0, *land, 1, 1).unwrap(),
            (0, 1),
            "one counter each, so one is each land's bound"
        );
        assert_eq!(
            engine.state().players[0].mana_pool.available(color),
            1,
            "and each of them spends it for the symbol it prints"
        );
        assert_eq!(counters_on(&engine, *land, CounterKind::Storage), 0);
    }
}

/// Calciform Pools: `{1}, Remove X storage counters from this land: Add X mana
/// in any combination of {W} and/or {U}.`
#[test]
fn a_storage_land_that_pays_mana_pours_its_counters_into_two_colours() {
    let p0 = PlayerId::new(0);
    let mut engine = Duel::new(911, forest())
        .battlefield(0, &[calciform_pools(), forest(), forest(), forest()])
        .start();
    keep_mulligans(&mut engine).unwrap();
    assert!(reach_main_phase(&mut engine, p0));
    let pools = on_battlefield(&engine, p0, calciform_pools()).expect("the land is on the table");

    for banked in 1..=2u16 {
        if banked > 1 {
            assert!(cross_into_the_next_own_main(&mut engine, p0));
        }
        tap_mana_except(&mut engine, p0, pools);
        assert!(store_a_counter(&mut engine, p0, pools, 1));
        assert_eq!(counters_on(&engine, pools, CounterKind::Storage), banked);
        assert!(
            is_tapped(&engine, pools),
            "which is what its `{{T}}` pays for"
        );
    }

    assert_eq!(
        spend_storage(&mut engine, p0, pools, 2, 2).unwrap(),
        (0, 2),
        "two counters banked, two announceable — and the tap the banking \
         line spent is not part of this cost"
    );
    assert_eq!(
        engine.state().players[0]
            .mana_pool
            .available(ManaColor::Green),
        1,
        "three Forests paid two {{1}}s, and the third is still floating"
    );

    let Pending::ChooseColor { options, .. } = engine.pending().clone() else {
        panic!("a combination asks a colour: {:?}", engine.pending())
    };
    assert_eq!(
        options,
        vec![ManaColor::White, ManaColor::Blue],
        "and the colours offered are the two the card prints, in its order"
    );
    engine
        .apply(p0, PlayerAction::ChooseColor(ManaColor::White))
        .expect("a colour the engine offered");
    let Pending::ChooseColor { options, .. } = engine.pending().clone() else {
        panic!(
            "`in any combination` is one pick per mana, so the second is \
             still to come: {:?}",
            engine.pending()
        )
    };
    assert_eq!(options, vec![ManaColor::White, ManaColor::Blue]);
    engine
        .apply(p0, PlayerAction::ChooseColor(ManaColor::Blue))
        .expect("and the second answer need not be the first");

    let pool = &engine.state().players[0].mana_pool;
    assert_eq!(
        (
            pool.available(ManaColor::White),
            pool.available(ManaColor::Blue)
        ),
        (1, 1),
        "one of each: a reader that took this for `any one color` would \
         have made two of whichever was named first"
    );
    assert_eq!(counters_on(&engine, pools, CounterKind::Storage), 0);
}

/// Cascading Cataracts: `{5}, {T}: Add five mana in any combination of colors.`
#[test]
fn cascading_cataracts_asks_five_times_and_offers_every_colour() {
    let p0 = PlayerId::new(0);
    let mut engine = Duel::new(913, forest())
        .battlefield(
            0,
            &[
                cascading_cataracts(),
                forest(),
                forest(),
                forest(),
                forest(),
                forest(),
            ],
        )
        .start();
    keep_mulligans(&mut engine).unwrap();
    assert!(reach_main_phase(&mut engine, p0));
    let land =
        on_battlefield(&engine, p0, cascading_cataracts()).expect("the land is on the table");

    tap_mana_except(&mut engine, p0, land);
    engine
        .apply(
            p0,
            PlayerAction::ActivateAbility {
                source: land,
                ability_index: 1,
            },
        )
        .expect("five Forests pay the {5}");
    assert!(
        matches!(engine.pending(), Pending::ChooseColor { .. }),
        "no counter is announced here, so the colour is the first question: \
         {:?}",
        engine.pending()
    );

    for (i, color) in [
        ManaColor::White,
        ManaColor::Blue,
        ManaColor::Black,
        ManaColor::Red,
        ManaColor::Green,
    ]
    .into_iter()
    .enumerate()
    {
        let Pending::ChooseColor { options, .. } = engine.pending().clone() else {
            panic!("pick {i} of five: {:?}", engine.pending())
        };
        assert_eq!(
            options.len(),
            5,
            "pick {i}: `any combination of colors` is all five, every time"
        );
        engine
            .apply(p0, PlayerAction::ChooseColor(color))
            .expect("a colour the engine offered");
    }

    assert!(
        matches!(engine.pending(), Pending::Priority { .. }),
        "five picks and no sixth: {:?}",
        engine.pending()
    );
    let pool = &engine.state().players[0].mana_pool;
    for color in [
        ManaColor::White,
        ManaColor::Blue,
        ManaColor::Black,
        ManaColor::Red,
        ManaColor::Green,
    ] {
        assert_eq!(
            pool.available(color),
            1,
            "five mana, one of each, which is what five separate picks buys"
        );
    }
}

/// Mystic Gate: `{W/U}, {T}: Add {W}{W}, {W}{U}, or {U}{U}.`
#[test]
fn a_filter_land_charges_a_coloured_mana_and_colorless_will_not_do() {
    for (land, basic, colors) in [
        (mystic_gate(), plains(), [ManaColor::White, ManaColor::Blue]),
        (
            fetid_heath(),
            plains(),
            [ManaColor::White, ManaColor::Black],
        ),
        (
            cascade_bluffs(),
            island(),
            [ManaColor::Blue, ManaColor::Red],
        ),
        (
            sunken_ruins(),
            island(),
            [ManaColor::Blue, ManaColor::Black],
        ),
        (
            flooded_grove(),
            forest(),
            [ManaColor::Green, ManaColor::Blue],
        ),
        (
            wooded_bastion(),
            forest(),
            [ManaColor::Green, ManaColor::White],
        ),
        (
            fire_lit_thicket(),
            mountain(),
            [ManaColor::Red, ManaColor::Green],
        ),
        (
            rugged_prairie(),
            mountain(),
            [ManaColor::Red, ManaColor::White],
        ),
        (graven_cairns(), swamp(), [ManaColor::Black, ManaColor::Red]),
        (
            twilight_mire(),
            swamp(),
            [ManaColor::Black, ManaColor::Green],
        ),
    ] {
        assert!(one_filter_land(land, basic, colors));
    }
}

/// Five lands that pour "for each …", and the five different questions that
/// phrase turns out to be.
#[test]
fn a_land_that_counts_pours_one_mana_for_each_thing_its_own_filter_matches() {
    for (seed, land, color, mine, theirs, generic, index, want) in [
        (
            930,
            cabal_coffers(),
            ManaColor::Black,
            vec![swamp(), badlands()],
            vec![swamp()],
            2,
            0,
            2,
        ),
        (
            931,
            cabal_stronghold(),
            ManaColor::Black,
            vec![swamp(), badlands()],
            vec![swamp()],
            3,
            1,
            1,
        ),
        (
            932,
            serra_s_sanctum(),
            ManaColor::White,
            vec![doubling_season()],
            vec![doubling_season()],
            0,
            0,
            1,
        ),
        (
            933,
            tolarian_academy(),
            ManaColor::Blue,
            vec![lightning_greaves(), lightning_greaves()],
            vec![lightning_greaves()],
            0,
            0,
            2,
        ),
        (
            934,
            cloudpost(),
            ManaColor::Colorless,
            vec![glimmerpost()],
            vec![glimmerpost()],
            0,
            0,
            3,
        ),
    ] {
        assert!(one_counted_land(seed, land, color, &mine, &theirs, generic, index, want));
    }
}

/// Baldur's Gate: `{2}, {T}: Add X mana of any one color, where X is the number
/// of other Gates you control.`
#[test]
fn baldurs_gate_counts_the_other_gates_and_asks_once_for_them_all() {
    let p0 = PlayerId::new(0);
    let mut engine = Duel::new(935, forest())
        .battlefield(
            0,
            &[
                baldurs_gate(),
                azorius_guildgate(),
                boros_guildgate(),
                forest(),
                forest(),
            ],
        )
        .battlefield(1, &[azorius_guildgate()])
        .start();
    keep_mulligans(&mut engine).unwrap();
    assert!(reach_main_phase(&mut engine, p0));
    let gate = on_battlefield(&engine, p0, baldurs_gate()).expect("the land is on the table");

    tap_mana_except(&mut engine, p0, gate);
    engine
        .apply(
            p0,
            PlayerAction::ActivateAbility {
                source: gate,
                ability_index: 1,
            },
        )
        .expect("two Forests pay the {2}");

    let Pending::ChooseColor { options, .. } = engine.pending().clone() else {
        panic!("one pick for the whole amount: {:?}", engine.pending())
    };
    assert_eq!(options.len(), 5, "any one *color*, so all five are offered");
    engine
        .apply(p0, PlayerAction::ChooseColor(ManaColor::Red))
        .expect("a colour the engine offered");
    assert!(
        matches!(engine.pending(), Pending::Priority { .. }),
        "and no second question, which is what `any one color` means: {:?}",
        engine.pending()
    );
    assert_eq!(
        engine.state().players[0]
            .mana_pool
            .available(ManaColor::Red),
        2,
        "two other Gates of this player, and not the opponent's"
    );
}

/// The five Time Spiral storage lands, which print one text with one pair of
/// symbols changed.
#[test]
fn the_time_spiral_storage_cycle_offers_the_pair_each_land_prints() {
    let p0 = PlayerId::new(0);
    let cycle = [
        (calciform_pools(), [ManaColor::White, ManaColor::Blue]),
        (dreadship_reef(), [ManaColor::Blue, ManaColor::Black]),
        (molten_slagheap(), [ManaColor::Black, ManaColor::Red]),
        (fungal_reaches(), [ManaColor::Red, ManaColor::Green]),
        (saltcrusted_steppe(), [ManaColor::Green, ManaColor::White]),
    ];
    let mut board: Vec<CardIndex> = cycle.iter().map(|(card, _)| *card).collect();
    board.extend(std::iter::repeat_n(forest(), 5));
    let mut engine = Duel::new(917, forest()).battlefield(0, &board).start();
    keep_mulligans(&mut engine).unwrap();
    assert!(reach_main_phase(&mut engine, p0));

    let lands: Vec<ObjectId> = cycle
        .iter()
        .map(|(card, _)| on_battlefield(&engine, p0, *card).expect("the land is on the table"))
        .collect();

    let Pending::Priority { legal, .. } = engine.pending().clone() else {
        panic!("expected priority, got {:?}", engine.pending())
    };
    for source in legal.mana_abilities.clone() {
        engine
            .apply(p0, PlayerAction::ActivateManaAbility { source })
            .unwrap();
    }
    for land in &lands {
        assert!(store_a_counter(&mut engine, p0, *land, 1));
        assert_eq!(counters_on(&engine, *land, CounterKind::Storage), 1);
    }

    assert!(cross_into_the_next_own_main(&mut engine, p0));
    let Pending::Priority { legal, .. } = engine.pending().clone() else {
        panic!("expected priority, got {:?}", engine.pending())
    };
    for source in legal.mana_abilities.clone() {
        engine
            .apply(p0, PlayerAction::ActivateManaAbility { source })
            .unwrap();
    }
    for (land, (_, pair)) in lands.iter().zip(cycle) {
        assert_eq!(
            spend_storage(&mut engine, p0, *land, 2, 1).unwrap(),
            (0, 1),
            "one counter each, so one is each land's bound"
        );
        let Pending::ChooseColor { options, .. } = engine.pending().clone() else {
            panic!("one counter buys one pick: {:?}", engine.pending())
        };
        assert_eq!(
            options,
            pair.to_vec(),
            "each land offers the pair it prints and no other"
        );
        let before = engine.state().players[0].mana_pool.available(pair[1]);
        engine
            .apply(p0, PlayerAction::ChooseColor(pair[1]))
            .expect("a colour the engine offered");
        assert_eq!(
            engine.state().players[0].mana_pool.available(pair[1]),
            before + 1,
            "one counter, one mana, of the colour that was picked"
        );
        assert_eq!(counters_on(&engine, *land, CounterKind::Storage), 0);
    }
}

/// Bottomless Vault, whole: `This land enters tapped.` / `You may choose not to
/// untap this land during your untap step.` / `At the beginning of your upkeep,
/// if this land is tapped, put a storage counter on it.` / `{T}, Remove any
/// number of storage counters from this land: Add {B} for each storage counter
/// removed this way.`
#[test]
fn a_storage_land_banks_a_counter_only_on_the_upkeeps_it_spent_tapped() {
    let p0 = PlayerId::new(0);
    let mut engine = Duel::new(884, forest())
        .hand(0, &[bottomless_vault()])
        .start();
    keep_mulligans(&mut engine).unwrap();
    assert!(reach_main_phase(&mut engine, p0));

    let land = play_land(&mut engine, p0, bottomless_vault()).unwrap();
    assert!(
        entered_tapped(&engine, land),
        "Bottomless Vault prints `This land enters tapped`"
    );
    assert_eq!(
        counters_on(&engine, land, CounterKind::Storage),
        0,
        "and arrives empty"
    );

    let (player, options) = walk_to_the_untap_question(&mut engine).unwrap();
    assert_eq!(player, p0, "the active player makes the determination");
    assert_eq!(
        options,
        vec![land],
        "the Forests untap without being asked about"
    );
    engine
        .apply(
            p0,
            PlayerAction::ChooseObjects {
                objects: vec![land],
            },
        )
        .expect("leaving it tapped is an answer to the question asked");
    assert!(on_to_this_turn_s_main(&mut engine, p0));
    assert!(is_tapped(&engine, land), "it stayed tapped");
    assert_eq!(
        counters_on(&engine, land, CounterKind::Storage),
        1,
        "so the upkeep trigger's clause was true and it banked one"
    );

    let (_, options) = walk_to_the_untap_question(&mut engine).unwrap();
    assert_eq!(options, vec![land], "the same question, a turn later");
    engine
        .apply(p0, PlayerAction::ChooseObjects { objects: vec![] })
        .expect("untapping it is the other answer");
    assert!(on_to_this_turn_s_main(&mut engine, p0));
    assert!(!is_tapped(&engine, land), "it untapped");
    assert_eq!(
        counters_on(&engine, land, CounterKind::Storage),
        1,
        "and an untapped land banks nothing: the clause is checked, not \
         assumed"
    );

    let (min, max) = spend_storage(&mut engine, p0, land, 2, 1).unwrap();
    assert_eq!(
        (min, max),
        (0, 1),
        "`any number` is bounded above by what the land actually carries"
    );
    assert_eq!(
        engine.state().players[0]
            .mana_pool
            .available(ManaColor::Black),
        1,
        "one storage counter removed this way is one {{B}}"
    );
    assert_eq!(
        counters_on(&engine, land, CounterKind::Storage),
        0,
        "and the counter is gone, because removing it was the cost"
    );
}

/// The cycle is one card printed five times, and the only thing that differs is
/// the colour it banks.
#[test]
fn every_land_of_the_cycle_pays_out_in_its_own_colour() {
    let p0 = PlayerId::new(0);
    for (seed, card, color) in [
        (885, bottomless_vault(), ManaColor::Black),
        (886, dwarven_hold(), ManaColor::Red),
        (887, hollow_trees(), ManaColor::Green),
        (888, icatian_store(), ManaColor::White),
        (889, sand_silos(), ManaColor::Blue),
    ] {
        let mut engine = Duel::new(seed, forest()).hand(0, &[card]).start();
        keep_mulligans(&mut engine).unwrap();
        assert!(reach_main_phase(&mut engine, p0));
        let land = play_land(&mut engine, p0, card).unwrap();

        let (_, options) = walk_to_the_untap_question(&mut engine).unwrap();
        assert_eq!(options, vec![land], "{color:?}");
        engine
            .apply(
                p0,
                PlayerAction::ChooseObjects {
                    objects: vec![land],
                },
            )
            .expect("leaving it tapped");
        assert!(on_to_this_turn_s_main(&mut engine, p0));
        assert_eq!(
            counters_on(&engine, land, CounterKind::Storage),
            1,
            "{color:?} banked one at its upkeep"
        );

        let (_, options) = walk_to_the_untap_question(&mut engine).unwrap();
        assert_eq!(options, vec![land], "{color:?}");
        engine
            .apply(p0, PlayerAction::ChooseObjects { objects: vec![] })
            .expect("untapping it");
        assert!(on_to_this_turn_s_main(&mut engine, p0));

        spend_storage(&mut engine, p0, land, 2, 1).unwrap();
        assert_eq!(
            engine.state().players[0].mana_pool.available(color),
            1,
            "one counter, one {color:?}"
        );
    }
}

/// The verge cycle and Nimbus Maze: "{T}: Add {X}. Activate only if you control
/// a <land type> or a <land type>."
#[test]
fn a_verge_adds_its_second_colour_only_beside_the_land_its_clause_names() {
    let p0 = PlayerId::new(0);
    for (seed, card, key, colour) in [
        (901, blazemire_verge(), swamp(), ManaColor::Red),
        (902, blazemire_verge(), mountain(), ManaColor::Red),
        (903, bleachbone_verge(), plains(), ManaColor::White),
        (904, bleachbone_verge(), swamp(), ManaColor::White),
        (905, floodfarm_verge(), plains(), ManaColor::Blue),
        (906, floodfarm_verge(), island(), ManaColor::Blue),
        (907, gloomlake_verge(), island(), ManaColor::Black),
        (908, gloomlake_verge(), swamp(), ManaColor::Black),
        (909, hushwood_verge(), forest(), ManaColor::White),
        (910, hushwood_verge(), plains(), ManaColor::White),
        (911, riverpyre_verge(), island(), ManaColor::Blue),
        (912, riverpyre_verge(), mountain(), ManaColor::Blue),
        (913, sunbillow_verge(), mountain(), ManaColor::Red),
        (914, sunbillow_verge(), plains(), ManaColor::Red),
        (915, thornspire_verge(), mountain(), ManaColor::Green),
        (916, thornspire_verge(), forest(), ManaColor::Green),
        (917, wastewood_verge(), swamp(), ManaColor::Black),
        (918, wastewood_verge(), forest(), ManaColor::Black),
        (919, willowrush_verge(), forest(), ManaColor::Green),
        (920, willowrush_verge(), island(), ManaColor::Green),
        (921, nimbus_maze(), island(), ManaColor::White),
        (922, nimbus_maze(), plains(), ManaColor::Blue),
    ] {
        let index = if card == nimbus_maze() && colour == ManaColor::Blue {
            2
        } else {
            1
        };
        let mut engine = Duel::new(seed, forest())
            .battlefield(0, &[card])
            .hand(0, &[key])
            .start();
        keep_mulligans(&mut engine).unwrap();
        assert!(reach_main_phase(&mut engine, p0));

        assert!(
            offered(&engine, card, 0),
            "seed {seed}: the ability with no clause is offered"
        );
        assert!(
            !offered(&engine, card, index),
            "seed {seed}: and the one with a clause is not, with nothing beside it"
        );

        play_land(&mut engine, p0, key).unwrap();
        assert!(
            offered(&engine, card, index),
            "seed {seed}: the land it names arrived"
        );
        activate(&mut engine, p0, card, index).unwrap();
        assert_eq!(
            engine.state().players[0].mana_pool.available(colour),
            1,
            "seed {seed}: and it added {colour:?}"
        );
    }
}

/// The four tainted lands: "{T}: Add {B} or {X}. Activate only if you control a
/// Swamp."
#[test]
fn a_tainted_land_offers_both_of_its_colours_and_only_beside_a_swamp() {
    let p0 = PlayerId::new(0);
    for (seed, card, colours) in [
        (930, tainted_field(), [ManaColor::White, ManaColor::Black]),
        (931, tainted_isle(), [ManaColor::Blue, ManaColor::Black]),
        (932, tainted_peak(), [ManaColor::Black, ManaColor::Red]),
        (933, tainted_wood(), [ManaColor::Black, ManaColor::Green]),
    ] {
        let mut engine = Duel::new(seed, forest())
            .battlefield(0, &[card])
            .hand(0, &[swamp()])
            .start();
        keep_mulligans(&mut engine).unwrap();
        assert!(reach_main_phase(&mut engine, p0));

        assert!(
            !offered(&engine, card, 1),
            "seed {seed}: no Swamp, no coloured half"
        );
        play_land(&mut engine, p0, swamp()).unwrap();
        assert!(offered(&engine, card, 1), "seed {seed}: the Swamp arrived");

        activate(&mut engine, p0, card, 1).unwrap();
        let Pending::ChooseColor { options, .. } = engine.pending().clone() else {
            panic!(
                "seed {seed}: expected a colour to pick, got {:?}",
                engine.pending()
            )
        };
        assert_eq!(
            options,
            colours.to_vec(),
            "seed {seed}: both printed colours"
        );
        engine
            .apply(p0, PlayerAction::ChooseColor(colours[1]))
            .expect("the colour offered is a legal answer");
        assert_eq!(
            engine.state().players[0].mana_pool.available(colours[1]),
            1,
            "seed {seed}: the colour chosen is the colour added"
        );
    }
}

/// Temple of the False God and Cryptic Caves: "Activate only if you control
/// five or more lands."
#[test]
fn the_fifth_land_is_what_turns_a_count_of_five_true() {
    let p0 = PlayerId::new(0);

    let mut engine = Duel::new(940, forest())
        .battlefield(
            0,
            &[temple_of_the_false_god(), forest(), forest(), forest()],
        )
        .hand(0, &[forest()])
        .start();
    keep_mulligans(&mut engine).unwrap();
    assert!(reach_main_phase(&mut engine, p0));
    assert!(
        !offered(&engine, temple_of_the_false_god(), 0),
        "four lands is not five"
    );
    play_land(&mut engine, p0, forest()).unwrap();
    assert!(
        offered(&engine, temple_of_the_false_god(), 0),
        "and the fifth is"
    );
    activate(&mut engine, p0, temple_of_the_false_god(), 0).unwrap();
    assert_eq!(
        engine.state().players[0]
            .mana_pool
            .available(ManaColor::Colorless),
        2,
        "{{C}}{{C}}, both of them"
    );

    let mut engine = Duel::new(941, forest())
        .battlefield(0, &[cryptic_caves(), forest(), forest(), forest()])
        .hand(0, &[forest()])
        .start();
    keep_mulligans(&mut engine).unwrap();
    assert!(reach_main_phase(&mut engine, p0));
    tap_all_mana_but(&mut engine, p0, Some(cryptic_caves()));
    assert!(
        !offered(&engine, cryptic_caves(), 1),
        "four lands is not five"
    );
    play_land(&mut engine, p0, forest()).unwrap();
    assert!(offered(&engine, cryptic_caves(), 1), "and the fifth is");

    let hand = engine.state().zones.list(ZoneLocation::Hand(p0)).len();
    activate(&mut engine, p0, cryptic_caves(), 1).unwrap();
    for _ in 0..4 {
        if engine.state().zones.list(ZoneLocation::Hand(p0)).len() > hand {
            break;
        }
        let Pending::Priority { player, .. } = engine.pending().clone() else {
            panic!("unexpected while resolving: {:?}", engine.pending())
        };
        engine.apply(player, PlayerAction::PassPriority).unwrap();
    }
    assert_eq!(
        engine.state().zones.list(ZoneLocation::Hand(p0)).len(),
        hand + 1,
        "the card it drew"
    );
    assert_eq!(
        engine.state().zones.list(ZoneLocation::Graveyard(p0)).len(),
        1,
        "and the land it sacrificed to draw it"
    );
}

/// Spire of Industry and Rivendell, whose clauses ask about something that is
/// not a land at all: an artifact, and a legendary creature.
#[test]
fn a_clause_may_ask_about_an_artifact_or_a_legend_instead() {
    let p0 = PlayerId::new(0);

    let mut engine = Duel::new(950, forest())
        .battlefield(0, &[spire_of_industry()])
        .start();
    keep_mulligans(&mut engine).unwrap();
    assert!(reach_main_phase(&mut engine, p0));
    assert!(
        !offered(&engine, spire_of_industry(), 1),
        "no artifact, no coloured mana"
    );

    let mut engine = Duel::new(951, forest())
        .battlefield(0, &[spire_of_industry(), lightning_greaves()])
        .start();
    keep_mulligans(&mut engine).unwrap();
    assert!(reach_main_phase(&mut engine, p0));
    assert!(
        offered(&engine, spire_of_industry(), 1),
        "an Equipment is an artifact"
    );
    let life = engine.state().players[0].life;
    activate(&mut engine, p0, spire_of_industry(), 1).unwrap();
    let Pending::ChooseColor { .. } = engine.pending().clone() else {
        panic!("expected any colour, got {:?}", engine.pending())
    };
    engine
        .apply(p0, PlayerAction::ChooseColor(ManaColor::Green))
        .expect("any colour includes green");
    assert_eq!(
        engine.state().players[0]
            .mana_pool
            .available(ManaColor::Green),
        1,
        "one mana of the colour chosen"
    );
    assert_eq!(
        engine.state().players[0].life,
        life - 1,
        "and the life the cost asked for"
    );

    let mut engine = Duel::new(952, forest())
        .battlefield(0, &[rivendell(), island(), forest()])
        .start();
    keep_mulligans(&mut engine).unwrap();
    assert!(reach_main_phase(&mut engine, p0));
    tap_all_mana_but(&mut engine, p0, Some(rivendell()));
    assert!(
        !offered(&engine, rivendell(), 1),
        "no legendary creature, no scry"
    );

    let mut engine = Duel::new(953, forest())
        .battlefield(0, &[rivendell(), jin_gitaxias(), island(), forest()])
        .start();
    keep_mulligans(&mut engine).unwrap();
    assert!(reach_main_phase(&mut engine, p0));
    tap_all_mana_but(&mut engine, p0, Some(rivendell()));
    assert!(
        offered(&engine, rivendell(), 1),
        "Jin-Gitaxias is a legendary creature"
    );
    activate(&mut engine, p0, rivendell(), 1).unwrap();
    assert_eq!(
        engine.stack.len(),
        1,
        "the scry is an ordinary activated ability and uses the stack"
    );
}

/// Boseiju, Who Endures is a Legendary Land that prints two implemented things:
/// "{T}: Add {G}", and "Channel — {1}{G}, Discard this card: Destroy target
/// artifact, enchantment, or nonbasic land an opponent controls."
#[test]
#[allow(clippy::too_many_lines)]
fn boseiju_taps_for_green_and_channels_itself_away_for_an_artifact_or_a_nonbasic_land() {
    let p0 = PlayerId::new(0);
    let p1 = PlayerId::new(1);
    let mut engine = Duel::new(29, forest())
        .battlefield(0, &[forest(), quiet_artifact()])
        .hand(0, &[boseiju_who_endures(), boseiju_who_endures()])
        .battlefield(1, &[quiet_artifact(), badlands(), forest()])
        .start();
    keep_mulligans(&mut engine).unwrap();
    assert!(walk_to_own_main(&mut engine, p0), "p0 reaches its own main");

    play_land(&mut engine, p0, boseiju_who_endures()).unwrap();
    activate(&mut engine, p0, boseiju_who_endures(), 0).unwrap();
    assert_eq!(
        engine.state().players[0]
            .mana_pool
            .available(ManaColor::Green),
        1,
        "CR 605.3b: the green is in the pool the moment the land is tapped, \
         with nothing on the stack"
    );

    tap_all_mana(&mut engine, p0);
    let pool_before = engine.state().players[0].mana_pool.total();
    assert!(
        pool_before >= 2,
        "the channel's {{1}}{{G}} has to be covered by the pool: {pool_before}"
    );

    let rock = on_battlefield(&engine, p1, quiet_artifact()).expect("their Sol Ring stands");
    let their_land = on_battlefield(&engine, p1, badlands()).expect("their Badlands stands");
    let their_forest = on_battlefield(&engine, p1, forest()).expect("their basic Forest stands");
    let my_rock = on_battlefield(&engine, p0, quiet_artifact()).expect("my own Sol Ring stands");
    let my_boseiju =
        on_battlefield(&engine, p0, boseiju_who_endures()).expect("the played copy stands");

    let Pending::Priority { legal, .. } = engine.pending().clone() else {
        panic!("expected priority, got {:?}", engine.pending())
    };
    assert!(
        legal.abilities.iter().any(|(source, index)| *index == 1
            && engine
                .state()
                .object(*source)
                .is_some_and(|o| o.card == boseiju_who_endures())),
        "the card still in hand offers its channel: {:?}",
        legal.abilities
    );
    activate(&mut engine, p0, boseiju_who_endures(), 1).unwrap();

    let Pending::ChooseTargets {
        player, options, ..
    } = engine.pending().clone()
    else {
        panic!(
            "the channel destroys one target and asks which, got {:?}",
            engine.pending()
        )
    };
    assert_eq!(player, p0, "the seat that activated names the target");
    assert!(
        options.contains(&rock),
        "\"target artifact\" reaches across the table: {options:?}"
    );
    assert!(
        options.contains(&their_land),
        "\"nonbasic land an opponent controls\": {options:?}"
    );
    assert!(
        options.contains(&my_rock),
        "the controller clause sits on the land, so an artifact of your own \
         is a legal target too: {options:?}"
    );
    assert!(
        !options.contains(&their_forest),
        "and a basic land is not a nonbasic land — the control for the word \
         \"nonbasic\", on a side of the table the controller clause cannot \
         explain away: {options:?}"
    );
    assert!(
        !options.contains(&my_boseiju),
        "while this land *is* nonbasic and is not an opponent's, so the two \
         clauses are read separately: {options:?}"
    );
    assert_eq!(
        options.len(),
        3,
        "the two artifacts and the Badlands are the whole menu: {options:?}"
    );

    engine
        .apply(
            p0,
            PlayerAction::ChooseObjects {
                objects: vec![rock],
            },
        )
        .expect("the Sol Ring was one of the options");
    assert!(pass_until(&mut engine, |e| at_rest(e, p0)));

    assert!(
        in_graveyard(&engine, p1, quiet_artifact()).is_some(),
        "\"destroy target artifact\": the Sol Ring is in its owner's graveyard"
    );
    assert!(
        on_battlefield(&engine, p1, badlands()).is_some(),
        "and only the permanent that was named: the Badlands still stands"
    );
    assert!(
        on_battlefield(&engine, p0, quiet_artifact()).is_some(),
        "and nothing of this seat's was touched"
    );
    assert!(
        in_graveyard(&engine, p0, boseiju_who_endures()).is_some(),
        "\"Discard this card\" as the cost: the copy activated from hand is in \
         its owner's graveyard"
    );
    assert!(
        on_battlefield(&engine, p0, boseiju_who_endures()).is_some(),
        "while the copy played as a land is still on the battlefield — the \
         discard took the card that was activated and not the other printing"
    );
    assert_eq!(
        engine.state().players[0].mana_pool.total(),
        pool_before - 2,
        "{{1}}{{G}} left the pool, so the ability was paid for and not free"
    );
}

#[test]
fn cephalid_coliseum_taps_for_blue_and_deals_its_own_controller_one_damage() {
    let p0 = PlayerId::new(0);
    let mut engine = Duel::new(881, forest())
        .battlefield(0, &[forest()])
        .hand(0, &[cephalid_coliseum()])
        .life(0, 20)
        .life(1, 20)
        .start();
    keep_mulligans(&mut engine).unwrap();
    assert!(reach_main_phase(&mut engine, p0));

    let land = play_land(&mut engine, p0, cephalid_coliseum()).unwrap();
    let bystander = on_battlefield(&engine, p0, forest()).expect("the Forest is out");
    assert!(
        !is_tapped(&engine, land),
        "no enters-tapped clause, so the land drop leaves it upright"
    );
    assert_eq!(
        engine.state().players[0].mana_pool.total(),
        0,
        "nothing floats before the tap"
    );

    activate(&mut engine, p0, cephalid_coliseum(), 0).unwrap();

    let pool = &engine.state().players[0].mana_pool;
    assert_eq!(pool.available(ManaColor::Blue), 1, "{{T}}: Add {{U}}");
    assert_eq!(pool.total(), 1, "one mana, off one tap");
    assert!(
        stack_is_empty(&engine),
        "CR 605.3b: a mana ability uses no stack, so nothing is waiting to resolve"
    );
    assert!(is_tapped(&engine, land), "the land paid its own {{T}}");
    assert!(
        !is_tapped(&engine, bystander),
        "and the Forest beside it never moved, so the {{U}} has no other \
         source on this board"
    );
    assert_eq!(
        engine.state().players[0].life,
        19,
        "\"This land deals 1 damage to you\" — the land's controller pays \
         for the mana it makes"
    );
    assert_eq!(
        engine.state().players[1].life,
        20,
        "and it is \"you\": the damage never crosses the table"
    );
    assert!(
        matches!(engine.pending(), Pending::Priority { player, .. } if *player == p0),
        "the seat holds priority again, got {:?}",
        engine.pending()
    );
}

#[test]
fn gemstone_caverns_taps_for_one_colourless_and_names_no_colour() {
    let p0 = PlayerId::new(0);
    let mut engine = Duel::new(19, forest())
        .hand(0, &[gemstone_caverns()])
        .start();
    keep_mulligans(&mut engine).unwrap();
    assert!(walk_to_own_main(&mut engine, p0), "p0 reaches its own main");

    let card = in_hand(&engine, p0, gemstone_caverns()).expect("the Caverns are in hand");
    engine
        .apply(p0, PlayerAction::PlayLand { card })
        .expect("a land drop on an empty board");
    let caverns = on_battlefield(&engine, p0, gemstone_caverns()).expect("the land hit the table");
    assert_eq!(
        engine.state().players[0].mana_pool.total(),
        0,
        "a land nobody tapped is no mana"
    );

    let Pending::Priority { legal, .. } = engine.pending().clone() else {
        panic!(
            "playing a land leaves the seat holding priority: {:?}",
            engine.pending()
        )
    };
    assert!(
        legal.abilities.contains(&(caverns, 0)),
        "the land's own {{T}} is offered like any other printed ability: {:?}",
        legal.abilities
    );
    activate(&mut engine, p0, gemstone_caverns(), 0).unwrap();

    let pool = &engine.state().players[0].mana_pool;
    assert_eq!(
        pool.available(ManaColor::Colorless),
        1,
        "`Add {{C}}` is the half of the card that is written"
    );
    assert_eq!(
        pool.total(),
        1,
        "and nothing came with it: only the one mana ability resolved"
    );
    assert!(
        is_tapped(&engine, caverns),
        "the {{T}} was paid by the Caverns"
    );
    assert!(
        stack_is_empty(&engine),
        "CR 605.3b: a mana ability never uses the stack"
    );
    assert!(
        matches!(engine.pending(), Pending::Priority { player, .. } if *player == p0),
        "so the seat is back where it was and was never asked for a color — \
         the luck-counter replacement is not in play: {:?}",
        engine.pending()
    );
}

/// Inventors' Fair — a legendary land printing "{T}: Add {C}", an upkeep
/// trigger that gains 1 life whenever you control three or more artifacts, and
/// "{4}, {T}, Sacrifice this land: search your library for an artifact card …
/// Activate only if you control three or more artifacts."
#[test]
#[allow(clippy::too_many_lines)]
fn inventors_fair_gates_its_lifegain_and_its_tutor_on_three_artifacts() {
    let p0 = PlayerId::new(0);

    let mut poor = Duel::new(31, quiet_artifact())
        .battlefield(0, &[inventors_fair(), quiet_artifact(), quiet_artifact()])
        .life(0, 20)
        .life(1, 20)
        .start();
    keep_mulligans(&mut poor).unwrap();
    assert!(walk_to_own_main(&mut poor, p0), "p0 reaches its own main");
    assert_eq!(
        poor.state().players[0].life,
        20,
        "two artifacts is not three, so the upkeep trigger gained nothing",
    );

    let held = on_battlefield(&poor, p0, inventors_fair()).expect("the Fair is on the table");
    for _ in 0..2 {
        activate(&mut poor, p0, quiet_artifact(), 0).unwrap();
    }
    assert_eq!(
        poor.state().players[0]
            .mana_pool
            .available(ManaColor::Colorless),
        4,
        "two Sol Rings pay {{C}}{{C}} apiece",
    );
    let Pending::Priority { legal, .. } = poor.pending().clone() else {
        panic!("expected priority, got {:?}", poor.pending())
    };
    assert!(
        !legal.abilities.contains(&(held, 2)),
        "the tutor's whole {{4}} is in the pool and the land is untapped, so \
         only the two-artifact board withholds it: {:?}",
        legal.abilities,
    );

    activate(&mut poor, p0, inventors_fair(), 1).unwrap();
    assert_eq!(
        poor.state().players[0]
            .mana_pool
            .available(ManaColor::Colorless),
        5,
        "the Fair's own tap added the single colorless it prints",
    );
    assert!(is_tapped(&poor, held), "which tapped the land");
    assert!(
        stack_is_empty(&poor),
        "CR 605.3b: a mana ability never uses the stack",
    );

    let mut rich = Duel::new(31, quiet_artifact())
        .battlefield(
            0,
            &[
                inventors_fair(),
                quiet_artifact(),
                quiet_artifact(),
                quiet_artifact(),
            ],
        )
        .life(0, 20)
        .life(1, 20)
        .start();
    keep_mulligans(&mut rich).unwrap();
    assert!(walk_to_own_main(&mut rich, p0), "p0 reaches its own main");
    assert_eq!(
        rich.state().players[0].life,
        21,
        "three artifacts at the beginning of your upkeep is one life",
    );

    let fair = on_battlefield(&rich, p0, inventors_fair()).expect("the Fair is on the table");
    for _ in 0..3 {
        activate(&mut rich, p0, quiet_artifact(), 0).unwrap();
    }
    let Pending::Priority { legal, .. } = rich.pending().clone() else {
        panic!("expected priority, got {:?}", rich.pending())
    };
    assert_eq!(
        rich.state().players[0]
            .mana_pool
            .available(ManaColor::Colorless),
        6,
        "three Sol Rings, which is the tutor's {{4}} and then some",
    );
    assert!(
        legal.abilities.contains(&(fair, 2)),
        "the same count that fired the trigger now opens the tutor: {:?}",
        legal.abilities,
    );

    let library_before = library_size(&rich, p0);
    let hand_before = rich.state().zones.list(ZoneLocation::Hand(p0)).len();

    activate(&mut rich, p0, inventors_fair(), 2).unwrap();
    assert!(pass_until(&mut rich, |e| {
        matches!(e.pending(), Pending::ChooseCards { .. })
    }));
    let Pending::ChooseCards {
        player,
        options,
        prompt,
        ..
    } = rich.pending().clone()
    else {
        panic!("the search asks which artifact, got {:?}", rich.pending())
    };
    assert_eq!(player, p0, "the seat that paid is the seat that searches");
    assert_eq!(
        prompt,
        ChoicePrompt::SearchLibrary,
        "a search of the library, not a cost being paid",
    );
    assert!(
        !options.is_empty(),
        "the deck this duel was dealt is made of artifacts",
    );
    let found = options[0];
    rich.apply(
        p0,
        PlayerAction::ChooseObjects {
            objects: vec![found],
        },
    )
    .expect("a card the search offered");
    assert!(pass_until(&mut rich, |e| at_rest(e, p0)));

    assert_eq!(
        library_size(&rich, p0),
        library_before - 1,
        "\"search your library for an artifact card\" — one card left it",
    );
    assert_eq!(
        rich.state().zones.list(ZoneLocation::Hand(p0)).len(),
        hand_before + 1,
        "and arrived in hand",
    );
    assert!(
        on_battlefield(&rich, p0, inventors_fair()).is_none(),
        "the sacrifice is paid from the battlefield",
    );
    assert!(
        in_graveyard(&rich, p0, inventors_fair()).is_some(),
        "so the land is in its owner's graveyard",
    );
}

/// Otawara, Soaring City prints a plain `{T}: Add {U}` and, beside it, a
/// Channel line that is not a land ability at all: "{3}{U}, Discard this card:
/// Return target artifact, creature, enchantment, or planeswalker to its
/// owner's hand", activated from hand. This plays the Channel half, so both
/// readings that make it what it is are struck: the card leaves the *hand* as a
/// cost — the graveyard and not the battlefield has to hold it afterwards — and
/// the creature across the table is bounced to its owner's hand while the
/// Forest beside it, a land and so none of the four named card types, is never
/// offered as a target in the first place.
#[test]
fn otawara_channels_from_hand_to_bounce_a_creature_and_discards_itself() {
    let p0 = PlayerId::new(0);
    let p1 = PlayerId::new(1);
    let mut engine = Duel::new(97, island())
        .battlefield(0, &[island(), island(), island(), island()])
        .hand(0, &[otawara_soaring_city()])
        .battlefield(1, &[llanowar_elves(), forest()])
        .start();
    keep_mulligans(&mut engine).unwrap();
    assert!(
        walk_to_own_main(&mut engine, p0),
        "p0 reaches its own first main"
    );
    assert!(
        in_hand(&engine, p0, otawara_soaring_city()).is_some(),
        "the Channel line is activated from hand, which is where the card is"
    );

    tap_all_mana(&mut engine, p0);
    assert_eq!(
        engine.state().players[0]
            .mana_pool
            .available(ManaColor::Blue),
        4,
        "four Islands pay three generic and the one blue"
    );

    let their_elves = on_battlefield(&engine, p1, llanowar_elves()).expect("their Elves are out");
    let their_forest = on_battlefield(&engine, p1, forest()).expect("their Forest is out");
    let library_after_channel = library_size(&engine, p0);

    activate(&mut engine, p0, otawara_soaring_city(), 1).unwrap();

    let Pending::ChooseTargets {
        player,
        options,
        min,
        max,
        ..
    } = engine.pending().clone()
    else {
        panic!(
            "the Channel line asks for its target before anything is paid, got {:?}",
            engine.pending()
        )
    };
    assert_eq!(player, p0, "the activating seat names the target");
    assert_eq!((min, max), (1, 1), "exactly one permanent comes back");
    assert!(
        options.contains(&their_elves),
        "\"target artifact, creature, …\" reaches across the table: {options:?}"
    );
    assert!(
        !options.contains(&their_forest),
        "a land is none of the four card types the sentence names: {options:?}"
    );

    engine
        .apply(
            p0,
            PlayerAction::ChooseObjects {
                objects: vec![their_elves],
            },
        )
        .expect("the creature the question offered is the one it was aimed at");
    assert!(pass_until(&mut engine, stack_is_empty));

    assert!(
        in_graveyard(&engine, p0, otawara_soaring_city()).is_some(),
        "discarding this card is the cost, so it never reached the battlefield \
         and lies in its owner's graveyard"
    );
    assert!(
        on_battlefield(&engine, p1, llanowar_elves()).is_none(),
        "the Elf left the battlefield"
    );
    assert!(
        in_hand(&engine, p1, llanowar_elves()).is_some(),
        "…to its *owner's* hand, the seat that cast nothing"
    );
    assert!(
        on_battlefield(&engine, p1, forest()).is_some(),
        "and the permanent that was never a legal target never moved"
    );
    assert_eq!(
        library_size(&engine, p0),
        library_after_channel,
        "a bounce draws nothing, for either seat"
    );
}

#[test]
fn raucous_theater_enters_tapped_and_taps_for_black_or_red() {
    let (p0, p1) = (PlayerId::new(0), PlayerId::new(1));
    let mut engine = Duel::new(SEED, forest())
        .hand(0, &[raucous_theater()])
        .start();
    keep_mulligans(&mut engine).unwrap();
    assert!(reach_main_phase(&mut engine, p0));

    let library_before = library_size(&engine, p0);
    let top_before = engine
        .state()
        .zones
        .list(ZoneLocation::Library(p0))
        .last()
        .copied()
        .expect("p0 has a library");

    let land = play_land(&mut engine, p0, raucous_theater()).unwrap();
    assert!(
        is_tapped(&engine, land),
        "\"This land enters tapped\", read off a real land drop"
    );

    let (options, min, max) = surveil_offer(&mut engine, p0).unwrap();
    assert_eq!(
        options,
        vec![top_before],
        "surveil 1 looks at exactly the top card of its own library"
    );
    assert_eq!(
        (min, max),
        (0, 1),
        "any number of them, which here is 0 or 1"
    );
    engine
        .apply(
            p0,
            PlayerAction::ChooseObjects {
                objects: vec![top_before],
            },
        )
        .expect("the card it just looked at");

    assert_eq!(
        library_size(&engine, p0),
        library_before - 1,
        "the card it binned left the library"
    );
    assert_eq!(
        in_graveyard(&engine, p0, forest()),
        Some(top_before),
        "and it is in the graveyard, which is where a surveil differs from a \
         scry"
    );

    assert!(reach_their_main_phase(&mut engine, p1));
    assert!(walk_to_own_main(&mut engine, p0), "p0 takes another turn");
    assert!(
        !is_tapped(&engine, land),
        "the untap step gives the land back, so it entered tapped and was \
         not held down"
    );

    activate(&mut engine, p0, raucous_theater(), 0).unwrap();
    let Pending::ChooseColor { player, options } = engine.pending().clone() else {
        panic!(
            "\"Add {{B}} or {{R}}\" is a question, got {:?}",
            engine.pending()
        )
    };
    assert_eq!(player, p0, "the land's controller names the colour");
    assert_eq!(
        options.len(),
        2,
        "two colours and nothing else: {options:?}"
    );
    assert!(
        options.contains(&ManaColor::Black) && options.contains(&ManaColor::Red),
        "{{B}} and {{R}} are the whole of the sentence: {options:?}"
    );

    engine
        .apply(p0, PlayerAction::ChooseColor(ManaColor::Red))
        .expect("red was one of the colours it offered");
    let pool = &engine.state().players[0].mana_pool;
    assert_eq!(
        pool.available(ManaColor::Red),
        1,
        "the colour that was named, off the land's own {{T}}"
    );
    assert_eq!(pool.total(), 1, "one mana, and nothing beside it");
    assert!(is_tapped(&engine, land), "which tapped the land");
    assert!(
        stack_is_empty(&engine),
        "CR 605.3b: a mana ability uses no stack"
    );
}

#[test]
fn takenuma_abandoned_mire_taps_for_black_and_offers_no_channel() {
    let p0 = PlayerId::new(0);
    let mut engine = Duel::new(97, forest())
        .battlefield(0, &[forest()])
        .hand(0, &[takenuma_abandoned_mire()])
        .start();
    keep_mulligans(&mut engine).unwrap();
    assert!(reach_main_phase(&mut engine, p0));

    let forest_land = on_battlefield(&engine, p0, forest()).expect("the Forest is out");
    let land = play_land(&mut engine, p0, takenuma_abandoned_mire()).unwrap();
    assert!(
        !entered_tapped(&engine, land),
        "the card prints no enter modifier, so it lands untapped"
    );
    assert_eq!(
        engine.state().players[0].mana_pool.total(),
        0,
        "playing a land makes no mana by itself"
    );

    let Pending::Priority { legal, .. } = engine.pending().clone() else {
        panic!(
            "the land drop leaves the seat holding priority: {:?}",
            engine.pending()
        )
    };
    assert!(
        legal.abilities.contains(&(land, 0)),
        "the land's own {{T}}: Add {{B}} is offered: {:?}",
        legal.abilities
    );
    assert!(
        !legal.mana_abilities.contains(&land),
        "a printed tap is no basic land type (CR 305.6), so `tap_all_mana` \
         would never press it: {:?}",
        legal.mana_abilities
    );

    activate(&mut engine, p0, takenuma_abandoned_mire(), 0).unwrap();
    let pool = &engine.state().players[0].mana_pool;
    assert_eq!(
        pool.available(ManaColor::Black),
        1,
        "{{B}}, off the land's own tap"
    );
    assert_eq!(pool.total(), 1, "one mana and nothing else came with it");
    assert!(is_tapped(&engine, land), "the land paid its own {{T}}");
    assert!(
        !is_tapped(&engine, forest_land),
        "and the untapped Forest is the control: the black mana has no other \
         source on this board"
    );
    assert!(
        stack_is_empty(&engine),
        "CR 605.3b: a mana ability uses no stack"
    );
    assert!(
        on_battlefield(&engine, p0, takenuma_abandoned_mire()).is_some(),
        "the channel line is the gap, so nothing discarded the card for it"
    );
    assert!(
        in_graveyard(&engine, p0, takenuma_abandoned_mire()).is_none(),
        "and no three cards were milled into anybody's graveyard"
    );
}

/// Thundering Falls — Land — Island Mountain: "This land enters tapped.
#[test]
fn thundering_falls_enters_tapped_then_taps_for_blue_or_red() {
    let p0 = PlayerId::new(0);
    let p1 = PlayerId::new(1);
    let mut engine = Duel::new(29, forest())
        .battlefield(0, &[forest()])
        .hand(0, &[thundering_falls()])
        .start();
    keep_mulligans(&mut engine).unwrap();
    assert!(reach_main_phase(&mut engine, p0));

    let library_before = library_size(&engine, p0);
    let top_before = engine
        .state()
        .zones
        .list(ZoneLocation::Library(p0))
        .last()
        .copied()
        .expect("p0 has a library");
    let falls = play_land(&mut engine, p0, thundering_falls()).unwrap();
    assert!(
        entered_tapped(&engine, falls),
        "\"This land enters tapped\" — and it was played, so the entry \
         modifier is the only thing that could have tapped it"
    );

    let _ = surveil_offer(&mut engine, p0).unwrap();
    engine
        .apply(p0, PlayerAction::ChooseObjects { objects: vec![] })
        .expect("keeping everything is an answer (CR 701.25a: \"any number\")");
    assert_eq!(
        library_size(&engine, p0),
        library_before,
        "nothing was put into a graveyard, so nothing left the library"
    );
    assert_eq!(
        engine
            .state()
            .zones
            .list(ZoneLocation::Library(p0))
            .last()
            .copied(),
        Some(top_before),
        "and the card that was looked at is still the top one"
    );
    assert!(
        in_graveyard(&engine, p0, forest()).is_none(),
        "no Forest of the filler library reached a graveyard"
    );

    assert!(reach_their_main_phase(&mut engine, p1));
    assert!(walk_to_own_main(&mut engine, p0), "p0 takes another turn");
    assert!(
        !entered_tapped(&engine, falls),
        "no effect holds this land down, so the untap step untapped it"
    );

    activate(&mut engine, p0, thundering_falls(), 0).unwrap();
    let Pending::ChooseColor { player, options } = engine.pending().clone() else {
        panic!(
            "`Add {{U}} or {{R}}` is a question, got {:?}",
            engine.pending()
        )
    };
    assert_eq!(player, p0, "the activating seat is the one that names it");
    assert_eq!(
        options.len(),
        2,
        "two colours and no third thing: {options:?}"
    );
    assert!(
        options.contains(&ManaColor::Blue) && options.contains(&ManaColor::Red),
        "\"or {{R}}\" is on the menu with the {{U}} an Island would make: \
         {options:?}"
    );

    engine
        .apply(p0, PlayerAction::ChooseColor(ManaColor::Blue))
        .expect("blue was one of the colours it offered");
    let pool = &engine.state().players[0].mana_pool;
    assert_eq!(
        pool.available(ManaColor::Blue),
        1,
        "the colour that was named, and not a default"
    );
    assert_eq!(
        pool.available(ManaColor::Red),
        0,
        "the other half of the choice was not handed over as well"
    );
    assert_eq!(pool.total(), 1, "one mana, off one tap");
    assert!(is_tapped(&engine, falls), "the land paid its own {{T}}");
    assert!(
        stack_is_empty(&engine),
        "CR 605.3b: a mana ability uses no stack, so nothing is waiting to \
         resolve"
    );
}

/// Undercity Sewers is a Land — Island Swamp whose printed sentences are "This
/// land enters tapped", "{T}: Add {U} or {B}" and an enters-surveil.
#[test]
fn undercity_sewers_enters_tapped_and_taps_for_blue_or_black() {
    let p0 = PlayerId::new(0);
    let p1 = PlayerId::new(1);

    let (mut engine, land) = play_land_face(undercity_sewers(), 0)
        .expect("a land in hand, on an empty board, in a first main phase");
    let (control_engine, forest) =
        play_land_face(forest(), 0).expect("and the same for a basic Forest");
    assert!(
        entered_tapped(&engine, land),
        "\"This land enters tapped.\""
    );
    assert!(
        !entered_tapped(&control_engine, forest),
        "the harness' own land drop taps nothing by itself"
    );

    assert!(reach_their_main_phase(&mut engine, p1));
    assert!(
        walk_to_own_main(&mut engine, p0),
        "p0 takes another turn and reaches its own main phase"
    );
    assert!(
        !is_tapped(&engine, land),
        "the untap step gives the Sewers back, so the sentence above was the \
         entry and not a permanent that never untaps"
    );

    activate(&mut engine, p0, undercity_sewers(), 0).unwrap();
    let Pending::ChooseColor { player, options } = engine.pending().clone() else {
        panic!(
            "\"Add {{U}} or {{B}}\" is a question, got {:?}",
            engine.pending()
        )
    };
    assert_eq!(player, p0, "the seat that tapped names the colour");
    assert_eq!(
        options.len(),
        2,
        "the two colours it prints and no third: {options:?}"
    );
    assert!(options.contains(&ManaColor::Blue), "{options:?}");
    assert!(options.contains(&ManaColor::Black), "{options:?}");

    engine
        .apply(p0, PlayerAction::ChooseColor(ManaColor::Black))
        .expect("black was one of the two it offered");
    let pool = &engine.state().players[0].mana_pool;
    assert_eq!(
        pool.available(ManaColor::Black),
        1,
        "the colour that was named, and not a default"
    );
    assert_eq!(
        pool.available(ManaColor::Blue),
        0,
        "the other half of the choice was not paid"
    );
    assert_eq!(pool.total(), 1, "one mana off one tap");
    assert!(is_tapped(&engine, land), "the land paid its own {{T}}");
    assert!(
        stack_is_empty(&engine),
        "CR 605.3b: a mana ability uses no stack, so nothing is waiting to \
         resolve"
    );
}

/// The Eldraine trio: "This land enters tapped unless you control three or more
/// other \[basics of its own type\]. When this land enters untapped, …".
#[test]
fn an_eldraine_land_wants_three_others_of_its_own_type() {
    let p0 = PlayerId::new(0);
    let mut engine = Duel::new(214, forest())
        .battlefield(0, &[mountain(), mountain()])
        .hand(0, &[dwarven_mine(), idyllic_grange()])
        .start();
    keep_mulligans(&mut engine).unwrap();
    assert!(reach_main_phase(&mut engine, p0));

    let mine = play_land(&mut engine, p0, dwarven_mine()).unwrap();
    assert!(pass_until(&mut engine, stack_is_empty));
    assert!(
        entered_tapped(&engine, mine),
        "two Mountains are not three other Mountains"
    );
    assert!(
        tokens_of(&engine, p0).is_empty(),
        "a land that entered tapped makes no Dwarf"
    );
}

/// The other side of the same sentence, one Mountain further along.
#[test]
fn an_eldraine_land_that_enters_untapped_makes_its_token() {
    let p0 = PlayerId::new(0);
    let mut engine = Duel::new(215, forest())
        .battlefield(0, &[mountain(), mountain(), mountain()])
        .hand(0, &[dwarven_mine()])
        .start();
    keep_mulligans(&mut engine).unwrap();
    assert!(reach_main_phase(&mut engine, p0));

    let mine = play_land(&mut engine, p0, dwarven_mine()).unwrap();
    assert!(pass_until(&mut engine, stack_is_empty));
    assert!(
        !entered_tapped(&engine, mine),
        "three Mountains are three other Mountains"
    );
    assert_eq!(
        tokens_of(&engine, p0).len(),
        1,
        "the Mine makes one Dwarf on the way in"
    );
}

/// Gingerbread Cabin is the same rule over Forests, and it is here because the
/// three cards read the *subtype* out of their own filter: a rule that wrote
/// the wrong one would still pass every assertion above.
#[test]
fn a_gingerbread_cabin_counts_forests_and_not_lands() {
    let p0 = PlayerId::new(0);
    let mut engine = Duel::new(216, forest())
        .battlefield(0, &[forest(), forest(), island()])
        .hand(0, &[gingerbread_cabin()])
        .start();
    keep_mulligans(&mut engine).unwrap();
    assert!(reach_main_phase(&mut engine, p0));

    let cabin = play_land(&mut engine, p0, gingerbread_cabin()).unwrap();
    assert!(pass_until(&mut engine, stack_is_empty));
    assert!(
        entered_tapped(&engine, cabin),
        "two Forests and an Island are not three other Forests"
    );
    assert!(tokens_of(&engine, p0).is_empty(), "no Food either");
}

/// The five Turbulent lands: "This land enters tapped unless your **opponents**
/// control eight or more lands."
#[test]
fn a_turbulent_land_counts_the_lands_across_the_table() {
    const TURBULENT: &[(&str, &str, [ManaColor; 2])] = &[
        (
            "114dd40d-5ad8-4913-a08f-572b9521eb5b",
            "Turbulent Fen",
            [ManaColor::Black, ManaColor::Green],
        ),
        (
            "2eb4da30-2600-4a7f-8e6c-6a090faa9a8d",
            "Turbulent Moor",
            [ManaColor::White, ManaColor::Black],
        ),
        (
            "9aef7510-9f06-4939-8cae-f71330d1105e",
            "Turbulent Springs",
            [ManaColor::Blue, ManaColor::Red],
        ),
        (
            "db444f9d-4dde-4308-b0f2-7acfe6de871a",
            "Turbulent Steppe",
            [ManaColor::Red, ManaColor::White],
        ),
        (
            "bd8adca6-4f16-45f8-994a-fe55bd573bd0",
            "Turbulent Wilderness",
            [ManaColor::Green, ManaColor::Blue],
        ),
    ];
    let p0 = PlayerId::new(0);
    for (seed, (oracle, name, colors)) in TURBULENT.iter().enumerate() {
        let seed = u64::try_from(seed).expect("five rows");
        let land = card_index(oracle);
        let seven = [forest(); 7];
        let mut engine = Duel::new(300 + seed, forest())
            .battlefield(0, &seven)
            .battlefield(1, &seven)
            .hand(0, &[land])
            .start();
        keep_mulligans(&mut engine).unwrap();
        assert!(reach_main_phase(&mut engine, p0));
        let played = play_land(&mut engine, p0, land).unwrap();
        assert!(pass_until(&mut engine, stack_is_empty));
        assert!(
            entered_tapped(&engine, played),
            "{name}: seven opponent lands are not eight"
        );

        let eight = [forest(); 8];
        let mut engine = Duel::new(400 + seed, forest())
            .battlefield(0, &[])
            .battlefield(1, &eight)
            .hand(0, &[land])
            .start();
        keep_mulligans(&mut engine).unwrap();
        assert!(reach_main_phase(&mut engine, p0));
        let played = play_land(&mut engine, p0, land).unwrap();
        assert!(pass_until(&mut engine, stack_is_empty));
        assert!(
            !entered_tapped(&engine, played),
            "{name}: eight opponent lands, and none of your own needed"
        );

        for (i, colour) in colors.iter().enumerate() {
            let mut engine = Duel::new(
                500 + seed * 2 + u64::try_from(i).expect("two colours"),
                forest(),
            )
            .battlefield(1, &eight)
            .hand(0, &[land])
            .start();
            keep_mulligans(&mut engine).unwrap();
            assert!(reach_main_phase(&mut engine, p0));
            let played = play_land(&mut engine, p0, land).unwrap();
            assert!(pass_until(&mut engine, stack_is_empty));
            engine
                .apply(
                    p0,
                    PlayerAction::ActivateAbility {
                        source: played,
                        ability_index: 0,
                    },
                )
                .unwrap_or_else(|err| panic!("{name}: refused its own mana ability: {err:?}"));
            let Pending::ChooseColor { options, .. } = engine.pending().clone() else {
                panic!("{name}: made mana without asking which colour");
            };
            assert_eq!(
                options.as_slice(),
                colors.as_slice(),
                "{name}: offered the wrong colours"
            );
            engine
                .apply(p0, PlayerAction::ChooseColor(*colour))
                .unwrap_or_else(|err| panic!("{name}: refused {colour:?}: {err:?}"));
            let pool = &engine.state().players[0].mana_pool;
            assert_eq!(pool.total(), 1, "{name}: one tap, one mana");
            assert_eq!(
                pool.available(*colour),
                1,
                "{name}: and it is the colour that was chosen"
            );
        }
    }
}

/// "This land enters tapped. As it enters, choose a color. {T}: Add one mana of
/// the chosen color."
#[test]
fn a_land_that_chooses_any_colour_taps_for_the_one_its_controller_named() {
    let p0 = PlayerId::new(0);
    for (seed, (oracle, name, colour)) in ANY_COLOUR_LANDS.iter().enumerate() {
        let land = card_index(oracle);
        let seed = 700 + u64::try_from(seed).expect("five rows");
        let mut engine = Duel::new(seed, forest()).hand(0, &[land]).start();
        keep_mulligans(&mut engine).unwrap();
        assert!(reach_main_phase(&mut engine, p0));
        let played = play_land(&mut engine, p0, land).unwrap();

        let Pending::ChooseColor { options, .. } = engine.pending().clone() else {
            panic!(
                "{name}: no colour was asked for, pending is {:?}",
                engine.pending()
            );
        };
        assert_eq!(
            options,
            ALL_MANA_COLORS.to_vec(),
            "{name}: every colour and nothing else"
        );
        engine
            .apply(p0, PlayerAction::ChooseColor(*colour))
            .expect("its own colour list");

        assert!(pass_until(&mut engine, stack_is_empty));
        assert!(
            entered_tapped(&engine, played),
            "{name}: it enters tapped as well"
        );

        let from = engine.state().turn.number;
        assert!(pass_until(&mut engine, |e| {
            e.state().turn.number > from
                && e.state().turn.active == p0
                && matches!(e.state().turn.phase, Phase::FirstMain)
        }));
        assert!(
            !is_tapped(&engine, played),
            "{name}: a turn cycle untapped it"
        );
        engine
            .apply(
                p0,
                PlayerAction::ActivateAbility {
                    source: played,
                    ability_index: 0,
                },
            )
            .expect("the land taps for the chosen colour");
        let pool = &engine.state().players[0].mana_pool;
        assert_eq!(pool.total(), 1, "{name}: one tap, one mana");
        assert_eq!(
            pool.available(*colour),
            1,
            "{name}: and it is the colour named"
        );
    }
}

/// "As it enters, choose a color other than white. {T}: Add {W} or one mana of
/// the chosen color."
#[test]
fn a_land_that_excludes_its_own_colour_still_taps_for_it() {
    let p0 = PlayerId::new(0);
    for (seed, (oracle, name, printed, named)) in EXCLUDING_LANDS.iter().enumerate() {
        let land = card_index(oracle);
        let seed = 720 + u64::try_from(seed).expect("ten rows");
        let mut engine = Duel::new(seed, forest()).hand(0, &[land]).start();
        keep_mulligans(&mut engine).unwrap();
        assert!(reach_main_phase(&mut engine, p0));
        let played = play_land(&mut engine, p0, land).unwrap();

        let Pending::ChooseColor { options, .. } = engine.pending().clone() else {
            panic!(
                "{name}: no colour was asked for, pending is {:?}",
                engine.pending()
            );
        };
        let offered: Vec<ManaColor> = ALL_MANA_COLORS
            .iter()
            .copied()
            .filter(|c| c != printed)
            .collect();
        assert_eq!(
            options, offered,
            "{name}: its printed colour is the one it may not be told to make"
        );
        engine
            .apply(p0, PlayerAction::ChooseColor(*named))
            .expect("a colour off its own list");
        assert!(pass_until(&mut engine, stack_is_empty));
        assert!(
            entered_tapped(&engine, played),
            "{name}: it enters tapped as well"
        );

        let from = engine.state().turn.number;
        assert!(pass_until(&mut engine, |e| {
            e.state().turn.number > from
                && e.state().turn.active == p0
                && matches!(e.state().turn.phase, Phase::FirstMain)
        }));
        engine
            .apply(
                p0,
                PlayerAction::ActivateAbility {
                    source: played,
                    ability_index: 0,
                },
            )
            .expect("the land taps");
        let Pending::ChooseColor { options, .. } = engine.pending().clone() else {
            panic!("{name}: a two-option mana ability asked nothing");
        };
        assert_eq!(
            options,
            vec![*printed, *named],
            "{name}: its printed colour and the one that was named, and no others"
        );
        engine
            .apply(p0, PlayerAction::ChooseColor(*printed))
            .expect("the colour the card prints");
        let pool = &engine.state().players[0].mana_pool;
        assert_eq!(pool.total(), 1, "{name}: one tap, one mana");
        assert_eq!(
            pool.available(*printed),
            1,
            "{name}: the printed colour, which the choice had excluded"
        );
    }
}

/// A Reflecting Pool beside an Uncharted Haven sees the colour the Haven was
/// told to make.
#[test]
fn a_reflecting_pool_sees_the_colour_a_neighbour_was_told_to_make() {
    let p0 = PlayerId::new(0);
    let mut engine = Duel::new(731, forest())
        .battlefield(0, &[reflecting_pool()])
        .hand(0, &[uncharted_haven()])
        .start();
    keep_mulligans(&mut engine).unwrap();
    assert!(reach_main_phase(&mut engine, p0));
    let pool = engine
        .state()
        .zones
        .list(ZoneLocation::Battlefield)
        .iter()
        .copied()
        .find(|id| {
            engine
                .state()
                .object(*id)
                .is_some_and(|o| o.card == reflecting_pool())
        })
        .expect("the Pool was seated");

    play_land(&mut engine, p0, uncharted_haven()).unwrap();
    engine
        .apply(p0, PlayerAction::ChooseColor(ManaColor::Black))
        .expect("black is a colour");
    assert!(pass_until(&mut engine, stack_is_empty));

    engine
        .apply(
            p0,
            PlayerAction::ActivateAbility {
                source: pool,
                ability_index: 0,
            },
        )
        .expect("the Pool taps");
    let mana = &engine.state().players[0].mana_pool;
    assert_eq!(
        mana.available(ManaColor::Black),
        1,
        "the colour its neighbour was told to make"
    );
    assert_eq!(
        mana.total(),
        1,
        "and nothing else: the Haven makes one thing"
    );
}

/// "When this land enters, surveil 1."
#[test]
fn a_land_that_surveils_as_it_enters_looks_at_exactly_one_card() {
    let p0 = PlayerId::new(0);
    for (seed, (oracle, name, bin)) in ENTRY_SURVEIL_LANDS.iter().enumerate() {
        let land = card_index(oracle);
        let seed = 740 + u64::try_from(seed).expect("ten rows");
        let mut engine = Duel::new(seed, forest()).hand(0, &[land]).start();
        keep_mulligans(&mut engine).unwrap();
        assert!(reach_main_phase(&mut engine, p0));

        let library_before = library_size(&engine, p0);
        let top_before = engine
            .state()
            .zones
            .list(ZoneLocation::Library(p0))
            .last()
            .copied()
            .expect("p0 has a library");
        play_land(&mut engine, p0, land).unwrap();

        let (options, min, max) = surveil_offer(&mut engine, p0).unwrap();
        assert_eq!(
            options,
            vec![top_before],
            "{name}: surveil 1 looks at exactly the top card"
        );
        assert_eq!((min, max), (0, 1), "{name}: any number of the one it saw");

        let answer = if *bin { vec![top_before] } else { Vec::new() };
        engine
            .apply(p0, PlayerAction::ChooseObjects { objects: answer })
            .expect("both answers are legal");
        if *bin {
            assert_eq!(
                library_size(&engine, p0),
                library_before - 1,
                "{name}: the card it binned left the library"
            );
            assert_eq!(
                in_graveyard(&engine, p0, forest()),
                Some(top_before),
                "{name}: and reached the graveyard, which is the whole \
                 difference from a scry"
            );
        } else {
            assert_eq!(
                library_size(&engine, p0),
                library_before,
                "{name}: keeping it moved nothing"
            );
            assert_eq!(
                engine
                    .state()
                    .zones
                    .list(ZoneLocation::Library(p0))
                    .last()
                    .copied(),
                Some(top_before),
                "{name}: and left it where it was, on top"
            );
        }
    }
}

/// "{2}{R}{W}, {T}: Surveil 1." — the same effect reached through an activated
/// ability, which is a different path: it goes on the stack, its `{T}` is part
/// of the cost rather than the land's own mana tap, and the question only
/// arrives once it resolves.
#[test]
fn a_land_that_surveils_for_a_cost_looks_at_the_number_it_prints() {
    let p0 = PlayerId::new(0);
    for (seed, (oracle, name, amount, pays)) in COST_SURVEIL_LANDS.iter().enumerate() {
        let land = card_index(oracle);
        let seed = 760 + u64::try_from(seed).expect("twelve rows");
        let mut field = vec![land];
        field.extend(pays.iter().copied().map(|c| basic_of(c).unwrap()));
        let mut engine = Duel::new(seed, forest()).battlefield(0, &field).start();
        keep_mulligans(&mut engine).unwrap();
        assert!(reach_main_phase(&mut engine, p0));

        let object = on_battlefield(&engine, p0, land).expect("the land was seated");
        let library_before = library_size(&engine, p0);
        let graves_before = engine.state().zones.list(ZoneLocation::Graveyard(p0)).len();
        tap_mana_except(&mut engine, p0, object);
        activate(&mut engine, p0, land, 1).unwrap();

        let (options, _, max) = surveil_offer(&mut engine, p0).unwrap();
        assert_eq!(
            options.len(),
            *amount as usize,
            "{name}: surveil {amount} looks at {amount} card(s)"
        );
        assert_eq!(max, *amount, "{name}: and may bin all of them");
        assert!(
            is_tapped(&engine, object),
            "{name}: the {{T}} in the cost was paid by this land"
        );
        assert_eq!(
            engine.state().players[0].mana_pool.total(),
            0,
            "{name}: the cost spent every mana the board could make, so it is \
             the cost the card prints and not a cheaper one"
        );

        engine
            .apply(
                p0,
                PlayerAction::ChooseObjects {
                    objects: options.clone(),
                },
            )
            .expect("binning everything it looked at");
        assert_eq!(
            library_size(&engine, p0),
            library_before - *amount as usize,
            "{name}: the cards it binned left the library"
        );
        assert_eq!(
            engine.state().zones.list(ZoneLocation::Graveyard(p0)).len(),
            graves_before + *amount as usize,
            "{name}: and arrived in the graveyard, all of them"
        );
    }
}

/// Every one of the ten, played and paid for.
#[test]
fn a_land_that_costs_a_bounce_keeps_itself_when_the_bounce_is_paid() {
    for (i, (oracle, pays)) in PAYS_BY_RETURNING_A_LAND.iter().enumerate() {
        let card = card_index(oracle);
        let payment = basic(pays).unwrap();
        let p0 = PlayerId::new(0);
        let seed = 900 + u64::try_from(i).expect("ten rows");
        let mut engine = Duel::new(seed, forest())
            .battlefield(0, &[payment])
            .hand(0, &[card])
            .start();
        keep_mulligans(&mut engine).unwrap();
        assert!(reach_main_phase(&mut engine, p0));

        let land = play_land(&mut engine, p0, card).unwrap();
        let (options, prompt) =
            reach_the_unless_question(&mut engine, land).expect("the walk reaches the trigger").expect("the land asks what pays");
        assert_eq!(
            prompt,
            ChoicePrompt::CostReturn,
            "the price is a bounce, and the client draws the question from the prompt"
        );
        assert_eq!(
            options.len(),
            1,
            "the one land that matches the filter is the whole menu"
        );

        engine
            .apply(
                p0,
                PlayerAction::ChooseObjects {
                    objects: options.clone(),
                },
            )
            .unwrap();

        assert!(
            engine
                .state()
                .zones
                .list(ZoneLocation::Battlefield)
                .contains(&land),
            "the land was paid for and stays"
        );
        assert!(
            engine
                .state()
                .zones
                .list(ZoneLocation::Hand(p0))
                .contains(&options[0]),
            "what paid goes to its owner's hand (CR 400.3)"
        );
    }
}

/// The same question, declined: naming nothing is how a player says no, and
/// what follows is the sacrifice the card prints.
#[test]
fn a_land_that_costs_a_bounce_sacrifices_itself_when_the_player_declines() {
    let p0 = PlayerId::new(0);
    let karoo = card_index("d4e875d9-2245-470d-aa2f-1dfe66ce2d15");
    let mut engine = Duel::new(921, forest())
        .battlefield(0, &[plains()])
        .hand(0, &[karoo])
        .start();
    keep_mulligans(&mut engine).unwrap();
    assert!(reach_main_phase(&mut engine, p0));

    let land = play_land(&mut engine, p0, karoo).unwrap();
    let (options, _) =
        reach_the_unless_question(&mut engine, land).expect("the walk reaches the trigger").expect("the land asks what pays");
    let plain = options[0];

    engine
        .apply(p0, PlayerAction::ChooseObjects { objects: vec![] })
        .unwrap();

    assert!(
        !engine
            .state()
            .zones
            .list(ZoneLocation::Battlefield)
            .contains(&land),
        "declining sacrifices the land"
    );
    assert!(
        engine
            .state()
            .zones
            .list(ZoneLocation::Battlefield)
            .contains(&plain),
        "and the Plains that was offered stays where it was"
    );
}

/// Nobody can pay, so nobody is asked.
#[test]
fn a_land_that_costs_a_bounce_nobody_can_pay_asks_nothing() {
    let p0 = PlayerId::new(0);
    let karoo = card_index("d4e875d9-2245-470d-aa2f-1dfe66ce2d15");
    let mut engine = Duel::new(922, forest())
        .battlefield(0, &[plains()])
        .hand(0, &[karoo])
        .start();
    keep_mulligans(&mut engine).unwrap();
    assert!(reach_main_phase(&mut engine, p0));
    let plain = *engine
        .state()
        .zones
        .list(ZoneLocation::Battlefield)
        .iter()
        .find(|id| {
            engine
                .state()
                .object(**id)
                .is_some_and(|o| o.card == plains())
        })
        .expect("the Plains is on the battlefield");
    engine
        .apply(p0, PlayerAction::ActivateManaAbility { source: plain })
        .unwrap();

    let land = play_land(&mut engine, p0, karoo).unwrap();
    assert!(
        reach_the_unless_question(&mut engine, land).expect("the walk reaches the trigger").is_none(),
        "an untapped Plains is what the card asks for, and there is none"
    );
    assert!(
        !engine
            .state()
            .zones
            .list(ZoneLocation::Battlefield)
            .contains(&land),
        "so the land sacrifices itself"
    );
}

/// All ten unlucky lands, and the three life totals their sentence reads.
#[test]
fn an_unlucky_land_reads_every_life_total_including_its_own() {
    for (i, (oracle, name)) in UNTAPPED_WHEN_SOMEONE_IS_LOW.iter().enumerate() {
        let card = card_index(oracle);
        let seed = 1000 + u64::try_from(i).expect("ten rows");
        assert!(
            arrives_tapped(|| Duel::new(seed, forest()), card),
            "{name} entered untapped with both seats at twenty"
        );
        assert!(
            !arrives_tapped(|| Duel::new(seed, forest()).life(1, 13), card),
            "{name} entered tapped with an opponent at exactly thirteen"
        );
        assert!(
            !arrives_tapped(|| Duel::new(seed, forest()).life(0, 12), card),
            "{name} ignored its own controller's life total"
        );
    }

    let gorge = card_index("8f69bd3a-244e-42d8-bfac-5a426f4b54b4");
    assert!(
        arrives_tapped(|| Duel::new(1020, forest()).life(1, 14), gorge),
        "fourteen is not thirteen or less"
    );
}

/// Every one of the eleven, played and answered.
#[test]
fn a_bounce_land_returns_a_land_its_controller_chooses() {
    for (i, (oracle, name)) in RETURNS_A_LAND_YOU_CONTROL.iter().enumerate() {
        let card = card_index(oracle);
        let p0 = PlayerId::new(0);
        let seed = 960 + u64::try_from(i).expect("eleven rows");
        let mut engine = Duel::new(seed, forest())
            .battlefield(0, &[forest()])
            .hand(0, &[card])
            .start();
        keep_mulligans(&mut engine).unwrap();
        assert!(reach_main_phase(&mut engine, p0));

        let land = play_land(&mut engine, p0, card).unwrap();
        let (options, prompt) = reach_the_unless_question(&mut engine, land)
            .expect("the walk reaches the trigger")
            .expect("{name} asks which land comes back");
        assert_eq!(
            prompt,
            ChoicePrompt::Generic,
            "{name} is not paying for anything, so the question is not a cost"
        );
        assert_eq!(
            options.len(),
            2,
            "{name} and the Forest are both lands p0 controls"
        );
        let forest_on_board = *options
            .iter()
            .find(|id| **id != land)
            .expect("the Forest is the other option");

        engine
            .apply(
                p0,
                PlayerAction::ChooseObjects {
                    objects: vec![forest_on_board],
                },
            )
            .unwrap();

        assert!(
            engine
                .state()
                .zones
                .list(ZoneLocation::Hand(p0))
                .contains(&forest_on_board),
            "{name} put the chosen land in its owner's hand (CR 400.3)"
        );
        assert!(
            engine
                .state()
                .zones
                .list(ZoneLocation::Battlefield)
                .contains(&land),
            "{name} stays: it returns a land, it does not sacrifice itself"
        );
    }
}

/// The bounce land alone on the battlefield returns **itself**.
#[test]
fn a_bounce_land_alone_on_the_battlefield_returns_itself() {
    let p0 = PlayerId::new(0);
    let chancery = card_index("189fc8f4-17ac-4f1d-82c8-8401445bdaf4");
    let mut engine = Duel::new(971, forest()).hand(0, &[chancery]).start();
    keep_mulligans(&mut engine).unwrap();
    assert!(reach_main_phase(&mut engine, p0));

    let land = play_land(&mut engine, p0, chancery).unwrap();
    let (options, _) =
        reach_the_unless_question(&mut engine, land).expect("the walk reaches the trigger").expect("the land asks even with one answer");
    assert_eq!(options, vec![land], "the source is the whole menu");

    engine
        .apply(
            p0,
            PlayerAction::ChooseObjects {
                objects: vec![land],
            },
        )
        .unwrap();

    assert!(
        engine
            .state()
            .zones
            .list(ZoneLocation::Hand(p0))
            .contains(&land),
        "it returned itself to its owner's hand"
    );
    assert!(
        !engine
            .state()
            .zones
            .list(ZoneLocation::Battlefield)
            .contains(&land),
        "and is no longer on the battlefield"
    );
}

#[test]
fn a_land_that_costs_mana_is_kept_by_making_it_inside_the_window() {
    for (i, oracle) in PAYS_WITH_MANA.iter().enumerate() {
        let card = card_index(oracle);
        let p0 = PlayerId::new(0);
        let seed = 940 + u64::try_from(i).expect("four rows");
        let mut engine = Duel::new(seed, forest())
            .battlefield(0, &[forest()])
            .hand(0, &[card])
            .start();
        keep_mulligans(&mut engine).unwrap();
        assert!(reach_main_phase(&mut engine, p0));

        let land = play_land(&mut engine, p0, card).unwrap();
        for _ in 0..8 {
            match engine.pending().clone() {
                Pending::YesNo { .. } => break,
                Pending::Priority { player, .. } => {
                    engine.apply(player, PlayerAction::PassPriority).unwrap();
                }
                other => panic!("unexpected while waiting for the tax: {other:?}"),
            }
        }
        let Pending::YesNo { player, .. } = engine.pending().clone() else {
            panic!("expected the tax question, got {:?}", engine.pending())
        };
        assert_eq!(player, p0);
        assert_eq!(
            engine.state().players[0].mana_pool.total(),
            0,
            "the question is put with an empty pool — CR 605.3a is what makes that answerable"
        );

        engine.apply(p0, PlayerAction::YesNo(true)).unwrap();
        let forest_id = *engine
            .state()
            .zones
            .list(ZoneLocation::Battlefield)
            .iter()
            .find(|id| {
                engine
                    .state()
                    .object(**id)
                    .is_some_and(|o| o.card == forest())
            })
            .expect("the Forest is on the battlefield");
        engine
            .apply(p0, PlayerAction::ActivateManaAbility { source: forest_id })
            .unwrap();
        engine.apply(p0, PlayerAction::PassPriority).unwrap();

        assert!(
            engine
                .state()
                .zones
                .list(ZoneLocation::Battlefield)
                .contains(&land),
            "the tax was paid out of mana made inside the window"
        );
    }
}

/// Every row: the land is played, the price is named, and what was named has
/// paid.
#[test]
fn a_land_whose_cost_names_an_object_is_paid_with_that_object() {
    for (i, (oracle, feed)) in PAYS_BY_NAMING_AN_OBJECT.iter().enumerate() {
        let card = card_index(oracle);
        let p0 = PlayerId::new(0);
        let seed = 960 + u64::try_from(i).expect("eleven rows");
        let mut board = vec![
            plains(),
            plains(),
            island(),
            island(),
            swamp(),
            swamp(),
            mountain(),
            mountain(),
            forest(),
            forest(),
        ];
        let mut hand = vec![card];
        match feed {
            Feed::Strix => board.push(baleful_strix()),
            Feed::Plaza => board.push(gateway_plaza()),
            Feed::HandCard => hand.push(plains()),
            Feed::Itself => {}
        }
        let mut engine = Duel::new(seed, forest())
            .battlefield(0, &board)
            .hand(0, &hand)
            .start();
        keep_mulligans(&mut engine).unwrap();
        assert!(reach_main_phase(&mut engine, p0));

        let land = play_land(&mut engine, p0, card).unwrap();
        assert!(cross_into_the_next_own_main(&mut engine, p0));
        tap_all_mana_but(&mut engine, p0, Some(card));

        let (source, index) = ability_that_asks(&engine, card)
            .unwrap_or_else(|| panic!("{oracle} offers no ability that asks for an object"));
        assert_eq!(source, land, "the ability is on the land just played");
        engine
            .apply(
                p0,
                PlayerAction::ActivateAbility {
                    source,
                    ability_index: index,
                },
            )
            .unwrap();

        if let Pending::ChooseTargets {
            options,
            player_options,
            ..
        } = engine.pending().clone()
        {
            let (objects, players) = match (options.first(), player_options.first()) {
                (Some(&object), _) => (vec![object], vec![]),
                (None, Some(&player)) => (vec![], vec![player]),
                (None, None) => panic!("{oracle} asked for a target and offered none"),
            };
            engine
                .apply(p0, PlayerAction::ChooseTargets { objects, players })
                .unwrap();
        }
        let Pending::ChooseCards {
            player,
            options,
            min,
            max,
            ..
        } = engine.pending().clone()
        else {
            panic!(
                "{oracle} asked no cost question, got {:?}",
                engine.pending()
            )
        };
        assert_eq!(player, p0);
        assert_eq!(
            (min, max),
            (1, 1),
            "an activation cost is not optional — one object, and exactly one"
        );
        if matches!(feed, Feed::Strix | Feed::Itself) {
            assert!(no_basic_land_on_the_menu(&engine, &options));
        }
        let paid = *options.first().unwrap_or_else(|| {
            panic!("{oracle} put an empty menu up, which is a dead end for a client")
        });
        engine
            .apply(
                p0,
                PlayerAction::ChooseObjects {
                    objects: vec![paid],
                },
            )
            .unwrap();

        assert!(the_object_paid(&engine, card, index, paid, p0));
    }
}

/// Command Bridge: "sacrifice it unless you **tap** an untapped permanent you
/// control."
#[test]
fn a_land_that_costs_a_tap_keeps_itself_when_something_untapped_is_named() {
    let p0 = PlayerId::new(0);
    let bridge = card_index("87c8e1ed-258a-4a89-bcc6-211405e49692");
    let mut engine = Duel::new(930, forest())
        .battlefield(0, &[forest(), island()])
        .hand(0, &[bridge])
        .start();
    keep_mulligans(&mut engine).unwrap();
    assert!(reach_main_phase(&mut engine, p0));
    let island_id = *engine
        .state()
        .zones
        .list(ZoneLocation::Battlefield)
        .iter()
        .find(|id| {
            engine
                .state()
                .object(**id)
                .is_some_and(|o| o.card == island())
        })
        .expect("the Island is on the battlefield");
    engine
        .apply(p0, PlayerAction::ActivateManaAbility { source: island_id })
        .unwrap();

    let land = play_land(&mut engine, p0, bridge).unwrap();
    let (options, prompt) = reach_the_unless_question(&mut engine, land).expect("the walk reaches the trigger").expect("it asks");
    assert_eq!(prompt, ChoicePrompt::CostTap);
    assert!(
        !options.contains(&island_id),
        "a tapped permanent cannot be tapped to pay (CR 118.3)"
    );
    let paid = options[0];
    engine
        .apply(
            p0,
            PlayerAction::ChooseObjects {
                objects: vec![paid],
            },
        )
        .unwrap();

    assert!(
        engine
            .state()
            .zones
            .list(ZoneLocation::Battlefield)
            .contains(&land),
        "the land was paid for and stays"
    );
    assert!(
        engine
            .state()
            .object(paid)
            .is_some_and(|o| o.tapped),
        "and what paid is tapped"
    );
}

/// Every row: the land is played, sacrificed for its own ability, and what the
/// search found is on the battlefield in the state the card prints.
#[test]
fn a_land_that_searches_puts_what_it_found_onto_the_battlefield() {
    for (i, (oracle, fills, _)) in SEARCHES_THE_LIBRARY.iter().enumerate() {
        let card = card_index(oracle);
        let p0 = PlayerId::new(0);
        let seed = 1020 + u64::try_from(i).expect("eleven rows");
        let (mut engine, _, finds) = a_land_that_searches(seed, card, basic(fills).unwrap()).unwrap();

        let (options, min, max) =
            reach_the_search(&mut engine).expect("the ability resolves").unwrap_or_else(|| panic!("{oracle} asked nothing"));
        let want = u8::try_from(finds.len()).expect("a handful at most");
        assert_eq!(
            (min, max),
            (want, want),
            "{oracle} prints no \"up to\", so the search is for all {want} of them"
        );
        let chosen: Vec<ObjectId> = options.iter().copied().take(finds.len()).collect();
        assert_eq!(
            chosen.len(),
            finds.len(),
            "{oracle} was offered {} cards out of a library of sixty {fills}",
            options.len()
        );
        engine
            .apply(
                p0,
                PlayerAction::ChooseObjects {
                    objects: chosen.clone(),
                },
            )
            .unwrap();

        let battlefield = engine.state().zones.list(ZoneLocation::Battlefield).clone();
        for (found, find) in chosen.iter().zip(finds) {
            assert_eq!(
                find.dest,
                SearchDest::Battlefield,
                "{oracle} is one of the eleven that fetch onto the battlefield"
            );
            assert!(
                battlefield.contains(found),
                "{oracle} named a card and it never arrived"
            );
            assert_eq!(
                engine
                    .state()
                    .object(*found)
                    .map(|o| o.card),
                Some(basic(fills).unwrap()),
                "{oracle} put something other than the {fills} it was handed onto the battlefield"
            );
            assert_eq!(
                entered_tapped(&engine, *found),
                find.tapped,
                "{oracle} prints tapped = {}, and the card arrived the other way",
                find.tapped
            );
        }
    }
}

/// The five Panoramas, over a library of the one basic each of them refuses.
#[test]
fn a_land_that_searches_finds_nothing_outside_its_own_filter() {
    let mut checked = 0;
    for (i, (oracle, _, refuses)) in SEARCHES_THE_LIBRARY.iter().enumerate() {
        if refuses.is_empty() {
            continue;
        }
        checked += 1;
        let card = card_index(oracle);
        let seed = 1040 + u64::try_from(i).expect("eleven rows");
        let (mut engine, _, _) = a_land_that_searches(seed, card, basic(refuses).unwrap()).unwrap();
        assert!(
            reach_the_search(&mut engine).expect("the ability resolves").is_none(),
            "{oracle} offered a search over a library of sixty {refuses}, which it does not name"
        );
    }
    assert_eq!(
        checked, 5,
        "the Panorama cycle is five cards, and this test speaks for all of them"
    );
}

/// "Enters tapped unless you control two or fewer **other** lands."
#[test]
fn a_fast_land_is_untapped_while_your_own_board_is_small() {
    for (i, (oracle, name)) in UNTAPPED_ON_A_SMALL_BOARD.iter().enumerate() {
        let card = card_index(oracle);
        let seed = 1040 + u64::try_from(i).expect("ten rows");
        assert!(
            !arrives_tapped(
                || Duel::new(seed, forest()).battlefield(0, &[forest(), forest()]),
                card
            ),
            "{name} entered tapped over two other lands, and two or fewer is its own sentence"
        );
        assert!(
            arrives_tapped(
                || Duel::new(seed, forest()).battlefield(0, &[forest(), forest(), forest()]),
                card
            ),
            "{name} entered untapped over three other lands"
        );
        assert!(
            !arrives_tapped(
                || Duel::new(seed, forest()).battlefield(1, &[forest(), forest(), forest()]),
                card
            ),
            "{name} counted the lands across the table, and its sentence says \"you control\""
        );
    }
}

/// The seed of the duels that need no seed of their own.
const SEED: u64 = 7;

/// The five colours, in the order a colour choice offers them.
const ALL_MANA_COLORS: [ManaColor; 5] = [ManaColor::White, ManaColor::Blue, ManaColor::Black, ManaColor::Red, ManaColor::Green];

const ANY_COLOUR_LANDS: [(&str, &str, ManaColor); 5] = [
    (
        "d23c3613-bc5e-4fc5-939c-62a090c53a79",
        "Uncharted Haven",
        ManaColor::White,
    ),
    (
        "e103f422-85c0-43f8-8a2f-8b7863e503fa",
        "Mirage Mesa",
        ManaColor::Blue,
    ),
    (
        "660d44a2-391a-416c-b46c-ddcc3739f527",
        "Valgavoth's Lair",
        ManaColor::Black,
    ),
    (
        "2ac34f3e-822d-4fde-99ca-a31c4d9503fd",
        "Shimmerdrift Vale",
        ManaColor::Red,
    ),
    (
        "b26cfeb0-7bbe-4d93-8eed-e832f175a80c",
        "Crossroads Village",
        ManaColor::Green,
    ),
];

const EXCLUDING_LANDS: [(&str, &str, ManaColor, ManaColor); 10] = [
    (
        "15f1fe23-5af4-4fc4-8cde-2e0bf9f9be0c",
        "Citadel Gate",
        ManaColor::White,
        ManaColor::Blue,
    ),
    (
        "b574c540-9f8a-4fd4-8809-d02c9b099ddc",
        "Sea Gate",
        ManaColor::Blue,
        ManaColor::Black,
    ),
    (
        "dde6bce5-8bbe-4866-b5aa-2c05c7d37241",
        "Black Dragon Gate",
        ManaColor::Black,
        ManaColor::Red,
    ),
    (
        "1999b5ac-21fb-4d99-ad72-58bf507f9a59",
        "Cliffgate",
        ManaColor::Red,
        ManaColor::Green,
    ),
    (
        "dd6e67c0-66a1-49b7-8a86-3cf4b209fd07",
        "Manor Gate",
        ManaColor::Green,
        ManaColor::White,
    ),
    (
        "d1946630-e224-40db-8f0d-388b09622288",
        "Thriving Heath",
        ManaColor::White,
        ManaColor::Black,
    ),
    (
        "69fc70b8-b143-4662-ac95-e2743037239d",
        "Thriving Isle",
        ManaColor::Blue,
        ManaColor::Red,
    ),
    (
        "bff416bb-d193-4c45-b2c1-7c297dbfad08",
        "Thriving Moor",
        ManaColor::Black,
        ManaColor::Green,
    ),
    (
        "91fceb34-0f2d-4392-be27-00dcd765637f",
        "Thriving Bluff",
        ManaColor::Red,
        ManaColor::White,
    ),
    (
        "a8052556-8962-4130-86a8-6fb7b6a324f7",
        "Thriving Grove",
        ManaColor::Green,
        ManaColor::Blue,
    ),
];

const ENTRY_SURVEIL_LANDS: [(&str, &str, bool); 10] = [
    (
        "b33656ae-3473-4223-845f-f9147f87678b",
        "Commercial District",
        true,
    ),
    (
        "9ea747cf-5d04-4aa7-bdc3-8145860cd1ba",
        "Elegant Parlor",
        false,
    ),
    ("ca4b6689-04ee-4227-9bdc-cb5a9590c745", "Hedge Maze", true),
    (
        "d51831b1-7394-456e-a1de-6787a59f5932",
        "Lush Portico",
        false,
    ),
    (
        "ccfb8b4d-651c-418a-aa19-cb23105b3f2f",
        "Meticulous Archive",
        true,
    ),
    (
        "216a2a92-9ca3-4ca3-8af7-686c13b04290",
        "Shadowy Backstreet",
        false,
    ),
    (
        "840119bf-e60f-4ff7-9c9b-d420d09df545",
        "Underground Mortuary",
        true,
    ),
    (
        "37f924e1-7c25-4f06-88bb-054693a21e5a",
        "Conduit Pylons",
        false,
    ),
    (
        "382d18a2-438e-4ae7-a83f-1658ef1f9b07",
        "Hidden Grotto",
        true,
    ),
    (
        "a3648376-dc8b-409b-b2d1-c29e326a059c",
        "Surveillance Room",
        false,
    ),
];

const COST_SURVEIL_LANDS: [(&str, &str, u8, &[ManaColor]); 12] = [
    (
        "a32e08fa-bea4-4ba9-a126-9bf0a91f67e2",
        "Fields of Strife",
        1,
        &[
            ManaColor::Red,
            ManaColor::White,
            ManaColor::Red,
            ManaColor::White,
        ],
    ),
    (
        "349ea6c7-6b3e-417f-b082-b712e2b1635b",
        "Forum of Amity",
        1,
        &[
            ManaColor::White,
            ManaColor::Black,
            ManaColor::White,
            ManaColor::Black,
        ],
    ),
    (
        "4eb428ab-f5b0-46ca-98dd-b3466a91ef97",
        "Kishla Village",
        2,
        &[ManaColor::Green; 4],
    ),
    (
        "676141c3-a433-4aba-86fb-729628f96dfa",
        "Ominous Asylum",
        1,
        &[ManaColor::Green; 4],
    ),
    (
        "638ff242-63d5-457d-a7a6-40ad51052e2e",
        "Paradox Gardens",
        1,
        &[
            ManaColor::Green,
            ManaColor::Blue,
            ManaColor::Green,
            ManaColor::Blue,
        ],
    ),
    (
        "1af15c1d-a41c-44cc-9614-d72694dd26e8",
        "Savage Mansion",
        1,
        &[ManaColor::Green; 4],
    ),
    (
        "80f08b47-a237-4efd-8d86-dfe35a816b0e",
        "Sinister Hideout",
        1,
        &[ManaColor::Green; 4],
    ),
    (
        "33a4e73d-d93a-4b6f-88ff-cd53f20d178c",
        "Spectacle Summit",
        1,
        &[
            ManaColor::Blue,
            ManaColor::Red,
            ManaColor::Blue,
            ManaColor::Red,
        ],
    ),
    (
        "6ef30340-a26d-49aa-bc86-0b8aa5252f87",
        "Suburban Sanctuary",
        1,
        &[ManaColor::Green; 4],
    ),
    (
        "595f0eb5-f521-4174-9c48-b89e85ea907c",
        "Titan's Grave",
        1,
        &[
            ManaColor::Black,
            ManaColor::Green,
            ManaColor::Black,
            ManaColor::Green,
        ],
    ),
    (
        "a91f93fd-e428-4a36-b1b3-604b47a34287",
        "Tocasia's Dig Site",
        1,
        &[ManaColor::Green; 3],
    ),
    (
        "98e547de-b963-4ee4-9a08-67bae010734b",
        "University Campus",
        1,
        &[ManaColor::Green; 4],
    ),
];

const PAYS_BY_RETURNING_A_LAND: &[(&str, &str)] = &[
    // Karoo cycle: "an untapped <basic> you control".
    ("d4e875d9-2245-470d-aa2f-1dfe66ce2d15", "Plains"),
    ("3f347ebf-e0d2-4ae0-ad84-df7a460404e0", "Island"),
    ("38ba1956-5505-4a7a-b6af-e75715b1401f", "Mountain"),
    ("ef3b8b0c-cea7-4bae-934c-9c65fd64245d", "Swamp"),
    ("f922f90a-b1a2-4630-9266-40726ca89f74", "Forest"),
    // Lair cycle: "a land you control" (that is not another Lair).
    ("e9a7dede-3968-4b0e-a707-419d46a6fec9", "Plains"),
    ("19b58ec9-bb88-4193-8ea8-c8f09ceec1ed", "Plains"),
    ("d8b57707-796d-4488-8f91-65bb75bc6281", "Plains"),
    ("e13289e5-370b-435b-a38e-cf57c3078cec", "Plains"),
    ("7b2c7758-2b89-49ff-8838-8dc9880c7209", "Plains"),
];

const UNTAPPED_WHEN_SOMEONE_IS_LOW: &[(&str, &str)] = &[
    (
        "0eec9984-cd11-4a52-9234-469c6a5fb9aa",
        "Abandoned Campground",
    ),
    ("47b6d2ae-d3d7-41eb-9172-2076eb8d028d", "Bleeding Woods"),
    ("6ccca5c2-66c3-495a-8d9e-1a9805569e52", "Etched Cornfield"),
    ("c56cd2ec-5907-4282-9162-d93b7dfd63b5", "Lakeside Shack"),
    ("c2cdefeb-3176-4faf-be54-a62d31f777a5", "Murky Sewer"),
    ("c8c632ab-14ec-44e1-ac00-81d48336320d", "Neglected Manor"),
    (
        "d55f7e20-11c6-44e2-8a21-dca67d3dbc68",
        "Peculiar Lighthouse",
    ),
    ("24a97436-ba61-4ebc-a560-a6c027ccfdf3", "Raucous Carnival"),
    ("8f69bd3a-244e-42d8-bfac-5a426f4b54b4", "Razortrap Gorge"),
    ("3a5b3405-a1e3-4aad-ab4e-1b8db2d1f3a8", "Strangled Cemetery"),
];

const RETURNS_A_LAND_YOU_CONTROL: &[(&str, &str)] = &[
    ("189fc8f4-17ac-4f1d-82c8-8401445bdaf4", "Azorius Chancery"),
    ("8fa3ac81-3dfe-4565-be99-5554f7597b4b", "Boros Garrison"),
    ("378a1d57-e2f1-4b84-9692-1564602e9e99", "Dimir Aqueduct"),
    ("1b301478-b14f-4ef8-94e6-9647d582eabe", "Golgari Rot Farm"),
    ("657243dd-e479-4f4b-99d2-09b55d833a35", "Gruul Turf"),
    ("ee723c7c-ec9f-4ffb-8f36-cd7637eb1fae", "Guildless Commons"),
    ("1cb9d94a-3039-4f2e-8fcc-6996f9a45f74", "Izzet Boilerworks"),
    ("aa00ae0b-7c0f-427e-8102-ce0e2a6af5df", "Orzhov Basilica"),
    ("0a023964-2905-4928-9c3e-dc63e6ebd218", "Rakdos Carnarium"),
    ("00ef1c55-dea1-4564-bd57-66de86cba4df", "Selesnya Sanctuary"),
    (
        "046f5783-cc7b-416a-8cf6-2bcef9c2cc1a",
        "Simic Growth Chamber",
    ),
];

const PAYS_WITH_MANA: &[&str] = &[
    "a6543f71-0326-4e1f-b58f-9ce325d5d036",
    "69c63055-ed44-4b32-b591-f3c6c2f3e7d1",
    "7eadffcb-1e15-44c1-b1db-78c71b8ec1ce",
    "98334bfa-c516-4c20-bdc5-9e32e7127adc",
];

const PAYS_BY_NAMING_AN_OBJECT: &[(&str, Feed)] = &[
    ("86fb3749-37d6-48a6-8524-71e996850307", Feed::Strix),
    ("5effaa94-7f87-4485-8959-473d584c5034", Feed::Strix),
    ("ea4d6fcd-21e0-4e9f-b406-a89042998d98", Feed::Strix),
    ("b6cc062c-eb39-46ee-bd6d-17f1db0ac50d", Feed::Strix),
    ("4adc39dd-8de1-4298-947c-ff666ec3adeb", Feed::Strix),
    ("9abf9a0e-8e7d-406b-a01d-d4870b30134e", Feed::Strix),
    ("d3df7128-31dd-4d71-90be-87e2e9ff51b4", Feed::Plaza),
    ("e10e84a7-d564-487a-ac64-5a001a45ee90", Feed::Plaza),
    ("35922a30-6b84-44dd-a2f0-306554a1ae90", Feed::Plaza),
    ("c17d799f-adc9-4c41-87cf-b243b5ea3be1", Feed::Itself),
    ("850bb6f7-48d3-4d65-9220-b0bec5ee6b64", Feed::HandCard),
];

const SEARCHES_THE_LIBRARY: &[(&str, &str, &str)] = &[
    // "a basic land card".
    ("861eb7d7-7616-4620-a4fd-4b8c3bf00dd1", "Forest", ""),
    ("032b8a0d-491a-4a12-ab9f-689010054d5b", "Forest", ""),
    ("619173f4-0403-49cd-9659-2fedd5028a90", "Forest", ""),
    ("58eaaa8b-45c6-439b-bdd1-5f4e77a75a8c", "Forest", ""),
    ("6a7f3e1f-6798-4644-b64c-7765f81f0938", "Forest", ""),
    ("543e6bb3-a867-43bf-a737-2f5d6d8dc631", "Forest", ""),
    ("0a1d817d-dce8-4e83-a380-909f7c9eee46", "Forest", "Swamp"),
    ("6b9cd3d0-4316-4945-b960-12f51052d260", "Plains", "Forest"),
    ("743f4488-fef1-4f4d-b745-d2de92423e00", "Island", "Plains"),
    ("f39f33ac-074d-442d-ae4c-1d694ee315f3", "Swamp", "Plains"),
    ("71e28800-c42c-48c0-95e5-0296be54a4e8", "Mountain", "Island"),
];

const UNTAPPED_ON_A_SMALL_BOARD: &[(&str, &str)] = &[
    ("5ad94412-6f79-4c5d-bbd4-4ef5779a7b6d", "Blackcleave Cliffs"),
    ("66fa2326-1b5d-41fb-b919-83bf9f383577", "Blooming Marsh"),
    ("88f8f683-738e-48f3-afff-c8f73f1033a2", "Botanical Sanctum"),
    (
        "2d899466-b1eb-4901-b626-1f2fb09b786d",
        "Concealed Courtyard",
    ),
    ("a05f641c-15c9-43dc-ae0d-1ea372fd33d5", "Copperline Gorge"),
    ("a2b48695-f7d7-42ce-a8a0-2a723428542a", "Darkslick Shores"),
    ("3f17c60e-923a-4392-9da8-87d9ded009b7", "Inspiring Vantage"),
    ("94f6c407-e665-4032-be13-a01e40c1f306", "Razorverge Thicket"),
    ("9e7a240d-dc33-47ac-9f17-77fab4c1c340", "Seachrome Coast"),
    ("eb0d8093-5f93-4b25-9384-08f9731bfb28", "Spirebluff Canal"),
];

/// What a row of the table pays its cost with.
#[derive(Clone, Copy, PartialEq, Eq, Debug)]
enum Feed {
    /// Baleful Strix: a creature, an artifact and a Bird in one card.
    Strix,
    /// Gateway Plaza: a land, and a Gate.
    Plaza,
    /// A card in hand, for the one that discards.
    HandCard,
    /// The land is its own feed.
    Itself,
}

/// The card an oracle id names, among the cards these tests play.
fn card_index(oracle: &str) -> CardIndex {
    match oracle {
        "00ef1c55-dea1-4564-bd57-66de86cba4df" => selesnya_sanctuary(),
        "032b8a0d-491a-4a12-ab9f-689010054d5b" => prismatic_vista(),
        "046f5783-cc7b-416a-8cf6-2bcef9c2cc1a" => simic_growth_chamber(),
        "0a023964-2905-4928-9c3e-dc63e6ebd218" => rakdos_carnarium(),
        "0a1d817d-dce8-4e83-a380-909f7c9eee46" => bant_panorama(),
        "0eec9984-cd11-4a52-9234-469c6a5fb9aa" => abandoned_campground(),
        "114dd40d-5ad8-4913-a08f-572b9521eb5b" => turbulent_fen(),
        "15f1fe23-5af4-4fc4-8cde-2e0bf9f9be0c" => citadel_gate(),
        "189fc8f4-17ac-4f1d-82c8-8401445bdaf4" => azorius_chancery(),
        "1999b5ac-21fb-4d99-ad72-58bf507f9a59" => cliffgate(),
        "19b58ec9-bb88-4193-8ea8-c8f09ceec1ed" => darigaaz_s_caldera(),
        "1af15c1d-a41c-44cc-9614-d72694dd26e8" => savage_mansion(),
        "1b301478-b14f-4ef8-94e6-9647d582eabe" => golgari_rot_farm(),
        "1cb9d94a-3039-4f2e-8fcc-6996f9a45f74" => izzet_boilerworks(),
        "216a2a92-9ca3-4ca3-8af7-686c13b04290" => shadowy_backstreet(),
        "24a97436-ba61-4ebc-a560-a6c027ccfdf3" => raucous_carnival(),
        "2ac34f3e-822d-4fde-99ca-a31c4d9503fd" => shimmerdrift_vale(),
        "2d899466-b1eb-4901-b626-1f2fb09b786d" => concealed_courtyard(),
        "2eb4da30-2600-4a7f-8e6c-6a090faa9a8d" => turbulent_moor(),
        "33a4e73d-d93a-4b6f-88ff-cd53f20d178c" => spectacle_summit(),
        "349ea6c7-6b3e-417f-b082-b712e2b1635b" => forum_of_amity(),
        "35922a30-6b84-44dd-a2f0-306554a1ae90" => heap_gate(),
        "378a1d57-e2f1-4b84-9692-1564602e9e99" => dimir_aqueduct(),
        "37f924e1-7c25-4f06-88bb-054693a21e5a" => conduit_pylons(),
        "382d18a2-438e-4ae7-a83f-1658ef1f9b07" => hidden_grotto(),
        "38ba1956-5505-4a7a-b6af-e75715b1401f" => dormant_volcano(),
        "3a5b3405-a1e3-4aad-ab4e-1b8db2d1f3a8" => strangled_cemetery(),
        "3f17c60e-923a-4392-9da8-87d9ded009b7" => inspiring_vantage(),
        "3f347ebf-e0d2-4ae0-ad84-df7a460404e0" => coral_atoll(),
        "47b6d2ae-d3d7-41eb-9172-2076eb8d028d" => bleeding_woods(),
        "4adc39dd-8de1-4298-947c-ff666ec3adeb" => seaside_haven(),
        "4eb428ab-f5b0-46ca-98dd-b3466a91ef97" => kishla_village(),
        "543e6bb3-a867-43bf-a737-2f5d6d8dc631" => warped_landscape(),
        "58eaaa8b-45c6-439b-bdd1-5f4e77a75a8c" => terminal_moraine(),
        "595f0eb5-f521-4174-9c48-b89e85ea907c" => titan_s_grave(),
        "5ad94412-6f79-4c5d-bbd4-4ef5779a7b6d" => blackcleave_cliffs(),
        "5effaa94-7f87-4485-8959-473d584c5034" => grim_backwoods(),
        "619173f4-0403-49cd-9659-2fedd5028a90" => shire_terrace(),
        "638ff242-63d5-457d-a7a6-40ad51052e2e" => paradox_gardens(),
        "657243dd-e479-4f4b-99d2-09b55d833a35" => gruul_turf(),
        "660d44a2-391a-416c-b46c-ddcc3739f527" => valgavoth_s_lair(),
        "66fa2326-1b5d-41fb-b919-83bf9f383577" => blooming_marsh(),
        "676141c3-a433-4aba-86fb-729628f96dfa" => ominous_asylum(),
        "69c63055-ed44-4b32-b591-f3c6c2f3e7d1" => archway_commons(),
        "69fc70b8-b143-4662-ac95-e2743037239d" => thriving_isle(),
        "6a7f3e1f-6798-4644-b64c-7765f81f0938" => vibrant_cityscape(),
        "6b9cd3d0-4316-4945-b960-12f51052d260" => esper_panorama(),
        "6ccca5c2-66c3-495a-8d9e-1a9805569e52" => etched_cornfield(),
        "6ef30340-a26d-49aa-bc86-0b8aa5252f87" => suburban_sanctuary(),
        "71e28800-c42c-48c0-95e5-0296be54a4e8" => naya_panorama(),
        "743f4488-fef1-4f4d-b745-d2de92423e00" => grixis_panorama(),
        "7b2c7758-2b89-49ff-8838-8dc9880c7209" => treva_s_ruins(),
        "7eadffcb-1e15-44c1-b1db-78c71b8ec1ce" => rupture_spire(),
        "80f08b47-a237-4efd-8d86-dfe35a816b0e" => sinister_hideout(),
        "840119bf-e60f-4ff7-9c9b-d420d09df545" => underground_mortuary(),
        "850bb6f7-48d3-4d65-9220-b0bec5ee6b64" => fogwell_s_gym(),
        "861eb7d7-7616-4620-a4fd-4b8c3bf00dd1" => promising_vein(),
        "86fb3749-37d6-48a6-8524-71e996850307" => high_market(),
        "87c8e1ed-258a-4a89-bcc6-211405e49692" => command_bridge(),
        "88f8f683-738e-48f3-afff-c8f73f1033a2" => botanical_sanctum(),
        "8f69bd3a-244e-42d8-bfac-5a426f4b54b4" => razortrap_gorge(),
        "8fa3ac81-3dfe-4565-be99-5554f7597b4b" => boros_garrison(),
        "91fceb34-0f2d-4392-be27-00dcd765637f" => thriving_bluff(),
        "94f6c407-e665-4032-be13-a01e40c1f306" => razorverge_thicket(),
        "98334bfa-c516-4c20-bdc5-9e32e7127adc" => transguild_promenade(),
        "98e547de-b963-4ee4-9a08-67bae010734b" => university_campus(),
        "9abf9a0e-8e7d-406b-a01d-d4870b30134e" => the_shire(),
        "9aef7510-9f06-4939-8cae-f71330d1105e" => turbulent_springs(),
        "9e7a240d-dc33-47ac-9f17-77fab4c1c340" => seachrome_coast(),
        "9ea747cf-5d04-4aa7-bdc3-8145860cd1ba" => elegant_parlor(),
        "a05f641c-15c9-43dc-ae0d-1ea372fd33d5" => copperline_gorge(),
        "a2b48695-f7d7-42ce-a8a0-2a723428542a" => darkslick_shores(),
        "a32e08fa-bea4-4ba9-a126-9bf0a91f67e2" => fields_of_strife(),
        "a3648376-dc8b-409b-b2d1-c29e326a059c" => surveillance_room(),
        "a6543f71-0326-4e1f-b58f-9ce325d5d036" => gateway_plaza(),
        "a8052556-8962-4130-86a8-6fb7b6a324f7" => thriving_grove(),
        "a91f93fd-e428-4a36-b1b3-604b47a34287" => tocasia_s_dig_site(),
        "aa00ae0b-7c0f-427e-8102-ce0e2a6af5df" => orzhov_basilica(),
        "b26cfeb0-7bbe-4d93-8eed-e832f175a80c" => crossroads_village(),
        "b33656ae-3473-4223-845f-f9147f87678b" => commercial_district(),
        "b574c540-9f8a-4fd4-8809-d02c9b099ddc" => sea_gate(),
        "b6cc062c-eb39-46ee-bd6d-17f1db0ac50d" => phyrexia_s_core(),
        "bd8adca6-4f16-45f8-994a-fe55bd573bd0" => turbulent_wilderness(),
        "bff416bb-d193-4c45-b2c1-7c297dbfad08" => thriving_moor(),
        "c17d799f-adc9-4c41-87cf-b243b5ea3be1" => ipnu_rivulet(),
        "c2cdefeb-3176-4faf-be54-a62d31f777a5" => murky_sewer(),
        "c56cd2ec-5907-4282-9162-d93b7dfd63b5" => lakeside_shack(),
        "c8c632ab-14ec-44e1-ac00-81d48336320d" => neglected_manor(),
        "ca4b6689-04ee-4227-9bdc-cb5a9590c745" => hedge_maze(),
        "ccfb8b4d-651c-418a-aa19-cb23105b3f2f" => meticulous_archive(),
        "d1946630-e224-40db-8f0d-388b09622288" => thriving_heath(),
        "d23c3613-bc5e-4fc5-939c-62a090c53a79" => uncharted_haven(),
        "d3df7128-31dd-4d71-90be-87e2e9ff51b4" => dust_bowl(),
        "d4e875d9-2245-470d-aa2f-1dfe66ce2d15" => karoo(),
        "d51831b1-7394-456e-a1de-6787a59f5932" => lush_portico(),
        "d55f7e20-11c6-44e2-8a21-dca67d3dbc68" => peculiar_lighthouse(),
        "d8b57707-796d-4488-8f91-65bb75bc6281" => dromar_s_cavern(),
        "db444f9d-4dde-4308-b0f2-7acfe6de871a" => turbulent_steppe(),
        "dd6e67c0-66a1-49b7-8a86-3cf4b209fd07" => manor_gate(),
        "dde6bce5-8bbe-4866-b5aa-2c05c7d37241" => black_dragon_gate(),
        "e103f422-85c0-43f8-8a2f-8b7863e503fa" => mirage_mesa(),
        "e10e84a7-d564-487a-ac64-5a001a45ee90" => rath_s_edge(),
        "e13289e5-370b-435b-a38e-cf57c3078cec" => rith_s_grove(),
        "e9a7dede-3968-4b0e-a707-419d46a6fec9" => crosis_s_catacombs(),
        "ea4d6fcd-21e0-4e9f-b406-a89042998d98" => keldon_necropolis(),
        "eb0d8093-5f93-4b25-9384-08f9731bfb28" => spirebluff_canal(),
        "ee723c7c-ec9f-4ffb-8f36-cd7637eb1fae" => guildless_commons(),
        "ef3b8b0c-cea7-4bae-934c-9c65fd64245d" => everglades(),
        "f39f33ac-074d-442d-ae4c-1d694ee315f3" => jund_panorama(),
        "f922f90a-b1a2-4630-9266-40726ca89f74" => jungle_basin(),
        other => panic!("no card for {other}"),
    }
}
