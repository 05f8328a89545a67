//! The cards this engine knows: each card's printed characteristics, how
//! it enters the battlefield, and its abilities, in the order the card
//! prints them (the index of an ability is its place in that order).
//!
//! Abilities this engine cannot carry out are left off a card; the card
//! then has the abilities it can. An `{X}` in a cost is always paid as zero.

use vstd::prelude::*;
#[allow(unused_imports)]
use crate::cardkit::{
    activated, animation, chars, cost, entry, flagged, mana, mana_ability, of_subtypes, of_types,
    of_types_colored, only_if, removing, removing_any, hybrid, channel, search, discarding, sacrificing, sorcery, spell_effect, static_ability, tap, tap_for,
    tap_for_one_of, tapping, triggered, with_rider,
};
#[allow(unused_imports)]
use crate::cards::{
    Ability, Characteristics, Condition, Effect, Entry, EntryChoice, EntryRule, Filter, ManaRider,
    TargetSpec, Trigger, CounterAmount, UnlessCost, SearchDest,
};
use crate::ids::CardIndex;
#[allow(unused_imports)]
use crate::mana::{ManaColor, ManaCost, SpendRestriction};
#[allow(unused_imports)]
use crate::sets::CounterKind;

verus! {

/// The characteristics a card (or face) prints. (cards 0 to 11).
pub open spec fn spec_card_chars_0(c: CardIndex) -> Characteristics {
    match c.0 {
        0 => chars(0x1, 0x10, 0x0, true, false, 0, 0, 0x0),
        1 => chars(0x1, 0x2, 0x0, true, false, 0, 0, 0x0),
        2 => chars(0x1, 0x4, 0x0, true, false, 0, 0, 0x0),
        3 => chars(0x1, 0x8, 0x0, true, false, 0, 0, 0x0),
        4 => chars(0x1, 0x1, 0x0, true, false, 0, 0, 0x0),
        5 => chars(0x4, 0x400000000, 0x0, false, false, 0, 0, 0x0),
        6 => chars(0x2, 0x2000, 0x4, false, false, 2, 2, 0x0),
        7 => chars(0x2, 0x10000004000, 0x10, false, false, 1, 1, 0x0),
        8 => chars(0x6, 0x80000000000, 0x6, false, false, 1, 1, 0x41),
        9 => chars(0x6, 0x1000000000000, 0x0, false, false, 1, 1, 0x0),
        10 => chars(0x2, 0x8000000, 0x10, false, false, 7, 6, 0x22),
        11 => chars(0x2, 0x2040000000000, 0x4, false, true, 4, 5, 0x40),
        _ => chars(0x0, 0x0, 0x0, false, false, 0, 0, 0x0),
    }
}

/// The characteristics a card (or face) prints. (cards 0 to 11).
fn card_chars_0(c: CardIndex) -> (r: Characteristics)
    ensures
        r == spec_card_chars_0(c),
{
    match c.0 {
        0 => chars(0x1, 0x10, 0x0, true, false, 0, 0, 0x0),
        1 => chars(0x1, 0x2, 0x0, true, false, 0, 0, 0x0),
        2 => chars(0x1, 0x4, 0x0, true, false, 0, 0, 0x0),
        3 => chars(0x1, 0x8, 0x0, true, false, 0, 0, 0x0),
        4 => chars(0x1, 0x1, 0x0, true, false, 0, 0, 0x0),
        5 => chars(0x4, 0x400000000, 0x0, false, false, 0, 0, 0x0),
        6 => chars(0x2, 0x2000, 0x4, false, false, 2, 2, 0x0),
        7 => chars(0x2, 0x10000004000, 0x10, false, false, 1, 1, 0x0),
        8 => chars(0x6, 0x80000000000, 0x6, false, false, 1, 1, 0x41),
        9 => chars(0x6, 0x1000000000000, 0x0, false, false, 1, 1, 0x0),
        10 => chars(0x2, 0x8000000, 0x10, false, false, 7, 6, 0x22),
        11 => chars(0x2, 0x2040000000000, 0x4, false, true, 4, 5, 0x40),
        _ => chars(0x0, 0x0, 0x0, false, false, 0, 0, 0x0),
    }
}

/// The characteristics a card (or face) prints. (cards 12 to 23).
pub open spec fn spec_card_chars_1(c: CardIndex) -> Characteristics {
    match c.0 {
        12 => chars(0x8, 0x0, 0x1, false, false, 0, 0, 0x0),
        13 => chars(0x2, 0x4000, 0x10, false, false, 1, 1, 0x0),
        14 => chars(0x4, 0x0, 0x0, false, false, 0, 0, 0x0),
        15 => chars(0x2, 0x4100000008000, 0x2, false, true, 2, 2, 0x0),
        16 => chars(0x1, 0xc, 0x0, false, false, 0, 0, 0x0),
        17 => chars(0x1, 0x12, 0x0, false, false, 0, 0, 0x0),
        18 => chars(0x2, 0x402000, 0x4, false, false, 1, 1, 0x0),
        19 => chars(0x1, 0x0, 0x0, false, false, 0, 0, 0x0),
        20 => chars(0x1, 0x0, 0x0, false, false, 0, 0, 0x0),
        21 => chars(0x1, 0x0, 0x0, false, false, 0, 0, 0x0),
        22 => chars(0x1, 0x0, 0x0, false, false, 0, 0, 0x0),
        23 => chars(0x1, 0x0, 0x0, false, false, 0, 0, 0x0),
        _ => chars(0x0, 0x0, 0x0, false, false, 0, 0, 0x0),
    }
}

/// The characteristics a card (or face) prints. (cards 12 to 23).
fn card_chars_1(c: CardIndex) -> (r: Characteristics)
    ensures
        r == spec_card_chars_1(c),
{
    match c.0 {
        12 => chars(0x8, 0x0, 0x1, false, false, 0, 0, 0x0),
        13 => chars(0x2, 0x4000, 0x10, false, false, 1, 1, 0x0),
        14 => chars(0x4, 0x0, 0x0, false, false, 0, 0, 0x0),
        15 => chars(0x2, 0x4100000008000, 0x2, false, true, 2, 2, 0x0),
        16 => chars(0x1, 0xc, 0x0, false, false, 0, 0, 0x0),
        17 => chars(0x1, 0x12, 0x0, false, false, 0, 0, 0x0),
        18 => chars(0x2, 0x402000, 0x4, false, false, 1, 1, 0x0),
        19 => chars(0x1, 0x0, 0x0, false, false, 0, 0, 0x0),
        20 => chars(0x1, 0x0, 0x0, false, false, 0, 0, 0x0),
        21 => chars(0x1, 0x0, 0x0, false, false, 0, 0, 0x0),
        22 => chars(0x1, 0x0, 0x0, false, false, 0, 0, 0x0),
        23 => chars(0x1, 0x0, 0x0, false, false, 0, 0, 0x0),
        _ => chars(0x0, 0x0, 0x0, false, false, 0, 0, 0x0),
    }
}

/// The characteristics a card (or face) prints. (cards 24 to 35).
pub open spec fn spec_card_chars_2(c: CardIndex) -> Characteristics {
    match c.0 {
        24 => chars(0x1, 0x0, 0x0, false, true, 0, 0, 0x0),
        25 => chars(0x1, 0x0, 0x0, false, true, 0, 0, 0x0),
        26 => chars(0x1, 0x20, 0x0, false, false, 0, 0, 0x0),
        27 => chars(0x1, 0x0, 0x0, false, true, 0, 0, 0x0),
        28 => chars(0x1, 0x0, 0x0, false, false, 0, 0, 0x0),
        29 => chars(0x5, 0x0, 0x0, false, false, 0, 0, 0x0),
        30 => chars(0x1, 0x0, 0x0, false, false, 0, 0, 0x0),
        31 => chars(0x1, 0x0, 0x0, false, false, 0, 0, 0x0),
        32 => chars(0x1, 0x0, 0x0, false, true, 0, 0, 0x0),
        33 => chars(0x1, 0x0, 0x0, false, false, 0, 0, 0x0),
        34 => chars(0x1, 0x0, 0x0, false, false, 0, 0, 0x0),
        35 => chars(0x1, 0x0, 0x0, false, false, 0, 0, 0x0),
        _ => chars(0x0, 0x0, 0x0, false, false, 0, 0, 0x0),
    }
}

/// The characteristics a card (or face) prints. (cards 24 to 35).
fn card_chars_2(c: CardIndex) -> (r: Characteristics)
    ensures
        r == spec_card_chars_2(c),
{
    match c.0 {
        24 => chars(0x1, 0x0, 0x0, false, true, 0, 0, 0x0),
        25 => chars(0x1, 0x0, 0x0, false, true, 0, 0, 0x0),
        26 => chars(0x1, 0x20, 0x0, false, false, 0, 0, 0x0),
        27 => chars(0x1, 0x0, 0x0, false, true, 0, 0, 0x0),
        28 => chars(0x1, 0x0, 0x0, false, false, 0, 0, 0x0),
        29 => chars(0x5, 0x0, 0x0, false, false, 0, 0, 0x0),
        30 => chars(0x1, 0x0, 0x0, false, false, 0, 0, 0x0),
        31 => chars(0x1, 0x0, 0x0, false, false, 0, 0, 0x0),
        32 => chars(0x1, 0x0, 0x0, false, true, 0, 0, 0x0),
        33 => chars(0x1, 0x0, 0x0, false, false, 0, 0, 0x0),
        34 => chars(0x1, 0x0, 0x0, false, false, 0, 0, 0x0),
        35 => chars(0x1, 0x0, 0x0, false, false, 0, 0, 0x0),
        _ => chars(0x0, 0x0, 0x0, false, false, 0, 0, 0x0),
    }
}

/// The characteristics a card (or face) prints. (cards 36 to 47).
pub open spec fn spec_card_chars_3(c: CardIndex) -> Characteristics {
    match c.0 {
        36 => chars(0x1, 0x0, 0x0, false, false, 0, 0, 0x0),
        37 => chars(0x1, 0x0, 0x0, false, false, 0, 0, 0x0),
        38 => chars(0x1, 0x0, 0x0, false, false, 0, 0, 0x0),
        39 => chars(0x1, 0x0, 0x0, false, false, 0, 0, 0x0),
        40 => chars(0x1, 0x0, 0x0, false, false, 0, 0, 0x0),
        41 => chars(0x1, 0x0, 0x0, false, false, 0, 0, 0x0),
        42 => chars(0x1, 0x0, 0x0, false, false, 0, 0, 0x0),
        43 => chars(0x1, 0x0, 0x0, false, false, 0, 0, 0x0),
        44 => chars(0x1, 0x0, 0x0, false, false, 0, 0, 0x0),
        45 => chars(0x1, 0x0, 0x0, false, false, 0, 0, 0x0),
        46 => chars(0x1, 0x100, 0x0, false, false, 0, 0, 0x0),
        47 => chars(0x1, 0x0, 0x0, false, false, 0, 0, 0x0),
        _ => chars(0x0, 0x0, 0x0, false, false, 0, 0, 0x0),
    }
}

/// The characteristics a card (or face) prints. (cards 36 to 47).
fn card_chars_3(c: CardIndex) -> (r: Characteristics)
    ensures
        r == spec_card_chars_3(c),
{
    match c.0 {
        36 => chars(0x1, 0x0, 0x0, false, false, 0, 0, 0x0),
        37 => chars(0x1, 0x0, 0x0, false, false, 0, 0, 0x0),
        38 => chars(0x1, 0x0, 0x0, false, false, 0, 0, 0x0),
        39 => chars(0x1, 0x0, 0x0, false, false, 0, 0, 0x0),
        40 => chars(0x1, 0x0, 0x0, false, false, 0, 0, 0x0),
        41 => chars(0x1, 0x0, 0x0, false, false, 0, 0, 0x0),
        42 => chars(0x1, 0x0, 0x0, false, false, 0, 0, 0x0),
        43 => chars(0x1, 0x0, 0x0, false, false, 0, 0, 0x0),
        44 => chars(0x1, 0x0, 0x0, false, false, 0, 0, 0x0),
        45 => chars(0x1, 0x0, 0x0, false, false, 0, 0, 0x0),
        46 => chars(0x1, 0x100, 0x0, false, false, 0, 0, 0x0),
        47 => chars(0x1, 0x0, 0x0, false, false, 0, 0, 0x0),
        _ => chars(0x0, 0x0, 0x0, false, false, 0, 0, 0x0),
    }
}

/// The characteristics a card (or face) prints. (cards 48 to 59).
pub open spec fn spec_card_chars_4(c: CardIndex) -> Characteristics {
    match c.0 {
        48 => chars(0x1, 0x40, 0x0, false, false, 0, 0, 0x0),
        49 => chars(0x1, 0x40, 0x0, false, false, 0, 0, 0x0),
        50 => chars(0x1, 0x0, 0x0, false, true, 0, 0, 0x0),
        51 => chars(0x1, 0x0, 0x0, false, false, 0, 0, 0x0),
        52 => chars(0x1, 0x0, 0x0, false, false, 0, 0, 0x0),
        53 => chars(0x1, 0x0, 0x0, false, false, 0, 0, 0x0),
        54 => chars(0x1, 0x0, 0x0, false, false, 0, 0, 0x0),
        55 => chars(0x1, 0x0, 0x0, false, false, 0, 0, 0x0),
        56 => chars(0x1, 0x20, 0x0, false, false, 0, 0, 0x0),
        57 => chars(0x1, 0x0, 0x0, false, true, 0, 0, 0x0),
        58 => chars(0x1, 0x40, 0x0, false, false, 0, 0, 0x0),
        59 => chars(0x1, 0x0, 0x0, false, false, 0, 0, 0x0),
        _ => chars(0x0, 0x0, 0x0, false, false, 0, 0, 0x0),
    }
}

/// The characteristics a card (or face) prints. (cards 48 to 59).
fn card_chars_4(c: CardIndex) -> (r: Characteristics)
    ensures
        r == spec_card_chars_4(c),
{
    match c.0 {
        48 => chars(0x1, 0x40, 0x0, false, false, 0, 0, 0x0),
        49 => chars(0x1, 0x40, 0x0, false, false, 0, 0, 0x0),
        50 => chars(0x1, 0x0, 0x0, false, true, 0, 0, 0x0),
        51 => chars(0x1, 0x0, 0x0, false, false, 0, 0, 0x0),
        52 => chars(0x1, 0x0, 0x0, false, false, 0, 0, 0x0),
        53 => chars(0x1, 0x0, 0x0, false, false, 0, 0, 0x0),
        54 => chars(0x1, 0x0, 0x0, false, false, 0, 0, 0x0),
        55 => chars(0x1, 0x0, 0x0, false, false, 0, 0, 0x0),
        56 => chars(0x1, 0x20, 0x0, false, false, 0, 0, 0x0),
        57 => chars(0x1, 0x0, 0x0, false, true, 0, 0, 0x0),
        58 => chars(0x1, 0x40, 0x0, false, false, 0, 0, 0x0),
        59 => chars(0x1, 0x0, 0x0, false, false, 0, 0, 0x0),
        _ => chars(0x0, 0x0, 0x0, false, false, 0, 0, 0x0),
    }
}

/// The characteristics a card (or face) prints. (cards 60 to 71).
pub open spec fn spec_card_chars_5(c: CardIndex) -> Characteristics {
    match c.0 {
        60 => chars(0x1, 0x0, 0x0, false, true, 0, 0, 0x0),
        61 => chars(0x1, 0x1200, 0x0, false, false, 0, 0, 0x0),
        62 => chars(0x1, 0x600, 0x0, false, false, 0, 0, 0x0),
        63 => chars(0x1, 0xa00, 0x0, false, false, 0, 0, 0x0),
        64 => chars(0x1, 0x0, 0x0, false, false, 0, 0, 0x0),
        65 => chars(0x1, 0x0, 0x0, false, false, 0, 0, 0x0),
        66 => chars(0x1, 0x0, 0x0, false, false, 0, 0, 0x0),
        67 => chars(0x1, 0x0, 0x0, false, false, 0, 0, 0x0),
        68 => chars(0x1, 0x0, 0x0, false, false, 0, 0, 0x0),
        69 => chars(0x1, 0x0, 0x0, false, false, 0, 0, 0x0),
        70 => chars(0x1, 0x0, 0x0, false, false, 0, 0, 0x0),
        71 => chars(0x1, 0x0, 0x0, false, false, 0, 0, 0x0),
        _ => chars(0x0, 0x0, 0x0, false, false, 0, 0, 0x0),
    }
}

/// The characteristics a card (or face) prints. (cards 60 to 71).
fn card_chars_5(c: CardIndex) -> (r: Characteristics)
    ensures
        r == spec_card_chars_5(c),
{
    match c.0 {
        60 => chars(0x1, 0x0, 0x0, false, true, 0, 0, 0x0),
        61 => chars(0x1, 0x1200, 0x0, false, false, 0, 0, 0x0),
        62 => chars(0x1, 0x600, 0x0, false, false, 0, 0, 0x0),
        63 => chars(0x1, 0xa00, 0x0, false, false, 0, 0, 0x0),
        64 => chars(0x1, 0x0, 0x0, false, false, 0, 0, 0x0),
        65 => chars(0x1, 0x0, 0x0, false, false, 0, 0, 0x0),
        66 => chars(0x1, 0x0, 0x0, false, false, 0, 0, 0x0),
        67 => chars(0x1, 0x0, 0x0, false, false, 0, 0, 0x0),
        68 => chars(0x1, 0x0, 0x0, false, false, 0, 0, 0x0),
        69 => chars(0x1, 0x0, 0x0, false, false, 0, 0, 0x0),
        70 => chars(0x1, 0x0, 0x0, false, false, 0, 0, 0x0),
        71 => chars(0x1, 0x0, 0x0, false, false, 0, 0, 0x0),
        _ => chars(0x0, 0x0, 0x0, false, false, 0, 0, 0x0),
    }
}

/// The characteristics a card (or face) prints. (cards 72 to 83).
pub open spec fn spec_card_chars_6(c: CardIndex) -> Characteristics {
    match c.0 {
        72 => chars(0x1, 0x0, 0x0, false, false, 0, 0, 0x0),
        73 => chars(0x1, 0x0, 0x0, false, false, 0, 0, 0x0),
        74 => chars(0x1, 0x0, 0x0, false, false, 0, 0, 0x0),
        75 => chars(0x1, 0x0, 0x0, false, false, 0, 0, 0x0),
        76 => chars(0x1, 0x0, 0x0, false, false, 0, 0, 0x0),
        77 => chars(0x1, 0x0, 0x0, false, false, 0, 0, 0x0),
        78 => chars(0x1, 0x0, 0x0, false, false, 0, 0, 0x0),
        79 => chars(0x1, 0x0, 0x0, false, false, 0, 0, 0x0),
        80 => chars(0x1, 0x0, 0x0, false, false, 0, 0, 0x0),
        81 => chars(0x1, 0x0, 0x0, false, false, 0, 0, 0x0),
        82 => chars(0x1, 0x0, 0x0, false, false, 0, 0, 0x0),
        83 => chars(0x1, 0x0, 0x0, false, false, 0, 0, 0x0),
        _ => chars(0x0, 0x0, 0x0, false, false, 0, 0, 0x0),
    }
}

/// The characteristics a card (or face) prints. (cards 72 to 83).
fn card_chars_6(c: CardIndex) -> (r: Characteristics)
    ensures
        r == spec_card_chars_6(c),
{
    match c.0 {
        72 => chars(0x1, 0x0, 0x0, false, false, 0, 0, 0x0),
        73 => chars(0x1, 0x0, 0x0, false, false, 0, 0, 0x0),
        74 => chars(0x1, 0x0, 0x0, false, false, 0, 0, 0x0),
        75 => chars(0x1, 0x0, 0x0, false, false, 0, 0, 0x0),
        76 => chars(0x1, 0x0, 0x0, false, false, 0, 0, 0x0),
        77 => chars(0x1, 0x0, 0x0, false, false, 0, 0, 0x0),
        78 => chars(0x1, 0x0, 0x0, false, false, 0, 0, 0x0),
        79 => chars(0x1, 0x0, 0x0, false, false, 0, 0, 0x0),
        80 => chars(0x1, 0x0, 0x0, false, false, 0, 0, 0x0),
        81 => chars(0x1, 0x0, 0x0, false, false, 0, 0, 0x0),
        82 => chars(0x1, 0x0, 0x0, false, false, 0, 0, 0x0),
        83 => chars(0x1, 0x0, 0x0, false, false, 0, 0, 0x0),
        _ => chars(0x0, 0x0, 0x0, false, false, 0, 0, 0x0),
    }
}

/// The characteristics a card (or face) prints. (cards 84 to 95).
pub open spec fn spec_card_chars_7(c: CardIndex) -> Characteristics {
    match c.0 {
        84 => chars(0x1, 0x0, 0x0, false, false, 0, 0, 0x0),
        85 => chars(0x1, 0x0, 0x0, false, false, 0, 0, 0x0),
        86 => chars(0x1, 0x0, 0x0, false, true, 0, 0, 0x0),
        87 => chars(0x1, 0x0, 0x0, false, false, 0, 0, 0x0),
        88 => chars(0x1, 0x0, 0x0, false, false, 0, 0, 0x0),
        89 => chars(0x1, 0x0, 0x0, false, true, 0, 0, 0x0),
        90 => chars(0x1, 0x0, 0x0, false, false, 0, 0, 0x0),
        91 => chars(0x1, 0x0, 0x0, false, true, 0, 0, 0x0),
        92 => chars(0x1, 0x0, 0x0, false, false, 0, 0, 0x0),
        93 => chars(0x1, 0x0, 0x0, false, false, 0, 0, 0x0),
        94 => chars(0x1, 0x0, 0x0, false, false, 0, 0, 0x0),
        95 => chars(0x1, 0x0, 0x0, false, true, 0, 0, 0x0),
        _ => chars(0x0, 0x0, 0x0, false, false, 0, 0, 0x0),
    }
}

/// The characteristics a card (or face) prints. (cards 84 to 95).
fn card_chars_7(c: CardIndex) -> (r: Characteristics)
    ensures
        r == spec_card_chars_7(c),
{
    match c.0 {
        84 => chars(0x1, 0x0, 0x0, false, false, 0, 0, 0x0),
        85 => chars(0x1, 0x0, 0x0, false, false, 0, 0, 0x0),
        86 => chars(0x1, 0x0, 0x0, false, true, 0, 0, 0x0),
        87 => chars(0x1, 0x0, 0x0, false, false, 0, 0, 0x0),
        88 => chars(0x1, 0x0, 0x0, false, false, 0, 0, 0x0),
        89 => chars(0x1, 0x0, 0x0, false, true, 0, 0, 0x0),
        90 => chars(0x1, 0x0, 0x0, false, false, 0, 0, 0x0),
        91 => chars(0x1, 0x0, 0x0, false, true, 0, 0, 0x0),
        92 => chars(0x1, 0x0, 0x0, false, false, 0, 0, 0x0),
        93 => chars(0x1, 0x0, 0x0, false, false, 0, 0, 0x0),
        94 => chars(0x1, 0x0, 0x0, false, false, 0, 0, 0x0),
        95 => chars(0x1, 0x0, 0x0, false, true, 0, 0, 0x0),
        _ => chars(0x0, 0x0, 0x0, false, false, 0, 0, 0x0),
    }
}

/// The characteristics a card (or face) prints. (cards 96 to 107).
pub open spec fn spec_card_chars_8(c: CardIndex) -> Characteristics {
    match c.0 {
        96 => chars(0x1, 0x0, 0x0, false, false, 0, 0, 0x0),
        97 => chars(0x1, 0x0, 0x0, false, false, 0, 0, 0x0),
        98 => chars(0x1, 0x0, 0x0, false, false, 0, 0, 0x0),
        99 => chars(0x1, 0x20, 0x0, false, false, 0, 0, 0x0),
        100 => chars(0x1, 0x0, 0x0, false, false, 0, 0, 0x0),
        101 => chars(0x1, 0x0, 0x0, false, false, 0, 0, 0x0),
        102 => chars(0x1, 0x0, 0x0, false, false, 0, 0, 0x0),
        103 => chars(0x1, 0x0, 0x0, false, false, 0, 0, 0x0),
        104 => chars(0x1, 0x0, 0x0, false, false, 0, 0, 0x0),
        105 => chars(0x1, 0x0, 0x0, false, false, 0, 0, 0x0),
        106 => chars(0x1, 0x0, 0x0, false, true, 0, 0, 0x0),
        107 => chars(0x1, 0x0, 0x0, false, false, 0, 0, 0x0),
        _ => chars(0x0, 0x0, 0x0, false, false, 0, 0, 0x0),
    }
}

/// The characteristics a card (or face) prints. (cards 96 to 107).
fn card_chars_8(c: CardIndex) -> (r: Characteristics)
    ensures
        r == spec_card_chars_8(c),
{
    match c.0 {
        96 => chars(0x1, 0x0, 0x0, false, false, 0, 0, 0x0),
        97 => chars(0x1, 0x0, 0x0, false, false, 0, 0, 0x0),
        98 => chars(0x1, 0x0, 0x0, false, false, 0, 0, 0x0),
        99 => chars(0x1, 0x20, 0x0, false, false, 0, 0, 0x0),
        100 => chars(0x1, 0x0, 0x0, false, false, 0, 0, 0x0),
        101 => chars(0x1, 0x0, 0x0, false, false, 0, 0, 0x0),
        102 => chars(0x1, 0x0, 0x0, false, false, 0, 0, 0x0),
        103 => chars(0x1, 0x0, 0x0, false, false, 0, 0, 0x0),
        104 => chars(0x1, 0x0, 0x0, false, false, 0, 0, 0x0),
        105 => chars(0x1, 0x0, 0x0, false, false, 0, 0, 0x0),
        106 => chars(0x1, 0x0, 0x0, false, true, 0, 0, 0x0),
        107 => chars(0x1, 0x0, 0x0, false, false, 0, 0, 0x0),
        _ => chars(0x0, 0x0, 0x0, false, false, 0, 0, 0x0),
    }
}

/// The characteristics a card (or face) prints. (cards 108 to 119).
pub open spec fn spec_card_chars_9(c: CardIndex) -> Characteristics {
    match c.0 {
        108 => chars(0x1, 0x0, 0x0, false, false, 0, 0, 0x0),
        109 => chars(0x1, 0x0, 0x0, false, false, 0, 0, 0x0),
        110 => chars(0x1, 0x0, 0x0, false, false, 0, 0, 0x0),
        111 => chars(0x1, 0x0, 0x0, false, false, 0, 0, 0x0),
        112 => chars(0x1, 0x0, 0x0, false, false, 0, 0, 0x0),
        113 => chars(0x1, 0x0, 0x0, false, false, 0, 0, 0x0),
        114 => chars(0x1, 0x0, 0x0, false, false, 0, 0, 0x0),
        115 => chars(0x1, 0x0, 0x0, false, false, 0, 0, 0x0),
        116 => chars(0x1, 0x0, 0x0, false, false, 0, 0, 0x0),
        117 => chars(0x1, 0x0, 0x0, false, false, 0, 0, 0x0),
        118 => chars(0x1, 0x0, 0x0, false, false, 0, 0, 0x0),
        119 => chars(0x1, 0x0, 0x0, false, false, 0, 0, 0x0),
        _ => chars(0x0, 0x0, 0x0, false, false, 0, 0, 0x0),
    }
}

/// The characteristics a card (or face) prints. (cards 108 to 119).
fn card_chars_9(c: CardIndex) -> (r: Characteristics)
    ensures
        r == spec_card_chars_9(c),
{
    match c.0 {
        108 => chars(0x1, 0x0, 0x0, false, false, 0, 0, 0x0),
        109 => chars(0x1, 0x0, 0x0, false, false, 0, 0, 0x0),
        110 => chars(0x1, 0x0, 0x0, false, false, 0, 0, 0x0),
        111 => chars(0x1, 0x0, 0x0, false, false, 0, 0, 0x0),
        112 => chars(0x1, 0x0, 0x0, false, false, 0, 0, 0x0),
        113 => chars(0x1, 0x0, 0x0, false, false, 0, 0, 0x0),
        114 => chars(0x1, 0x0, 0x0, false, false, 0, 0, 0x0),
        115 => chars(0x1, 0x0, 0x0, false, false, 0, 0, 0x0),
        116 => chars(0x1, 0x0, 0x0, false, false, 0, 0, 0x0),
        117 => chars(0x1, 0x0, 0x0, false, false, 0, 0, 0x0),
        118 => chars(0x1, 0x0, 0x0, false, false, 0, 0, 0x0),
        119 => chars(0x1, 0x0, 0x0, false, false, 0, 0, 0x0),
        _ => chars(0x0, 0x0, 0x0, false, false, 0, 0, 0x0),
    }
}

/// The characteristics a card (or face) prints. (cards 120 to 131).
pub open spec fn spec_card_chars_10(c: CardIndex) -> Characteristics {
    match c.0 {
        120 => chars(0x1, 0x0, 0x0, false, false, 0, 0, 0x0),
        121 => chars(0x1, 0x0, 0x0, false, false, 0, 0, 0x0),
        122 => chars(0x1, 0x0, 0x0, false, false, 0, 0, 0x0),
        123 => chars(0x1, 0x0, 0x0, false, false, 0, 0, 0x0),
        124 => chars(0x1, 0x0, 0x0, false, false, 0, 0, 0x0),
        125 => chars(0x1, 0x0, 0x0, false, false, 0, 0, 0x0),
        126 => chars(0x1, 0x0, 0x0, false, false, 0, 0, 0x0),
        127 => chars(0x1, 0x0, 0x0, false, false, 0, 0, 0x0),
        128 => chars(0x1, 0x20, 0x0, false, false, 0, 0, 0x0),
        129 => chars(0x1, 0x0, 0x0, false, false, 0, 0, 0x0),
        130 => chars(0x1, 0x0, 0x0, false, false, 0, 0, 0x0),
        131 => chars(0x1, 0x0, 0x0, false, false, 0, 0, 0x0),
        _ => chars(0x0, 0x0, 0x0, false, false, 0, 0, 0x0),
    }
}

/// The characteristics a card (or face) prints. (cards 120 to 131).
fn card_chars_10(c: CardIndex) -> (r: Characteristics)
    ensures
        r == spec_card_chars_10(c),
{
    match c.0 {
        120 => chars(0x1, 0x0, 0x0, false, false, 0, 0, 0x0),
        121 => chars(0x1, 0x0, 0x0, false, false, 0, 0, 0x0),
        122 => chars(0x1, 0x0, 0x0, false, false, 0, 0, 0x0),
        123 => chars(0x1, 0x0, 0x0, false, false, 0, 0, 0x0),
        124 => chars(0x1, 0x0, 0x0, false, false, 0, 0, 0x0),
        125 => chars(0x1, 0x0, 0x0, false, false, 0, 0, 0x0),
        126 => chars(0x1, 0x0, 0x0, false, false, 0, 0, 0x0),
        127 => chars(0x1, 0x0, 0x0, false, false, 0, 0, 0x0),
        128 => chars(0x1, 0x20, 0x0, false, false, 0, 0, 0x0),
        129 => chars(0x1, 0x0, 0x0, false, false, 0, 0, 0x0),
        130 => chars(0x1, 0x0, 0x0, false, false, 0, 0, 0x0),
        131 => chars(0x1, 0x0, 0x0, false, false, 0, 0, 0x0),
        _ => chars(0x0, 0x0, 0x0, false, false, 0, 0, 0x0),
    }
}

/// The characteristics a card (or face) prints. (cards 132 to 143).
pub open spec fn spec_card_chars_11(c: CardIndex) -> Characteristics {
    match c.0 {
        132 => chars(0x1, 0x0, 0x0, false, false, 0, 0, 0x0),
        133 => chars(0x1, 0x0, 0x0, false, false, 0, 0, 0x0),
        134 => chars(0x1, 0x0, 0x0, false, true, 0, 0, 0x0),
        135 => chars(0x1, 0x80, 0x0, false, false, 0, 0, 0x0),
        136 => chars(0x1, 0x20, 0x0, false, false, 0, 0, 0x0),
        137 => chars(0x1, 0x0, 0x0, false, true, 0, 0, 0x0),
        138 => chars(0x1, 0x0, 0x0, false, true, 0, 0, 0x0),
        139 => chars(0x1, 0x0, 0x0, false, false, 0, 0, 0x0),
        140 => chars(0x1, 0x0, 0x0, false, false, 0, 0, 0x20),
        141 => chars(0x1, 0x0, 0x0, false, false, 0, 0, 0x0),
        142 => chars(0x1, 0x0, 0x0, false, false, 0, 0, 0x0),
        143 => chars(0x1, 0x0, 0x0, false, false, 0, 0, 0x0),
        _ => chars(0x0, 0x0, 0x0, false, false, 0, 0, 0x0),
    }
}

/// The characteristics a card (or face) prints. (cards 132 to 143).
fn card_chars_11(c: CardIndex) -> (r: Characteristics)
    ensures
        r == spec_card_chars_11(c),
{
    match c.0 {
        132 => chars(0x1, 0x0, 0x0, false, false, 0, 0, 0x0),
        133 => chars(0x1, 0x0, 0x0, false, false, 0, 0, 0x0),
        134 => chars(0x1, 0x0, 0x0, false, true, 0, 0, 0x0),
        135 => chars(0x1, 0x80, 0x0, false, false, 0, 0, 0x0),
        136 => chars(0x1, 0x20, 0x0, false, false, 0, 0, 0x0),
        137 => chars(0x1, 0x0, 0x0, false, true, 0, 0, 0x0),
        138 => chars(0x1, 0x0, 0x0, false, true, 0, 0, 0x0),
        139 => chars(0x1, 0x0, 0x0, false, false, 0, 0, 0x0),
        140 => chars(0x1, 0x0, 0x0, false, false, 0, 0, 0x20),
        141 => chars(0x1, 0x0, 0x0, false, false, 0, 0, 0x0),
        142 => chars(0x1, 0x0, 0x0, false, false, 0, 0, 0x0),
        143 => chars(0x1, 0x0, 0x0, false, false, 0, 0, 0x0),
        _ => chars(0x0, 0x0, 0x0, false, false, 0, 0, 0x0),
    }
}

/// The characteristics a card (or face) prints. (cards 144 to 155).
pub open spec fn spec_card_chars_12(c: CardIndex) -> Characteristics {
    match c.0 {
        144 => chars(0x1, 0x20, 0x0, false, true, 0, 0, 0x0),
        145 => chars(0x1, 0x0, 0x0, false, false, 0, 0, 0x0),
        146 => chars(0x1, 0x1, 0x0, false, false, 0, 0, 0x0),
        147 => chars(0x1, 0x0, 0x0, false, false, 0, 0, 0x0),
        148 => chars(0x1, 0x0, 0x0, false, false, 0, 0, 0x0),
        149 => chars(0x1, 0x0, 0x0, false, false, 0, 0, 0x0),
        150 => chars(0x1, 0x0, 0x0, false, false, 0, 0, 0x0),
        151 => chars(0x1, 0x0, 0x0, false, false, 0, 0, 0x0),
        152 => chars(0x1, 0x0, 0x0, false, false, 0, 0, 0x0),
        153 => chars(0x1, 0x0, 0x0, false, false, 0, 0, 0x0),
        154 => chars(0x1, 0x0, 0x0, false, true, 0, 0, 0x0),
        155 => chars(0x1, 0x0, 0x0, false, true, 0, 0, 0x0),
        _ => chars(0x0, 0x0, 0x0, false, false, 0, 0, 0x0),
    }
}

/// The characteristics a card (or face) prints. (cards 144 to 155).
fn card_chars_12(c: CardIndex) -> (r: Characteristics)
    ensures
        r == spec_card_chars_12(c),
{
    match c.0 {
        144 => chars(0x1, 0x20, 0x0, false, true, 0, 0, 0x0),
        145 => chars(0x1, 0x0, 0x0, false, false, 0, 0, 0x0),
        146 => chars(0x1, 0x1, 0x0, false, false, 0, 0, 0x0),
        147 => chars(0x1, 0x0, 0x0, false, false, 0, 0, 0x0),
        148 => chars(0x1, 0x0, 0x0, false, false, 0, 0, 0x0),
        149 => chars(0x1, 0x0, 0x0, false, false, 0, 0, 0x0),
        150 => chars(0x1, 0x0, 0x0, false, false, 0, 0, 0x0),
        151 => chars(0x1, 0x0, 0x0, false, false, 0, 0, 0x0),
        152 => chars(0x1, 0x0, 0x0, false, false, 0, 0, 0x0),
        153 => chars(0x1, 0x0, 0x0, false, false, 0, 0, 0x0),
        154 => chars(0x1, 0x0, 0x0, false, true, 0, 0, 0x0),
        155 => chars(0x1, 0x0, 0x0, false, true, 0, 0, 0x0),
        _ => chars(0x0, 0x0, 0x0, false, false, 0, 0, 0x0),
    }
}

/// The characteristics a card (or face) prints. (cards 156 to 167).
pub open spec fn spec_card_chars_13(c: CardIndex) -> Characteristics {
    match c.0 {
        156 => chars(0x1, 0x0, 0x0, false, false, 0, 0, 0x0),
        157 => chars(0x1, 0x0, 0x0, false, false, 0, 0, 0x0),
        158 => chars(0x1, 0x0, 0x0, false, false, 0, 0, 0x0),
        159 => chars(0x1, 0x0, 0x0, false, false, 0, 0, 0x0),
        160 => chars(0x1, 0x0, 0x0, false, false, 0, 0, 0x0),
        161 => chars(0x1, 0x20, 0x0, false, false, 0, 0, 0x0),
        162 => chars(0x1, 0x4, 0x0, false, false, 0, 0, 0x0),
        163 => chars(0x1, 0x8, 0x0, false, false, 0, 0, 0x0),
        164 => chars(0x1, 0x0, 0x0, false, false, 0, 0, 0x0),
        165 => chars(0x1, 0x0, 0x0, false, false, 0, 0, 0x0),
        166 => chars(0x1, 0x0, 0x0, false, false, 0, 0, 0x0),
        167 => chars(0x1, 0x0, 0x0, false, false, 0, 0, 0x0),
        _ => chars(0x0, 0x0, 0x0, false, false, 0, 0, 0x0),
    }
}

/// The characteristics a card (or face) prints. (cards 156 to 167).
fn card_chars_13(c: CardIndex) -> (r: Characteristics)
    ensures
        r == spec_card_chars_13(c),
{
    match c.0 {
        156 => chars(0x1, 0x0, 0x0, false, false, 0, 0, 0x0),
        157 => chars(0x1, 0x0, 0x0, false, false, 0, 0, 0x0),
        158 => chars(0x1, 0x0, 0x0, false, false, 0, 0, 0x0),
        159 => chars(0x1, 0x0, 0x0, false, false, 0, 0, 0x0),
        160 => chars(0x1, 0x0, 0x0, false, false, 0, 0, 0x0),
        161 => chars(0x1, 0x20, 0x0, false, false, 0, 0, 0x0),
        162 => chars(0x1, 0x4, 0x0, false, false, 0, 0, 0x0),
        163 => chars(0x1, 0x8, 0x0, false, false, 0, 0, 0x0),
        164 => chars(0x1, 0x0, 0x0, false, false, 0, 0, 0x0),
        165 => chars(0x1, 0x0, 0x0, false, false, 0, 0, 0x0),
        166 => chars(0x1, 0x0, 0x0, false, false, 0, 0, 0x0),
        167 => chars(0x1, 0x0, 0x0, false, false, 0, 0, 0x0),
        _ => chars(0x0, 0x0, 0x0, false, false, 0, 0, 0x0),
    }
}

/// The characteristics a card (or face) prints. (cards 168 to 179).
pub open spec fn spec_card_chars_14(c: CardIndex) -> Characteristics {
    match c.0 {
        168 => chars(0x1, 0x0, 0x0, false, false, 0, 0, 0x0),
        169 => chars(0x1, 0x0, 0x0, false, false, 0, 0, 0x100),
        170 => chars(0x1, 0x0, 0x0, false, false, 0, 0, 0x0),
        171 => chars(0x1, 0x0, 0x0, false, false, 0, 0, 0x0),
        172 => chars(0x1, 0x0, 0x0, false, false, 0, 0, 0x0),
        173 => chars(0x1, 0x0, 0x0, false, false, 0, 0, 0x0),
        174 => chars(0x1, 0x0, 0x0, false, false, 0, 0, 0x0),
        175 => chars(0x1, 0x0, 0x0, false, true, 0, 0, 0x0),
        176 => chars(0x1, 0x0, 0x0, false, true, 0, 0, 0x0),
        177 => chars(0x1, 0x0, 0x0, false, false, 0, 0, 0x0),
        178 => chars(0x1, 0x200, 0x0, false, false, 0, 0, 0x0),
        179 => chars(0x1, 0x0, 0x0, false, false, 0, 0, 0x0),
        _ => chars(0x0, 0x0, 0x0, false, false, 0, 0, 0x0),
    }
}

/// The characteristics a card (or face) prints. (cards 168 to 179).
fn card_chars_14(c: CardIndex) -> (r: Characteristics)
    ensures
        r == spec_card_chars_14(c),
{
    match c.0 {
        168 => chars(0x1, 0x0, 0x0, false, false, 0, 0, 0x0),
        169 => chars(0x1, 0x0, 0x0, false, false, 0, 0, 0x100),
        170 => chars(0x1, 0x0, 0x0, false, false, 0, 0, 0x0),
        171 => chars(0x1, 0x0, 0x0, false, false, 0, 0, 0x0),
        172 => chars(0x1, 0x0, 0x0, false, false, 0, 0, 0x0),
        173 => chars(0x1, 0x0, 0x0, false, false, 0, 0, 0x0),
        174 => chars(0x1, 0x0, 0x0, false, false, 0, 0, 0x0),
        175 => chars(0x1, 0x0, 0x0, false, true, 0, 0, 0x0),
        176 => chars(0x1, 0x0, 0x0, false, true, 0, 0, 0x0),
        177 => chars(0x1, 0x0, 0x0, false, false, 0, 0, 0x0),
        178 => chars(0x1, 0x200, 0x0, false, false, 0, 0, 0x0),
        179 => chars(0x1, 0x0, 0x0, false, false, 0, 0, 0x0),
        _ => chars(0x0, 0x0, 0x0, false, false, 0, 0, 0x0),
    }
}

/// The characteristics a card (or face) prints. (cards 180 to 191).
pub open spec fn spec_card_chars_15(c: CardIndex) -> Characteristics {
    match c.0 {
        180 => chars(0x1, 0x0, 0x0, false, true, 0, 0, 0x0),
        181 => chars(0x1, 0x0, 0x0, false, false, 0, 0, 0x0),
        182 => chars(0x1, 0x0, 0x0, false, true, 0, 0, 0x0),
        183 => chars(0x1, 0x0, 0x0, false, false, 0, 0, 0x0),
        184 => chars(0x1, 0x0, 0x0, false, false, 0, 0, 0x0),
        185 => chars(0x1, 0x0, 0x0, false, false, 0, 0, 0x0),
        186 => chars(0x1, 0x0, 0x0, false, false, 0, 0, 0x0),
        187 => chars(0x1, 0x0, 0x0, false, false, 0, 0, 0x0),
        188 => chars(0x1, 0x0, 0x0, false, false, 0, 0, 0x0),
        189 => chars(0x1, 0x0, 0x0, false, false, 0, 0, 0x0),
        190 => chars(0x1, 0x0, 0x0, false, false, 0, 0, 0x0),
        191 => chars(0x1, 0x0, 0x0, false, true, 0, 0, 0x0),
        _ => chars(0x0, 0x0, 0x0, false, false, 0, 0, 0x0),
    }
}

/// The characteristics a card (or face) prints. (cards 180 to 191).
fn card_chars_15(c: CardIndex) -> (r: Characteristics)
    ensures
        r == spec_card_chars_15(c),
{
    match c.0 {
        180 => chars(0x1, 0x0, 0x0, false, true, 0, 0, 0x0),
        181 => chars(0x1, 0x0, 0x0, false, false, 0, 0, 0x0),
        182 => chars(0x1, 0x0, 0x0, false, true, 0, 0, 0x0),
        183 => chars(0x1, 0x0, 0x0, false, false, 0, 0, 0x0),
        184 => chars(0x1, 0x0, 0x0, false, false, 0, 0, 0x0),
        185 => chars(0x1, 0x0, 0x0, false, false, 0, 0, 0x0),
        186 => chars(0x1, 0x0, 0x0, false, false, 0, 0, 0x0),
        187 => chars(0x1, 0x0, 0x0, false, false, 0, 0, 0x0),
        188 => chars(0x1, 0x0, 0x0, false, false, 0, 0, 0x0),
        189 => chars(0x1, 0x0, 0x0, false, false, 0, 0, 0x0),
        190 => chars(0x1, 0x0, 0x0, false, false, 0, 0, 0x0),
        191 => chars(0x1, 0x0, 0x0, false, true, 0, 0, 0x0),
        _ => chars(0x0, 0x0, 0x0, false, false, 0, 0, 0x0),
    }
}

/// The characteristics a card (or face) prints. (cards 192 to 203).
pub open spec fn spec_card_chars_16(c: CardIndex) -> Characteristics {
    match c.0 {
        192 => chars(0x1, 0x0, 0x0, false, false, 0, 0, 0x0),
        193 => chars(0x1, 0x0, 0x0, false, false, 0, 0, 0x0),
        194 => chars(0x1, 0x0, 0x0, false, false, 0, 0, 0x0),
        195 => chars(0x1, 0x0, 0x0, false, false, 0, 0, 0x0),
        196 => chars(0x1, 0x0, 0x0, false, false, 0, 0, 0x0),
        197 => chars(0x1, 0x0, 0x0, false, false, 0, 0, 0x0),
        198 => chars(0x1, 0x0, 0x0, false, false, 0, 0, 0x0),
        199 => chars(0x1, 0x0, 0x0, false, false, 0, 0, 0x0),
        200 => chars(0x1, 0x0, 0x0, false, true, 0, 0, 0x0),
        201 => chars(0x1, 0x0, 0x0, false, false, 0, 0, 0x0),
        202 => chars(0x1, 0x0, 0x0, false, false, 0, 0, 0x0),
        203 => chars(0x1, 0x0, 0x0, false, false, 0, 0, 0x0),
        _ => chars(0x0, 0x0, 0x0, false, false, 0, 0, 0x0),
    }
}

/// The characteristics a card (or face) prints. (cards 192 to 203).
fn card_chars_16(c: CardIndex) -> (r: Characteristics)
    ensures
        r == spec_card_chars_16(c),
{
    match c.0 {
        192 => chars(0x1, 0x0, 0x0, false, false, 0, 0, 0x0),
        193 => chars(0x1, 0x0, 0x0, false, false, 0, 0, 0x0),
        194 => chars(0x1, 0x0, 0x0, false, false, 0, 0, 0x0),
        195 => chars(0x1, 0x0, 0x0, false, false, 0, 0, 0x0),
        196 => chars(0x1, 0x0, 0x0, false, false, 0, 0, 0x0),
        197 => chars(0x1, 0x0, 0x0, false, false, 0, 0, 0x0),
        198 => chars(0x1, 0x0, 0x0, false, false, 0, 0, 0x0),
        199 => chars(0x1, 0x0, 0x0, false, false, 0, 0, 0x0),
        200 => chars(0x1, 0x0, 0x0, false, true, 0, 0, 0x0),
        201 => chars(0x1, 0x0, 0x0, false, false, 0, 0, 0x0),
        202 => chars(0x1, 0x0, 0x0, false, false, 0, 0, 0x0),
        203 => chars(0x1, 0x0, 0x0, false, false, 0, 0, 0x0),
        _ => chars(0x0, 0x0, 0x0, false, false, 0, 0, 0x0),
    }
}

/// The characteristics a card (or face) prints. (cards 204 to 215).
pub open spec fn spec_card_chars_17(c: CardIndex) -> Characteristics {
    match c.0 {
        204 => chars(0x1, 0x0, 0x0, false, false, 0, 0, 0x0),
        205 => chars(0x1, 0x0, 0x0, false, false, 0, 0, 0x0),
        206 => chars(0x1, 0x0, 0x0, false, false, 0, 0, 0x0),
        207 => chars(0x1, 0x0, 0x0, false, false, 0, 0, 0x0),
        208 => chars(0x1, 0x0, 0x0, false, true, 0, 0, 0x0),
        209 => chars(0x1, 0x0, 0x0, false, true, 0, 0, 0x0),
        210 => chars(0x1, 0x0, 0x0, false, false, 0, 0, 0x0),
        211 => chars(0x1, 0x0, 0x0, false, false, 0, 0, 0x0),
        212 => chars(0x1, 0x0, 0x0, false, false, 0, 0, 0x0),
        213 => chars(0x1, 0x0, 0x0, false, false, 0, 0, 0x0),
        214 => chars(0x1, 0x0, 0x0, false, false, 0, 0, 0x0),
        215 => chars(0x1, 0x0, 0x0, false, false, 0, 0, 0x0),
        _ => chars(0x0, 0x0, 0x0, false, false, 0, 0, 0x0),
    }
}

/// The characteristics a card (or face) prints. (cards 204 to 215).
fn card_chars_17(c: CardIndex) -> (r: Characteristics)
    ensures
        r == spec_card_chars_17(c),
{
    match c.0 {
        204 => chars(0x1, 0x0, 0x0, false, false, 0, 0, 0x0),
        205 => chars(0x1, 0x0, 0x0, false, false, 0, 0, 0x0),
        206 => chars(0x1, 0x0, 0x0, false, false, 0, 0, 0x0),
        207 => chars(0x1, 0x0, 0x0, false, false, 0, 0, 0x0),
        208 => chars(0x1, 0x0, 0x0, false, true, 0, 0, 0x0),
        209 => chars(0x1, 0x0, 0x0, false, true, 0, 0, 0x0),
        210 => chars(0x1, 0x0, 0x0, false, false, 0, 0, 0x0),
        211 => chars(0x1, 0x0, 0x0, false, false, 0, 0, 0x0),
        212 => chars(0x1, 0x0, 0x0, false, false, 0, 0, 0x0),
        213 => chars(0x1, 0x0, 0x0, false, false, 0, 0, 0x0),
        214 => chars(0x1, 0x0, 0x0, false, false, 0, 0, 0x0),
        215 => chars(0x1, 0x0, 0x0, false, false, 0, 0, 0x0),
        _ => chars(0x0, 0x0, 0x0, false, false, 0, 0, 0x0),
    }
}

/// The characteristics a card (or face) prints. (cards 216 to 227).
pub open spec fn spec_card_chars_18(c: CardIndex) -> Characteristics {
    match c.0 {
        216 => chars(0x1, 0x0, 0x0, false, false, 0, 0, 0x0),
        217 => chars(0x1, 0x0, 0x0, false, false, 0, 0, 0x0),
        218 => chars(0x1, 0x0, 0x0, false, false, 0, 0, 0x0),
        219 => chars(0x1, 0x0, 0x0, false, false, 0, 0, 0x0),
        220 => chars(0x1, 0x0, 0x0, false, false, 0, 0, 0x0),
        221 => chars(0x1, 0x0, 0x0, false, false, 0, 0, 0x0),
        222 => chars(0x1, 0x0, 0x0, false, false, 0, 0, 0x0),
        223 => chars(0x1, 0x0, 0x0, false, false, 0, 0, 0x0),
        224 => chars(0x1, 0x0, 0x0, false, false, 0, 0, 0x0),
        225 => chars(0x1, 0x0, 0x0, false, false, 0, 0, 0x0),
        226 => chars(0x1, 0x0, 0x0, false, false, 0, 0, 0x0),
        227 => chars(0x1, 0x0, 0x0, false, false, 0, 0, 0x0),
        _ => chars(0x0, 0x0, 0x0, false, false, 0, 0, 0x0),
    }
}

/// The characteristics a card (or face) prints. (cards 216 to 227).
fn card_chars_18(c: CardIndex) -> (r: Characteristics)
    ensures
        r == spec_card_chars_18(c),
{
    match c.0 {
        216 => chars(0x1, 0x0, 0x0, false, false, 0, 0, 0x0),
        217 => chars(0x1, 0x0, 0x0, false, false, 0, 0, 0x0),
        218 => chars(0x1, 0x0, 0x0, false, false, 0, 0, 0x0),
        219 => chars(0x1, 0x0, 0x0, false, false, 0, 0, 0x0),
        220 => chars(0x1, 0x0, 0x0, false, false, 0, 0, 0x0),
        221 => chars(0x1, 0x0, 0x0, false, false, 0, 0, 0x0),
        222 => chars(0x1, 0x0, 0x0, false, false, 0, 0, 0x0),
        223 => chars(0x1, 0x0, 0x0, false, false, 0, 0, 0x0),
        224 => chars(0x1, 0x0, 0x0, false, false, 0, 0, 0x0),
        225 => chars(0x1, 0x0, 0x0, false, false, 0, 0, 0x0),
        226 => chars(0x1, 0x0, 0x0, false, false, 0, 0, 0x0),
        227 => chars(0x1, 0x0, 0x0, false, false, 0, 0, 0x0),
        _ => chars(0x0, 0x0, 0x0, false, false, 0, 0, 0x0),
    }
}

/// The characteristics a card (or face) prints. (cards 228 to 239).
pub open spec fn spec_card_chars_19(c: CardIndex) -> Characteristics {
    match c.0 {
        228 => chars(0x1, 0x0, 0x0, false, false, 0, 0, 0x0),
        229 => chars(0x1, 0x0, 0x0, false, false, 0, 0, 0x0),
        230 => chars(0x1, 0x0, 0x0, false, false, 0, 0, 0x0),
        231 => chars(0x1, 0x20, 0x0, false, false, 0, 0, 0x0),
        232 => chars(0x1, 0x0, 0x0, false, false, 0, 0, 0x0),
        233 => chars(0x1, 0x0, 0x0, false, true, 0, 0, 0x0),
        234 => chars(0x1, 0x0, 0x0, false, false, 0, 0, 0x0),
        235 => chars(0x1, 0x0, 0x0, false, false, 0, 0, 0x0),
        236 => chars(0x1, 0x0, 0x0, false, false, 0, 0, 0x0),
        237 => chars(0x1, 0x0, 0x0, false, false, 0, 0, 0x0),
        238 => chars(0x1, 0x0, 0x0, false, false, 0, 0, 0x0),
        239 => chars(0x1, 0x0, 0x0, false, false, 0, 0, 0x0),
        _ => chars(0x0, 0x0, 0x0, false, false, 0, 0, 0x0),
    }
}

/// The characteristics a card (or face) prints. (cards 228 to 239).
fn card_chars_19(c: CardIndex) -> (r: Characteristics)
    ensures
        r == spec_card_chars_19(c),
{
    match c.0 {
        228 => chars(0x1, 0x0, 0x0, false, false, 0, 0, 0x0),
        229 => chars(0x1, 0x0, 0x0, false, false, 0, 0, 0x0),
        230 => chars(0x1, 0x0, 0x0, false, false, 0, 0, 0x0),
        231 => chars(0x1, 0x20, 0x0, false, false, 0, 0, 0x0),
        232 => chars(0x1, 0x0, 0x0, false, false, 0, 0, 0x0),
        233 => chars(0x1, 0x0, 0x0, false, true, 0, 0, 0x0),
        234 => chars(0x1, 0x0, 0x0, false, false, 0, 0, 0x0),
        235 => chars(0x1, 0x0, 0x0, false, false, 0, 0, 0x0),
        236 => chars(0x1, 0x0, 0x0, false, false, 0, 0, 0x0),
        237 => chars(0x1, 0x0, 0x0, false, false, 0, 0, 0x0),
        238 => chars(0x1, 0x0, 0x0, false, false, 0, 0, 0x0),
        239 => chars(0x1, 0x0, 0x0, false, false, 0, 0, 0x0),
        _ => chars(0x0, 0x0, 0x0, false, false, 0, 0, 0x0),
    }
}

/// The characteristics a card (or face) prints. (cards 240 to 251).
pub open spec fn spec_card_chars_20(c: CardIndex) -> Characteristics {
    match c.0 {
        240 => chars(0x1, 0x0, 0x0, false, false, 0, 0, 0x0),
        241 => chars(0x1, 0x0, 0x0, false, false, 0, 0, 0x0),
        242 => chars(0x1, 0x0, 0x0, false, false, 0, 0, 0x0),
        243 => chars(0x1, 0x0, 0x0, false, false, 0, 0, 0x0),
        244 => chars(0x1, 0x0, 0x0, false, false, 0, 0, 0x0),
        245 => chars(0x1, 0x0, 0x0, false, false, 0, 0, 0x0),
        246 => chars(0x1, 0x0, 0x0, false, false, 0, 0, 0x0),
        247 => chars(0x1, 0x0, 0x0, false, true, 0, 0, 0x0),
        248 => chars(0x1, 0x80, 0x0, false, false, 0, 0, 0x0),
        249 => chars(0x1, 0x0, 0x0, false, true, 0, 0, 0x0),
        250 => chars(0x1, 0x0, 0x0, false, false, 0, 0, 0x0),
        251 => chars(0x4, 0x400000000000, 0x0, false, false, 0, 0, 0x0),
        _ => chars(0x0, 0x0, 0x0, false, false, 0, 0, 0x0),
    }
}

/// The characteristics a card (or face) prints. (cards 240 to 251).
fn card_chars_20(c: CardIndex) -> (r: Characteristics)
    ensures
        r == spec_card_chars_20(c),
{
    match c.0 {
        240 => chars(0x1, 0x0, 0x0, false, false, 0, 0, 0x0),
        241 => chars(0x1, 0x0, 0x0, false, false, 0, 0, 0x0),
        242 => chars(0x1, 0x0, 0x0, false, false, 0, 0, 0x0),
        243 => chars(0x1, 0x0, 0x0, false, false, 0, 0, 0x0),
        244 => chars(0x1, 0x0, 0x0, false, false, 0, 0, 0x0),
        245 => chars(0x1, 0x0, 0x0, false, false, 0, 0, 0x0),
        246 => chars(0x1, 0x0, 0x0, false, false, 0, 0, 0x0),
        247 => chars(0x1, 0x0, 0x0, false, true, 0, 0, 0x0),
        248 => chars(0x1, 0x80, 0x0, false, false, 0, 0, 0x0),
        249 => chars(0x1, 0x0, 0x0, false, true, 0, 0, 0x0),
        250 => chars(0x1, 0x0, 0x0, false, false, 0, 0, 0x0),
        251 => chars(0x4, 0x400000000000, 0x0, false, false, 0, 0, 0x0),
        _ => chars(0x0, 0x0, 0x0, false, false, 0, 0, 0x0),
    }
}

/// The characteristics a card (or face) prints. (cards 252 to 263).
pub open spec fn spec_card_chars_21(c: CardIndex) -> Characteristics {
    match c.0 {
        252 => chars(0x4, 0x0, 0x0, false, false, 0, 0, 0x0),
        253 => chars(0x1, 0x0, 0x0, false, true, 0, 0, 0x0),
        254 => chars(0x1, 0x0, 0x0, false, false, 0, 0, 0x0),
        255 => chars(0x3, 0x100000000000001, 0x10, false, false, 1, 1, 0x0),
        256 => chars(0x1, 0x0, 0x0, false, true, 0, 0, 0x0),
        257 => chars(0x1, 0x0, 0x0, false, false, 0, 0, 0x0),
        258 => chars(0x1, 0x0, 0x0, false, false, 0, 0, 0x0),
        259 => chars(0x5, 0x0, 0x0, false, false, 0, 0, 0x0),
        260 => chars(0x1, 0x0, 0x0, false, false, 0, 0, 0x0),
        261 => chars(0x1, 0x0, 0x0, false, false, 0, 0, 0x0),
        262 => chars(0x1, 0x0, 0x0, false, false, 0, 0, 0x0),
        263 => chars(0x1, 0x0, 0x0, false, false, 0, 0, 0x0),
        _ => chars(0x0, 0x0, 0x0, false, false, 0, 0, 0x0),
    }
}

/// The characteristics a card (or face) prints. (cards 252 to 263).
fn card_chars_21(c: CardIndex) -> (r: Characteristics)
    ensures
        r == spec_card_chars_21(c),
{
    match c.0 {
        252 => chars(0x4, 0x0, 0x0, false, false, 0, 0, 0x0),
        253 => chars(0x1, 0x0, 0x0, false, true, 0, 0, 0x0),
        254 => chars(0x1, 0x0, 0x0, false, false, 0, 0, 0x0),
        255 => chars(0x3, 0x100000000000001, 0x10, false, false, 1, 1, 0x0),
        256 => chars(0x1, 0x0, 0x0, false, true, 0, 0, 0x0),
        257 => chars(0x1, 0x0, 0x0, false, false, 0, 0, 0x0),
        258 => chars(0x1, 0x0, 0x0, false, false, 0, 0, 0x0),
        259 => chars(0x5, 0x0, 0x0, false, false, 0, 0, 0x0),
        260 => chars(0x1, 0x0, 0x0, false, false, 0, 0, 0x0),
        261 => chars(0x1, 0x0, 0x0, false, false, 0, 0, 0x0),
        262 => chars(0x1, 0x0, 0x0, false, false, 0, 0, 0x0),
        263 => chars(0x1, 0x0, 0x0, false, false, 0, 0, 0x0),
        _ => chars(0x0, 0x0, 0x0, false, false, 0, 0, 0x0),
    }
}

/// The characteristics a card (or face) prints. (cards 264 to 275).
pub open spec fn spec_card_chars_22(c: CardIndex) -> Characteristics {
    match c.0 {
        264 => chars(0x1, 0x0, 0x0, false, false, 0, 0, 0x0),
        265 => chars(0x1, 0x0, 0x0, false, false, 0, 0, 0x0),
        266 => chars(0x1, 0x0, 0x0, false, false, 0, 0, 0x0),
        267 => chars(0x8, 0x0, 0x10, false, false, 0, 0, 0x0),
        268 => chars(0x1, 0x0, 0x0, false, false, 0, 0, 0x0),
        269 => chars(0x1, 0x0, 0x0, false, false, 0, 0, 0x0),
        270 => chars(0x1, 0x0, 0x0, false, false, 0, 0, 0x0),
        271 => chars(0x1, 0x0, 0x0, false, false, 0, 0, 0x0),
        272 => chars(0x1, 0x0, 0x0, false, false, 0, 0, 0x0),
        273 => chars(0x1, 0x0, 0x0, false, false, 0, 0, 0x0),
        274 => chars(0x1, 0x0, 0x0, false, false, 0, 0, 0x0),
        275 => chars(0x1, 0x0, 0x0, false, false, 0, 0, 0x0),
        _ => chars(0x0, 0x0, 0x0, false, false, 0, 0, 0x0),
    }
}

/// The characteristics a card (or face) prints. (cards 264 to 275).
fn card_chars_22(c: CardIndex) -> (r: Characteristics)
    ensures
        r == spec_card_chars_22(c),
{
    match c.0 {
        264 => chars(0x1, 0x0, 0x0, false, false, 0, 0, 0x0),
        265 => chars(0x1, 0x0, 0x0, false, false, 0, 0, 0x0),
        266 => chars(0x1, 0x0, 0x0, false, false, 0, 0, 0x0),
        267 => chars(0x8, 0x0, 0x10, false, false, 0, 0, 0x0),
        268 => chars(0x1, 0x0, 0x0, false, false, 0, 0, 0x0),
        269 => chars(0x1, 0x0, 0x0, false, false, 0, 0, 0x0),
        270 => chars(0x1, 0x0, 0x0, false, false, 0, 0, 0x0),
        271 => chars(0x1, 0x0, 0x0, false, false, 0, 0, 0x0),
        272 => chars(0x1, 0x0, 0x0, false, false, 0, 0, 0x0),
        273 => chars(0x1, 0x0, 0x0, false, false, 0, 0, 0x0),
        274 => chars(0x1, 0x0, 0x0, false, false, 0, 0, 0x0),
        275 => chars(0x1, 0x0, 0x0, false, false, 0, 0, 0x0),
        _ => chars(0x0, 0x0, 0x0, false, false, 0, 0, 0x0),
    }
}

/// The characteristics a card (or face) prints. (cards 276 to 287).
pub open spec fn spec_card_chars_23(c: CardIndex) -> Characteristics {
    match c.0 {
        276 => chars(0x1, 0x0, 0x0, false, false, 0, 0, 0x0),
        277 => chars(0x1, 0x0, 0x0, false, false, 0, 0, 0x0),
        278 => chars(0x1, 0x0, 0x0, false, false, 0, 0, 0x0),
        279 => chars(0x1, 0x0, 0x0, false, false, 0, 0, 0x0),
        280 => chars(0x1, 0x0, 0x0, false, false, 0, 0, 0x0),
        281 => chars(0x1, 0x0, 0x0, false, false, 0, 0, 0x0),
        282 => chars(0x1, 0x0, 0x0, false, false, 0, 0, 0x0),
        283 => chars(0x1, 0x0, 0x0, false, false, 0, 0, 0x0),
        284 => chars(0x1, 0x0, 0x0, false, false, 0, 0, 0x0),
        285 => chars(0x1, 0x0, 0x0, false, false, 0, 0, 0x0),
        286 => chars(0x1, 0x0, 0x0, false, false, 0, 0, 0x0),
        287 => chars(0x1, 0x0, 0x0, false, false, 0, 0, 0x0),
        _ => chars(0x0, 0x0, 0x0, false, false, 0, 0, 0x0),
    }
}

/// The characteristics a card (or face) prints. (cards 276 to 287).
fn card_chars_23(c: CardIndex) -> (r: Characteristics)
    ensures
        r == spec_card_chars_23(c),
{
    match c.0 {
        276 => chars(0x1, 0x0, 0x0, false, false, 0, 0, 0x0),
        277 => chars(0x1, 0x0, 0x0, false, false, 0, 0, 0x0),
        278 => chars(0x1, 0x0, 0x0, false, false, 0, 0, 0x0),
        279 => chars(0x1, 0x0, 0x0, false, false, 0, 0, 0x0),
        280 => chars(0x1, 0x0, 0x0, false, false, 0, 0, 0x0),
        281 => chars(0x1, 0x0, 0x0, false, false, 0, 0, 0x0),
        282 => chars(0x1, 0x0, 0x0, false, false, 0, 0, 0x0),
        283 => chars(0x1, 0x0, 0x0, false, false, 0, 0, 0x0),
        284 => chars(0x1, 0x0, 0x0, false, false, 0, 0, 0x0),
        285 => chars(0x1, 0x0, 0x0, false, false, 0, 0, 0x0),
        286 => chars(0x1, 0x0, 0x0, false, false, 0, 0, 0x0),
        287 => chars(0x1, 0x0, 0x0, false, false, 0, 0, 0x0),
        _ => chars(0x0, 0x0, 0x0, false, false, 0, 0, 0x0),
    }
}

/// The characteristics a card (or face) prints. (cards 288 to 299).
pub open spec fn spec_card_chars_24(c: CardIndex) -> Characteristics {
    match c.0 {
        288 => chars(0x1, 0x0, 0x0, false, false, 0, 0, 0x0),
        289 => chars(0x1, 0x0, 0x0, false, false, 0, 0, 0x0),
        290 => chars(0x1, 0x0, 0x0, false, false, 0, 0, 0x0),
        291 => chars(0x1, 0x0, 0x0, false, false, 0, 0, 0x0),
        292 => chars(0x1, 0x0, 0x0, false, false, 0, 0, 0x0),
        293 => chars(0x1, 0x0, 0x0, false, false, 0, 0, 0x0),
        294 => chars(0x1, 0x0, 0x0, false, false, 0, 0, 0x0),
        295 => chars(0x1, 0x0, 0x0, false, false, 0, 0, 0x0),
        296 => chars(0x1, 0x0, 0x0, false, false, 0, 0, 0x0),
        297 => chars(0x1, 0x0, 0x0, false, false, 0, 0, 0x0),
        298 => chars(0x1, 0x0, 0x0, false, true, 0, 0, 0x0),
        299 => chars(0x1, 0x0, 0x0, false, true, 0, 0, 0x0),
        _ => chars(0x0, 0x0, 0x0, false, false, 0, 0, 0x0),
    }
}

/// The characteristics a card (or face) prints. (cards 288 to 299).
fn card_chars_24(c: CardIndex) -> (r: Characteristics)
    ensures
        r == spec_card_chars_24(c),
{
    match c.0 {
        288 => chars(0x1, 0x0, 0x0, false, false, 0, 0, 0x0),
        289 => chars(0x1, 0x0, 0x0, false, false, 0, 0, 0x0),
        290 => chars(0x1, 0x0, 0x0, false, false, 0, 0, 0x0),
        291 => chars(0x1, 0x0, 0x0, false, false, 0, 0, 0x0),
        292 => chars(0x1, 0x0, 0x0, false, false, 0, 0, 0x0),
        293 => chars(0x1, 0x0, 0x0, false, false, 0, 0, 0x0),
        294 => chars(0x1, 0x0, 0x0, false, false, 0, 0, 0x0),
        295 => chars(0x1, 0x0, 0x0, false, false, 0, 0, 0x0),
        296 => chars(0x1, 0x0, 0x0, false, false, 0, 0, 0x0),
        297 => chars(0x1, 0x0, 0x0, false, false, 0, 0, 0x0),
        298 => chars(0x1, 0x0, 0x0, false, true, 0, 0, 0x0),
        299 => chars(0x1, 0x0, 0x0, false, true, 0, 0, 0x0),
        _ => chars(0x0, 0x0, 0x0, false, false, 0, 0, 0x0),
    }
}

/// The characteristics a card (or face) prints. (cards 300 to 311).
pub open spec fn spec_card_chars_25(c: CardIndex) -> Characteristics {
    match c.0 {
        300 => chars(0x1, 0x80, 0x0, false, false, 0, 0, 0x0),
        301 => chars(0x1, 0x80, 0x0, false, false, 0, 0, 0x0),
        302 => chars(0x1, 0x80, 0x0, false, false, 0, 0, 0x0),
        303 => chars(0x1, 0x0, 0x0, false, false, 0, 0, 0x0),
        304 => chars(0x1, 0x0, 0x0, false, false, 0, 0, 0x0),
        305 => chars(0x1, 0x0, 0x0, false, false, 0, 0, 0x0),
        306 => chars(0x1, 0x0, 0x0, false, false, 0, 0, 0x0),
        307 => chars(0x1, 0x0, 0x0, false, false, 0, 0, 0x0),
        308 => chars(0x1, 0x0, 0x0, false, false, 0, 0, 0x0),
        309 => chars(0x1, 0x0, 0x0, false, false, 0, 0, 0x0),
        310 => chars(0x1, 0x0, 0x0, false, false, 0, 0, 0x0),
        311 => chars(0x1, 0x0, 0x0, false, false, 0, 0, 0x0),
        _ => chars(0x0, 0x0, 0x0, false, false, 0, 0, 0x0),
    }
}

/// The characteristics a card (or face) prints. (cards 300 to 311).
fn card_chars_25(c: CardIndex) -> (r: Characteristics)
    ensures
        r == spec_card_chars_25(c),
{
    match c.0 {
        300 => chars(0x1, 0x80, 0x0, false, false, 0, 0, 0x0),
        301 => chars(0x1, 0x80, 0x0, false, false, 0, 0, 0x0),
        302 => chars(0x1, 0x80, 0x0, false, false, 0, 0, 0x0),
        303 => chars(0x1, 0x0, 0x0, false, false, 0, 0, 0x0),
        304 => chars(0x1, 0x0, 0x0, false, false, 0, 0, 0x0),
        305 => chars(0x1, 0x0, 0x0, false, false, 0, 0, 0x0),
        306 => chars(0x1, 0x0, 0x0, false, false, 0, 0, 0x0),
        307 => chars(0x1, 0x0, 0x0, false, false, 0, 0, 0x0),
        308 => chars(0x1, 0x0, 0x0, false, false, 0, 0, 0x0),
        309 => chars(0x1, 0x0, 0x0, false, false, 0, 0, 0x0),
        310 => chars(0x1, 0x0, 0x0, false, false, 0, 0, 0x0),
        311 => chars(0x1, 0x0, 0x0, false, false, 0, 0, 0x0),
        _ => chars(0x0, 0x0, 0x0, false, false, 0, 0, 0x0),
    }
}

/// The characteristics a card (or face) prints. (cards 312 to 323).
pub open spec fn spec_card_chars_26(c: CardIndex) -> Characteristics {
    match c.0 {
        312 => chars(0x1, 0x0, 0x0, false, false, 0, 0, 0x0),
        313 => chars(0x1, 0x0, 0x0, false, false, 0, 0, 0x0),
        314 => chars(0x1, 0x0, 0x0, false, false, 0, 0, 0x0),
        315 => chars(0x1, 0x0, 0x0, false, false, 0, 0, 0x0),
        316 => chars(0x1, 0x0, 0x0, false, false, 0, 0, 0x0),
        317 => chars(0x1, 0x0, 0x0, false, false, 0, 0, 0x0),
        318 => chars(0x1, 0x0, 0x0, false, false, 0, 0, 0x0),
        319 => chars(0x1, 0x0, 0x0, false, false, 0, 0, 0x0),
        320 => chars(0x1, 0x0, 0x0, false, false, 0, 0, 0x0),
        321 => chars(0x1, 0x0, 0x0, false, true, 0, 0, 0x0),
        322 => chars(0x1, 0x0, 0x0, false, false, 0, 0, 0x0),
        323 => chars(0x1, 0x0, 0x0, false, false, 0, 0, 0x0),
        _ => chars(0x0, 0x0, 0x0, false, false, 0, 0, 0x0),
    }
}

/// The characteristics a card (or face) prints. (cards 312 to 323).
fn card_chars_26(c: CardIndex) -> (r: Characteristics)
    ensures
        r == spec_card_chars_26(c),
{
    match c.0 {
        312 => chars(0x1, 0x0, 0x0, false, false, 0, 0, 0x0),
        313 => chars(0x1, 0x0, 0x0, false, false, 0, 0, 0x0),
        314 => chars(0x1, 0x0, 0x0, false, false, 0, 0, 0x0),
        315 => chars(0x1, 0x0, 0x0, false, false, 0, 0, 0x0),
        316 => chars(0x1, 0x0, 0x0, false, false, 0, 0, 0x0),
        317 => chars(0x1, 0x0, 0x0, false, false, 0, 0, 0x0),
        318 => chars(0x1, 0x0, 0x0, false, false, 0, 0, 0x0),
        319 => chars(0x1, 0x0, 0x0, false, false, 0, 0, 0x0),
        320 => chars(0x1, 0x0, 0x0, false, false, 0, 0, 0x0),
        321 => chars(0x1, 0x0, 0x0, false, true, 0, 0, 0x0),
        322 => chars(0x1, 0x0, 0x0, false, false, 0, 0, 0x0),
        323 => chars(0x1, 0x0, 0x0, false, false, 0, 0, 0x0),
        _ => chars(0x0, 0x0, 0x0, false, false, 0, 0, 0x0),
    }
}

/// The characteristics a card (or face) prints. (cards 324 to 335).
pub open spec fn spec_card_chars_27(c: CardIndex) -> Characteristics {
    match c.0 {
        324 => chars(0x1, 0x0, 0x0, false, false, 0, 0, 0x0),
        325 => chars(0x1, 0x0, 0x0, false, false, 0, 0, 0x0),
        326 => chars(0x1, 0x0, 0x0, false, false, 0, 0, 0x0),
        327 => chars(0x1, 0x0, 0x0, false, false, 0, 0, 0x0),
        328 => chars(0x1, 0x0, 0x0, false, true, 0, 0, 0x0),
        329 => chars(0x1, 0x0, 0x0, false, false, 0, 0, 0x0),
        330 => chars(0x1, 0x0, 0x0, false, true, 0, 0, 0x0),
        331 => chars(0x1, 0x0, 0x0, false, true, 0, 0, 0x0),
        332 => chars(0x1, 0x0, 0x0, false, true, 0, 0, 0x0),
        333 => chars(0x1, 0xc, 0x0, false, false, 0, 0, 0x0),
        334 => chars(0x1, 0xa, 0x0, false, false, 0, 0, 0x0),
        335 => chars(0x1, 0x6, 0x0, false, false, 0, 0, 0x0),
        _ => chars(0x0, 0x0, 0x0, false, false, 0, 0, 0x0),
    }
}

/// The characteristics a card (or face) prints. (cards 324 to 335).
fn card_chars_27(c: CardIndex) -> (r: Characteristics)
    ensures
        r == spec_card_chars_27(c),
{
    match c.0 {
        324 => chars(0x1, 0x0, 0x0, false, false, 0, 0, 0x0),
        325 => chars(0x1, 0x0, 0x0, false, false, 0, 0, 0x0),
        326 => chars(0x1, 0x0, 0x0, false, false, 0, 0, 0x0),
        327 => chars(0x1, 0x0, 0x0, false, false, 0, 0, 0x0),
        328 => chars(0x1, 0x0, 0x0, false, true, 0, 0, 0x0),
        329 => chars(0x1, 0x0, 0x0, false, false, 0, 0, 0x0),
        330 => chars(0x1, 0x0, 0x0, false, true, 0, 0, 0x0),
        331 => chars(0x1, 0x0, 0x0, false, true, 0, 0, 0x0),
        332 => chars(0x1, 0x0, 0x0, false, true, 0, 0, 0x0),
        333 => chars(0x1, 0xc, 0x0, false, false, 0, 0, 0x0),
        334 => chars(0x1, 0xa, 0x0, false, false, 0, 0, 0x0),
        335 => chars(0x1, 0x6, 0x0, false, false, 0, 0, 0x0),
        _ => chars(0x0, 0x0, 0x0, false, false, 0, 0, 0x0),
    }
}

/// The characteristics a card (or face) prints. (cards 336 to 347).
pub open spec fn spec_card_chars_28(c: CardIndex) -> Characteristics {
    match c.0 {
        336 => chars(0x1, 0x0, 0x0, false, true, 0, 0, 0x0),
        337 => chars(0x2, 0x400000000000000, 0x8, false, false, 1, 1, 0x0),
        338 => chars(0x4, 0x800000000000000, 0x0, false, false, 0, 0, 0x0),
        339 => chars(0x1, 0x10, 0x0, false, false, 0, 0, 0x0),
        340 => chars(0x1, 0x8, 0x0, false, false, 0, 0, 0x0),
        341 => chars(0x1, 0x1, 0x0, false, false, 0, 0, 0x0),
        342 => chars(0x1, 0x0, 0x0, false, false, 0, 0, 0x0),
        343 => chars(0x1, 0x0, 0x0, false, false, 0, 0, 0x0),
        344 => chars(0x1, 0x80, 0x0, false, false, 0, 0, 0x0),
        345 => chars(0x1, 0x0, 0x0, false, false, 0, 0, 0x0),
        346 => chars(0x1, 0x0, 0x0, false, false, 0, 0, 0x0),
        347 => chars(0x1, 0x0, 0x0, false, false, 0, 0, 0x0),
        _ => chars(0x0, 0x0, 0x0, false, false, 0, 0, 0x0),
    }
}

/// The characteristics a card (or face) prints. (cards 336 to 347).
fn card_chars_28(c: CardIndex) -> (r: Characteristics)
    ensures
        r == spec_card_chars_28(c),
{
    match c.0 {
        336 => chars(0x1, 0x0, 0x0, false, true, 0, 0, 0x0),
        337 => chars(0x2, 0x400000000000000, 0x8, false, false, 1, 1, 0x0),
        338 => chars(0x4, 0x800000000000000, 0x0, false, false, 0, 0, 0x0),
        339 => chars(0x1, 0x10, 0x0, false, false, 0, 0, 0x0),
        340 => chars(0x1, 0x8, 0x0, false, false, 0, 0, 0x0),
        341 => chars(0x1, 0x1, 0x0, false, false, 0, 0, 0x0),
        342 => chars(0x1, 0x0, 0x0, false, false, 0, 0, 0x0),
        343 => chars(0x1, 0x0, 0x0, false, false, 0, 0, 0x0),
        344 => chars(0x1, 0x80, 0x0, false, false, 0, 0, 0x0),
        345 => chars(0x1, 0x0, 0x0, false, false, 0, 0, 0x0),
        346 => chars(0x1, 0x0, 0x0, false, false, 0, 0, 0x0),
        347 => chars(0x1, 0x0, 0x0, false, false, 0, 0, 0x0),
        _ => chars(0x0, 0x0, 0x0, false, false, 0, 0, 0x0),
    }
}

/// The characteristics a card (or face) prints. (cards 348 to 359).
pub open spec fn spec_card_chars_29(c: CardIndex) -> Characteristics {
    match c.0 {
        348 => chars(0x2, 0x2040000000000, 0x2, false, true, 5, 5, 0x0),
        349 => chars(0x1, 0x6, 0x0, false, false, 0, 0, 0x0),
        350 => chars(0x1, 0x12, 0x0, false, false, 0, 0, 0x0),
        351 => chars(0x1, 0x0, 0x0, false, false, 0, 0, 0x0),
        352 => chars(0x1, 0x0, 0x0, false, false, 0, 0, 0x0),
        353 => chars(0x1, 0x0, 0x0, false, false, 0, 0, 0x0),
        354 => chars(0x1, 0x0, 0x0, false, false, 0, 0, 0x0),
        355 => chars(0x1, 0x0, 0x0, false, false, 0, 0, 0x0),
        356 => chars(0x1, 0x0, 0x0, false, false, 0, 0, 0x0),
        357 => chars(0x1, 0x0, 0x0, false, false, 0, 0, 0x0),
        358 => chars(0x1, 0x0, 0x0, false, false, 0, 0, 0x0),
        359 => chars(0x1, 0x0, 0x0, false, false, 0, 0, 0x0),
        _ => chars(0x0, 0x0, 0x0, false, false, 0, 0, 0x0),
    }
}

/// The characteristics a card (or face) prints. (cards 348 to 359).
fn card_chars_29(c: CardIndex) -> (r: Characteristics)
    ensures
        r == spec_card_chars_29(c),
{
    match c.0 {
        348 => chars(0x2, 0x2040000000000, 0x2, false, true, 5, 5, 0x0),
        349 => chars(0x1, 0x6, 0x0, false, false, 0, 0, 0x0),
        350 => chars(0x1, 0x12, 0x0, false, false, 0, 0, 0x0),
        351 => chars(0x1, 0x0, 0x0, false, false, 0, 0, 0x0),
        352 => chars(0x1, 0x0, 0x0, false, false, 0, 0, 0x0),
        353 => chars(0x1, 0x0, 0x0, false, false, 0, 0, 0x0),
        354 => chars(0x1, 0x0, 0x0, false, false, 0, 0, 0x0),
        355 => chars(0x1, 0x0, 0x0, false, false, 0, 0, 0x0),
        356 => chars(0x1, 0x0, 0x0, false, false, 0, 0, 0x0),
        357 => chars(0x1, 0x0, 0x0, false, false, 0, 0, 0x0),
        358 => chars(0x1, 0x0, 0x0, false, false, 0, 0, 0x0),
        359 => chars(0x1, 0x0, 0x0, false, false, 0, 0, 0x0),
        _ => chars(0x0, 0x0, 0x0, false, false, 0, 0, 0x0),
    }
}

/// The characteristics a card (or face) prints. (cards 360 to 371).
pub open spec fn spec_card_chars_30(c: CardIndex) -> Characteristics {
    match c.0 {
        360 => chars(0x1, 0x0, 0x0, false, false, 0, 0, 0x0),
        361 => chars(0x1, 0x0, 0x0, false, false, 0, 0, 0x0),
        362 => chars(0x1, 0x5, 0x0, false, false, 0, 0, 0x0),
        363 => chars(0x1, 0x14, 0x0, false, false, 0, 0, 0x0),
        364 => chars(0x1, 0xa, 0x0, false, false, 0, 0, 0x0),
        365 => chars(0x1, 0x18, 0x0, false, false, 0, 0, 0x0),
        366 => chars(0x1, 0x3, 0x0, false, false, 0, 0, 0x0),
        367 => chars(0x1, 0x0, 0x0, false, false, 0, 0, 0x0),
        368 => chars(0x1, 0x0, 0x0, false, false, 0, 0, 0x0),
        369 => chars(0x1, 0x0, 0x0, false, false, 0, 0, 0x0),
        370 => chars(0x1, 0x0, 0x0, false, false, 0, 0, 0x0),
        371 => chars(0x1, 0x0, 0x0, false, false, 0, 0, 0x0),
        _ => chars(0x0, 0x0, 0x0, false, false, 0, 0, 0x0),
    }
}

/// The characteristics a card (or face) prints. (cards 360 to 371).
fn card_chars_30(c: CardIndex) -> (r: Characteristics)
    ensures
        r == spec_card_chars_30(c),
{
    match c.0 {
        360 => chars(0x1, 0x0, 0x0, false, false, 0, 0, 0x0),
        361 => chars(0x1, 0x0, 0x0, false, false, 0, 0, 0x0),
        362 => chars(0x1, 0x5, 0x0, false, false, 0, 0, 0x0),
        363 => chars(0x1, 0x14, 0x0, false, false, 0, 0, 0x0),
        364 => chars(0x1, 0xa, 0x0, false, false, 0, 0, 0x0),
        365 => chars(0x1, 0x18, 0x0, false, false, 0, 0, 0x0),
        366 => chars(0x1, 0x3, 0x0, false, false, 0, 0, 0x0),
        367 => chars(0x1, 0x0, 0x0, false, false, 0, 0, 0x0),
        368 => chars(0x1, 0x0, 0x0, false, false, 0, 0, 0x0),
        369 => chars(0x1, 0x0, 0x0, false, false, 0, 0, 0x0),
        370 => chars(0x1, 0x0, 0x0, false, false, 0, 0, 0x0),
        371 => chars(0x1, 0x0, 0x0, false, false, 0, 0, 0x0),
        _ => chars(0x0, 0x0, 0x0, false, false, 0, 0, 0x0),
    }
}

/// The characteristics a card (or face) prints. (cards 372 to 383).
pub open spec fn spec_card_chars_31(c: CardIndex) -> Characteristics {
    match c.0 {
        372 => chars(0x1, 0x0, 0x0, false, false, 0, 0, 0x0),
        373 => chars(0x1, 0x0, 0x0, false, false, 0, 0, 0x0),
        374 => chars(0x1, 0x0, 0x0, false, false, 0, 0, 0x0),
        375 => chars(0x1, 0x0, 0x0, false, false, 0, 0, 0x0),
        376 => chars(0x1, 0x0, 0x0, false, false, 0, 0, 0x0),
        377 => chars(0x1, 0x9, 0x0, false, false, 0, 0, 0x0),
        378 => chars(0x1, 0x18, 0x0, false, false, 0, 0, 0x0),
        379 => chars(0x1, 0x3, 0x0, false, false, 0, 0, 0x0),
        380 => chars(0x1, 0x11, 0x0, false, false, 0, 0, 0x0),
        381 => chars(0x1, 0x12, 0x0, false, false, 0, 0, 0x0),
        382 => chars(0x1, 0x14, 0x0, false, false, 0, 0, 0x0),
        383 => chars(0x1, 0x5, 0x0, false, false, 0, 0, 0x0),
        _ => chars(0x0, 0x0, 0x0, false, false, 0, 0, 0x0),
    }
}

/// The characteristics a card (or face) prints. (cards 372 to 383).
fn card_chars_31(c: CardIndex) -> (r: Characteristics)
    ensures
        r == spec_card_chars_31(c),
{
    match c.0 {
        372 => chars(0x1, 0x0, 0x0, false, false, 0, 0, 0x0),
        373 => chars(0x1, 0x0, 0x0, false, false, 0, 0, 0x0),
        374 => chars(0x1, 0x0, 0x0, false, false, 0, 0, 0x0),
        375 => chars(0x1, 0x0, 0x0, false, false, 0, 0, 0x0),
        376 => chars(0x1, 0x0, 0x0, false, false, 0, 0, 0x0),
        377 => chars(0x1, 0x9, 0x0, false, false, 0, 0, 0x0),
        378 => chars(0x1, 0x18, 0x0, false, false, 0, 0, 0x0),
        379 => chars(0x1, 0x3, 0x0, false, false, 0, 0, 0x0),
        380 => chars(0x1, 0x11, 0x0, false, false, 0, 0, 0x0),
        381 => chars(0x1, 0x12, 0x0, false, false, 0, 0, 0x0),
        382 => chars(0x1, 0x14, 0x0, false, false, 0, 0, 0x0),
        383 => chars(0x1, 0x5, 0x0, false, false, 0, 0, 0x0),
        _ => chars(0x0, 0x0, 0x0, false, false, 0, 0, 0x0),
    }
}

/// The characteristics a card (or face) prints. (cards 384 to 395).
pub open spec fn spec_card_chars_32(c: CardIndex) -> Characteristics {
    match c.0 {
        384 => chars(0x1, 0x20, 0x0, false, false, 0, 0, 0x0),
        385 => chars(0x1, 0x0, 0x0, false, false, 0, 0, 0x0),
        386 => chars(0x1, 0x0, 0x0, false, false, 0, 0, 0x0),
        387 => chars(0x1, 0x0, 0x0, false, false, 0, 0, 0x0),
        388 => chars(0x1, 0x0, 0x0, false, false, 0, 0, 0x0),
        389 => chars(0x1, 0x0, 0x0, false, false, 0, 0, 0x0),
        390 => chars(0x1, 0x0, 0x0, false, false, 0, 0, 0x0),
        391 => chars(0x1, 0x0, 0x0, false, false, 0, 0, 0x0),
        392 => chars(0x1, 0x0, 0x0, false, false, 0, 0, 0x0),
        393 => chars(0x1, 0x0, 0x0, false, false, 0, 0, 0x0),
        394 => chars(0x1, 0x0, 0x0, false, false, 0, 0, 0x0),
        395 => chars(0x1, 0x0, 0x0, false, false, 0, 0, 0x0),
        _ => chars(0x0, 0x0, 0x0, false, false, 0, 0, 0x0),
    }
}

/// The characteristics a card (or face) prints. (cards 384 to 395).
fn card_chars_32(c: CardIndex) -> (r: Characteristics)
    ensures
        r == spec_card_chars_32(c),
{
    match c.0 {
        384 => chars(0x1, 0x20, 0x0, false, false, 0, 0, 0x0),
        385 => chars(0x1, 0x0, 0x0, false, false, 0, 0, 0x0),
        386 => chars(0x1, 0x0, 0x0, false, false, 0, 0, 0x0),
        387 => chars(0x1, 0x0, 0x0, false, false, 0, 0, 0x0),
        388 => chars(0x1, 0x0, 0x0, false, false, 0, 0, 0x0),
        389 => chars(0x1, 0x0, 0x0, false, false, 0, 0, 0x0),
        390 => chars(0x1, 0x0, 0x0, false, false, 0, 0, 0x0),
        391 => chars(0x1, 0x0, 0x0, false, false, 0, 0, 0x0),
        392 => chars(0x1, 0x0, 0x0, false, false, 0, 0, 0x0),
        393 => chars(0x1, 0x0, 0x0, false, false, 0, 0, 0x0),
        394 => chars(0x1, 0x0, 0x0, false, false, 0, 0, 0x0),
        395 => chars(0x1, 0x0, 0x0, false, false, 0, 0, 0x0),
        _ => chars(0x0, 0x0, 0x0, false, false, 0, 0, 0x0),
    }
}

/// The characteristics a card (or face) prints. (cards 396 to 407).
pub open spec fn spec_card_chars_33(c: CardIndex) -> Characteristics {
    match c.0 {
        396 => chars(0x1, 0x0, 0x0, false, false, 0, 0, 0x0),
        397 => chars(0x1, 0x0, 0x0, false, false, 0, 0, 0x0),
        398 => chars(0x1, 0x0, 0x0, false, false, 0, 0, 0x0),
        399 => chars(0x1, 0x0, 0x0, false, false, 0, 0, 0x0),
        400 => chars(0x1, 0x0, 0x0, false, false, 0, 0, 0x0),
        401 => chars(0x1, 0x0, 0x0, false, false, 0, 0, 0x0),
        402 => chars(0x1, 0x0, 0x0, false, false, 0, 0, 0x0),
        403 => chars(0x1, 0x0, 0x0, false, false, 0, 0, 0x0),
        404 => chars(0x1, 0x0, 0x0, false, false, 0, 0, 0x0),
        405 => chars(0x1, 0x0, 0x0, false, false, 0, 0, 0x0),
        406 => chars(0x1, 0x0, 0x0, false, false, 0, 0, 0x0),
        407 => chars(0x1, 0x0, 0x0, false, false, 0, 0, 0x0),
        _ => chars(0x0, 0x0, 0x0, false, false, 0, 0, 0x0),
    }
}

/// The characteristics a card (or face) prints. (cards 396 to 407).
fn card_chars_33(c: CardIndex) -> (r: Characteristics)
    ensures
        r == spec_card_chars_33(c),
{
    match c.0 {
        396 => chars(0x1, 0x0, 0x0, false, false, 0, 0, 0x0),
        397 => chars(0x1, 0x0, 0x0, false, false, 0, 0, 0x0),
        398 => chars(0x1, 0x0, 0x0, false, false, 0, 0, 0x0),
        399 => chars(0x1, 0x0, 0x0, false, false, 0, 0, 0x0),
        400 => chars(0x1, 0x0, 0x0, false, false, 0, 0, 0x0),
        401 => chars(0x1, 0x0, 0x0, false, false, 0, 0, 0x0),
        402 => chars(0x1, 0x0, 0x0, false, false, 0, 0, 0x0),
        403 => chars(0x1, 0x0, 0x0, false, false, 0, 0, 0x0),
        404 => chars(0x1, 0x0, 0x0, false, false, 0, 0, 0x0),
        405 => chars(0x1, 0x0, 0x0, false, false, 0, 0, 0x0),
        406 => chars(0x1, 0x0, 0x0, false, false, 0, 0, 0x0),
        407 => chars(0x1, 0x0, 0x0, false, false, 0, 0, 0x0),
        _ => chars(0x0, 0x0, 0x0, false, false, 0, 0, 0x0),
    }
}

/// The characteristics a card (or face) prints. (cards 408 to 419).
pub open spec fn spec_card_chars_34(c: CardIndex) -> Characteristics {
    match c.0 {
        408 => chars(0x1, 0x0, 0x0, false, false, 0, 0, 0x0),
        409 => chars(0x1, 0x0, 0x0, false, false, 0, 0, 0x0),
        410 => chars(0x1, 0x0, 0x0, false, false, 0, 0, 0x0),
        411 => chars(0x1, 0x0, 0x0, false, false, 0, 0, 0x0),
        412 => chars(0x1, 0x0, 0x0, false, false, 0, 0, 0x0),
        413 => chars(0x1, 0x0, 0x0, false, false, 0, 0, 0x0),
        414 => chars(0x1, 0x0, 0x0, false, false, 0, 0, 0x0),
        415 => chars(0x1, 0x200000000000000, 0x0, false, false, 0, 0, 0x0),
        416 => chars(0x1, 0x200000000000000, 0x0, false, false, 0, 0, 0x0),
        417 => chars(0x1, 0x200000000000000, 0x0, false, false, 0, 0, 0x0),
        418 => chars(0x1, 0x200000000000000, 0x0, false, false, 0, 0, 0x0),
        419 => chars(0x1, 0x200000000000000, 0x0, false, false, 0, 0, 0x0),
        _ => chars(0x0, 0x0, 0x0, false, false, 0, 0, 0x0),
    }
}

/// The characteristics a card (or face) prints. (cards 408 to 419).
fn card_chars_34(c: CardIndex) -> (r: Characteristics)
    ensures
        r == spec_card_chars_34(c),
{
    match c.0 {
        408 => chars(0x1, 0x0, 0x0, false, false, 0, 0, 0x0),
        409 => chars(0x1, 0x0, 0x0, false, false, 0, 0, 0x0),
        410 => chars(0x1, 0x0, 0x0, false, false, 0, 0, 0x0),
        411 => chars(0x1, 0x0, 0x0, false, false, 0, 0, 0x0),
        412 => chars(0x1, 0x0, 0x0, false, false, 0, 0, 0x0),
        413 => chars(0x1, 0x0, 0x0, false, false, 0, 0, 0x0),
        414 => chars(0x1, 0x0, 0x0, false, false, 0, 0, 0x0),
        415 => chars(0x1, 0x200000000000000, 0x0, false, false, 0, 0, 0x0),
        416 => chars(0x1, 0x200000000000000, 0x0, false, false, 0, 0, 0x0),
        417 => chars(0x1, 0x200000000000000, 0x0, false, false, 0, 0, 0x0),
        418 => chars(0x1, 0x200000000000000, 0x0, false, false, 0, 0, 0x0),
        419 => chars(0x1, 0x200000000000000, 0x0, false, false, 0, 0, 0x0),
        _ => chars(0x0, 0x0, 0x0, false, false, 0, 0, 0x0),
    }
}

/// The characteristics a card (or face) prints. (cards 420 to 431).
pub open spec fn spec_card_chars_35(c: CardIndex) -> Characteristics {
    match c.0 {
        420 => chars(0x1, 0x0, 0x0, false, false, 0, 0, 0x0),
        421 => chars(0x1, 0x0, 0x0, false, false, 0, 0, 0x0),
        422 => chars(0x1, 0x0, 0x0, false, false, 0, 0, 0x0),
        423 => chars(0x1, 0x0, 0x0, false, false, 0, 0, 0x0),
        424 => chars(0x1, 0x0, 0x0, false, false, 0, 0, 0x0),
        425 => chars(0x1, 0x0, 0x0, false, false, 0, 0, 0x0),
        426 => chars(0x1, 0x0, 0x0, false, false, 0, 0, 0x0),
        427 => chars(0x1, 0x0, 0x0, false, true, 0, 0, 0x0),
        428 => chars(0x1, 0x0, 0x0, false, true, 0, 0, 0x0),
        429 => chars(0x1, 0x0, 0x0, false, false, 0, 0, 0x0),
        430 => chars(0x1, 0x0, 0x0, false, false, 0, 0, 0x0),
        431 => chars(0x1, 0x0, 0x0, false, false, 0, 0, 0x0),
        _ => chars(0x0, 0x0, 0x0, false, false, 0, 0, 0x0),
    }
}

/// The characteristics a card (or face) prints. (cards 420 to 431).
fn card_chars_35(c: CardIndex) -> (r: Characteristics)
    ensures
        r == spec_card_chars_35(c),
{
    match c.0 {
        420 => chars(0x1, 0x0, 0x0, false, false, 0, 0, 0x0),
        421 => chars(0x1, 0x0, 0x0, false, false, 0, 0, 0x0),
        422 => chars(0x1, 0x0, 0x0, false, false, 0, 0, 0x0),
        423 => chars(0x1, 0x0, 0x0, false, false, 0, 0, 0x0),
        424 => chars(0x1, 0x0, 0x0, false, false, 0, 0, 0x0),
        425 => chars(0x1, 0x0, 0x0, false, false, 0, 0, 0x0),
        426 => chars(0x1, 0x0, 0x0, false, false, 0, 0, 0x0),
        427 => chars(0x1, 0x0, 0x0, false, true, 0, 0, 0x0),
        428 => chars(0x1, 0x0, 0x0, false, true, 0, 0, 0x0),
        429 => chars(0x1, 0x0, 0x0, false, false, 0, 0, 0x0),
        430 => chars(0x1, 0x0, 0x0, false, false, 0, 0, 0x0),
        431 => chars(0x1, 0x0, 0x0, false, false, 0, 0, 0x0),
        _ => chars(0x0, 0x0, 0x0, false, false, 0, 0, 0x0),
    }
}

/// The characteristics a card (or face) prints. (cards 432 to 443).
pub open spec fn spec_card_chars_36(c: CardIndex) -> Characteristics {
    match c.0 {
        432 => chars(0x1, 0x0, 0x0, false, false, 0, 0, 0x0),
        433 => chars(0x1, 0x0, 0x0, false, false, 0, 0, 0x0),
        434 => chars(0x1, 0x0, 0x0, false, false, 0, 0, 0x0),
        435 => chars(0x1, 0x0, 0x0, false, false, 0, 0, 0x0),
        436 => chars(0x1, 0x0, 0x0, false, false, 0, 0, 0x0),
        437 => chars(0x1, 0x0, 0x0, false, false, 0, 0, 0x0),
        438 => chars(0x1, 0x0, 0x0, false, false, 0, 0, 0x0),
        439 => chars(0x1, 0x0, 0x0, false, false, 0, 0, 0x0),
        440 => chars(0x1, 0x0, 0x0, false, false, 0, 0, 0x0),
        441 => chars(0x1, 0x0, 0x0, false, false, 0, 0, 0x0),
        442 => chars(0x1, 0x0, 0x0, false, true, 0, 0, 0x0),
        443 => chars(0x1, 0x0, 0x0, false, false, 0, 0, 0x0),
        _ => chars(0x0, 0x0, 0x0, false, false, 0, 0, 0x0),
    }
}

/// The characteristics a card (or face) prints. (cards 432 to 443).
fn card_chars_36(c: CardIndex) -> (r: Characteristics)
    ensures
        r == spec_card_chars_36(c),
{
    match c.0 {
        432 => chars(0x1, 0x0, 0x0, false, false, 0, 0, 0x0),
        433 => chars(0x1, 0x0, 0x0, false, false, 0, 0, 0x0),
        434 => chars(0x1, 0x0, 0x0, false, false, 0, 0, 0x0),
        435 => chars(0x1, 0x0, 0x0, false, false, 0, 0, 0x0),
        436 => chars(0x1, 0x0, 0x0, false, false, 0, 0, 0x0),
        437 => chars(0x1, 0x0, 0x0, false, false, 0, 0, 0x0),
        438 => chars(0x1, 0x0, 0x0, false, false, 0, 0, 0x0),
        439 => chars(0x1, 0x0, 0x0, false, false, 0, 0, 0x0),
        440 => chars(0x1, 0x0, 0x0, false, false, 0, 0, 0x0),
        441 => chars(0x1, 0x0, 0x0, false, false, 0, 0, 0x0),
        442 => chars(0x1, 0x0, 0x0, false, true, 0, 0, 0x0),
        443 => chars(0x1, 0x0, 0x0, false, false, 0, 0, 0x0),
        _ => chars(0x0, 0x0, 0x0, false, false, 0, 0, 0x0),
    }
}

/// The characteristics a card (or face) prints. (cards 444 to 455).
pub open spec fn spec_card_chars_37(c: CardIndex) -> Characteristics {
    match c.0 {
        444 => chars(0x1, 0x0, 0x0, false, false, 0, 0, 0x0),
        445 => chars(0x1, 0x0, 0x0, false, true, 0, 0, 0x0),
        446 => chars(0x1, 0x0, 0x0, false, false, 0, 0, 0x0),
        447 => chars(0x1, 0x0, 0x0, false, true, 0, 0, 0x0),
        448 => chars(0x1, 0x80, 0x0, false, false, 0, 0, 0x0),
        449 => chars(0x1, 0x20, 0x0, false, false, 0, 0, 0x0),
        450 => chars(0x1, 0x0, 0x0, false, false, 0, 0, 0x0),
        451 => chars(0x2, 0x1004020000000000, 0x1, false, false, 1, 1, 0x0),
        452 => chars(0x1, 0x0, 0x0, false, false, 0, 0, 0x0),
        453 => chars(0x1, 0x0, 0x0, false, false, 0, 0, 0x0),
        454 => chars(0x40, 0x0, 0x5, false, false, 0, 0, 0x0),
        455 => chars(0x1, 0x0, 0x0, false, false, 0, 0, 0x0),
        _ => chars(0x0, 0x0, 0x0, false, false, 0, 0, 0x0),
    }
}

/// The characteristics a card (or face) prints. (cards 444 to 455).
fn card_chars_37(c: CardIndex) -> (r: Characteristics)
    ensures
        r == spec_card_chars_37(c),
{
    match c.0 {
        444 => chars(0x1, 0x0, 0x0, false, false, 0, 0, 0x0),
        445 => chars(0x1, 0x0, 0x0, false, true, 0, 0, 0x0),
        446 => chars(0x1, 0x0, 0x0, false, false, 0, 0, 0x0),
        447 => chars(0x1, 0x0, 0x0, false, true, 0, 0, 0x0),
        448 => chars(0x1, 0x80, 0x0, false, false, 0, 0, 0x0),
        449 => chars(0x1, 0x20, 0x0, false, false, 0, 0, 0x0),
        450 => chars(0x1, 0x0, 0x0, false, false, 0, 0, 0x0),
        451 => chars(0x2, 0x1004020000000000, 0x1, false, false, 1, 1, 0x0),
        452 => chars(0x1, 0x0, 0x0, false, false, 0, 0, 0x0),
        453 => chars(0x1, 0x0, 0x0, false, false, 0, 0, 0x0),
        454 => chars(0x40, 0x0, 0x5, false, false, 0, 0, 0x0),
        455 => chars(0x1, 0x0, 0x0, false, false, 0, 0, 0x0),
        _ => chars(0x0, 0x0, 0x0, false, false, 0, 0, 0x0),
    }
}

/// The characteristics a card (or face) prints. (cards 456 to 467).
pub open spec fn spec_card_chars_38(c: CardIndex) -> Characteristics {
    match c.0 {
        456 => chars(0x1, 0x20, 0x0, false, false, 0, 0, 0x0),
        457 => chars(0x1, 0x0, 0x0, false, false, 0, 0, 0x0),
        458 => chars(0x1, 0x20, 0x0, false, false, 0, 0, 0x0),
        459 => chars(0x9, 0x200000000000000, 0x0, false, false, 0, 0, 0x20),
        460 => chars(0x1, 0x0, 0x0, false, false, 0, 0, 0x0),
        461 => chars(0x1, 0x0, 0x0, false, false, 0, 0, 0x0),
        462 => chars(0x1, 0x80, 0x0, false, false, 0, 0, 0x0),
        463 => chars(0x1, 0x80, 0x0, false, false, 0, 0, 0x0),
        464 => chars(0x1, 0x80, 0x0, false, false, 0, 0, 0x0),
        465 => chars(0x1, 0x80, 0x0, false, false, 0, 0, 0x0),
        466 => chars(0x1, 0x80, 0x0, false, false, 0, 0, 0x0),
        467 => chars(0x1, 0x0, 0x0, false, false, 0, 0, 0x0),
        _ => chars(0x0, 0x0, 0x0, false, false, 0, 0, 0x0),
    }
}

/// The characteristics a card (or face) prints. (cards 456 to 467).
fn card_chars_38(c: CardIndex) -> (r: Characteristics)
    ensures
        r == spec_card_chars_38(c),
{
    match c.0 {
        456 => chars(0x1, 0x20, 0x0, false, false, 0, 0, 0x0),
        457 => chars(0x1, 0x0, 0x0, false, false, 0, 0, 0x0),
        458 => chars(0x1, 0x20, 0x0, false, false, 0, 0, 0x0),
        459 => chars(0x9, 0x200000000000000, 0x0, false, false, 0, 0, 0x20),
        460 => chars(0x1, 0x0, 0x0, false, false, 0, 0, 0x0),
        461 => chars(0x1, 0x0, 0x0, false, false, 0, 0, 0x0),
        462 => chars(0x1, 0x80, 0x0, false, false, 0, 0, 0x0),
        463 => chars(0x1, 0x80, 0x0, false, false, 0, 0, 0x0),
        464 => chars(0x1, 0x80, 0x0, false, false, 0, 0, 0x0),
        465 => chars(0x1, 0x80, 0x0, false, false, 0, 0, 0x0),
        466 => chars(0x1, 0x80, 0x0, false, false, 0, 0, 0x0),
        467 => chars(0x1, 0x0, 0x0, false, false, 0, 0, 0x0),
        _ => chars(0x0, 0x0, 0x0, false, false, 0, 0, 0x0),
    }
}

/// The characteristics a card (or face) prints. (cards 468 to 471).
pub open spec fn spec_card_chars_39(c: CardIndex) -> Characteristics {
    match c.0 {
        468 => chars(0x1, 0x0, 0x0, false, false, 0, 0, 0x0),
        469 => chars(0x1, 0x0, 0x0, false, false, 0, 0, 0x0),
        470 => chars(0x1, 0x0, 0x0, false, false, 0, 0, 0x0),
        471 => chars(0x1, 0x0, 0x0, false, false, 0, 0, 0x0),
        _ => chars(0x0, 0x0, 0x0, false, false, 0, 0, 0x0),
    }
}

/// The characteristics a card (or face) prints. (cards 468 to 471).
fn card_chars_39(c: CardIndex) -> (r: Characteristics)
    ensures
        r == spec_card_chars_39(c),
{
    match c.0 {
        468 => chars(0x1, 0x0, 0x0, false, false, 0, 0, 0x0),
        469 => chars(0x1, 0x0, 0x0, false, false, 0, 0, 0x0),
        470 => chars(0x1, 0x0, 0x0, false, false, 0, 0, 0x0),
        471 => chars(0x1, 0x0, 0x0, false, false, 0, 0, 0x0),
        _ => chars(0x0, 0x0, 0x0, false, false, 0, 0, 0x0),
    }
}

/// The characteristics a card (or face) prints.
pub open spec fn spec_card_chars(c: CardIndex) -> Characteristics {
    if c.0 < 12 {
        spec_card_chars_0(c)
    } else if c.0 < 24 {
        spec_card_chars_1(c)
    } else if c.0 < 36 {
        spec_card_chars_2(c)
    } else if c.0 < 48 {
        spec_card_chars_3(c)
    } else if c.0 < 60 {
        spec_card_chars_4(c)
    } else if c.0 < 72 {
        spec_card_chars_5(c)
    } else if c.0 < 84 {
        spec_card_chars_6(c)
    } else if c.0 < 96 {
        spec_card_chars_7(c)
    } else if c.0 < 108 {
        spec_card_chars_8(c)
    } else if c.0 < 120 {
        spec_card_chars_9(c)
    } else if c.0 < 132 {
        spec_card_chars_10(c)
    } else if c.0 < 144 {
        spec_card_chars_11(c)
    } else if c.0 < 156 {
        spec_card_chars_12(c)
    } else if c.0 < 168 {
        spec_card_chars_13(c)
    } else if c.0 < 180 {
        spec_card_chars_14(c)
    } else if c.0 < 192 {
        spec_card_chars_15(c)
    } else if c.0 < 204 {
        spec_card_chars_16(c)
    } else if c.0 < 216 {
        spec_card_chars_17(c)
    } else if c.0 < 228 {
        spec_card_chars_18(c)
    } else if c.0 < 240 {
        spec_card_chars_19(c)
    } else if c.0 < 252 {
        spec_card_chars_20(c)
    } else if c.0 < 264 {
        spec_card_chars_21(c)
    } else if c.0 < 276 {
        spec_card_chars_22(c)
    } else if c.0 < 288 {
        spec_card_chars_23(c)
    } else if c.0 < 300 {
        spec_card_chars_24(c)
    } else if c.0 < 312 {
        spec_card_chars_25(c)
    } else if c.0 < 324 {
        spec_card_chars_26(c)
    } else if c.0 < 336 {
        spec_card_chars_27(c)
    } else if c.0 < 348 {
        spec_card_chars_28(c)
    } else if c.0 < 360 {
        spec_card_chars_29(c)
    } else if c.0 < 372 {
        spec_card_chars_30(c)
    } else if c.0 < 384 {
        spec_card_chars_31(c)
    } else if c.0 < 396 {
        spec_card_chars_32(c)
    } else if c.0 < 408 {
        spec_card_chars_33(c)
    } else if c.0 < 420 {
        spec_card_chars_34(c)
    } else if c.0 < 432 {
        spec_card_chars_35(c)
    } else if c.0 < 444 {
        spec_card_chars_36(c)
    } else if c.0 < 456 {
        spec_card_chars_37(c)
    } else if c.0 < 468 {
        spec_card_chars_38(c)
    } else if c.0 < 472 {
        spec_card_chars_39(c)
    } else {
        chars(0x0, 0x0, 0x0, false, false, 0, 0, 0x0)
    }
}

/// The characteristics a card (or face) prints.
pub fn card_chars(c: CardIndex) -> (r: Characteristics)
    ensures
        r == spec_card_chars(c),
{
    if c.0 < 12 {
        card_chars_0(c)
    } else if c.0 < 24 {
        card_chars_1(c)
    } else if c.0 < 36 {
        card_chars_2(c)
    } else if c.0 < 48 {
        card_chars_3(c)
    } else if c.0 < 60 {
        card_chars_4(c)
    } else if c.0 < 72 {
        card_chars_5(c)
    } else if c.0 < 84 {
        card_chars_6(c)
    } else if c.0 < 96 {
        card_chars_7(c)
    } else if c.0 < 108 {
        card_chars_8(c)
    } else if c.0 < 120 {
        card_chars_9(c)
    } else if c.0 < 132 {
        card_chars_10(c)
    } else if c.0 < 144 {
        card_chars_11(c)
    } else if c.0 < 156 {
        card_chars_12(c)
    } else if c.0 < 168 {
        card_chars_13(c)
    } else if c.0 < 180 {
        card_chars_14(c)
    } else if c.0 < 192 {
        card_chars_15(c)
    } else if c.0 < 204 {
        card_chars_16(c)
    } else if c.0 < 216 {
        card_chars_17(c)
    } else if c.0 < 228 {
        card_chars_18(c)
    } else if c.0 < 240 {
        card_chars_19(c)
    } else if c.0 < 252 {
        card_chars_20(c)
    } else if c.0 < 264 {
        card_chars_21(c)
    } else if c.0 < 276 {
        card_chars_22(c)
    } else if c.0 < 288 {
        card_chars_23(c)
    } else if c.0 < 300 {
        card_chars_24(c)
    } else if c.0 < 312 {
        card_chars_25(c)
    } else if c.0 < 324 {
        card_chars_26(c)
    } else if c.0 < 336 {
        card_chars_27(c)
    } else if c.0 < 348 {
        card_chars_28(c)
    } else if c.0 < 360 {
        card_chars_29(c)
    } else if c.0 < 372 {
        card_chars_30(c)
    } else if c.0 < 384 {
        card_chars_31(c)
    } else if c.0 < 396 {
        card_chars_32(c)
    } else if c.0 < 408 {
        card_chars_33(c)
    } else if c.0 < 420 {
        card_chars_34(c)
    } else if c.0 < 432 {
        card_chars_35(c)
    } else if c.0 < 444 {
        card_chars_36(c)
    } else if c.0 < 456 {
        card_chars_37(c)
    } else if c.0 < 468 {
        card_chars_38(c)
    } else if c.0 < 472 {
        card_chars_39(c)
    } else {
        chars(0x0, 0x0, 0x0, false, false, 0, 0, 0x0)
    }
}

/// How a card (or face) enters the battlefield, and its other face. (cards 0 to 11).
pub open spec fn spec_card_entry_0(c: CardIndex) -> Entry {
    match c.0 {
        0 => entry(EntryRule::Untapped, None, EntryChoice::Nothing, None),
        1 => entry(EntryRule::Untapped, None, EntryChoice::Nothing, None),
        2 => entry(EntryRule::Untapped, None, EntryChoice::Nothing, None),
        3 => entry(EntryRule::Untapped, None, EntryChoice::Nothing, None),
        4 => entry(EntryRule::Untapped, None, EntryChoice::Nothing, None),
        5 => entry(EntryRule::Untapped, None, EntryChoice::Nothing, None),
        6 => entry(EntryRule::Untapped, None, EntryChoice::Nothing, None),
        7 => entry(EntryRule::Untapped, None, EntryChoice::Nothing, None),
        8 => entry(EntryRule::Untapped, None, EntryChoice::Nothing, None),
        9 => entry(EntryRule::Untapped, None, EntryChoice::Nothing, None),
        10 => entry(EntryRule::Untapped, None, EntryChoice::Nothing, None),
        11 => entry(EntryRule::Untapped, None, EntryChoice::Nothing, None),
        _ => entry(EntryRule::Untapped, None, EntryChoice::Nothing, None),
    }
}

/// How a card (or face) enters the battlefield, and its other face. (cards 0 to 11).
fn card_entry_0(c: CardIndex) -> (r: Entry)
    ensures
        r == spec_card_entry_0(c),
{
    match c.0 {
        0 => entry(EntryRule::Untapped, None, EntryChoice::Nothing, None),
        1 => entry(EntryRule::Untapped, None, EntryChoice::Nothing, None),
        2 => entry(EntryRule::Untapped, None, EntryChoice::Nothing, None),
        3 => entry(EntryRule::Untapped, None, EntryChoice::Nothing, None),
        4 => entry(EntryRule::Untapped, None, EntryChoice::Nothing, None),
        5 => entry(EntryRule::Untapped, None, EntryChoice::Nothing, None),
        6 => entry(EntryRule::Untapped, None, EntryChoice::Nothing, None),
        7 => entry(EntryRule::Untapped, None, EntryChoice::Nothing, None),
        8 => entry(EntryRule::Untapped, None, EntryChoice::Nothing, None),
        9 => entry(EntryRule::Untapped, None, EntryChoice::Nothing, None),
        10 => entry(EntryRule::Untapped, None, EntryChoice::Nothing, None),
        11 => entry(EntryRule::Untapped, None, EntryChoice::Nothing, None),
        _ => entry(EntryRule::Untapped, None, EntryChoice::Nothing, None),
    }
}

/// How a card (or face) enters the battlefield, and its other face. (cards 12 to 23).
pub open spec fn spec_card_entry_1(c: CardIndex) -> Entry {
    match c.0 {
        12 => entry(EntryRule::Untapped, None, EntryChoice::Nothing, None),
        13 => entry(EntryRule::Untapped, None, EntryChoice::Nothing, None),
        14 => entry(EntryRule::Untapped, None, EntryChoice::Nothing, None),
        15 => entry(EntryRule::Untapped, None, EntryChoice::Nothing, None),
        16 => entry(EntryRule::Untapped, None, EntryChoice::Nothing, None),
        17 => entry(EntryRule::Tapped, None, EntryChoice::Nothing, None),
        18 => entry(EntryRule::Untapped, None, EntryChoice::Nothing, None),
        19 => entry(EntryRule::Untapped, None, EntryChoice::Nothing, None),
        20 => entry(EntryRule::Tapped, None, EntryChoice::Nothing, None),
        21 => entry(EntryRule::Untapped, None, EntryChoice::Nothing, None),
        22 => entry(EntryRule::Untapped, None, EntryChoice::Nothing, None),
        23 => entry(EntryRule::Untapped, None, EntryChoice::Nothing, None),
        _ => entry(EntryRule::Untapped, None, EntryChoice::Nothing, None),
    }
}

/// How a card (or face) enters the battlefield, and its other face. (cards 12 to 23).
fn card_entry_1(c: CardIndex) -> (r: Entry)
    ensures
        r == spec_card_entry_1(c),
{
    match c.0 {
        12 => entry(EntryRule::Untapped, None, EntryChoice::Nothing, None),
        13 => entry(EntryRule::Untapped, None, EntryChoice::Nothing, None),
        14 => entry(EntryRule::Untapped, None, EntryChoice::Nothing, None),
        15 => entry(EntryRule::Untapped, None, EntryChoice::Nothing, None),
        16 => entry(EntryRule::Untapped, None, EntryChoice::Nothing, None),
        17 => entry(EntryRule::Tapped, None, EntryChoice::Nothing, None),
        18 => entry(EntryRule::Untapped, None, EntryChoice::Nothing, None),
        19 => entry(EntryRule::Untapped, None, EntryChoice::Nothing, None),
        20 => entry(EntryRule::Tapped, None, EntryChoice::Nothing, None),
        21 => entry(EntryRule::Untapped, None, EntryChoice::Nothing, None),
        22 => entry(EntryRule::Untapped, None, EntryChoice::Nothing, None),
        23 => entry(EntryRule::Untapped, None, EntryChoice::Nothing, None),
        _ => entry(EntryRule::Untapped, None, EntryChoice::Nothing, None),
    }
}

/// How a card (or face) enters the battlefield, and its other face. (cards 24 to 35).
pub open spec fn spec_card_entry_2(c: CardIndex) -> Entry {
    match c.0 {
        24 => entry(EntryRule::Untapped, None, EntryChoice::Nothing, None),
        25 => entry(EntryRule::Untapped, None, EntryChoice::Nothing, None),
        26 => entry(EntryRule::Untapped, None, EntryChoice::Nothing, None),
        27 => entry(EntryRule::Untapped, None, EntryChoice::Nothing, None),
        28 => entry(EntryRule::Untapped, None, EntryChoice::Nothing, None),
        29 => entry(EntryRule::Untapped, None, EntryChoice::Nothing, None),
        30 => entry(EntryRule::Untapped, None, EntryChoice::Nothing, None),
        31 => entry(EntryRule::Untapped, None, EntryChoice::Nothing, None),
        32 => entry(EntryRule::Untapped, None, EntryChoice::Nothing, None),
        33 => entry(EntryRule::Untapped, None, EntryChoice::Nothing, None),
        34 => entry(EntryRule::Untapped, None, EntryChoice::Nothing, None),
        35 => entry(EntryRule::Untapped, None, EntryChoice::Nothing, None),
        _ => entry(EntryRule::Untapped, None, EntryChoice::Nothing, None),
    }
}

/// How a card (or face) enters the battlefield, and its other face. (cards 24 to 35).
fn card_entry_2(c: CardIndex) -> (r: Entry)
    ensures
        r == spec_card_entry_2(c),
{
    match c.0 {
        24 => entry(EntryRule::Untapped, None, EntryChoice::Nothing, None),
        25 => entry(EntryRule::Untapped, None, EntryChoice::Nothing, None),
        26 => entry(EntryRule::Untapped, None, EntryChoice::Nothing, None),
        27 => entry(EntryRule::Untapped, None, EntryChoice::Nothing, None),
        28 => entry(EntryRule::Untapped, None, EntryChoice::Nothing, None),
        29 => entry(EntryRule::Untapped, None, EntryChoice::Nothing, None),
        30 => entry(EntryRule::Untapped, None, EntryChoice::Nothing, None),
        31 => entry(EntryRule::Untapped, None, EntryChoice::Nothing, None),
        32 => entry(EntryRule::Untapped, None, EntryChoice::Nothing, None),
        33 => entry(EntryRule::Untapped, None, EntryChoice::Nothing, None),
        34 => entry(EntryRule::Untapped, None, EntryChoice::Nothing, None),
        35 => entry(EntryRule::Untapped, None, EntryChoice::Nothing, None),
        _ => entry(EntryRule::Untapped, None, EntryChoice::Nothing, None),
    }
}

/// How a card (or face) enters the battlefield, and its other face. (cards 36 to 47).
pub open spec fn spec_card_entry_3(c: CardIndex) -> Entry {
    match c.0 {
        36 => entry(EntryRule::Untapped, None, EntryChoice::Nothing, None),
        37 => entry(EntryRule::Untapped, None, EntryChoice::Nothing, None),
        38 => entry(EntryRule::Untapped, None, EntryChoice::Nothing, None),
        39 => entry(EntryRule::Untapped, None, EntryChoice::Nothing, None),
        40 => entry(EntryRule::Untapped, None, EntryChoice::Nothing, None),
        41 => entry(EntryRule::Untapped, None, EntryChoice::Nothing, None),
        42 => entry(EntryRule::Untapped, None, EntryChoice::Nothing, None),
        43 => entry(EntryRule::Untapped, None, EntryChoice::Nothing, None),
        44 => entry(EntryRule::Untapped, None, EntryChoice::Nothing, None),
        45 => entry(EntryRule::Untapped, None, EntryChoice::Nothing, None),
        46 => entry(EntryRule::Untapped, None, EntryChoice::Nothing, None),
        47 => entry(EntryRule::Untapped, None, EntryChoice::Nothing, None),
        _ => entry(EntryRule::Untapped, None, EntryChoice::Nothing, None),
    }
}

/// How a card (or face) enters the battlefield, and its other face. (cards 36 to 47).
fn card_entry_3(c: CardIndex) -> (r: Entry)
    ensures
        r == spec_card_entry_3(c),
{
    match c.0 {
        36 => entry(EntryRule::Untapped, None, EntryChoice::Nothing, None),
        37 => entry(EntryRule::Untapped, None, EntryChoice::Nothing, None),
        38 => entry(EntryRule::Untapped, None, EntryChoice::Nothing, None),
        39 => entry(EntryRule::Untapped, None, EntryChoice::Nothing, None),
        40 => entry(EntryRule::Untapped, None, EntryChoice::Nothing, None),
        41 => entry(EntryRule::Untapped, None, EntryChoice::Nothing, None),
        42 => entry(EntryRule::Untapped, None, EntryChoice::Nothing, None),
        43 => entry(EntryRule::Untapped, None, EntryChoice::Nothing, None),
        44 => entry(EntryRule::Untapped, None, EntryChoice::Nothing, None),
        45 => entry(EntryRule::Untapped, None, EntryChoice::Nothing, None),
        46 => entry(EntryRule::Untapped, None, EntryChoice::Nothing, None),
        47 => entry(EntryRule::Untapped, None, EntryChoice::Nothing, None),
        _ => entry(EntryRule::Untapped, None, EntryChoice::Nothing, None),
    }
}

/// How a card (or face) enters the battlefield, and its other face. (cards 48 to 59).
pub open spec fn spec_card_entry_4(c: CardIndex) -> Entry {
    match c.0 {
        48 => entry(EntryRule::Untapped, None, EntryChoice::Nothing, None),
        49 => entry(EntryRule::Tapped, None, EntryChoice::Nothing, None),
        50 => entry(EntryRule::Untapped, None, EntryChoice::Nothing, None),
        51 => entry(EntryRule::Untapped, None, EntryChoice::Nothing, None),
        52 => entry(EntryRule::Untapped, None, EntryChoice::Nothing, None),
        53 => entry(EntryRule::Untapped, None, EntryChoice::Nothing, None),
        54 => entry(EntryRule::Untapped, None, EntryChoice::Nothing, None),
        55 => entry(EntryRule::Untapped, None, EntryChoice::Nothing, None),
        56 => entry(EntryRule::Untapped, None, EntryChoice::Nothing, None),
        57 => entry(EntryRule::Untapped, None, EntryChoice::Nothing, None),
        58 => entry(EntryRule::Untapped, None, EntryChoice::Nothing, None),
        59 => entry(EntryRule::Untapped, None, EntryChoice::Nothing, None),
        _ => entry(EntryRule::Untapped, None, EntryChoice::Nothing, None),
    }
}

/// How a card (or face) enters the battlefield, and its other face. (cards 48 to 59).
fn card_entry_4(c: CardIndex) -> (r: Entry)
    ensures
        r == spec_card_entry_4(c),
{
    match c.0 {
        48 => entry(EntryRule::Untapped, None, EntryChoice::Nothing, None),
        49 => entry(EntryRule::Tapped, None, EntryChoice::Nothing, None),
        50 => entry(EntryRule::Untapped, None, EntryChoice::Nothing, None),
        51 => entry(EntryRule::Untapped, None, EntryChoice::Nothing, None),
        52 => entry(EntryRule::Untapped, None, EntryChoice::Nothing, None),
        53 => entry(EntryRule::Untapped, None, EntryChoice::Nothing, None),
        54 => entry(EntryRule::Untapped, None, EntryChoice::Nothing, None),
        55 => entry(EntryRule::Untapped, None, EntryChoice::Nothing, None),
        56 => entry(EntryRule::Untapped, None, EntryChoice::Nothing, None),
        57 => entry(EntryRule::Untapped, None, EntryChoice::Nothing, None),
        58 => entry(EntryRule::Untapped, None, EntryChoice::Nothing, None),
        59 => entry(EntryRule::Untapped, None, EntryChoice::Nothing, None),
        _ => entry(EntryRule::Untapped, None, EntryChoice::Nothing, None),
    }
}

/// How a card (or face) enters the battlefield, and its other face. (cards 60 to 71).
pub open spec fn spec_card_entry_5(c: CardIndex) -> Entry {
    match c.0 {
        60 => entry(EntryRule::Untapped, None, EntryChoice::Nothing, None),
        61 => entry(EntryRule::Untapped, None, EntryChoice::Nothing, None),
        62 => entry(EntryRule::Untapped, None, EntryChoice::Nothing, None),
        63 => entry(EntryRule::Untapped, None, EntryChoice::Nothing, None),
        64 => entry(EntryRule::Untapped, None, EntryChoice::Nothing, None),
        65 => entry(EntryRule::Untapped, None, EntryChoice::Nothing, None),
        66 => entry(EntryRule::Untapped, None, EntryChoice::Nothing, Some(CardIndex(65))),
        67 => entry(EntryRule::Untapped, None, EntryChoice::Nothing, None),
        68 => entry(EntryRule::Untapped, None, EntryChoice::Nothing, Some(CardIndex(67))),
        69 => entry(EntryRule::Untapped, None, EntryChoice::Nothing, None),
        70 => entry(EntryRule::Untapped, None, EntryChoice::Nothing, Some(CardIndex(69))),
        71 => entry(EntryRule::Untapped, None, EntryChoice::Nothing, None),
        _ => entry(EntryRule::Untapped, None, EntryChoice::Nothing, None),
    }
}

/// How a card (or face) enters the battlefield, and its other face. (cards 60 to 71).
fn card_entry_5(c: CardIndex) -> (r: Entry)
    ensures
        r == spec_card_entry_5(c),
{
    match c.0 {
        60 => entry(EntryRule::Untapped, None, EntryChoice::Nothing, None),
        61 => entry(EntryRule::Untapped, None, EntryChoice::Nothing, None),
        62 => entry(EntryRule::Untapped, None, EntryChoice::Nothing, None),
        63 => entry(EntryRule::Untapped, None, EntryChoice::Nothing, None),
        64 => entry(EntryRule::Untapped, None, EntryChoice::Nothing, None),
        65 => entry(EntryRule::Untapped, None, EntryChoice::Nothing, None),
        66 => entry(EntryRule::Untapped, None, EntryChoice::Nothing, Some(CardIndex(65))),
        67 => entry(EntryRule::Untapped, None, EntryChoice::Nothing, None),
        68 => entry(EntryRule::Untapped, None, EntryChoice::Nothing, Some(CardIndex(67))),
        69 => entry(EntryRule::Untapped, None, EntryChoice::Nothing, None),
        70 => entry(EntryRule::Untapped, None, EntryChoice::Nothing, Some(CardIndex(69))),
        71 => entry(EntryRule::Untapped, None, EntryChoice::Nothing, None),
        _ => entry(EntryRule::Untapped, None, EntryChoice::Nothing, None),
    }
}

/// How a card (or face) enters the battlefield, and its other face. (cards 72 to 83).
pub open spec fn spec_card_entry_6(c: CardIndex) -> Entry {
    match c.0 {
        72 => entry(EntryRule::Untapped, None, EntryChoice::Nothing, Some(CardIndex(71))),
        73 => entry(EntryRule::Untapped, None, EntryChoice::Nothing, None),
        74 => entry(EntryRule::Untapped, None, EntryChoice::Nothing, Some(CardIndex(73))),
        75 => entry(EntryRule::Untapped, None, EntryChoice::Nothing, None),
        76 => entry(EntryRule::Untapped, None, EntryChoice::Nothing, Some(CardIndex(75))),
        77 => entry(EntryRule::Untapped, None, EntryChoice::Nothing, None),
        78 => entry(EntryRule::Untapped, None, EntryChoice::Nothing, Some(CardIndex(77))),
        79 => entry(EntryRule::Untapped, None, EntryChoice::Nothing, None),
        80 => entry(EntryRule::Untapped, None, EntryChoice::Nothing, None),
        81 => entry(EntryRule::Untapped, None, EntryChoice::Nothing, None),
        82 => entry(EntryRule::Untapped, None, EntryChoice::Nothing, None),
        83 => entry(EntryRule::Tapped, None, EntryChoice::Nothing, None),
        _ => entry(EntryRule::Untapped, None, EntryChoice::Nothing, None),
    }
}

/// How a card (or face) enters the battlefield, and its other face. (cards 72 to 83).
fn card_entry_6(c: CardIndex) -> (r: Entry)
    ensures
        r == spec_card_entry_6(c),
{
    match c.0 {
        72 => entry(EntryRule::Untapped, None, EntryChoice::Nothing, Some(CardIndex(71))),
        73 => entry(EntryRule::Untapped, None, EntryChoice::Nothing, None),
        74 => entry(EntryRule::Untapped, None, EntryChoice::Nothing, Some(CardIndex(73))),
        75 => entry(EntryRule::Untapped, None, EntryChoice::Nothing, None),
        76 => entry(EntryRule::Untapped, None, EntryChoice::Nothing, Some(CardIndex(75))),
        77 => entry(EntryRule::Untapped, None, EntryChoice::Nothing, None),
        78 => entry(EntryRule::Untapped, None, EntryChoice::Nothing, Some(CardIndex(77))),
        79 => entry(EntryRule::Untapped, None, EntryChoice::Nothing, None),
        80 => entry(EntryRule::Untapped, None, EntryChoice::Nothing, None),
        81 => entry(EntryRule::Untapped, None, EntryChoice::Nothing, None),
        82 => entry(EntryRule::Untapped, None, EntryChoice::Nothing, None),
        83 => entry(EntryRule::Tapped, None, EntryChoice::Nothing, None),
        _ => entry(EntryRule::Untapped, None, EntryChoice::Nothing, None),
    }
}

/// How a card (or face) enters the battlefield, and its other face. (cards 84 to 95).
pub open spec fn spec_card_entry_7(c: CardIndex) -> Entry {
    match c.0 {
        84 => entry(EntryRule::Untapped, None, EntryChoice::Nothing, None),
        85 => entry(EntryRule::Untapped, None, EntryChoice::Nothing, None),
        86 => entry(EntryRule::Untapped, None, EntryChoice::Nothing, None),
        87 => entry(EntryRule::Untapped, None, EntryChoice::Nothing, None),
        88 => entry(EntryRule::Untapped, None, EntryChoice::Nothing, None),
        89 => entry(EntryRule::Untapped, None, EntryChoice::Nothing, None),
        90 => entry(EntryRule::Untapped, None, EntryChoice::Nothing, None),
        91 => entry(EntryRule::Untapped, None, EntryChoice::Nothing, None),
        92 => entry(EntryRule::Untapped, None, EntryChoice::Nothing, None),
        93 => entry(EntryRule::Untapped, None, EntryChoice::Nothing, None),
        94 => entry(EntryRule::Untapped, None, EntryChoice::Nothing, None),
        95 => entry(EntryRule::Untapped, None, EntryChoice::Nothing, None),
        _ => entry(EntryRule::Untapped, None, EntryChoice::Nothing, None),
    }
}

/// How a card (or face) enters the battlefield, and its other face. (cards 84 to 95).
fn card_entry_7(c: CardIndex) -> (r: Entry)
    ensures
        r == spec_card_entry_7(c),
{
    match c.0 {
        84 => entry(EntryRule::Untapped, None, EntryChoice::Nothing, None),
        85 => entry(EntryRule::Untapped, None, EntryChoice::Nothing, None),
        86 => entry(EntryRule::Untapped, None, EntryChoice::Nothing, None),
        87 => entry(EntryRule::Untapped, None, EntryChoice::Nothing, None),
        88 => entry(EntryRule::Untapped, None, EntryChoice::Nothing, None),
        89 => entry(EntryRule::Untapped, None, EntryChoice::Nothing, None),
        90 => entry(EntryRule::Untapped, None, EntryChoice::Nothing, None),
        91 => entry(EntryRule::Untapped, None, EntryChoice::Nothing, None),
        92 => entry(EntryRule::Untapped, None, EntryChoice::Nothing, None),
        93 => entry(EntryRule::Untapped, None, EntryChoice::Nothing, None),
        94 => entry(EntryRule::Untapped, None, EntryChoice::Nothing, None),
        95 => entry(EntryRule::Untapped, None, EntryChoice::Nothing, None),
        _ => entry(EntryRule::Untapped, None, EntryChoice::Nothing, None),
    }
}

/// How a card (or face) enters the battlefield, and its other face. (cards 96 to 107).
pub open spec fn spec_card_entry_8(c: CardIndex) -> Entry {
    match c.0 {
        96 => entry(EntryRule::Untapped, None, EntryChoice::Nothing, None),
        97 => entry(EntryRule::Untapped, None, EntryChoice::Nothing, None),
        98 => entry(EntryRule::Untapped, None, EntryChoice::Nothing, None),
        99 => entry(EntryRule::Untapped, None, EntryChoice::Nothing, None),
        100 => entry(EntryRule::Tapped, None, EntryChoice::Nothing, None),
        101 => entry(EntryRule::Untapped, None, EntryChoice::Nothing, None),
        102 => entry(EntryRule::Untapped, None, EntryChoice::Nothing, None),
        103 => entry(EntryRule::Untapped, None, EntryChoice::Nothing, None),
        104 => entry(EntryRule::Untapped, None, EntryChoice::Nothing, None),
        105 => entry(EntryRule::Untapped, None, EntryChoice::Nothing, None),
        106 => entry(EntryRule::Tapped, None, EntryChoice::Nothing, None),
        107 => entry(EntryRule::Untapped, None, EntryChoice::Nothing, None),
        _ => entry(EntryRule::Untapped, None, EntryChoice::Nothing, None),
    }
}

/// How a card (or face) enters the battlefield, and its other face. (cards 96 to 107).
fn card_entry_8(c: CardIndex) -> (r: Entry)
    ensures
        r == spec_card_entry_8(c),
{
    match c.0 {
        96 => entry(EntryRule::Untapped, None, EntryChoice::Nothing, None),
        97 => entry(EntryRule::Untapped, None, EntryChoice::Nothing, None),
        98 => entry(EntryRule::Untapped, None, EntryChoice::Nothing, None),
        99 => entry(EntryRule::Untapped, None, EntryChoice::Nothing, None),
        100 => entry(EntryRule::Tapped, None, EntryChoice::Nothing, None),
        101 => entry(EntryRule::Untapped, None, EntryChoice::Nothing, None),
        102 => entry(EntryRule::Untapped, None, EntryChoice::Nothing, None),
        103 => entry(EntryRule::Untapped, None, EntryChoice::Nothing, None),
        104 => entry(EntryRule::Untapped, None, EntryChoice::Nothing, None),
        105 => entry(EntryRule::Untapped, None, EntryChoice::Nothing, None),
        106 => entry(EntryRule::Tapped, None, EntryChoice::Nothing, None),
        107 => entry(EntryRule::Untapped, None, EntryChoice::Nothing, None),
        _ => entry(EntryRule::Untapped, None, EntryChoice::Nothing, None),
    }
}

/// How a card (or face) enters the battlefield, and its other face. (cards 108 to 119).
pub open spec fn spec_card_entry_9(c: CardIndex) -> Entry {
    match c.0 {
        108 => entry(EntryRule::Tapped, None, EntryChoice::Nothing, None),
        109 => entry(EntryRule::Untapped, None, EntryChoice::Nothing, None),
        110 => entry(EntryRule::TappedUnless(Condition::YouControlAtLeast(flagged(0x1, true, false, false, false, false), 1)), None, EntryChoice::Nothing, None),
        111 => entry(EntryRule::Untapped, None, EntryChoice::Nothing, None),
        112 => entry(EntryRule::Untapped, None, EntryChoice::Nothing, None),
        113 => entry(EntryRule::Untapped, None, EntryChoice::Nothing, None),
        114 => entry(EntryRule::Untapped, None, EntryChoice::Nothing, None),
        115 => entry(EntryRule::Untapped, None, EntryChoice::Nothing, None),
        116 => entry(EntryRule::Untapped, None, EntryChoice::Nothing, None),
        117 => entry(EntryRule::Untapped, None, EntryChoice::Nothing, None),
        118 => entry(EntryRule::Untapped, None, EntryChoice::Nothing, None),
        119 => entry(EntryRule::Untapped, None, EntryChoice::Nothing, None),
        _ => entry(EntryRule::Untapped, None, EntryChoice::Nothing, None),
    }
}

/// How a card (or face) enters the battlefield, and its other face. (cards 108 to 119).
fn card_entry_9(c: CardIndex) -> (r: Entry)
    ensures
        r == spec_card_entry_9(c),
{
    match c.0 {
        108 => entry(EntryRule::Tapped, None, EntryChoice::Nothing, None),
        109 => entry(EntryRule::Untapped, None, EntryChoice::Nothing, None),
        110 => entry(EntryRule::TappedUnless(Condition::YouControlAtLeast(flagged(0x1, true, false, false, false, false), 1)), None, EntryChoice::Nothing, None),
        111 => entry(EntryRule::Untapped, None, EntryChoice::Nothing, None),
        112 => entry(EntryRule::Untapped, None, EntryChoice::Nothing, None),
        113 => entry(EntryRule::Untapped, None, EntryChoice::Nothing, None),
        114 => entry(EntryRule::Untapped, None, EntryChoice::Nothing, None),
        115 => entry(EntryRule::Untapped, None, EntryChoice::Nothing, None),
        116 => entry(EntryRule::Untapped, None, EntryChoice::Nothing, None),
        117 => entry(EntryRule::Untapped, None, EntryChoice::Nothing, None),
        118 => entry(EntryRule::Untapped, None, EntryChoice::Nothing, None),
        119 => entry(EntryRule::Untapped, None, EntryChoice::Nothing, None),
        _ => entry(EntryRule::Untapped, None, EntryChoice::Nothing, None),
    }
}

/// How a card (or face) enters the battlefield, and its other face. (cards 120 to 131).
pub open spec fn spec_card_entry_10(c: CardIndex) -> Entry {
    match c.0 {
        120 => entry(EntryRule::Untapped, None, EntryChoice::Nothing, None),
        121 => entry(EntryRule::Untapped, None, EntryChoice::Nothing, None),
        122 => entry(EntryRule::Untapped, None, EntryChoice::Nothing, None),
        123 => entry(EntryRule::Untapped, None, EntryChoice::Nothing, None),
        124 => entry(EntryRule::Untapped, None, EntryChoice::Nothing, None),
        125 => entry(EntryRule::Untapped, None, EntryChoice::Nothing, None),
        126 => entry(EntryRule::Untapped, None, EntryChoice::Nothing, None),
        127 => entry(EntryRule::Untapped, None, EntryChoice::Nothing, None),
        128 => entry(EntryRule::Untapped, None, EntryChoice::Nothing, None),
        129 => entry(EntryRule::Untapped, None, EntryChoice::Nothing, None),
        130 => entry(EntryRule::Untapped, None, EntryChoice::Nothing, None),
        131 => entry(EntryRule::Untapped, None, EntryChoice::Nothing, None),
        _ => entry(EntryRule::Untapped, None, EntryChoice::Nothing, None),
    }
}

/// How a card (or face) enters the battlefield, and its other face. (cards 120 to 131).
fn card_entry_10(c: CardIndex) -> (r: Entry)
    ensures
        r == spec_card_entry_10(c),
{
    match c.0 {
        120 => entry(EntryRule::Untapped, None, EntryChoice::Nothing, None),
        121 => entry(EntryRule::Untapped, None, EntryChoice::Nothing, None),
        122 => entry(EntryRule::Untapped, None, EntryChoice::Nothing, None),
        123 => entry(EntryRule::Untapped, None, EntryChoice::Nothing, None),
        124 => entry(EntryRule::Untapped, None, EntryChoice::Nothing, None),
        125 => entry(EntryRule::Untapped, None, EntryChoice::Nothing, None),
        126 => entry(EntryRule::Untapped, None, EntryChoice::Nothing, None),
        127 => entry(EntryRule::Untapped, None, EntryChoice::Nothing, None),
        128 => entry(EntryRule::Untapped, None, EntryChoice::Nothing, None),
        129 => entry(EntryRule::Untapped, None, EntryChoice::Nothing, None),
        130 => entry(EntryRule::Untapped, None, EntryChoice::Nothing, None),
        131 => entry(EntryRule::Untapped, None, EntryChoice::Nothing, None),
        _ => entry(EntryRule::Untapped, None, EntryChoice::Nothing, None),
    }
}

/// How a card (or face) enters the battlefield, and its other face. (cards 132 to 143).
pub open spec fn spec_card_entry_11(c: CardIndex) -> Entry {
    match c.0 {
        132 => entry(EntryRule::Untapped, None, EntryChoice::Nothing, None),
        133 => entry(EntryRule::Untapped, None, EntryChoice::Nothing, None),
        134 => entry(EntryRule::Untapped, None, EntryChoice::Nothing, None),
        135 => entry(EntryRule::Untapped, None, EntryChoice::Nothing, None),
        136 => entry(EntryRule::Untapped, None, EntryChoice::Nothing, None),
        137 => entry(EntryRule::Untapped, None, EntryChoice::Nothing, None),
        138 => entry(EntryRule::Tapped, None, EntryChoice::Nothing, None),
        139 => entry(EntryRule::Untapped, None, EntryChoice::Nothing, None),
        140 => entry(EntryRule::Tapped, None, EntryChoice::Nothing, None),
        141 => entry(EntryRule::Untapped, None, EntryChoice::Nothing, None),
        142 => entry(EntryRule::Untapped, None, EntryChoice::Nothing, None),
        143 => entry(EntryRule::Tapped, None, EntryChoice::Nothing, None),
        _ => entry(EntryRule::Untapped, None, EntryChoice::Nothing, None),
    }
}

/// How a card (or face) enters the battlefield, and its other face. (cards 132 to 143).
fn card_entry_11(c: CardIndex) -> (r: Entry)
    ensures
        r == spec_card_entry_11(c),
{
    match c.0 {
        132 => entry(EntryRule::Untapped, None, EntryChoice::Nothing, None),
        133 => entry(EntryRule::Untapped, None, EntryChoice::Nothing, None),
        134 => entry(EntryRule::Untapped, None, EntryChoice::Nothing, None),
        135 => entry(EntryRule::Untapped, None, EntryChoice::Nothing, None),
        136 => entry(EntryRule::Untapped, None, EntryChoice::Nothing, None),
        137 => entry(EntryRule::Untapped, None, EntryChoice::Nothing, None),
        138 => entry(EntryRule::Tapped, None, EntryChoice::Nothing, None),
        139 => entry(EntryRule::Untapped, None, EntryChoice::Nothing, None),
        140 => entry(EntryRule::Tapped, None, EntryChoice::Nothing, None),
        141 => entry(EntryRule::Untapped, None, EntryChoice::Nothing, None),
        142 => entry(EntryRule::Untapped, None, EntryChoice::Nothing, None),
        143 => entry(EntryRule::Tapped, None, EntryChoice::Nothing, None),
        _ => entry(EntryRule::Untapped, None, EntryChoice::Nothing, None),
    }
}

/// How a card (or face) enters the battlefield, and its other face. (cards 144 to 155).
pub open spec fn spec_card_entry_12(c: CardIndex) -> Entry {
    match c.0 {
        144 => entry(EntryRule::Untapped, None, EntryChoice::Nothing, None),
        145 => entry(EntryRule::Untapped, None, EntryChoice::Nothing, None),
        146 => entry(EntryRule::Tapped, None, EntryChoice::Nothing, None),
        147 => entry(EntryRule::Untapped, None, EntryChoice::Nothing, None),
        148 => entry(EntryRule::Untapped, None, EntryChoice::Nothing, None),
        149 => entry(EntryRule::Untapped, None, EntryChoice::Nothing, None),
        150 => entry(EntryRule::Untapped, None, EntryChoice::Nothing, None),
        151 => entry(EntryRule::Untapped, None, EntryChoice::Nothing, None),
        152 => entry(EntryRule::Untapped, None, EntryChoice::Nothing, None),
        153 => entry(EntryRule::Untapped, None, EntryChoice::Nothing, None),
        154 => entry(EntryRule::Tapped, None, EntryChoice::Nothing, None),
        155 => entry(EntryRule::TappedUnless(Condition::YouControlAtLeast(of_subtypes(0x8), 1)), None, EntryChoice::Nothing, None),
        _ => entry(EntryRule::Untapped, None, EntryChoice::Nothing, None),
    }
}

/// How a card (or face) enters the battlefield, and its other face. (cards 144 to 155).
fn card_entry_12(c: CardIndex) -> (r: Entry)
    ensures
        r == spec_card_entry_12(c),
{
    match c.0 {
        144 => entry(EntryRule::Untapped, None, EntryChoice::Nothing, None),
        145 => entry(EntryRule::Untapped, None, EntryChoice::Nothing, None),
        146 => entry(EntryRule::Tapped, None, EntryChoice::Nothing, None),
        147 => entry(EntryRule::Untapped, None, EntryChoice::Nothing, None),
        148 => entry(EntryRule::Untapped, None, EntryChoice::Nothing, None),
        149 => entry(EntryRule::Untapped, None, EntryChoice::Nothing, None),
        150 => entry(EntryRule::Untapped, None, EntryChoice::Nothing, None),
        151 => entry(EntryRule::Untapped, None, EntryChoice::Nothing, None),
        152 => entry(EntryRule::Untapped, None, EntryChoice::Nothing, None),
        153 => entry(EntryRule::Untapped, None, EntryChoice::Nothing, None),
        154 => entry(EntryRule::Tapped, None, EntryChoice::Nothing, None),
        155 => entry(EntryRule::TappedUnless(Condition::YouControlAtLeast(of_subtypes(0x8), 1)), None, EntryChoice::Nothing, None),
        _ => entry(EntryRule::Untapped, None, EntryChoice::Nothing, None),
    }
}

/// How a card (or face) enters the battlefield, and its other face. (cards 156 to 167).
pub open spec fn spec_card_entry_13(c: CardIndex) -> Entry {
    match c.0 {
        156 => entry(EntryRule::Tapped, None, EntryChoice::Nothing, None),
        157 => entry(EntryRule::Untapped, None, EntryChoice::Nothing, None),
        158 => entry(EntryRule::Untapped, None, EntryChoice::Nothing, None),
        159 => entry(EntryRule::Untapped, None, EntryChoice::Nothing, None),
        160 => entry(EntryRule::Tapped, None, EntryChoice::Nothing, None),
        161 => entry(EntryRule::Untapped, None, EntryChoice::Nothing, None),
        162 => entry(EntryRule::Tapped, None, EntryChoice::Nothing, None),
        163 => entry(EntryRule::Tapped, None, EntryChoice::Nothing, None),
        164 => entry(EntryRule::Tapped, None, EntryChoice::Nothing, None),
        165 => entry(EntryRule::Tapped, None, EntryChoice::Nothing, None),
        166 => entry(EntryRule::Untapped, None, EntryChoice::Nothing, None),
        167 => entry(EntryRule::Untapped, None, EntryChoice::Nothing, None),
        _ => entry(EntryRule::Untapped, None, EntryChoice::Nothing, None),
    }
}

/// How a card (or face) enters the battlefield, and its other face. (cards 156 to 167).
fn card_entry_13(c: CardIndex) -> (r: Entry)
    ensures
        r == spec_card_entry_13(c),
{
    match c.0 {
        156 => entry(EntryRule::Tapped, None, EntryChoice::Nothing, None),
        157 => entry(EntryRule::Untapped, None, EntryChoice::Nothing, None),
        158 => entry(EntryRule::Untapped, None, EntryChoice::Nothing, None),
        159 => entry(EntryRule::Untapped, None, EntryChoice::Nothing, None),
        160 => entry(EntryRule::Tapped, None, EntryChoice::Nothing, None),
        161 => entry(EntryRule::Untapped, None, EntryChoice::Nothing, None),
        162 => entry(EntryRule::Tapped, None, EntryChoice::Nothing, None),
        163 => entry(EntryRule::Tapped, None, EntryChoice::Nothing, None),
        164 => entry(EntryRule::Tapped, None, EntryChoice::Nothing, None),
        165 => entry(EntryRule::Tapped, None, EntryChoice::Nothing, None),
        166 => entry(EntryRule::Untapped, None, EntryChoice::Nothing, None),
        167 => entry(EntryRule::Untapped, None, EntryChoice::Nothing, None),
        _ => entry(EntryRule::Untapped, None, EntryChoice::Nothing, None),
    }
}

/// How a card (or face) enters the battlefield, and its other face. (cards 168 to 179).
pub open spec fn spec_card_entry_14(c: CardIndex) -> Entry {
    match c.0 {
        168 => entry(EntryRule::Untapped, None, EntryChoice::Nothing, None),
        169 => entry(EntryRule::Untapped, None, EntryChoice::Nothing, None),
        170 => entry(EntryRule::Untapped, None, EntryChoice::Nothing, None),
        171 => entry(EntryRule::Untapped, None, EntryChoice::Nothing, None),
        172 => entry(EntryRule::Untapped, None, EntryChoice::Nothing, None),
        173 => entry(EntryRule::Untapped, None, EntryChoice::Nothing, None),
        174 => entry(EntryRule::Untapped, None, EntryChoice::Nothing, None),
        175 => entry(EntryRule::Untapped, None, EntryChoice::Nothing, None),
        176 => entry(EntryRule::Untapped, None, EntryChoice::Nothing, None),
        177 => entry(EntryRule::Untapped, None, EntryChoice::Nothing, None),
        178 => entry(EntryRule::Untapped, None, EntryChoice::Nothing, None),
        179 => entry(EntryRule::Untapped, None, EntryChoice::Nothing, None),
        _ => entry(EntryRule::Untapped, None, EntryChoice::Nothing, None),
    }
}

/// How a card (or face) enters the battlefield, and its other face. (cards 168 to 179).
fn card_entry_14(c: CardIndex) -> (r: Entry)
    ensures
        r == spec_card_entry_14(c),
{
    match c.0 {
        168 => entry(EntryRule::Untapped, None, EntryChoice::Nothing, None),
        169 => entry(EntryRule::Untapped, None, EntryChoice::Nothing, None),
        170 => entry(EntryRule::Untapped, None, EntryChoice::Nothing, None),
        171 => entry(EntryRule::Untapped, None, EntryChoice::Nothing, None),
        172 => entry(EntryRule::Untapped, None, EntryChoice::Nothing, None),
        173 => entry(EntryRule::Untapped, None, EntryChoice::Nothing, None),
        174 => entry(EntryRule::Untapped, None, EntryChoice::Nothing, None),
        175 => entry(EntryRule::Untapped, None, EntryChoice::Nothing, None),
        176 => entry(EntryRule::Untapped, None, EntryChoice::Nothing, None),
        177 => entry(EntryRule::Untapped, None, EntryChoice::Nothing, None),
        178 => entry(EntryRule::Untapped, None, EntryChoice::Nothing, None),
        179 => entry(EntryRule::Untapped, None, EntryChoice::Nothing, None),
        _ => entry(EntryRule::Untapped, None, EntryChoice::Nothing, None),
    }
}

/// How a card (or face) enters the battlefield, and its other face. (cards 180 to 191).
pub open spec fn spec_card_entry_15(c: CardIndex) -> Entry {
    match c.0 {
        180 => entry(EntryRule::Tapped, None, EntryChoice::Nothing, None),
        181 => entry(EntryRule::Untapped, None, EntryChoice::Nothing, None),
        182 => entry(EntryRule::TappedUnless(Condition::YouControlAtLeast(flagged(0x1, true, false, false, false, false), 1)), None, EntryChoice::Nothing, None),
        183 => entry(EntryRule::Tapped, None, EntryChoice::Nothing, None),
        184 => entry(EntryRule::Untapped, None, EntryChoice::Nothing, None),
        185 => entry(EntryRule::TappedUnless(Condition::YouControlAtLeast(flagged(0x2, false, false, true, false, false), 1)), None, EntryChoice::Nothing, None),
        186 => entry(EntryRule::Untapped, None, EntryChoice::Nothing, None),
        187 => entry(EntryRule::Untapped, None, EntryChoice::Nothing, None),
        188 => entry(EntryRule::Tapped, None, EntryChoice::Color, None),
        189 => entry(EntryRule::Untapped, None, EntryChoice::Nothing, None),
        190 => entry(EntryRule::Untapped, None, EntryChoice::Nothing, None),
        191 => entry(EntryRule::Untapped, None, EntryChoice::Nothing, None),
        _ => entry(EntryRule::Untapped, None, EntryChoice::Nothing, None),
    }
}

/// How a card (or face) enters the battlefield, and its other face. (cards 180 to 191).
fn card_entry_15(c: CardIndex) -> (r: Entry)
    ensures
        r == spec_card_entry_15(c),
{
    match c.0 {
        180 => entry(EntryRule::Tapped, None, EntryChoice::Nothing, None),
        181 => entry(EntryRule::Untapped, None, EntryChoice::Nothing, None),
        182 => entry(EntryRule::TappedUnless(Condition::YouControlAtLeast(flagged(0x1, true, false, false, false, false), 1)), None, EntryChoice::Nothing, None),
        183 => entry(EntryRule::Tapped, None, EntryChoice::Nothing, None),
        184 => entry(EntryRule::Untapped, None, EntryChoice::Nothing, None),
        185 => entry(EntryRule::TappedUnless(Condition::YouControlAtLeast(flagged(0x2, false, false, true, false, false), 1)), None, EntryChoice::Nothing, None),
        186 => entry(EntryRule::Untapped, None, EntryChoice::Nothing, None),
        187 => entry(EntryRule::Untapped, None, EntryChoice::Nothing, None),
        188 => entry(EntryRule::Tapped, None, EntryChoice::Color, None),
        189 => entry(EntryRule::Untapped, None, EntryChoice::Nothing, None),
        190 => entry(EntryRule::Untapped, None, EntryChoice::Nothing, None),
        191 => entry(EntryRule::Untapped, None, EntryChoice::Nothing, None),
        _ => entry(EntryRule::Untapped, None, EntryChoice::Nothing, None),
    }
}

/// How a card (or face) enters the battlefield, and its other face. (cards 192 to 203).
pub open spec fn spec_card_entry_16(c: CardIndex) -> Entry {
    match c.0 {
        192 => entry(EntryRule::TappedUnless(Condition::YouControlAtMost(of_types(0x1), 1)), None, EntryChoice::Nothing, None),
        193 => entry(EntryRule::Untapped, None, EntryChoice::Nothing, None),
        194 => entry(EntryRule::Tapped, None, EntryChoice::Nothing, None),
        195 => entry(EntryRule::Tapped, None, EntryChoice::Nothing, None),
        196 => entry(EntryRule::Tapped, None, EntryChoice::Nothing, None),
        197 => entry(EntryRule::Tapped, None, EntryChoice::Nothing, None),
        198 => entry(EntryRule::Tapped, None, EntryChoice::Nothing, None),
        199 => entry(EntryRule::Untapped, None, EntryChoice::Nothing, None),
        200 => entry(EntryRule::Tapped, None, EntryChoice::Nothing, None),
        201 => entry(EntryRule::Untapped, None, EntryChoice::Nothing, None),
        202 => entry(EntryRule::TappedUnless(Condition::YouControlAtLeast(of_subtypes(0x10), 1)), None, EntryChoice::Nothing, None),
        203 => entry(EntryRule::Tapped, None, EntryChoice::Nothing, None),
        _ => entry(EntryRule::Untapped, None, EntryChoice::Nothing, None),
    }
}

/// How a card (or face) enters the battlefield, and its other face. (cards 192 to 203).
fn card_entry_16(c: CardIndex) -> (r: Entry)
    ensures
        r == spec_card_entry_16(c),
{
    match c.0 {
        192 => entry(EntryRule::TappedUnless(Condition::YouControlAtMost(of_types(0x1), 1)), None, EntryChoice::Nothing, None),
        193 => entry(EntryRule::Untapped, None, EntryChoice::Nothing, None),
        194 => entry(EntryRule::Tapped, None, EntryChoice::Nothing, None),
        195 => entry(EntryRule::Tapped, None, EntryChoice::Nothing, None),
        196 => entry(EntryRule::Tapped, None, EntryChoice::Nothing, None),
        197 => entry(EntryRule::Tapped, None, EntryChoice::Nothing, None),
        198 => entry(EntryRule::Tapped, None, EntryChoice::Nothing, None),
        199 => entry(EntryRule::Untapped, None, EntryChoice::Nothing, None),
        200 => entry(EntryRule::Tapped, None, EntryChoice::Nothing, None),
        201 => entry(EntryRule::Untapped, None, EntryChoice::Nothing, None),
        202 => entry(EntryRule::TappedUnless(Condition::YouControlAtLeast(of_subtypes(0x10), 1)), None, EntryChoice::Nothing, None),
        203 => entry(EntryRule::Tapped, None, EntryChoice::Nothing, None),
        _ => entry(EntryRule::Untapped, None, EntryChoice::Nothing, None),
    }
}

/// How a card (or face) enters the battlefield, and its other face. (cards 204 to 215).
pub open spec fn spec_card_entry_17(c: CardIndex) -> Entry {
    match c.0 {
        204 => entry(EntryRule::Tapped, None, EntryChoice::Nothing, None),
        205 => entry(EntryRule::Tapped, None, EntryChoice::Nothing, None),
        206 => entry(EntryRule::Tapped, None, EntryChoice::Nothing, None),
        207 => entry(EntryRule::TappedUnless(Condition::YouControlAtLeast(of_subtypes(0x4), 1)), None, EntryChoice::Nothing, None),
        208 => entry(EntryRule::Tapped, None, EntryChoice::Nothing, None),
        209 => entry(EntryRule::Tapped, None, EntryChoice::Nothing, None),
        210 => entry(EntryRule::Untapped, None, EntryChoice::Nothing, None),
        211 => entry(EntryRule::Untapped, None, EntryChoice::Nothing, None),
        212 => entry(EntryRule::TappedUnless(Condition::YouControlAtLeast(of_subtypes(0x2), 1)), None, EntryChoice::Nothing, None),
        213 => entry(EntryRule::TappedUnless(Condition::YouControlAtLeast(of_subtypes(0x8), 1)), None, EntryChoice::Nothing, None),
        214 => entry(EntryRule::Untapped, None, EntryChoice::Nothing, None),
        215 => entry(EntryRule::Untapped, Some(CounterAmount { kind: CounterKind::Charge, n: 1 }), EntryChoice::Nothing, None),
        _ => entry(EntryRule::Untapped, None, EntryChoice::Nothing, None),
    }
}

/// How a card (or face) enters the battlefield, and its other face. (cards 204 to 215).
fn card_entry_17(c: CardIndex) -> (r: Entry)
    ensures
        r == spec_card_entry_17(c),
{
    match c.0 {
        204 => entry(EntryRule::Tapped, None, EntryChoice::Nothing, None),
        205 => entry(EntryRule::Tapped, None, EntryChoice::Nothing, None),
        206 => entry(EntryRule::Tapped, None, EntryChoice::Nothing, None),
        207 => entry(EntryRule::TappedUnless(Condition::YouControlAtLeast(of_subtypes(0x4), 1)), None, EntryChoice::Nothing, None),
        208 => entry(EntryRule::Tapped, None, EntryChoice::Nothing, None),
        209 => entry(EntryRule::Tapped, None, EntryChoice::Nothing, None),
        210 => entry(EntryRule::Untapped, None, EntryChoice::Nothing, None),
        211 => entry(EntryRule::Untapped, None, EntryChoice::Nothing, None),
        212 => entry(EntryRule::TappedUnless(Condition::YouControlAtLeast(of_subtypes(0x2), 1)), None, EntryChoice::Nothing, None),
        213 => entry(EntryRule::TappedUnless(Condition::YouControlAtLeast(of_subtypes(0x8), 1)), None, EntryChoice::Nothing, None),
        214 => entry(EntryRule::Untapped, None, EntryChoice::Nothing, None),
        215 => entry(EntryRule::Untapped, Some(CounterAmount { kind: CounterKind::Charge, n: 1 }), EntryChoice::Nothing, None),
        _ => entry(EntryRule::Untapped, None, EntryChoice::Nothing, None),
    }
}

/// How a card (or face) enters the battlefield, and its other face. (cards 216 to 227).
pub open spec fn spec_card_entry_18(c: CardIndex) -> Entry {
    match c.0 {
        216 => entry(EntryRule::Untapped, None, EntryChoice::Nothing, None),
        217 => entry(EntryRule::Tapped, None, EntryChoice::Nothing, None),
        218 => entry(EntryRule::Untapped, None, EntryChoice::Nothing, None),
        219 => entry(EntryRule::TappedUnless(Condition::YouControlAtLeast(of_subtypes(0x300000000), 1)), None, EntryChoice::Nothing, None),
        220 => entry(EntryRule::TappedUnless(Condition::YouControlAtLeast(of_subtypes(0x300000000), 1)), None, EntryChoice::Nothing, None),
        221 => entry(EntryRule::TappedUnless(Condition::YouControlAtLeast(of_subtypes(0x300000000), 1)), None, EntryChoice::Nothing, None),
        222 => entry(EntryRule::TappedUnless(Condition::YouControlAtLeast(of_subtypes(0x300000000), 1)), None, EntryChoice::Nothing, None),
        223 => entry(EntryRule::TappedUnless(Condition::YouControlAtLeast(of_subtypes(0x300000000), 1)), None, EntryChoice::Nothing, None),
        224 => entry(EntryRule::TappedUnless(Condition::YouControlAtLeast(of_subtypes(0xc), 1)), None, EntryChoice::Nothing, None),
        225 => entry(EntryRule::TappedUnless(Condition::YouControlAtMost(of_types(0x1), 1)), None, EntryChoice::Nothing, None),
        226 => entry(EntryRule::Untapped, None, EntryChoice::LorwynTribe, None),
        227 => entry(EntryRule::Tapped, None, EntryChoice::Nothing, None),
        _ => entry(EntryRule::Untapped, None, EntryChoice::Nothing, None),
    }
}

/// How a card (or face) enters the battlefield, and its other face. (cards 216 to 227).
fn card_entry_18(c: CardIndex) -> (r: Entry)
    ensures
        r == spec_card_entry_18(c),
{
    match c.0 {
        216 => entry(EntryRule::Untapped, None, EntryChoice::Nothing, None),
        217 => entry(EntryRule::Tapped, None, EntryChoice::Nothing, None),
        218 => entry(EntryRule::Untapped, None, EntryChoice::Nothing, None),
        219 => entry(EntryRule::TappedUnless(Condition::YouControlAtLeast(of_subtypes(0x300000000), 1)), None, EntryChoice::Nothing, None),
        220 => entry(EntryRule::TappedUnless(Condition::YouControlAtLeast(of_subtypes(0x300000000), 1)), None, EntryChoice::Nothing, None),
        221 => entry(EntryRule::TappedUnless(Condition::YouControlAtLeast(of_subtypes(0x300000000), 1)), None, EntryChoice::Nothing, None),
        222 => entry(EntryRule::TappedUnless(Condition::YouControlAtLeast(of_subtypes(0x300000000), 1)), None, EntryChoice::Nothing, None),
        223 => entry(EntryRule::TappedUnless(Condition::YouControlAtLeast(of_subtypes(0x300000000), 1)), None, EntryChoice::Nothing, None),
        224 => entry(EntryRule::TappedUnless(Condition::YouControlAtLeast(of_subtypes(0xc), 1)), None, EntryChoice::Nothing, None),
        225 => entry(EntryRule::TappedUnless(Condition::YouControlAtMost(of_types(0x1), 1)), None, EntryChoice::Nothing, None),
        226 => entry(EntryRule::Untapped, None, EntryChoice::LorwynTribe, None),
        227 => entry(EntryRule::Tapped, None, EntryChoice::Nothing, None),
        _ => entry(EntryRule::Untapped, None, EntryChoice::Nothing, None),
    }
}

/// How a card (or face) enters the battlefield, and its other face. (cards 228 to 239).
pub open spec fn spec_card_entry_19(c: CardIndex) -> Entry {
    match c.0 {
        228 => entry(EntryRule::Untapped, None, EntryChoice::Nothing, None),
        229 => entry(EntryRule::Untapped, None, EntryChoice::Nothing, None),
        230 => entry(EntryRule::TappedUnless(Condition::YouControlAtMost(of_types(0x1), 1)), None, EntryChoice::Nothing, None),
        231 => entry(EntryRule::Untapped, None, EntryChoice::Nothing, None),
        232 => entry(EntryRule::Tapped, None, EntryChoice::Nothing, None),
        233 => entry(EntryRule::Tapped, None, EntryChoice::Nothing, None),
        234 => entry(EntryRule::Untapped, None, EntryChoice::Nothing, None),
        235 => entry(EntryRule::Tapped, None, EntryChoice::Nothing, None),
        236 => entry(EntryRule::Untapped, None, EntryChoice::Nothing, None),
        237 => entry(EntryRule::Untapped, None, EntryChoice::Nothing, None),
        238 => entry(EntryRule::Tapped, None, EntryChoice::Nothing, None),
        239 => entry(EntryRule::Tapped, None, EntryChoice::Nothing, None),
        _ => entry(EntryRule::Untapped, None, EntryChoice::Nothing, None),
    }
}

/// How a card (or face) enters the battlefield, and its other face. (cards 228 to 239).
fn card_entry_19(c: CardIndex) -> (r: Entry)
    ensures
        r == spec_card_entry_19(c),
{
    match c.0 {
        228 => entry(EntryRule::Untapped, None, EntryChoice::Nothing, None),
        229 => entry(EntryRule::Untapped, None, EntryChoice::Nothing, None),
        230 => entry(EntryRule::TappedUnless(Condition::YouControlAtMost(of_types(0x1), 1)), None, EntryChoice::Nothing, None),
        231 => entry(EntryRule::Untapped, None, EntryChoice::Nothing, None),
        232 => entry(EntryRule::Tapped, None, EntryChoice::Nothing, None),
        233 => entry(EntryRule::Tapped, None, EntryChoice::Nothing, None),
        234 => entry(EntryRule::Untapped, None, EntryChoice::Nothing, None),
        235 => entry(EntryRule::Tapped, None, EntryChoice::Nothing, None),
        236 => entry(EntryRule::Untapped, None, EntryChoice::Nothing, None),
        237 => entry(EntryRule::Untapped, None, EntryChoice::Nothing, None),
        238 => entry(EntryRule::Tapped, None, EntryChoice::Nothing, None),
        239 => entry(EntryRule::Tapped, None, EntryChoice::Nothing, None),
        _ => entry(EntryRule::Untapped, None, EntryChoice::Nothing, None),
    }
}

/// How a card (or face) enters the battlefield, and its other face. (cards 240 to 251).
pub open spec fn spec_card_entry_20(c: CardIndex) -> Entry {
    match c.0 {
        240 => entry(EntryRule::Tapped, None, EntryChoice::Nothing, None),
        241 => entry(EntryRule::Tapped, None, EntryChoice::Nothing, None),
        242 => entry(EntryRule::Tapped, None, EntryChoice::Nothing, None),
        243 => entry(EntryRule::Tapped, None, EntryChoice::Nothing, None),
        244 => entry(EntryRule::Tapped, None, EntryChoice::Nothing, None),
        245 => entry(EntryRule::TappedUnless(Condition::YouControlAtLeast(of_subtypes(0x1), 1)), None, EntryChoice::Nothing, None),
        246 => entry(EntryRule::Tapped, None, EntryChoice::Nothing, None),
        247 => entry(EntryRule::Untapped, None, EntryChoice::Nothing, None),
        248 => entry(EntryRule::TappedUnless(Condition::YouControlAtMost(of_types(0x1), 2)), None, EntryChoice::Nothing, None),
        249 => entry(EntryRule::Untapped, None, EntryChoice::Nothing, None),
        250 => entry(EntryRule::TappedUnless(Condition::YouControlAtMost(of_types(0x1), 1)), None, EntryChoice::Nothing, None),
        251 => entry(EntryRule::Untapped, None, EntryChoice::Nothing, None),
        _ => entry(EntryRule::Untapped, None, EntryChoice::Nothing, None),
    }
}

/// How a card (or face) enters the battlefield, and its other face. (cards 240 to 251).
fn card_entry_20(c: CardIndex) -> (r: Entry)
    ensures
        r == spec_card_entry_20(c),
{
    match c.0 {
        240 => entry(EntryRule::Tapped, None, EntryChoice::Nothing, None),
        241 => entry(EntryRule::Tapped, None, EntryChoice::Nothing, None),
        242 => entry(EntryRule::Tapped, None, EntryChoice::Nothing, None),
        243 => entry(EntryRule::Tapped, None, EntryChoice::Nothing, None),
        244 => entry(EntryRule::Tapped, None, EntryChoice::Nothing, None),
        245 => entry(EntryRule::TappedUnless(Condition::YouControlAtLeast(of_subtypes(0x1), 1)), None, EntryChoice::Nothing, None),
        246 => entry(EntryRule::Tapped, None, EntryChoice::Nothing, None),
        247 => entry(EntryRule::Untapped, None, EntryChoice::Nothing, None),
        248 => entry(EntryRule::TappedUnless(Condition::YouControlAtMost(of_types(0x1), 2)), None, EntryChoice::Nothing, None),
        249 => entry(EntryRule::Untapped, None, EntryChoice::Nothing, None),
        250 => entry(EntryRule::TappedUnless(Condition::YouControlAtMost(of_types(0x1), 1)), None, EntryChoice::Nothing, None),
        251 => entry(EntryRule::Untapped, None, EntryChoice::Nothing, None),
        _ => entry(EntryRule::Untapped, None, EntryChoice::Nothing, None),
    }
}

/// How a card (or face) enters the battlefield, and its other face. (cards 252 to 263).
pub open spec fn spec_card_entry_21(c: CardIndex) -> Entry {
    match c.0 {
        252 => entry(EntryRule::Untapped, None, EntryChoice::Nothing, None),
        253 => entry(EntryRule::Untapped, None, EntryChoice::Nothing, None),
        254 => entry(EntryRule::Untapped, None, EntryChoice::Nothing, None),
        255 => entry(EntryRule::Untapped, None, EntryChoice::Nothing, None),
        256 => entry(EntryRule::Untapped, None, EntryChoice::Nothing, None),
        257 => entry(EntryRule::Untapped, None, EntryChoice::Nothing, None),
        258 => entry(EntryRule::Untapped, None, EntryChoice::Nothing, None),
        259 => entry(EntryRule::Tapped, None, EntryChoice::Nothing, None),
        260 => entry(EntryRule::Tapped, Some(CounterAmount { kind: CounterKind::Charge, n: 2 }), EntryChoice::Nothing, None),
        261 => entry(EntryRule::Tapped, Some(CounterAmount { kind: CounterKind::Charge, n: 2 }), EntryChoice::Nothing, None),
        262 => entry(EntryRule::Tapped, Some(CounterAmount { kind: CounterKind::Charge, n: 2 }), EntryChoice::Nothing, None),
        263 => entry(EntryRule::Tapped, Some(CounterAmount { kind: CounterKind::Charge, n: 2 }), EntryChoice::Nothing, None),
        _ => entry(EntryRule::Untapped, None, EntryChoice::Nothing, None),
    }
}

/// How a card (or face) enters the battlefield, and its other face. (cards 252 to 263).
fn card_entry_21(c: CardIndex) -> (r: Entry)
    ensures
        r == spec_card_entry_21(c),
{
    match c.0 {
        252 => entry(EntryRule::Untapped, None, EntryChoice::Nothing, None),
        253 => entry(EntryRule::Untapped, None, EntryChoice::Nothing, None),
        254 => entry(EntryRule::Untapped, None, EntryChoice::Nothing, None),
        255 => entry(EntryRule::Untapped, None, EntryChoice::Nothing, None),
        256 => entry(EntryRule::Untapped, None, EntryChoice::Nothing, None),
        257 => entry(EntryRule::Untapped, None, EntryChoice::Nothing, None),
        258 => entry(EntryRule::Untapped, None, EntryChoice::Nothing, None),
        259 => entry(EntryRule::Tapped, None, EntryChoice::Nothing, None),
        260 => entry(EntryRule::Tapped, Some(CounterAmount { kind: CounterKind::Charge, n: 2 }), EntryChoice::Nothing, None),
        261 => entry(EntryRule::Tapped, Some(CounterAmount { kind: CounterKind::Charge, n: 2 }), EntryChoice::Nothing, None),
        262 => entry(EntryRule::Tapped, Some(CounterAmount { kind: CounterKind::Charge, n: 2 }), EntryChoice::Nothing, None),
        263 => entry(EntryRule::Tapped, Some(CounterAmount { kind: CounterKind::Charge, n: 2 }), EntryChoice::Nothing, None),
        _ => entry(EntryRule::Untapped, None, EntryChoice::Nothing, None),
    }
}

/// How a card (or face) enters the battlefield, and its other face. (cards 264 to 275).
pub open spec fn spec_card_entry_22(c: CardIndex) -> Entry {
    match c.0 {
        264 => entry(EntryRule::Tapped, Some(CounterAmount { kind: CounterKind::Charge, n: 2 }), EntryChoice::Nothing, None),
        265 => entry(EntryRule::Untapped, Some(CounterAmount { kind: CounterKind::Charge, n: 1 }), EntryChoice::Nothing, None),
        266 => entry(EntryRule::Untapped, None, EntryChoice::Nothing, None),
        267 => entry(EntryRule::Untapped, None, EntryChoice::Nothing, None),
        268 => entry(EntryRule::Tapped, Some(CounterAmount { kind: CounterKind::Depletion, n: 2 }), EntryChoice::Nothing, None),
        269 => entry(EntryRule::Tapped, Some(CounterAmount { kind: CounterKind::Depletion, n: 2 }), EntryChoice::Nothing, None),
        270 => entry(EntryRule::Tapped, Some(CounterAmount { kind: CounterKind::Depletion, n: 2 }), EntryChoice::Nothing, None),
        271 => entry(EntryRule::Tapped, Some(CounterAmount { kind: CounterKind::Depletion, n: 2 }), EntryChoice::Nothing, None),
        272 => entry(EntryRule::Tapped, Some(CounterAmount { kind: CounterKind::Depletion, n: 2 }), EntryChoice::Nothing, None),
        273 => entry(EntryRule::Untapped, Some(CounterAmount { kind: CounterKind::Mining, n: 3 }), EntryChoice::Nothing, None),
        274 => entry(EntryRule::Tapped, None, EntryChoice::Nothing, None),
        275 => entry(EntryRule::Untapped, None, EntryChoice::Nothing, None),
        _ => entry(EntryRule::Untapped, None, EntryChoice::Nothing, None),
    }
}

/// How a card (or face) enters the battlefield, and its other face. (cards 264 to 275).
fn card_entry_22(c: CardIndex) -> (r: Entry)
    ensures
        r == spec_card_entry_22(c),
{
    match c.0 {
        264 => entry(EntryRule::Tapped, Some(CounterAmount { kind: CounterKind::Charge, n: 2 }), EntryChoice::Nothing, None),
        265 => entry(EntryRule::Untapped, Some(CounterAmount { kind: CounterKind::Charge, n: 1 }), EntryChoice::Nothing, None),
        266 => entry(EntryRule::Untapped, None, EntryChoice::Nothing, None),
        267 => entry(EntryRule::Untapped, None, EntryChoice::Nothing, None),
        268 => entry(EntryRule::Tapped, Some(CounterAmount { kind: CounterKind::Depletion, n: 2 }), EntryChoice::Nothing, None),
        269 => entry(EntryRule::Tapped, Some(CounterAmount { kind: CounterKind::Depletion, n: 2 }), EntryChoice::Nothing, None),
        270 => entry(EntryRule::Tapped, Some(CounterAmount { kind: CounterKind::Depletion, n: 2 }), EntryChoice::Nothing, None),
        271 => entry(EntryRule::Tapped, Some(CounterAmount { kind: CounterKind::Depletion, n: 2 }), EntryChoice::Nothing, None),
        272 => entry(EntryRule::Tapped, Some(CounterAmount { kind: CounterKind::Depletion, n: 2 }), EntryChoice::Nothing, None),
        273 => entry(EntryRule::Untapped, Some(CounterAmount { kind: CounterKind::Mining, n: 3 }), EntryChoice::Nothing, None),
        274 => entry(EntryRule::Tapped, None, EntryChoice::Nothing, None),
        275 => entry(EntryRule::Untapped, None, EntryChoice::Nothing, None),
        _ => entry(EntryRule::Untapped, None, EntryChoice::Nothing, None),
    }
}

/// How a card (or face) enters the battlefield, and its other face. (cards 276 to 287).
pub open spec fn spec_card_entry_23(c: CardIndex) -> Entry {
    match c.0 {
        276 => entry(EntryRule::Tapped, None, EntryChoice::Nothing, None),
        277 => entry(EntryRule::Tapped, None, EntryChoice::Nothing, None),
        278 => entry(EntryRule::Tapped, None, EntryChoice::Nothing, None),
        279 => entry(EntryRule::Tapped, None, EntryChoice::Nothing, None),
        280 => entry(EntryRule::Untapped, None, EntryChoice::Nothing, None),
        281 => entry(EntryRule::Untapped, None, EntryChoice::Nothing, None),
        282 => entry(EntryRule::Untapped, None, EntryChoice::Nothing, None),
        283 => entry(EntryRule::Untapped, None, EntryChoice::Nothing, None),
        284 => entry(EntryRule::Untapped, None, EntryChoice::Nothing, None),
        285 => entry(EntryRule::Untapped, None, EntryChoice::Nothing, None),
        286 => entry(EntryRule::Untapped, None, EntryChoice::Nothing, None),
        287 => entry(EntryRule::Untapped, None, EntryChoice::Nothing, None),
        _ => entry(EntryRule::Untapped, None, EntryChoice::Nothing, None),
    }
}

/// How a card (or face) enters the battlefield, and its other face. (cards 276 to 287).
fn card_entry_23(c: CardIndex) -> (r: Entry)
    ensures
        r == spec_card_entry_23(c),
{
    match c.0 {
        276 => entry(EntryRule::Tapped, None, EntryChoice::Nothing, None),
        277 => entry(EntryRule::Tapped, None, EntryChoice::Nothing, None),
        278 => entry(EntryRule::Tapped, None, EntryChoice::Nothing, None),
        279 => entry(EntryRule::Tapped, None, EntryChoice::Nothing, None),
        280 => entry(EntryRule::Untapped, None, EntryChoice::Nothing, None),
        281 => entry(EntryRule::Untapped, None, EntryChoice::Nothing, None),
        282 => entry(EntryRule::Untapped, None, EntryChoice::Nothing, None),
        283 => entry(EntryRule::Untapped, None, EntryChoice::Nothing, None),
        284 => entry(EntryRule::Untapped, None, EntryChoice::Nothing, None),
        285 => entry(EntryRule::Untapped, None, EntryChoice::Nothing, None),
        286 => entry(EntryRule::Untapped, None, EntryChoice::Nothing, None),
        287 => entry(EntryRule::Untapped, None, EntryChoice::Nothing, None),
        _ => entry(EntryRule::Untapped, None, EntryChoice::Nothing, None),
    }
}

/// How a card (or face) enters the battlefield, and its other face. (cards 288 to 299).
pub open spec fn spec_card_entry_24(c: CardIndex) -> Entry {
    match c.0 {
        288 => entry(EntryRule::Untapped, None, EntryChoice::Nothing, None),
        289 => entry(EntryRule::Untapped, None, EntryChoice::Nothing, None),
        290 => entry(EntryRule::Untapped, None, EntryChoice::Nothing, None),
        291 => entry(EntryRule::Untapped, None, EntryChoice::Nothing, None),
        292 => entry(EntryRule::Untapped, None, EntryChoice::Nothing, None),
        293 => entry(EntryRule::Untapped, None, EntryChoice::Nothing, None),
        294 => entry(EntryRule::Untapped, None, EntryChoice::Nothing, None),
        295 => entry(EntryRule::Untapped, None, EntryChoice::Nothing, None),
        296 => entry(EntryRule::Untapped, None, EntryChoice::Nothing, None),
        297 => entry(EntryRule::Untapped, None, EntryChoice::Nothing, None),
        298 => entry(EntryRule::Untapped, None, EntryChoice::Nothing, None),
        299 => entry(EntryRule::Untapped, None, EntryChoice::Nothing, None),
        _ => entry(EntryRule::Untapped, None, EntryChoice::Nothing, None),
    }
}

/// How a card (or face) enters the battlefield, and its other face. (cards 288 to 299).
fn card_entry_24(c: CardIndex) -> (r: Entry)
    ensures
        r == spec_card_entry_24(c),
{
    match c.0 {
        288 => entry(EntryRule::Untapped, None, EntryChoice::Nothing, None),
        289 => entry(EntryRule::Untapped, None, EntryChoice::Nothing, None),
        290 => entry(EntryRule::Untapped, None, EntryChoice::Nothing, None),
        291 => entry(EntryRule::Untapped, None, EntryChoice::Nothing, None),
        292 => entry(EntryRule::Untapped, None, EntryChoice::Nothing, None),
        293 => entry(EntryRule::Untapped, None, EntryChoice::Nothing, None),
        294 => entry(EntryRule::Untapped, None, EntryChoice::Nothing, None),
        295 => entry(EntryRule::Untapped, None, EntryChoice::Nothing, None),
        296 => entry(EntryRule::Untapped, None, EntryChoice::Nothing, None),
        297 => entry(EntryRule::Untapped, None, EntryChoice::Nothing, None),
        298 => entry(EntryRule::Untapped, None, EntryChoice::Nothing, None),
        299 => entry(EntryRule::Untapped, None, EntryChoice::Nothing, None),
        _ => entry(EntryRule::Untapped, None, EntryChoice::Nothing, None),
    }
}

/// How a card (or face) enters the battlefield, and its other face. (cards 300 to 311).
pub open spec fn spec_card_entry_25(c: CardIndex) -> Entry {
    match c.0 {
        300 => entry(EntryRule::Untapped, None, EntryChoice::Nothing, None),
        301 => entry(EntryRule::Tapped, None, EntryChoice::Nothing, None),
        302 => entry(EntryRule::Tapped, None, EntryChoice::Nothing, None),
        303 => entry(EntryRule::Untapped, None, EntryChoice::Nothing, None),
        304 => entry(EntryRule::Tapped, None, EntryChoice::Nothing, None),
        305 => entry(EntryRule::Tapped, None, EntryChoice::Nothing, None),
        306 => entry(EntryRule::Tapped, None, EntryChoice::Nothing, None),
        307 => entry(EntryRule::Tapped, None, EntryChoice::Nothing, None),
        308 => entry(EntryRule::Tapped, None, EntryChoice::Nothing, None),
        309 => entry(EntryRule::Untapped, None, EntryChoice::Nothing, None),
        310 => entry(EntryRule::Untapped, None, EntryChoice::Nothing, None),
        311 => entry(EntryRule::Untapped, None, EntryChoice::Nothing, None),
        _ => entry(EntryRule::Untapped, None, EntryChoice::Nothing, None),
    }
}

/// How a card (or face) enters the battlefield, and its other face. (cards 300 to 311).
fn card_entry_25(c: CardIndex) -> (r: Entry)
    ensures
        r == spec_card_entry_25(c),
{
    match c.0 {
        300 => entry(EntryRule::Untapped, None, EntryChoice::Nothing, None),
        301 => entry(EntryRule::Tapped, None, EntryChoice::Nothing, None),
        302 => entry(EntryRule::Tapped, None, EntryChoice::Nothing, None),
        303 => entry(EntryRule::Untapped, None, EntryChoice::Nothing, None),
        304 => entry(EntryRule::Tapped, None, EntryChoice::Nothing, None),
        305 => entry(EntryRule::Tapped, None, EntryChoice::Nothing, None),
        306 => entry(EntryRule::Tapped, None, EntryChoice::Nothing, None),
        307 => entry(EntryRule::Tapped, None, EntryChoice::Nothing, None),
        308 => entry(EntryRule::Tapped, None, EntryChoice::Nothing, None),
        309 => entry(EntryRule::Untapped, None, EntryChoice::Nothing, None),
        310 => entry(EntryRule::Untapped, None, EntryChoice::Nothing, None),
        311 => entry(EntryRule::Untapped, None, EntryChoice::Nothing, None),
        _ => entry(EntryRule::Untapped, None, EntryChoice::Nothing, None),
    }
}

/// How a card (or face) enters the battlefield, and its other face. (cards 312 to 323).
pub open spec fn spec_card_entry_26(c: CardIndex) -> Entry {
    match c.0 {
        312 => entry(EntryRule::Untapped, None, EntryChoice::Nothing, None),
        313 => entry(EntryRule::Untapped, None, EntryChoice::Nothing, None),
        314 => entry(EntryRule::Untapped, None, EntryChoice::Nothing, None),
        315 => entry(EntryRule::Untapped, None, EntryChoice::Nothing, None),
        316 => entry(EntryRule::Untapped, None, EntryChoice::Nothing, None),
        317 => entry(EntryRule::Untapped, None, EntryChoice::Nothing, None),
        318 => entry(EntryRule::Untapped, None, EntryChoice::Nothing, None),
        319 => entry(EntryRule::Untapped, None, EntryChoice::Nothing, None),
        320 => entry(EntryRule::Untapped, None, EntryChoice::Nothing, None),
        321 => entry(EntryRule::TappedUnless(Condition::YouControlAtLeast(flagged(0x2, false, false, true, false, false), 1)), None, EntryChoice::Nothing, None),
        322 => entry(EntryRule::Untapped, None, EntryChoice::Nothing, None),
        323 => entry(EntryRule::Untapped, None, EntryChoice::Nothing, None),
        _ => entry(EntryRule::Untapped, None, EntryChoice::Nothing, None),
    }
}

/// How a card (or face) enters the battlefield, and its other face. (cards 312 to 323).
fn card_entry_26(c: CardIndex) -> (r: Entry)
    ensures
        r == spec_card_entry_26(c),
{
    match c.0 {
        312 => entry(EntryRule::Untapped, None, EntryChoice::Nothing, None),
        313 => entry(EntryRule::Untapped, None, EntryChoice::Nothing, None),
        314 => entry(EntryRule::Untapped, None, EntryChoice::Nothing, None),
        315 => entry(EntryRule::Untapped, None, EntryChoice::Nothing, None),
        316 => entry(EntryRule::Untapped, None, EntryChoice::Nothing, None),
        317 => entry(EntryRule::Untapped, None, EntryChoice::Nothing, None),
        318 => entry(EntryRule::Untapped, None, EntryChoice::Nothing, None),
        319 => entry(EntryRule::Untapped, None, EntryChoice::Nothing, None),
        320 => entry(EntryRule::Untapped, None, EntryChoice::Nothing, None),
        321 => entry(EntryRule::TappedUnless(Condition::YouControlAtLeast(flagged(0x2, false, false, true, false, false), 1)), None, EntryChoice::Nothing, None),
        322 => entry(EntryRule::Untapped, None, EntryChoice::Nothing, None),
        323 => entry(EntryRule::Untapped, None, EntryChoice::Nothing, None),
        _ => entry(EntryRule::Untapped, None, EntryChoice::Nothing, None),
    }
}

/// How a card (or face) enters the battlefield, and its other face. (cards 324 to 335).
pub open spec fn spec_card_entry_27(c: CardIndex) -> Entry {
    match c.0 {
        324 => entry(EntryRule::Untapped, None, EntryChoice::Nothing, None),
        325 => entry(EntryRule::Untapped, None, EntryChoice::Nothing, None),
        326 => entry(EntryRule::Untapped, None, EntryChoice::Nothing, None),
        327 => entry(EntryRule::Untapped, None, EntryChoice::Nothing, None),
        328 => entry(EntryRule::Untapped, None, EntryChoice::Nothing, None),
        329 => entry(EntryRule::Untapped, None, EntryChoice::Nothing, None),
        330 => entry(EntryRule::Untapped, None, EntryChoice::Nothing, None),
        331 => entry(EntryRule::Untapped, None, EntryChoice::Nothing, None),
        332 => entry(EntryRule::Untapped, None, EntryChoice::Nothing, None),
        333 => entry(EntryRule::Tapped, None, EntryChoice::Nothing, None),
        334 => entry(EntryRule::Tapped, None, EntryChoice::Nothing, None),
        335 => entry(EntryRule::Tapped, None, EntryChoice::Nothing, None),
        _ => entry(EntryRule::Untapped, None, EntryChoice::Nothing, None),
    }
}

/// How a card (or face) enters the battlefield, and its other face. (cards 324 to 335).
fn card_entry_27(c: CardIndex) -> (r: Entry)
    ensures
        r == spec_card_entry_27(c),
{
    match c.0 {
        324 => entry(EntryRule::Untapped, None, EntryChoice::Nothing, None),
        325 => entry(EntryRule::Untapped, None, EntryChoice::Nothing, None),
        326 => entry(EntryRule::Untapped, None, EntryChoice::Nothing, None),
        327 => entry(EntryRule::Untapped, None, EntryChoice::Nothing, None),
        328 => entry(EntryRule::Untapped, None, EntryChoice::Nothing, None),
        329 => entry(EntryRule::Untapped, None, EntryChoice::Nothing, None),
        330 => entry(EntryRule::Untapped, None, EntryChoice::Nothing, None),
        331 => entry(EntryRule::Untapped, None, EntryChoice::Nothing, None),
        332 => entry(EntryRule::Untapped, None, EntryChoice::Nothing, None),
        333 => entry(EntryRule::Tapped, None, EntryChoice::Nothing, None),
        334 => entry(EntryRule::Tapped, None, EntryChoice::Nothing, None),
        335 => entry(EntryRule::Tapped, None, EntryChoice::Nothing, None),
        _ => entry(EntryRule::Untapped, None, EntryChoice::Nothing, None),
    }
}

/// How a card (or face) enters the battlefield, and its other face. (cards 336 to 347).
pub open spec fn spec_card_entry_28(c: CardIndex) -> Entry {
    match c.0 {
        336 => entry(EntryRule::Untapped, None, EntryChoice::Nothing, None),
        337 => entry(EntryRule::Untapped, None, EntryChoice::Nothing, None),
        338 => entry(EntryRule::Untapped, None, EntryChoice::Nothing, None),
        339 => entry(EntryRule::TappedUnless(Condition::YouControlAtLeast(of_subtypes(0x10), 3)), None, EntryChoice::Nothing, None),
        340 => entry(EntryRule::TappedUnless(Condition::YouControlAtLeast(of_subtypes(0x8), 3)), None, EntryChoice::Nothing, None),
        341 => entry(EntryRule::TappedUnless(Condition::YouControlAtLeast(of_subtypes(0x1), 3)), None, EntryChoice::Nothing, None),
        342 => entry(EntryRule::Tapped, None, EntryChoice::Color, None),
        343 => entry(EntryRule::Untapped, None, EntryChoice::Nothing, None),
        344 => entry(EntryRule::Tapped, None, EntryChoice::Nothing, None),
        345 => entry(EntryRule::Tapped, None, EntryChoice::Nothing, None),
        346 => entry(EntryRule::Tapped, None, EntryChoice::Nothing, None),
        347 => entry(EntryRule::Tapped, None, EntryChoice::Nothing, None),
        _ => entry(EntryRule::Untapped, None, EntryChoice::Nothing, None),
    }
}

/// How a card (or face) enters the battlefield, and its other face. (cards 336 to 347).
fn card_entry_28(c: CardIndex) -> (r: Entry)
    ensures
        r == spec_card_entry_28(c),
{
    match c.0 {
        336 => entry(EntryRule::Untapped, None, EntryChoice::Nothing, None),
        337 => entry(EntryRule::Untapped, None, EntryChoice::Nothing, None),
        338 => entry(EntryRule::Untapped, None, EntryChoice::Nothing, None),
        339 => entry(EntryRule::TappedUnless(Condition::YouControlAtLeast(of_subtypes(0x10), 3)), None, EntryChoice::Nothing, None),
        340 => entry(EntryRule::TappedUnless(Condition::YouControlAtLeast(of_subtypes(0x8), 3)), None, EntryChoice::Nothing, None),
        341 => entry(EntryRule::TappedUnless(Condition::YouControlAtLeast(of_subtypes(0x1), 3)), None, EntryChoice::Nothing, None),
        342 => entry(EntryRule::Tapped, None, EntryChoice::Color, None),
        343 => entry(EntryRule::Untapped, None, EntryChoice::Nothing, None),
        344 => entry(EntryRule::Tapped, None, EntryChoice::Nothing, None),
        345 => entry(EntryRule::Tapped, None, EntryChoice::Nothing, None),
        346 => entry(EntryRule::Tapped, None, EntryChoice::Nothing, None),
        347 => entry(EntryRule::Tapped, None, EntryChoice::Nothing, None),
        _ => entry(EntryRule::Untapped, None, EntryChoice::Nothing, None),
    }
}

/// How a card (or face) enters the battlefield, and its other face. (cards 348 to 359).
pub open spec fn spec_card_entry_29(c: CardIndex) -> Entry {
    match c.0 {
        348 => entry(EntryRule::Untapped, None, EntryChoice::Nothing, None),
        349 => entry(EntryRule::TappedUnless(Condition::YouControlAtLeast(flagged(0x1, true, false, false, false, false), 2)), None, EntryChoice::Nothing, None),
        350 => entry(EntryRule::TappedUnless(Condition::YouControlAtLeast(flagged(0x1, true, false, false, false, false), 2)), None, EntryChoice::Nothing, None),
        351 => entry(EntryRule::TappedUnless(Condition::YouControlAtLeast(of_types(0x1), 2)), None, EntryChoice::Nothing, None),
        352 => entry(EntryRule::TappedUnless(Condition::YouControlAtMost(of_types(0x1), 2)), None, EntryChoice::Nothing, None),
        353 => entry(EntryRule::TappedUnless(Condition::YouControlAtMost(of_types(0x1), 2)), None, EntryChoice::Nothing, None),
        354 => entry(EntryRule::TappedUnless(Condition::YouControlAtMost(of_types(0x1), 2)), None, EntryChoice::Nothing, None),
        355 => entry(EntryRule::TappedUnless(Condition::YouControlAtMost(of_types(0x1), 2)), None, EntryChoice::Nothing, None),
        356 => entry(EntryRule::TappedUnless(Condition::YouControlAtMost(of_types(0x1), 2)), None, EntryChoice::Nothing, None),
        357 => entry(EntryRule::TappedUnless(Condition::YouControlAtMost(of_types(0x1), 2)), None, EntryChoice::Nothing, None),
        358 => entry(EntryRule::TappedUnless(Condition::YouControlAtMost(of_types(0x1), 2)), None, EntryChoice::Nothing, None),
        359 => entry(EntryRule::TappedUnless(Condition::YouControlAtMost(of_types(0x1), 2)), None, EntryChoice::Nothing, None),
        _ => entry(EntryRule::Untapped, None, EntryChoice::Nothing, None),
    }
}

/// How a card (or face) enters the battlefield, and its other face. (cards 348 to 359).
fn card_entry_29(c: CardIndex) -> (r: Entry)
    ensures
        r == spec_card_entry_29(c),
{
    match c.0 {
        348 => entry(EntryRule::Untapped, None, EntryChoice::Nothing, None),
        349 => entry(EntryRule::TappedUnless(Condition::YouControlAtLeast(flagged(0x1, true, false, false, false, false), 2)), None, EntryChoice::Nothing, None),
        350 => entry(EntryRule::TappedUnless(Condition::YouControlAtLeast(flagged(0x1, true, false, false, false, false), 2)), None, EntryChoice::Nothing, None),
        351 => entry(EntryRule::TappedUnless(Condition::YouControlAtLeast(of_types(0x1), 2)), None, EntryChoice::Nothing, None),
        352 => entry(EntryRule::TappedUnless(Condition::YouControlAtMost(of_types(0x1), 2)), None, EntryChoice::Nothing, None),
        353 => entry(EntryRule::TappedUnless(Condition::YouControlAtMost(of_types(0x1), 2)), None, EntryChoice::Nothing, None),
        354 => entry(EntryRule::TappedUnless(Condition::YouControlAtMost(of_types(0x1), 2)), None, EntryChoice::Nothing, None),
        355 => entry(EntryRule::TappedUnless(Condition::YouControlAtMost(of_types(0x1), 2)), None, EntryChoice::Nothing, None),
        356 => entry(EntryRule::TappedUnless(Condition::YouControlAtMost(of_types(0x1), 2)), None, EntryChoice::Nothing, None),
        357 => entry(EntryRule::TappedUnless(Condition::YouControlAtMost(of_types(0x1), 2)), None, EntryChoice::Nothing, None),
        358 => entry(EntryRule::TappedUnless(Condition::YouControlAtMost(of_types(0x1), 2)), None, EntryChoice::Nothing, None),
        359 => entry(EntryRule::TappedUnless(Condition::YouControlAtMost(of_types(0x1), 2)), None, EntryChoice::Nothing, None),
        _ => entry(EntryRule::Untapped, None, EntryChoice::Nothing, None),
    }
}

/// How a card (or face) enters the battlefield, and its other face. (cards 360 to 371).
pub open spec fn spec_card_entry_30(c: CardIndex) -> Entry {
    match c.0 {
        360 => entry(EntryRule::TappedUnless(Condition::YouControlAtMost(of_types(0x1), 2)), None, EntryChoice::Nothing, None),
        361 => entry(EntryRule::TappedUnless(Condition::YouControlAtMost(of_types(0x1), 2)), None, EntryChoice::Nothing, None),
        362 => entry(EntryRule::TappedUnless(Condition::OpponentsControlAtLeast(of_types(0x1), 8)), None, EntryChoice::Nothing, None),
        363 => entry(EntryRule::TappedUnless(Condition::OpponentsControlAtLeast(of_types(0x1), 8)), None, EntryChoice::Nothing, None),
        364 => entry(EntryRule::TappedUnless(Condition::OpponentsControlAtLeast(of_types(0x1), 8)), None, EntryChoice::Nothing, None),
        365 => entry(EntryRule::TappedUnless(Condition::OpponentsControlAtLeast(of_types(0x1), 8)), None, EntryChoice::Nothing, None),
        366 => entry(EntryRule::TappedUnless(Condition::OpponentsControlAtLeast(of_types(0x1), 8)), None, EntryChoice::Nothing, None),
        367 => entry(EntryRule::TappedUnless(Condition::APlayerAtMostLife(13)), None, EntryChoice::Nothing, None),
        368 => entry(EntryRule::TappedUnless(Condition::APlayerAtMostLife(13)), None, EntryChoice::Nothing, None),
        369 => entry(EntryRule::TappedUnless(Condition::APlayerAtMostLife(13)), None, EntryChoice::Nothing, None),
        370 => entry(EntryRule::TappedUnless(Condition::APlayerAtMostLife(13)), None, EntryChoice::Nothing, None),
        371 => entry(EntryRule::TappedUnless(Condition::APlayerAtMostLife(13)), None, EntryChoice::Nothing, None),
        _ => entry(EntryRule::Untapped, None, EntryChoice::Nothing, None),
    }
}

/// How a card (or face) enters the battlefield, and its other face. (cards 360 to 371).
fn card_entry_30(c: CardIndex) -> (r: Entry)
    ensures
        r == spec_card_entry_30(c),
{
    match c.0 {
        360 => entry(EntryRule::TappedUnless(Condition::YouControlAtMost(of_types(0x1), 2)), None, EntryChoice::Nothing, None),
        361 => entry(EntryRule::TappedUnless(Condition::YouControlAtMost(of_types(0x1), 2)), None, EntryChoice::Nothing, None),
        362 => entry(EntryRule::TappedUnless(Condition::OpponentsControlAtLeast(of_types(0x1), 8)), None, EntryChoice::Nothing, None),
        363 => entry(EntryRule::TappedUnless(Condition::OpponentsControlAtLeast(of_types(0x1), 8)), None, EntryChoice::Nothing, None),
        364 => entry(EntryRule::TappedUnless(Condition::OpponentsControlAtLeast(of_types(0x1), 8)), None, EntryChoice::Nothing, None),
        365 => entry(EntryRule::TappedUnless(Condition::OpponentsControlAtLeast(of_types(0x1), 8)), None, EntryChoice::Nothing, None),
        366 => entry(EntryRule::TappedUnless(Condition::OpponentsControlAtLeast(of_types(0x1), 8)), None, EntryChoice::Nothing, None),
        367 => entry(EntryRule::TappedUnless(Condition::APlayerAtMostLife(13)), None, EntryChoice::Nothing, None),
        368 => entry(EntryRule::TappedUnless(Condition::APlayerAtMostLife(13)), None, EntryChoice::Nothing, None),
        369 => entry(EntryRule::TappedUnless(Condition::APlayerAtMostLife(13)), None, EntryChoice::Nothing, None),
        370 => entry(EntryRule::TappedUnless(Condition::APlayerAtMostLife(13)), None, EntryChoice::Nothing, None),
        371 => entry(EntryRule::TappedUnless(Condition::APlayerAtMostLife(13)), None, EntryChoice::Nothing, None),
        _ => entry(EntryRule::Untapped, None, EntryChoice::Nothing, None),
    }
}

/// How a card (or face) enters the battlefield, and its other face. (cards 372 to 383).
pub open spec fn spec_card_entry_31(c: CardIndex) -> Entry {
    match c.0 {
        372 => entry(EntryRule::TappedUnless(Condition::APlayerAtMostLife(13)), None, EntryChoice::Nothing, None),
        373 => entry(EntryRule::TappedUnless(Condition::APlayerAtMostLife(13)), None, EntryChoice::Nothing, None),
        374 => entry(EntryRule::TappedUnless(Condition::APlayerAtMostLife(13)), None, EntryChoice::Nothing, None),
        375 => entry(EntryRule::TappedUnless(Condition::APlayerAtMostLife(13)), None, EntryChoice::Nothing, None),
        376 => entry(EntryRule::TappedUnless(Condition::APlayerAtMostLife(13)), None, EntryChoice::Nothing, None),
        377 => entry(EntryRule::Tapped, None, EntryChoice::Nothing, None),
        378 => entry(EntryRule::Tapped, None, EntryChoice::Nothing, None),
        379 => entry(EntryRule::Tapped, None, EntryChoice::Nothing, None),
        380 => entry(EntryRule::Tapped, None, EntryChoice::Nothing, None),
        381 => entry(EntryRule::Tapped, None, EntryChoice::Nothing, None),
        382 => entry(EntryRule::Tapped, None, EntryChoice::Nothing, None),
        383 => entry(EntryRule::Tapped, None, EntryChoice::Nothing, None),
        _ => entry(EntryRule::Untapped, None, EntryChoice::Nothing, None),
    }
}

/// How a card (or face) enters the battlefield, and its other face. (cards 372 to 383).
fn card_entry_31(c: CardIndex) -> (r: Entry)
    ensures
        r == spec_card_entry_31(c),
{
    match c.0 {
        372 => entry(EntryRule::TappedUnless(Condition::APlayerAtMostLife(13)), None, EntryChoice::Nothing, None),
        373 => entry(EntryRule::TappedUnless(Condition::APlayerAtMostLife(13)), None, EntryChoice::Nothing, None),
        374 => entry(EntryRule::TappedUnless(Condition::APlayerAtMostLife(13)), None, EntryChoice::Nothing, None),
        375 => entry(EntryRule::TappedUnless(Condition::APlayerAtMostLife(13)), None, EntryChoice::Nothing, None),
        376 => entry(EntryRule::TappedUnless(Condition::APlayerAtMostLife(13)), None, EntryChoice::Nothing, None),
        377 => entry(EntryRule::Tapped, None, EntryChoice::Nothing, None),
        378 => entry(EntryRule::Tapped, None, EntryChoice::Nothing, None),
        379 => entry(EntryRule::Tapped, None, EntryChoice::Nothing, None),
        380 => entry(EntryRule::Tapped, None, EntryChoice::Nothing, None),
        381 => entry(EntryRule::Tapped, None, EntryChoice::Nothing, None),
        382 => entry(EntryRule::Tapped, None, EntryChoice::Nothing, None),
        383 => entry(EntryRule::Tapped, None, EntryChoice::Nothing, None),
        _ => entry(EntryRule::Untapped, None, EntryChoice::Nothing, None),
    }
}

/// How a card (or face) enters the battlefield, and its other face. (cards 384 to 395).
pub open spec fn spec_card_entry_32(c: CardIndex) -> Entry {
    match c.0 {
        384 => entry(EntryRule::Untapped, None, EntryChoice::Nothing, None),
        385 => entry(EntryRule::Untapped, None, EntryChoice::Nothing, None),
        386 => entry(EntryRule::Untapped, None, EntryChoice::Nothing, None),
        387 => entry(EntryRule::Untapped, None, EntryChoice::Nothing, None),
        388 => entry(EntryRule::Untapped, None, EntryChoice::Nothing, None),
        389 => entry(EntryRule::Untapped, None, EntryChoice::Nothing, None),
        390 => entry(EntryRule::Untapped, None, EntryChoice::Nothing, None),
        391 => entry(EntryRule::Untapped, None, EntryChoice::Nothing, None),
        392 => entry(EntryRule::Untapped, None, EntryChoice::Nothing, None),
        393 => entry(EntryRule::Untapped, None, EntryChoice::Nothing, None),
        394 => entry(EntryRule::Untapped, None, EntryChoice::Nothing, None),
        395 => entry(EntryRule::Untapped, None, EntryChoice::Nothing, None),
        _ => entry(EntryRule::Untapped, None, EntryChoice::Nothing, None),
    }
}

/// How a card (or face) enters the battlefield, and its other face. (cards 384 to 395).
fn card_entry_32(c: CardIndex) -> (r: Entry)
    ensures
        r == spec_card_entry_32(c),
{
    match c.0 {
        384 => entry(EntryRule::Untapped, None, EntryChoice::Nothing, None),
        385 => entry(EntryRule::Untapped, None, EntryChoice::Nothing, None),
        386 => entry(EntryRule::Untapped, None, EntryChoice::Nothing, None),
        387 => entry(EntryRule::Untapped, None, EntryChoice::Nothing, None),
        388 => entry(EntryRule::Untapped, None, EntryChoice::Nothing, None),
        389 => entry(EntryRule::Untapped, None, EntryChoice::Nothing, None),
        390 => entry(EntryRule::Untapped, None, EntryChoice::Nothing, None),
        391 => entry(EntryRule::Untapped, None, EntryChoice::Nothing, None),
        392 => entry(EntryRule::Untapped, None, EntryChoice::Nothing, None),
        393 => entry(EntryRule::Untapped, None, EntryChoice::Nothing, None),
        394 => entry(EntryRule::Untapped, None, EntryChoice::Nothing, None),
        395 => entry(EntryRule::Untapped, None, EntryChoice::Nothing, None),
        _ => entry(EntryRule::Untapped, None, EntryChoice::Nothing, None),
    }
}

/// How a card (or face) enters the battlefield, and its other face. (cards 396 to 407).
pub open spec fn spec_card_entry_33(c: CardIndex) -> Entry {
    match c.0 {
        396 => entry(EntryRule::Untapped, None, EntryChoice::Nothing, None),
        397 => entry(EntryRule::Untapped, None, EntryChoice::Nothing, None),
        398 => entry(EntryRule::Untapped, None, EntryChoice::Nothing, None),
        399 => entry(EntryRule::Tapped, None, EntryChoice::Nothing, None),
        400 => entry(EntryRule::Tapped, None, EntryChoice::Nothing, None),
        401 => entry(EntryRule::Tapped, None, EntryChoice::Nothing, None),
        402 => entry(EntryRule::Tapped, None, EntryChoice::Nothing, None),
        403 => entry(EntryRule::Tapped, None, EntryChoice::Nothing, None),
        404 => entry(EntryRule::Tapped, None, EntryChoice::Nothing, None),
        405 => entry(EntryRule::Tapped, None, EntryChoice::Nothing, None),
        406 => entry(EntryRule::Tapped, None, EntryChoice::Nothing, None),
        407 => entry(EntryRule::Tapped, None, EntryChoice::Nothing, None),
        _ => entry(EntryRule::Untapped, None, EntryChoice::Nothing, None),
    }
}

/// How a card (or face) enters the battlefield, and its other face. (cards 396 to 407).
fn card_entry_33(c: CardIndex) -> (r: Entry)
    ensures
        r == spec_card_entry_33(c),
{
    match c.0 {
        396 => entry(EntryRule::Untapped, None, EntryChoice::Nothing, None),
        397 => entry(EntryRule::Untapped, None, EntryChoice::Nothing, None),
        398 => entry(EntryRule::Untapped, None, EntryChoice::Nothing, None),
        399 => entry(EntryRule::Tapped, None, EntryChoice::Nothing, None),
        400 => entry(EntryRule::Tapped, None, EntryChoice::Nothing, None),
        401 => entry(EntryRule::Tapped, None, EntryChoice::Nothing, None),
        402 => entry(EntryRule::Tapped, None, EntryChoice::Nothing, None),
        403 => entry(EntryRule::Tapped, None, EntryChoice::Nothing, None),
        404 => entry(EntryRule::Tapped, None, EntryChoice::Nothing, None),
        405 => entry(EntryRule::Tapped, None, EntryChoice::Nothing, None),
        406 => entry(EntryRule::Tapped, None, EntryChoice::Nothing, None),
        407 => entry(EntryRule::Tapped, None, EntryChoice::Nothing, None),
        _ => entry(EntryRule::Untapped, None, EntryChoice::Nothing, None),
    }
}

/// How a card (or face) enters the battlefield, and its other face. (cards 408 to 419).
pub open spec fn spec_card_entry_34(c: CardIndex) -> Entry {
    match c.0 {
        408 => entry(EntryRule::Tapped, None, EntryChoice::Nothing, None),
        409 => entry(EntryRule::Tapped, None, EntryChoice::Nothing, None),
        410 => entry(EntryRule::Tapped, None, EntryChoice::Nothing, None),
        411 => entry(EntryRule::Tapped, None, EntryChoice::Nothing, None),
        412 => entry(EntryRule::Tapped, None, EntryChoice::Nothing, None),
        413 => entry(EntryRule::Tapped, None, EntryChoice::Nothing, None),
        414 => entry(EntryRule::Tapped, None, EntryChoice::Nothing, None),
        415 => entry(EntryRule::Untapped, None, EntryChoice::Nothing, None),
        416 => entry(EntryRule::Untapped, None, EntryChoice::Nothing, None),
        417 => entry(EntryRule::Untapped, None, EntryChoice::Nothing, None),
        418 => entry(EntryRule::Untapped, None, EntryChoice::Nothing, None),
        419 => entry(EntryRule::Untapped, None, EntryChoice::Nothing, None),
        _ => entry(EntryRule::Untapped, None, EntryChoice::Nothing, None),
    }
}

/// How a card (or face) enters the battlefield, and its other face. (cards 408 to 419).
fn card_entry_34(c: CardIndex) -> (r: Entry)
    ensures
        r == spec_card_entry_34(c),
{
    match c.0 {
        408 => entry(EntryRule::Tapped, None, EntryChoice::Nothing, None),
        409 => entry(EntryRule::Tapped, None, EntryChoice::Nothing, None),
        410 => entry(EntryRule::Tapped, None, EntryChoice::Nothing, None),
        411 => entry(EntryRule::Tapped, None, EntryChoice::Nothing, None),
        412 => entry(EntryRule::Tapped, None, EntryChoice::Nothing, None),
        413 => entry(EntryRule::Tapped, None, EntryChoice::Nothing, None),
        414 => entry(EntryRule::Tapped, None, EntryChoice::Nothing, None),
        415 => entry(EntryRule::Untapped, None, EntryChoice::Nothing, None),
        416 => entry(EntryRule::Untapped, None, EntryChoice::Nothing, None),
        417 => entry(EntryRule::Untapped, None, EntryChoice::Nothing, None),
        418 => entry(EntryRule::Untapped, None, EntryChoice::Nothing, None),
        419 => entry(EntryRule::Untapped, None, EntryChoice::Nothing, None),
        _ => entry(EntryRule::Untapped, None, EntryChoice::Nothing, None),
    }
}

/// How a card (or face) enters the battlefield, and its other face. (cards 420 to 431).
pub open spec fn spec_card_entry_35(c: CardIndex) -> Entry {
    match c.0 {
        420 => entry(EntryRule::Tapped, None, EntryChoice::Nothing, None),
        421 => entry(EntryRule::Tapped, None, EntryChoice::Nothing, None),
        422 => entry(EntryRule::Tapped, None, EntryChoice::Nothing, None),
        423 => entry(EntryRule::Untapped, None, EntryChoice::Nothing, None),
        424 => entry(EntryRule::Untapped, None, EntryChoice::Nothing, None),
        425 => entry(EntryRule::Tapped, None, EntryChoice::Nothing, None),
        426 => entry(EntryRule::Untapped, None, EntryChoice::Nothing, None),
        427 => entry(EntryRule::Untapped, None, EntryChoice::Nothing, None),
        428 => entry(EntryRule::Untapped, None, EntryChoice::Nothing, None),
        429 => entry(EntryRule::Tapped, None, EntryChoice::Nothing, None),
        430 => entry(EntryRule::Untapped, None, EntryChoice::Nothing, None),
        431 => entry(EntryRule::Untapped, None, EntryChoice::Nothing, None),
        _ => entry(EntryRule::Untapped, None, EntryChoice::Nothing, None),
    }
}

/// How a card (or face) enters the battlefield, and its other face. (cards 420 to 431).
fn card_entry_35(c: CardIndex) -> (r: Entry)
    ensures
        r == spec_card_entry_35(c),
{
    match c.0 {
        420 => entry(EntryRule::Tapped, None, EntryChoice::Nothing, None),
        421 => entry(EntryRule::Tapped, None, EntryChoice::Nothing, None),
        422 => entry(EntryRule::Tapped, None, EntryChoice::Nothing, None),
        423 => entry(EntryRule::Untapped, None, EntryChoice::Nothing, None),
        424 => entry(EntryRule::Untapped, None, EntryChoice::Nothing, None),
        425 => entry(EntryRule::Tapped, None, EntryChoice::Nothing, None),
        426 => entry(EntryRule::Untapped, None, EntryChoice::Nothing, None),
        427 => entry(EntryRule::Untapped, None, EntryChoice::Nothing, None),
        428 => entry(EntryRule::Untapped, None, EntryChoice::Nothing, None),
        429 => entry(EntryRule::Tapped, None, EntryChoice::Nothing, None),
        430 => entry(EntryRule::Untapped, None, EntryChoice::Nothing, None),
        431 => entry(EntryRule::Untapped, None, EntryChoice::Nothing, None),
        _ => entry(EntryRule::Untapped, None, EntryChoice::Nothing, None),
    }
}

/// How a card (or face) enters the battlefield, and its other face. (cards 432 to 443).
pub open spec fn spec_card_entry_36(c: CardIndex) -> Entry {
    match c.0 {
        432 => entry(EntryRule::Untapped, None, EntryChoice::Nothing, None),
        433 => entry(EntryRule::Tapped, None, EntryChoice::Nothing, None),
        434 => entry(EntryRule::Untapped, None, EntryChoice::Nothing, None),
        435 => entry(EntryRule::Untapped, None, EntryChoice::Nothing, None),
        436 => entry(EntryRule::Untapped, None, EntryChoice::Nothing, None),
        437 => entry(EntryRule::Untapped, None, EntryChoice::Nothing, None),
        438 => entry(EntryRule::Untapped, None, EntryChoice::Nothing, None),
        439 => entry(EntryRule::Untapped, None, EntryChoice::Nothing, None),
        440 => entry(EntryRule::Untapped, None, EntryChoice::Nothing, None),
        441 => entry(EntryRule::Untapped, None, EntryChoice::Nothing, None),
        442 => entry(EntryRule::Untapped, None, EntryChoice::Nothing, None),
        443 => entry(EntryRule::Untapped, None, EntryChoice::Nothing, None),
        _ => entry(EntryRule::Untapped, None, EntryChoice::Nothing, None),
    }
}

/// How a card (or face) enters the battlefield, and its other face. (cards 432 to 443).
fn card_entry_36(c: CardIndex) -> (r: Entry)
    ensures
        r == spec_card_entry_36(c),
{
    match c.0 {
        432 => entry(EntryRule::Untapped, None, EntryChoice::Nothing, None),
        433 => entry(EntryRule::Tapped, None, EntryChoice::Nothing, None),
        434 => entry(EntryRule::Untapped, None, EntryChoice::Nothing, None),
        435 => entry(EntryRule::Untapped, None, EntryChoice::Nothing, None),
        436 => entry(EntryRule::Untapped, None, EntryChoice::Nothing, None),
        437 => entry(EntryRule::Untapped, None, EntryChoice::Nothing, None),
        438 => entry(EntryRule::Untapped, None, EntryChoice::Nothing, None),
        439 => entry(EntryRule::Untapped, None, EntryChoice::Nothing, None),
        440 => entry(EntryRule::Untapped, None, EntryChoice::Nothing, None),
        441 => entry(EntryRule::Untapped, None, EntryChoice::Nothing, None),
        442 => entry(EntryRule::Untapped, None, EntryChoice::Nothing, None),
        443 => entry(EntryRule::Untapped, None, EntryChoice::Nothing, None),
        _ => entry(EntryRule::Untapped, None, EntryChoice::Nothing, None),
    }
}

/// How a card (or face) enters the battlefield, and its other face. (cards 444 to 455).
pub open spec fn spec_card_entry_37(c: CardIndex) -> Entry {
    match c.0 {
        444 => entry(EntryRule::Untapped, None, EntryChoice::Nothing, None),
        445 => entry(EntryRule::Untapped, None, EntryChoice::Nothing, None),
        446 => entry(EntryRule::Untapped, None, EntryChoice::Nothing, None),
        447 => entry(EntryRule::Untapped, None, EntryChoice::Nothing, None),
        448 => entry(EntryRule::Untapped, None, EntryChoice::Nothing, None),
        449 => entry(EntryRule::Untapped, None, EntryChoice::Nothing, None),
        450 => entry(EntryRule::Untapped, None, EntryChoice::Nothing, None),
        451 => entry(EntryRule::Untapped, None, EntryChoice::Nothing, None),
        452 => entry(EntryRule::Untapped, None, EntryChoice::Nothing, None),
        453 => entry(EntryRule::Untapped, None, EntryChoice::Nothing, None),
        454 => entry(EntryRule::Untapped, None, EntryChoice::Nothing, None),
        455 => entry(EntryRule::Untapped, None, EntryChoice::Nothing, None),
        _ => entry(EntryRule::Untapped, None, EntryChoice::Nothing, None),
    }
}

/// How a card (or face) enters the battlefield, and its other face. (cards 444 to 455).
fn card_entry_37(c: CardIndex) -> (r: Entry)
    ensures
        r == spec_card_entry_37(c),
{
    match c.0 {
        444 => entry(EntryRule::Untapped, None, EntryChoice::Nothing, None),
        445 => entry(EntryRule::Untapped, None, EntryChoice::Nothing, None),
        446 => entry(EntryRule::Untapped, None, EntryChoice::Nothing, None),
        447 => entry(EntryRule::Untapped, None, EntryChoice::Nothing, None),
        448 => entry(EntryRule::Untapped, None, EntryChoice::Nothing, None),
        449 => entry(EntryRule::Untapped, None, EntryChoice::Nothing, None),
        450 => entry(EntryRule::Untapped, None, EntryChoice::Nothing, None),
        451 => entry(EntryRule::Untapped, None, EntryChoice::Nothing, None),
        452 => entry(EntryRule::Untapped, None, EntryChoice::Nothing, None),
        453 => entry(EntryRule::Untapped, None, EntryChoice::Nothing, None),
        454 => entry(EntryRule::Untapped, None, EntryChoice::Nothing, None),
        455 => entry(EntryRule::Untapped, None, EntryChoice::Nothing, None),
        _ => entry(EntryRule::Untapped, None, EntryChoice::Nothing, None),
    }
}

/// How a card (or face) enters the battlefield, and its other face. (cards 456 to 467).
pub open spec fn spec_card_entry_38(c: CardIndex) -> Entry {
    match c.0 {
        456 => entry(EntryRule::Untapped, None, EntryChoice::Nothing, None),
        457 => entry(EntryRule::Untapped, None, EntryChoice::Nothing, None),
        458 => entry(EntryRule::Tapped, None, EntryChoice::Color, None),
        459 => entry(EntryRule::Tapped, None, EntryChoice::Color, None),
        460 => entry(EntryRule::Tapped, None, EntryChoice::Color, None),
        461 => entry(EntryRule::Tapped, None, EntryChoice::Color, None),
        462 => entry(EntryRule::Tapped, None, EntryChoice::ColorOtherThan(ManaColor::White), None),
        463 => entry(EntryRule::Tapped, None, EntryChoice::ColorOtherThan(ManaColor::Blue), None),
        464 => entry(EntryRule::Tapped, None, EntryChoice::ColorOtherThan(ManaColor::Black), None),
        465 => entry(EntryRule::Tapped, None, EntryChoice::ColorOtherThan(ManaColor::Red), None),
        466 => entry(EntryRule::Tapped, None, EntryChoice::ColorOtherThan(ManaColor::Green), None),
        467 => entry(EntryRule::Tapped, None, EntryChoice::ColorOtherThan(ManaColor::White), None),
        _ => entry(EntryRule::Untapped, None, EntryChoice::Nothing, None),
    }
}

/// How a card (or face) enters the battlefield, and its other face. (cards 456 to 467).
fn card_entry_38(c: CardIndex) -> (r: Entry)
    ensures
        r == spec_card_entry_38(c),
{
    match c.0 {
        456 => entry(EntryRule::Untapped, None, EntryChoice::Nothing, None),
        457 => entry(EntryRule::Untapped, None, EntryChoice::Nothing, None),
        458 => entry(EntryRule::Tapped, None, EntryChoice::Color, None),
        459 => entry(EntryRule::Tapped, None, EntryChoice::Color, None),
        460 => entry(EntryRule::Tapped, None, EntryChoice::Color, None),
        461 => entry(EntryRule::Tapped, None, EntryChoice::Color, None),
        462 => entry(EntryRule::Tapped, None, EntryChoice::ColorOtherThan(ManaColor::White), None),
        463 => entry(EntryRule::Tapped, None, EntryChoice::ColorOtherThan(ManaColor::Blue), None),
        464 => entry(EntryRule::Tapped, None, EntryChoice::ColorOtherThan(ManaColor::Black), None),
        465 => entry(EntryRule::Tapped, None, EntryChoice::ColorOtherThan(ManaColor::Red), None),
        466 => entry(EntryRule::Tapped, None, EntryChoice::ColorOtherThan(ManaColor::Green), None),
        467 => entry(EntryRule::Tapped, None, EntryChoice::ColorOtherThan(ManaColor::White), None),
        _ => entry(EntryRule::Untapped, None, EntryChoice::Nothing, None),
    }
}

/// How a card (or face) enters the battlefield, and its other face. (cards 468 to 471).
pub open spec fn spec_card_entry_39(c: CardIndex) -> Entry {
    match c.0 {
        468 => entry(EntryRule::Tapped, None, EntryChoice::ColorOtherThan(ManaColor::Blue), None),
        469 => entry(EntryRule::Tapped, None, EntryChoice::ColorOtherThan(ManaColor::Black), None),
        470 => entry(EntryRule::Tapped, None, EntryChoice::ColorOtherThan(ManaColor::Red), None),
        471 => entry(EntryRule::Tapped, None, EntryChoice::ColorOtherThan(ManaColor::Green), None),
        _ => entry(EntryRule::Untapped, None, EntryChoice::Nothing, None),
    }
}

/// How a card (or face) enters the battlefield, and its other face. (cards 468 to 471).
fn card_entry_39(c: CardIndex) -> (r: Entry)
    ensures
        r == spec_card_entry_39(c),
{
    match c.0 {
        468 => entry(EntryRule::Tapped, None, EntryChoice::ColorOtherThan(ManaColor::Blue), None),
        469 => entry(EntryRule::Tapped, None, EntryChoice::ColorOtherThan(ManaColor::Black), None),
        470 => entry(EntryRule::Tapped, None, EntryChoice::ColorOtherThan(ManaColor::Red), None),
        471 => entry(EntryRule::Tapped, None, EntryChoice::ColorOtherThan(ManaColor::Green), None),
        _ => entry(EntryRule::Untapped, None, EntryChoice::Nothing, None),
    }
}

/// How a card (or face) enters the battlefield, and its other face.
pub open spec fn spec_card_entry(c: CardIndex) -> Entry {
    if c.0 < 12 {
        spec_card_entry_0(c)
    } else if c.0 < 24 {
        spec_card_entry_1(c)
    } else if c.0 < 36 {
        spec_card_entry_2(c)
    } else if c.0 < 48 {
        spec_card_entry_3(c)
    } else if c.0 < 60 {
        spec_card_entry_4(c)
    } else if c.0 < 72 {
        spec_card_entry_5(c)
    } else if c.0 < 84 {
        spec_card_entry_6(c)
    } else if c.0 < 96 {
        spec_card_entry_7(c)
    } else if c.0 < 108 {
        spec_card_entry_8(c)
    } else if c.0 < 120 {
        spec_card_entry_9(c)
    } else if c.0 < 132 {
        spec_card_entry_10(c)
    } else if c.0 < 144 {
        spec_card_entry_11(c)
    } else if c.0 < 156 {
        spec_card_entry_12(c)
    } else if c.0 < 168 {
        spec_card_entry_13(c)
    } else if c.0 < 180 {
        spec_card_entry_14(c)
    } else if c.0 < 192 {
        spec_card_entry_15(c)
    } else if c.0 < 204 {
        spec_card_entry_16(c)
    } else if c.0 < 216 {
        spec_card_entry_17(c)
    } else if c.0 < 228 {
        spec_card_entry_18(c)
    } else if c.0 < 240 {
        spec_card_entry_19(c)
    } else if c.0 < 252 {
        spec_card_entry_20(c)
    } else if c.0 < 264 {
        spec_card_entry_21(c)
    } else if c.0 < 276 {
        spec_card_entry_22(c)
    } else if c.0 < 288 {
        spec_card_entry_23(c)
    } else if c.0 < 300 {
        spec_card_entry_24(c)
    } else if c.0 < 312 {
        spec_card_entry_25(c)
    } else if c.0 < 324 {
        spec_card_entry_26(c)
    } else if c.0 < 336 {
        spec_card_entry_27(c)
    } else if c.0 < 348 {
        spec_card_entry_28(c)
    } else if c.0 < 360 {
        spec_card_entry_29(c)
    } else if c.0 < 372 {
        spec_card_entry_30(c)
    } else if c.0 < 384 {
        spec_card_entry_31(c)
    } else if c.0 < 396 {
        spec_card_entry_32(c)
    } else if c.0 < 408 {
        spec_card_entry_33(c)
    } else if c.0 < 420 {
        spec_card_entry_34(c)
    } else if c.0 < 432 {
        spec_card_entry_35(c)
    } else if c.0 < 444 {
        spec_card_entry_36(c)
    } else if c.0 < 456 {
        spec_card_entry_37(c)
    } else if c.0 < 468 {
        spec_card_entry_38(c)
    } else if c.0 < 472 {
        spec_card_entry_39(c)
    } else {
        entry(EntryRule::Untapped, None, EntryChoice::Nothing, None)
    }
}

/// How a card (or face) enters the battlefield, and its other face.
pub fn card_entry(c: CardIndex) -> (r: Entry)
    ensures
        r == spec_card_entry(c),
{
    if c.0 < 12 {
        card_entry_0(c)
    } else if c.0 < 24 {
        card_entry_1(c)
    } else if c.0 < 36 {
        card_entry_2(c)
    } else if c.0 < 48 {
        card_entry_3(c)
    } else if c.0 < 60 {
        card_entry_4(c)
    } else if c.0 < 72 {
        card_entry_5(c)
    } else if c.0 < 84 {
        card_entry_6(c)
    } else if c.0 < 96 {
        card_entry_7(c)
    } else if c.0 < 108 {
        card_entry_8(c)
    } else if c.0 < 120 {
        card_entry_9(c)
    } else if c.0 < 132 {
        card_entry_10(c)
    } else if c.0 < 144 {
        card_entry_11(c)
    } else if c.0 < 156 {
        card_entry_12(c)
    } else if c.0 < 168 {
        card_entry_13(c)
    } else if c.0 < 180 {
        card_entry_14(c)
    } else if c.0 < 192 {
        card_entry_15(c)
    } else if c.0 < 204 {
        card_entry_16(c)
    } else if c.0 < 216 {
        card_entry_17(c)
    } else if c.0 < 228 {
        card_entry_18(c)
    } else if c.0 < 240 {
        card_entry_19(c)
    } else if c.0 < 252 {
        card_entry_20(c)
    } else if c.0 < 264 {
        card_entry_21(c)
    } else if c.0 < 276 {
        card_entry_22(c)
    } else if c.0 < 288 {
        card_entry_23(c)
    } else if c.0 < 300 {
        card_entry_24(c)
    } else if c.0 < 312 {
        card_entry_25(c)
    } else if c.0 < 324 {
        card_entry_26(c)
    } else if c.0 < 336 {
        card_entry_27(c)
    } else if c.0 < 348 {
        card_entry_28(c)
    } else if c.0 < 360 {
        card_entry_29(c)
    } else if c.0 < 372 {
        card_entry_30(c)
    } else if c.0 < 384 {
        card_entry_31(c)
    } else if c.0 < 396 {
        card_entry_32(c)
    } else if c.0 < 408 {
        card_entry_33(c)
    } else if c.0 < 420 {
        card_entry_34(c)
    } else if c.0 < 432 {
        card_entry_35(c)
    } else if c.0 < 444 {
        card_entry_36(c)
    } else if c.0 < 456 {
        card_entry_37(c)
    } else if c.0 < 468 {
        card_entry_38(c)
    } else if c.0 < 472 {
        card_entry_39(c)
    } else {
        entry(EntryRule::Untapped, None, EntryChoice::Nothing, None)
    }
}

/// How many abilities a card (or face) prints. (cards 0 to 11).
pub open spec fn spec_ability_count_0(c: CardIndex) -> u32 {
    match c.0 {
        0 => 1,
        1 => 1,
        2 => 1,
        3 => 1,
        4 => 1,
        5 => 1,
        6 => 0,
        7 => 1,
        8 => 1,
        9 => 0,
        10 => 0,
        11 => 0,
        _ => 0,
    }
}

/// How many abilities a card (or face) prints. (cards 0 to 11).
fn ability_count_0(c: CardIndex) -> (r: u32)
    ensures
        r == spec_ability_count_0(c),
{
    match c.0 {
        0 => 1,
        1 => 1,
        2 => 1,
        3 => 1,
        4 => 1,
        5 => 1,
        6 => 0,
        7 => 1,
        8 => 1,
        9 => 0,
        10 => 0,
        11 => 0,
        _ => 0,
    }
}

/// How many abilities a card (or face) prints. (cards 12 to 23).
pub open spec fn spec_ability_count_1(c: CardIndex) -> u32 {
    match c.0 {
        12 => 0,
        13 => 0,
        14 => 1,
        15 => 0,
        16 => 0,
        17 => 0,
        18 => 0,
        19 => 1,
        20 => 0,
        21 => 2,
        22 => 2,
        23 => 1,
        _ => 0,
    }
}

/// How many abilities a card (or face) prints. (cards 12 to 23).
fn ability_count_1(c: CardIndex) -> (r: u32)
    ensures
        r == spec_ability_count_1(c),
{
    match c.0 {
        12 => 0,
        13 => 0,
        14 => 1,
        15 => 0,
        16 => 0,
        17 => 0,
        18 => 0,
        19 => 1,
        20 => 0,
        21 => 2,
        22 => 2,
        23 => 1,
        _ => 0,
    }
}

/// How many abilities a card (or face) prints. (cards 24 to 35).
pub open spec fn spec_ability_count_2(c: CardIndex) -> u32 {
    match c.0 {
        24 => 2,
        25 => 2,
        26 => 2,
        27 => 1,
        28 => 2,
        29 => 2,
        30 => 1,
        31 => 1,
        32 => 1,
        33 => 1,
        34 => 1,
        35 => 2,
        _ => 0,
    }
}

/// How many abilities a card (or face) prints. (cards 24 to 35).
fn ability_count_2(c: CardIndex) -> (r: u32)
    ensures
        r == spec_ability_count_2(c),
{
    match c.0 {
        24 => 2,
        25 => 2,
        26 => 2,
        27 => 1,
        28 => 2,
        29 => 2,
        30 => 1,
        31 => 1,
        32 => 1,
        33 => 1,
        34 => 1,
        35 => 2,
        _ => 0,
    }
}

/// How many abilities a card (or face) prints. (cards 36 to 47).
pub open spec fn spec_ability_count_3(c: CardIndex) -> u32 {
    match c.0 {
        36 => 2,
        37 => 2,
        38 => 2,
        39 => 2,
        40 => 2,
        41 => 2,
        42 => 2,
        43 => 2,
        44 => 2,
        45 => 1,
        46 => 1,
        47 => 2,
        _ => 0,
    }
}

/// How many abilities a card (or face) prints. (cards 36 to 47).
fn ability_count_3(c: CardIndex) -> (r: u32)
    ensures
        r == spec_ability_count_3(c),
{
    match c.0 {
        36 => 2,
        37 => 2,
        38 => 2,
        39 => 2,
        40 => 2,
        41 => 2,
        42 => 2,
        43 => 2,
        44 => 2,
        45 => 1,
        46 => 1,
        47 => 2,
        _ => 0,
    }
}

/// How many abilities a card (or face) prints. (cards 48 to 59).
pub open spec fn spec_ability_count_4(c: CardIndex) -> u32 {
    match c.0 {
        48 => 2,
        49 => 1,
        50 => 1,
        51 => 1,
        52 => 1,
        53 => 1,
        54 => 2,
        55 => 1,
        56 => 1,
        57 => 2,
        58 => 2,
        59 => 1,
        _ => 0,
    }
}

/// How many abilities a card (or face) prints. (cards 48 to 59).
fn ability_count_4(c: CardIndex) -> (r: u32)
    ensures
        r == spec_ability_count_4(c),
{
    match c.0 {
        48 => 2,
        49 => 1,
        50 => 1,
        51 => 1,
        52 => 1,
        53 => 1,
        54 => 2,
        55 => 1,
        56 => 1,
        57 => 2,
        58 => 2,
        59 => 1,
        _ => 0,
    }
}

/// How many abilities a card (or face) prints. (cards 60 to 71).
pub open spec fn spec_ability_count_5(c: CardIndex) -> u32 {
    match c.0 {
        60 => 1,
        61 => 1,
        62 => 1,
        63 => 1,
        64 => 1,
        65 => 1,
        66 => 1,
        67 => 1,
        68 => 1,
        69 => 1,
        70 => 1,
        71 => 1,
        _ => 0,
    }
}

/// How many abilities a card (or face) prints. (cards 60 to 71).
fn ability_count_5(c: CardIndex) -> (r: u32)
    ensures
        r == spec_ability_count_5(c),
{
    match c.0 {
        60 => 1,
        61 => 1,
        62 => 1,
        63 => 1,
        64 => 1,
        65 => 1,
        66 => 1,
        67 => 1,
        68 => 1,
        69 => 1,
        70 => 1,
        71 => 1,
        _ => 0,
    }
}

/// How many abilities a card (or face) prints. (cards 72 to 83).
pub open spec fn spec_ability_count_6(c: CardIndex) -> u32 {
    match c.0 {
        72 => 1,
        73 => 1,
        74 => 1,
        75 => 1,
        76 => 1,
        77 => 1,
        78 => 1,
        79 => 2,
        80 => 1,
        81 => 1,
        82 => 1,
        83 => 2,
        _ => 0,
    }
}

/// How many abilities a card (or face) prints. (cards 72 to 83).
fn ability_count_6(c: CardIndex) -> (r: u32)
    ensures
        r == spec_ability_count_6(c),
{
    match c.0 {
        72 => 1,
        73 => 1,
        74 => 1,
        75 => 1,
        76 => 1,
        77 => 1,
        78 => 1,
        79 => 2,
        80 => 1,
        81 => 1,
        82 => 1,
        83 => 2,
        _ => 0,
    }
}

/// How many abilities a card (or face) prints. (cards 84 to 95).
pub open spec fn spec_ability_count_7(c: CardIndex) -> u32 {
    match c.0 {
        84 => 2,
        85 => 2,
        86 => 1,
        87 => 2,
        88 => 2,
        89 => 2,
        90 => 2,
        91 => 1,
        92 => 1,
        93 => 2,
        94 => 1,
        95 => 1,
        _ => 0,
    }
}

/// How many abilities a card (or face) prints. (cards 84 to 95).
fn ability_count_7(c: CardIndex) -> (r: u32)
    ensures
        r == spec_ability_count_7(c),
{
    match c.0 {
        84 => 2,
        85 => 2,
        86 => 1,
        87 => 2,
        88 => 2,
        89 => 2,
        90 => 2,
        91 => 1,
        92 => 1,
        93 => 2,
        94 => 1,
        95 => 1,
        _ => 0,
    }
}

/// How many abilities a card (or face) prints. (cards 96 to 107).
pub open spec fn spec_ability_count_8(c: CardIndex) -> u32 {
    match c.0 {
        96 => 1,
        97 => 1,
        98 => 1,
        99 => 1,
        100 => 1,
        101 => 2,
        102 => 1,
        103 => 1,
        104 => 2,
        105 => 1,
        106 => 1,
        107 => 2,
        _ => 0,
    }
}

/// How many abilities a card (or face) prints. (cards 96 to 107).
fn ability_count_8(c: CardIndex) -> (r: u32)
    ensures
        r == spec_ability_count_8(c),
{
    match c.0 {
        96 => 1,
        97 => 1,
        98 => 1,
        99 => 1,
        100 => 1,
        101 => 2,
        102 => 1,
        103 => 1,
        104 => 2,
        105 => 1,
        106 => 1,
        107 => 2,
        _ => 0,
    }
}

/// How many abilities a card (or face) prints. (cards 108 to 119).
pub open spec fn spec_ability_count_9(c: CardIndex) -> u32 {
    match c.0 {
        108 => 1,
        109 => 1,
        110 => 2,
        111 => 1,
        112 => 1,
        113 => 1,
        114 => 1,
        115 => 1,
        116 => 1,
        117 => 1,
        118 => 1,
        119 => 1,
        _ => 0,
    }
}

/// How many abilities a card (or face) prints. (cards 108 to 119).
fn ability_count_9(c: CardIndex) -> (r: u32)
    ensures
        r == spec_ability_count_9(c),
{
    match c.0 {
        108 => 1,
        109 => 1,
        110 => 2,
        111 => 1,
        112 => 1,
        113 => 1,
        114 => 1,
        115 => 1,
        116 => 1,
        117 => 1,
        118 => 1,
        119 => 1,
        _ => 0,
    }
}

/// How many abilities a card (or face) prints. (cards 120 to 131).
pub open spec fn spec_ability_count_10(c: CardIndex) -> u32 {
    match c.0 {
        120 => 1,
        121 => 1,
        122 => 1,
        123 => 1,
        124 => 1,
        125 => 1,
        126 => 1,
        127 => 1,
        128 => 1,
        129 => 2,
        130 => 2,
        131 => 2,
        _ => 0,
    }
}

/// How many abilities a card (or face) prints. (cards 120 to 131).
fn ability_count_10(c: CardIndex) -> (r: u32)
    ensures
        r == spec_ability_count_10(c),
{
    match c.0 {
        120 => 1,
        121 => 1,
        122 => 1,
        123 => 1,
        124 => 1,
        125 => 1,
        126 => 1,
        127 => 1,
        128 => 1,
        129 => 2,
        130 => 2,
        131 => 2,
        _ => 0,
    }
}

/// How many abilities a card (or face) prints. (cards 132 to 143).
pub open spec fn spec_ability_count_11(c: CardIndex) -> u32 {
    match c.0 {
        132 => 1,
        133 => 1,
        134 => 1,
        135 => 1,
        136 => 2,
        137 => 2,
        138 => 1,
        139 => 1,
        140 => 2,
        141 => 1,
        142 => 2,
        143 => 1,
        _ => 0,
    }
}

/// How many abilities a card (or face) prints. (cards 132 to 143).
fn ability_count_11(c: CardIndex) -> (r: u32)
    ensures
        r == spec_ability_count_11(c),
{
    match c.0 {
        132 => 1,
        133 => 1,
        134 => 1,
        135 => 1,
        136 => 2,
        137 => 2,
        138 => 1,
        139 => 1,
        140 => 2,
        141 => 1,
        142 => 2,
        143 => 1,
        _ => 0,
    }
}

/// How many abilities a card (or face) prints. (cards 144 to 155).
pub open spec fn spec_ability_count_12(c: CardIndex) -> u32 {
    match c.0 {
        144 => 3,
        145 => 1,
        146 => 2,
        147 => 1,
        148 => 1,
        149 => 1,
        150 => 2,
        151 => 1,
        152 => 1,
        153 => 2,
        154 => 1,
        155 => 2,
        _ => 0,
    }
}

/// How many abilities a card (or face) prints. (cards 144 to 155).
fn ability_count_12(c: CardIndex) -> (r: u32)
    ensures
        r == spec_ability_count_12(c),
{
    match c.0 {
        144 => 3,
        145 => 1,
        146 => 2,
        147 => 1,
        148 => 1,
        149 => 1,
        150 => 2,
        151 => 1,
        152 => 1,
        153 => 2,
        154 => 1,
        155 => 2,
        _ => 0,
    }
}

/// How many abilities a card (or face) prints. (cards 156 to 167).
pub open spec fn spec_ability_count_13(c: CardIndex) -> u32 {
    match c.0 {
        156 => 1,
        157 => 1,
        158 => 2,
        159 => 1,
        160 => 2,
        161 => 1,
        162 => 2,
        163 => 1,
        164 => 2,
        165 => 2,
        166 => 2,
        167 => 1,
        _ => 0,
    }
}

/// How many abilities a card (or face) prints. (cards 156 to 167).
fn ability_count_13(c: CardIndex) -> (r: u32)
    ensures
        r == spec_ability_count_13(c),
{
    match c.0 {
        156 => 1,
        157 => 1,
        158 => 2,
        159 => 1,
        160 => 2,
        161 => 1,
        162 => 2,
        163 => 1,
        164 => 2,
        165 => 2,
        166 => 2,
        167 => 1,
        _ => 0,
    }
}

/// How many abilities a card (or face) prints. (cards 168 to 179).
pub open spec fn spec_ability_count_14(c: CardIndex) -> u32 {
    match c.0 {
        168 => 1,
        169 => 2,
        170 => 2,
        171 => 2,
        172 => 1,
        173 => 2,
        174 => 2,
        175 => 1,
        176 => 2,
        177 => 1,
        178 => 2,
        179 => 1,
        _ => 0,
    }
}

/// How many abilities a card (or face) prints. (cards 168 to 179).
fn ability_count_14(c: CardIndex) -> (r: u32)
    ensures
        r == spec_ability_count_14(c),
{
    match c.0 {
        168 => 1,
        169 => 2,
        170 => 2,
        171 => 2,
        172 => 1,
        173 => 2,
        174 => 2,
        175 => 1,
        176 => 2,
        177 => 1,
        178 => 2,
        179 => 1,
        _ => 0,
    }
}

/// How many abilities a card (or face) prints. (cards 180 to 191).
pub open spec fn spec_ability_count_15(c: CardIndex) -> u32 {
    match c.0 {
        180 => 1,
        181 => 1,
        182 => 2,
        183 => 1,
        184 => 2,
        185 => 1,
        186 => 2,
        187 => 1,
        188 => 2,
        189 => 2,
        190 => 1,
        191 => 2,
        _ => 0,
    }
}

/// How many abilities a card (or face) prints. (cards 180 to 191).
fn ability_count_15(c: CardIndex) -> (r: u32)
    ensures
        r == spec_ability_count_15(c),
{
    match c.0 {
        180 => 1,
        181 => 1,
        182 => 2,
        183 => 1,
        184 => 2,
        185 => 1,
        186 => 2,
        187 => 1,
        188 => 2,
        189 => 2,
        190 => 1,
        191 => 2,
        _ => 0,
    }
}

/// How many abilities a card (or face) prints. (cards 192 to 203).
pub open spec fn spec_ability_count_16(c: CardIndex) -> u32 {
    match c.0 {
        192 => 2,
        193 => 2,
        194 => 1,
        195 => 1,
        196 => 1,
        197 => 1,
        198 => 1,
        199 => 1,
        200 => 1,
        201 => 2,
        202 => 1,
        203 => 1,
        _ => 0,
    }
}

/// How many abilities a card (or face) prints. (cards 192 to 203).
fn ability_count_16(c: CardIndex) -> (r: u32)
    ensures
        r == spec_ability_count_16(c),
{
    match c.0 {
        192 => 2,
        193 => 2,
        194 => 1,
        195 => 1,
        196 => 1,
        197 => 1,
        198 => 1,
        199 => 1,
        200 => 1,
        201 => 2,
        202 => 1,
        203 => 1,
        _ => 0,
    }
}

/// How many abilities a card (or face) prints. (cards 204 to 215).
pub open spec fn spec_ability_count_17(c: CardIndex) -> u32 {
    match c.0 {
        204 => 1,
        205 => 1,
        206 => 2,
        207 => 1,
        208 => 1,
        209 => 1,
        210 => 2,
        211 => 2,
        212 => 1,
        213 => 1,
        214 => 1,
        215 => 1,
        _ => 0,
    }
}

/// How many abilities a card (or face) prints. (cards 204 to 215).
fn ability_count_17(c: CardIndex) -> (r: u32)
    ensures
        r == spec_ability_count_17(c),
{
    match c.0 {
        204 => 1,
        205 => 1,
        206 => 2,
        207 => 1,
        208 => 1,
        209 => 1,
        210 => 2,
        211 => 2,
        212 => 1,
        213 => 1,
        214 => 1,
        215 => 1,
        _ => 0,
    }
}

/// How many abilities a card (or face) prints. (cards 216 to 227).
pub open spec fn spec_ability_count_18(c: CardIndex) -> u32 {
    match c.0 {
        216 => 1,
        217 => 1,
        218 => 1,
        219 => 1,
        220 => 1,
        221 => 1,
        222 => 1,
        223 => 1,
        224 => 1,
        225 => 2,
        226 => 2,
        227 => 1,
        _ => 0,
    }
}

/// How many abilities a card (or face) prints. (cards 216 to 227).
fn ability_count_18(c: CardIndex) -> (r: u32)
    ensures
        r == spec_ability_count_18(c),
{
    match c.0 {
        216 => 1,
        217 => 1,
        218 => 1,
        219 => 1,
        220 => 1,
        221 => 1,
        222 => 1,
        223 => 1,
        224 => 1,
        225 => 2,
        226 => 2,
        227 => 1,
        _ => 0,
    }
}

/// How many abilities a card (or face) prints. (cards 228 to 239).
pub open spec fn spec_ability_count_19(c: CardIndex) -> u32 {
    match c.0 {
        228 => 3,
        229 => 1,
        230 => 2,
        231 => 2,
        232 => 1,
        233 => 1,
        234 => 1,
        235 => 1,
        236 => 2,
        237 => 2,
        238 => 2,
        239 => 2,
        _ => 0,
    }
}

/// How many abilities a card (or face) prints. (cards 228 to 239).
fn ability_count_19(c: CardIndex) -> (r: u32)
    ensures
        r == spec_ability_count_19(c),
{
    match c.0 {
        228 => 3,
        229 => 1,
        230 => 2,
        231 => 2,
        232 => 1,
        233 => 1,
        234 => 1,
        235 => 1,
        236 => 2,
        237 => 2,
        238 => 2,
        239 => 2,
        _ => 0,
    }
}

/// How many abilities a card (or face) prints. (cards 240 to 251).
pub open spec fn spec_ability_count_20(c: CardIndex) -> u32 {
    match c.0 {
        240 => 2,
        241 => 2,
        242 => 2,
        243 => 2,
        244 => 2,
        245 => 1,
        246 => 1,
        247 => 1,
        248 => 0,
        249 => 1,
        250 => 2,
        251 => 0,
        _ => 0,
    }
}

/// How many abilities a card (or face) prints. (cards 240 to 251).
fn ability_count_20(c: CardIndex) -> (r: u32)
    ensures
        r == spec_ability_count_20(c),
{
    match c.0 {
        240 => 2,
        241 => 2,
        242 => 2,
        243 => 2,
        244 => 2,
        245 => 1,
        246 => 1,
        247 => 1,
        248 => 0,
        249 => 1,
        250 => 2,
        251 => 0,
        _ => 0,
    }
}

/// How many abilities a card (or face) prints. (cards 252 to 263).
pub open spec fn spec_ability_count_21(c: CardIndex) -> u32 {
    match c.0 {
        252 => 1,
        253 => 2,
        254 => 2,
        255 => 1,
        256 => 2,
        257 => 2,
        258 => 2,
        259 => 2,
        260 => 2,
        261 => 2,
        262 => 2,
        263 => 2,
        _ => 0,
    }
}

/// How many abilities a card (or face) prints. (cards 252 to 263).
fn ability_count_21(c: CardIndex) -> (r: u32)
    ensures
        r == spec_ability_count_21(c),
{
    match c.0 {
        252 => 1,
        253 => 2,
        254 => 2,
        255 => 1,
        256 => 2,
        257 => 2,
        258 => 2,
        259 => 2,
        260 => 2,
        261 => 2,
        262 => 2,
        263 => 2,
        _ => 0,
    }
}

/// How many abilities a card (or face) prints. (cards 264 to 275).
pub open spec fn spec_ability_count_22(c: CardIndex) -> u32 {
    match c.0 {
        264 => 2,
        265 => 2,
        266 => 3,
        267 => 0,
        268 => 1,
        269 => 1,
        270 => 1,
        271 => 1,
        272 => 1,
        273 => 1,
        274 => 2,
        275 => 3,
        _ => 0,
    }
}

/// How many abilities a card (or face) prints. (cards 264 to 275).
fn ability_count_22(c: CardIndex) -> (r: u32)
    ensures
        r == spec_ability_count_22(c),
{
    match c.0 {
        264 => 2,
        265 => 2,
        266 => 3,
        267 => 0,
        268 => 1,
        269 => 1,
        270 => 1,
        271 => 1,
        272 => 1,
        273 => 1,
        274 => 2,
        275 => 3,
        _ => 0,
    }
}

/// How many abilities a card (or face) prints. (cards 276 to 287).
pub open spec fn spec_ability_count_23(c: CardIndex) -> u32 {
    match c.0 {
        276 => 2,
        277 => 2,
        278 => 2,
        279 => 2,
        280 => 3,
        281 => 3,
        282 => 3,
        283 => 3,
        284 => 3,
        285 => 2,
        286 => 2,
        287 => 2,
        _ => 0,
    }
}

/// How many abilities a card (or face) prints. (cards 276 to 287).
fn ability_count_23(c: CardIndex) -> (r: u32)
    ensures
        r == spec_ability_count_23(c),
{
    match c.0 {
        276 => 2,
        277 => 2,
        278 => 2,
        279 => 2,
        280 => 3,
        281 => 3,
        282 => 3,
        283 => 3,
        284 => 3,
        285 => 2,
        286 => 2,
        287 => 2,
        _ => 0,
    }
}

/// How many abilities a card (or face) prints. (cards 288 to 299).
pub open spec fn spec_ability_count_24(c: CardIndex) -> u32 {
    match c.0 {
        288 => 2,
        289 => 2,
        290 => 2,
        291 => 2,
        292 => 2,
        293 => 2,
        294 => 2,
        295 => 2,
        296 => 1,
        297 => 2,
        298 => 1,
        299 => 1,
        _ => 0,
    }
}

/// How many abilities a card (or face) prints. (cards 288 to 299).
fn ability_count_24(c: CardIndex) -> (r: u32)
    ensures
        r == spec_ability_count_24(c),
{
    match c.0 {
        288 => 2,
        289 => 2,
        290 => 2,
        291 => 2,
        292 => 2,
        293 => 2,
        294 => 2,
        295 => 2,
        296 => 1,
        297 => 2,
        298 => 1,
        299 => 1,
        _ => 0,
    }
}

/// How many abilities a card (or face) prints. (cards 300 to 311).
pub open spec fn spec_ability_count_25(c: CardIndex) -> u32 {
    match c.0 {
        300 => 2,
        301 => 1,
        302 => 1,
        303 => 2,
        304 => 3,
        305 => 3,
        306 => 3,
        307 => 3,
        308 => 3,
        309 => 2,
        310 => 2,
        311 => 2,
        _ => 0,
    }
}

/// How many abilities a card (or face) prints. (cards 300 to 311).
fn ability_count_25(c: CardIndex) -> (r: u32)
    ensures
        r == spec_ability_count_25(c),
{
    match c.0 {
        300 => 2,
        301 => 1,
        302 => 1,
        303 => 2,
        304 => 3,
        305 => 3,
        306 => 3,
        307 => 3,
        308 => 3,
        309 => 2,
        310 => 2,
        311 => 2,
        _ => 0,
    }
}

/// How many abilities a card (or face) prints. (cards 312 to 323).
pub open spec fn spec_ability_count_26(c: CardIndex) -> u32 {
    match c.0 {
        312 => 2,
        313 => 2,
        314 => 2,
        315 => 2,
        316 => 2,
        317 => 2,
        318 => 2,
        319 => 3,
        320 => 2,
        321 => 2,
        322 => 2,
        323 => 2,
        _ => 0,
    }
}

/// How many abilities a card (or face) prints. (cards 312 to 323).
fn ability_count_26(c: CardIndex) -> (r: u32)
    ensures
        r == spec_ability_count_26(c),
{
    match c.0 {
        312 => 2,
        313 => 2,
        314 => 2,
        315 => 2,
        316 => 2,
        317 => 2,
        318 => 2,
        319 => 3,
        320 => 2,
        321 => 2,
        322 => 2,
        323 => 2,
        _ => 0,
    }
}

/// How many abilities a card (or face) prints. (cards 324 to 335).
pub open spec fn spec_ability_count_27(c: CardIndex) -> u32 {
    match c.0 {
        324 => 2,
        325 => 2,
        326 => 2,
        327 => 1,
        328 => 2,
        329 => 1,
        330 => 1,
        331 => 3,
        332 => 2,
        333 => 2,
        334 => 2,
        335 => 2,
        _ => 0,
    }
}

/// How many abilities a card (or face) prints. (cards 324 to 335).
fn ability_count_27(c: CardIndex) -> (r: u32)
    ensures
        r == spec_ability_count_27(c),
{
    match c.0 {
        324 => 2,
        325 => 2,
        326 => 2,
        327 => 1,
        328 => 2,
        329 => 1,
        330 => 1,
        331 => 3,
        332 => 2,
        333 => 2,
        334 => 2,
        335 => 2,
        _ => 0,
    }
}

/// How many abilities a card (or face) prints. (cards 336 to 347).
pub open spec fn spec_ability_count_28(c: CardIndex) -> u32 {
    match c.0 {
        336 => 1,
        337 => 0,
        338 => 1,
        339 => 0,
        340 => 1,
        341 => 1,
        342 => 1,
        343 => 1,
        344 => 2,
        345 => 2,
        346 => 2,
        347 => 2,
        _ => 0,
    }
}

/// How many abilities a card (or face) prints. (cards 336 to 347).
fn ability_count_28(c: CardIndex) -> (r: u32)
    ensures
        r == spec_ability_count_28(c),
{
    match c.0 {
        336 => 1,
        337 => 0,
        338 => 1,
        339 => 0,
        340 => 1,
        341 => 1,
        342 => 1,
        343 => 1,
        344 => 2,
        345 => 2,
        346 => 2,
        347 => 2,
        _ => 0,
    }
}

/// How many abilities a card (or face) prints. (cards 348 to 359).
pub open spec fn spec_ability_count_29(c: CardIndex) -> u32 {
    match c.0 {
        348 => 0,
        349 => 0,
        350 => 0,
        351 => 1,
        352 => 1,
        353 => 1,
        354 => 1,
        355 => 1,
        356 => 1,
        357 => 1,
        358 => 1,
        359 => 1,
        _ => 0,
    }
}

/// How many abilities a card (or face) prints. (cards 348 to 359).
fn ability_count_29(c: CardIndex) -> (r: u32)
    ensures
        r == spec_ability_count_29(c),
{
    match c.0 {
        348 => 0,
        349 => 0,
        350 => 0,
        351 => 1,
        352 => 1,
        353 => 1,
        354 => 1,
        355 => 1,
        356 => 1,
        357 => 1,
        358 => 1,
        359 => 1,
        _ => 0,
    }
}

/// How many abilities a card (or face) prints. (cards 360 to 371).
pub open spec fn spec_ability_count_30(c: CardIndex) -> u32 {
    match c.0 {
        360 => 1,
        361 => 1,
        362 => 1,
        363 => 1,
        364 => 1,
        365 => 1,
        366 => 1,
        367 => 1,
        368 => 1,
        369 => 1,
        370 => 1,
        371 => 1,
        _ => 0,
    }
}

/// How many abilities a card (or face) prints. (cards 360 to 371).
fn ability_count_30(c: CardIndex) -> (r: u32)
    ensures
        r == spec_ability_count_30(c),
{
    match c.0 {
        360 => 1,
        361 => 1,
        362 => 1,
        363 => 1,
        364 => 1,
        365 => 1,
        366 => 1,
        367 => 1,
        368 => 1,
        369 => 1,
        370 => 1,
        371 => 1,
        _ => 0,
    }
}

/// How many abilities a card (or face) prints. (cards 372 to 383).
pub open spec fn spec_ability_count_31(c: CardIndex) -> u32 {
    match c.0 {
        372 => 1,
        373 => 1,
        374 => 1,
        375 => 1,
        376 => 1,
        377 => 2,
        378 => 2,
        379 => 2,
        380 => 2,
        381 => 2,
        382 => 2,
        383 => 2,
        _ => 0,
    }
}

/// How many abilities a card (or face) prints. (cards 372 to 383).
fn ability_count_31(c: CardIndex) -> (r: u32)
    ensures
        r == spec_ability_count_31(c),
{
    match c.0 {
        372 => 1,
        373 => 1,
        374 => 1,
        375 => 1,
        376 => 1,
        377 => 2,
        378 => 2,
        379 => 2,
        380 => 2,
        381 => 2,
        382 => 2,
        383 => 2,
        _ => 0,
    }
}

/// How many abilities a card (or face) prints. (cards 384 to 395).
pub open spec fn spec_ability_count_32(c: CardIndex) -> u32 {
    match c.0 {
        384 => 3,
        385 => 3,
        386 => 3,
        387 => 2,
        388 => 2,
        389 => 2,
        390 => 2,
        391 => 2,
        392 => 2,
        393 => 2,
        394 => 2,
        395 => 2,
        _ => 0,
    }
}

/// How many abilities a card (or face) prints. (cards 384 to 395).
fn ability_count_32(c: CardIndex) -> (r: u32)
    ensures
        r == spec_ability_count_32(c),
{
    match c.0 {
        384 => 3,
        385 => 3,
        386 => 3,
        387 => 2,
        388 => 2,
        389 => 2,
        390 => 2,
        391 => 2,
        392 => 2,
        393 => 2,
        394 => 2,
        395 => 2,
        _ => 0,
    }
}

/// How many abilities a card (or face) prints. (cards 396 to 407).
pub open spec fn spec_ability_count_33(c: CardIndex) -> u32 {
    match c.0 {
        396 => 2,
        397 => 2,
        398 => 2,
        399 => 2,
        400 => 2,
        401 => 2,
        402 => 2,
        403 => 2,
        404 => 2,
        405 => 2,
        406 => 2,
        407 => 2,
        _ => 0,
    }
}

/// How many abilities a card (or face) prints. (cards 396 to 407).
fn ability_count_33(c: CardIndex) -> (r: u32)
    ensures
        r == spec_ability_count_33(c),
{
    match c.0 {
        396 => 2,
        397 => 2,
        398 => 2,
        399 => 2,
        400 => 2,
        401 => 2,
        402 => 2,
        403 => 2,
        404 => 2,
        405 => 2,
        406 => 2,
        407 => 2,
        _ => 0,
    }
}

/// How many abilities a card (or face) prints. (cards 408 to 419).
pub open spec fn spec_ability_count_34(c: CardIndex) -> u32 {
    match c.0 {
        408 => 2,
        409 => 2,
        410 => 2,
        411 => 2,
        412 => 2,
        413 => 2,
        414 => 2,
        415 => 2,
        416 => 2,
        417 => 2,
        418 => 2,
        419 => 2,
        _ => 0,
    }
}

/// How many abilities a card (or face) prints. (cards 408 to 419).
fn ability_count_34(c: CardIndex) -> (r: u32)
    ensures
        r == spec_ability_count_34(c),
{
    match c.0 {
        408 => 2,
        409 => 2,
        410 => 2,
        411 => 2,
        412 => 2,
        413 => 2,
        414 => 2,
        415 => 2,
        416 => 2,
        417 => 2,
        418 => 2,
        419 => 2,
        _ => 0,
    }
}

/// How many abilities a card (or face) prints. (cards 420 to 431).
pub open spec fn spec_ability_count_35(c: CardIndex) -> u32 {
    match c.0 {
        420 => 2,
        421 => 2,
        422 => 2,
        423 => 2,
        424 => 2,
        425 => 2,
        426 => 1,
        427 => 1,
        428 => 1,
        429 => 2,
        430 => 1,
        431 => 2,
        _ => 0,
    }
}

/// How many abilities a card (or face) prints. (cards 420 to 431).
fn ability_count_35(c: CardIndex) -> (r: u32)
    ensures
        r == spec_ability_count_35(c),
{
    match c.0 {
        420 => 2,
        421 => 2,
        422 => 2,
        423 => 2,
        424 => 2,
        425 => 2,
        426 => 1,
        427 => 1,
        428 => 1,
        429 => 2,
        430 => 1,
        431 => 2,
        _ => 0,
    }
}

/// How many abilities a card (or face) prints. (cards 432 to 443).
pub open spec fn spec_ability_count_36(c: CardIndex) -> u32 {
    match c.0 {
        432 => 2,
        433 => 1,
        434 => 2,
        435 => 2,
        436 => 2,
        437 => 2,
        438 => 2,
        439 => 2,
        440 => 2,
        441 => 2,
        442 => 2,
        443 => 2,
        _ => 0,
    }
}

/// How many abilities a card (or face) prints. (cards 432 to 443).
fn ability_count_36(c: CardIndex) -> (r: u32)
    ensures
        r == spec_ability_count_36(c),
{
    match c.0 {
        432 => 2,
        433 => 1,
        434 => 2,
        435 => 2,
        436 => 2,
        437 => 2,
        438 => 2,
        439 => 2,
        440 => 2,
        441 => 2,
        442 => 2,
        443 => 2,
        _ => 0,
    }
}

/// How many abilities a card (or face) prints. (cards 444 to 455).
pub open spec fn spec_ability_count_37(c: CardIndex) -> u32 {
    match c.0 {
        444 => 2,
        445 => 2,
        446 => 2,
        447 => 2,
        448 => 2,
        449 => 3,
        450 => 2,
        451 => 0,
        452 => 2,
        453 => 2,
        454 => 1,
        455 => 1,
        _ => 0,
    }
}

/// How many abilities a card (or face) prints. (cards 444 to 455).
fn ability_count_37(c: CardIndex) -> (r: u32)
    ensures
        r == spec_ability_count_37(c),
{
    match c.0 {
        444 => 2,
        445 => 2,
        446 => 2,
        447 => 2,
        448 => 2,
        449 => 3,
        450 => 2,
        451 => 0,
        452 => 2,
        453 => 2,
        454 => 1,
        455 => 1,
        _ => 0,
    }
}

/// How many abilities a card (or face) prints. (cards 456 to 467).
pub open spec fn spec_ability_count_38(c: CardIndex) -> u32 {
    match c.0 {
        456 => 2,
        457 => 2,
        458 => 1,
        459 => 1,
        460 => 1,
        461 => 1,
        462 => 1,
        463 => 1,
        464 => 1,
        465 => 1,
        466 => 1,
        467 => 1,
        _ => 0,
    }
}

/// How many abilities a card (or face) prints. (cards 456 to 467).
fn ability_count_38(c: CardIndex) -> (r: u32)
    ensures
        r == spec_ability_count_38(c),
{
    match c.0 {
        456 => 2,
        457 => 2,
        458 => 1,
        459 => 1,
        460 => 1,
        461 => 1,
        462 => 1,
        463 => 1,
        464 => 1,
        465 => 1,
        466 => 1,
        467 => 1,
        _ => 0,
    }
}

/// How many abilities a card (or face) prints. (cards 468 to 471).
pub open spec fn spec_ability_count_39(c: CardIndex) -> u32 {
    match c.0 {
        468 => 1,
        469 => 1,
        470 => 1,
        471 => 1,
        _ => 0,
    }
}

/// How many abilities a card (or face) prints. (cards 468 to 471).
fn ability_count_39(c: CardIndex) -> (r: u32)
    ensures
        r == spec_ability_count_39(c),
{
    match c.0 {
        468 => 1,
        469 => 1,
        470 => 1,
        471 => 1,
        _ => 0,
    }
}

/// How many abilities a card (or face) prints.
pub open spec fn spec_ability_count(c: CardIndex) -> u32 {
    if c.0 < 12 {
        spec_ability_count_0(c)
    } else if c.0 < 24 {
        spec_ability_count_1(c)
    } else if c.0 < 36 {
        spec_ability_count_2(c)
    } else if c.0 < 48 {
        spec_ability_count_3(c)
    } else if c.0 < 60 {
        spec_ability_count_4(c)
    } else if c.0 < 72 {
        spec_ability_count_5(c)
    } else if c.0 < 84 {
        spec_ability_count_6(c)
    } else if c.0 < 96 {
        spec_ability_count_7(c)
    } else if c.0 < 108 {
        spec_ability_count_8(c)
    } else if c.0 < 120 {
        spec_ability_count_9(c)
    } else if c.0 < 132 {
        spec_ability_count_10(c)
    } else if c.0 < 144 {
        spec_ability_count_11(c)
    } else if c.0 < 156 {
        spec_ability_count_12(c)
    } else if c.0 < 168 {
        spec_ability_count_13(c)
    } else if c.0 < 180 {
        spec_ability_count_14(c)
    } else if c.0 < 192 {
        spec_ability_count_15(c)
    } else if c.0 < 204 {
        spec_ability_count_16(c)
    } else if c.0 < 216 {
        spec_ability_count_17(c)
    } else if c.0 < 228 {
        spec_ability_count_18(c)
    } else if c.0 < 240 {
        spec_ability_count_19(c)
    } else if c.0 < 252 {
        spec_ability_count_20(c)
    } else if c.0 < 264 {
        spec_ability_count_21(c)
    } else if c.0 < 276 {
        spec_ability_count_22(c)
    } else if c.0 < 288 {
        spec_ability_count_23(c)
    } else if c.0 < 300 {
        spec_ability_count_24(c)
    } else if c.0 < 312 {
        spec_ability_count_25(c)
    } else if c.0 < 324 {
        spec_ability_count_26(c)
    } else if c.0 < 336 {
        spec_ability_count_27(c)
    } else if c.0 < 348 {
        spec_ability_count_28(c)
    } else if c.0 < 360 {
        spec_ability_count_29(c)
    } else if c.0 < 372 {
        spec_ability_count_30(c)
    } else if c.0 < 384 {
        spec_ability_count_31(c)
    } else if c.0 < 396 {
        spec_ability_count_32(c)
    } else if c.0 < 408 {
        spec_ability_count_33(c)
    } else if c.0 < 420 {
        spec_ability_count_34(c)
    } else if c.0 < 432 {
        spec_ability_count_35(c)
    } else if c.0 < 444 {
        spec_ability_count_36(c)
    } else if c.0 < 456 {
        spec_ability_count_37(c)
    } else if c.0 < 468 {
        spec_ability_count_38(c)
    } else if c.0 < 472 {
        spec_ability_count_39(c)
    } else {
        0
    }
}

/// How many abilities a card (or face) prints.
pub fn ability_count(c: CardIndex) -> (r: u32)
    ensures
        r == spec_ability_count(c),
{
    if c.0 < 12 {
        ability_count_0(c)
    } else if c.0 < 24 {
        ability_count_1(c)
    } else if c.0 < 36 {
        ability_count_2(c)
    } else if c.0 < 48 {
        ability_count_3(c)
    } else if c.0 < 60 {
        ability_count_4(c)
    } else if c.0 < 72 {
        ability_count_5(c)
    } else if c.0 < 84 {
        ability_count_6(c)
    } else if c.0 < 96 {
        ability_count_7(c)
    } else if c.0 < 108 {
        ability_count_8(c)
    } else if c.0 < 120 {
        ability_count_9(c)
    } else if c.0 < 132 {
        ability_count_10(c)
    } else if c.0 < 144 {
        ability_count_11(c)
    } else if c.0 < 156 {
        ability_count_12(c)
    } else if c.0 < 168 {
        ability_count_13(c)
    } else if c.0 < 180 {
        ability_count_14(c)
    } else if c.0 < 192 {
        ability_count_15(c)
    } else if c.0 < 204 {
        ability_count_16(c)
    } else if c.0 < 216 {
        ability_count_17(c)
    } else if c.0 < 228 {
        ability_count_18(c)
    } else if c.0 < 240 {
        ability_count_19(c)
    } else if c.0 < 252 {
        ability_count_20(c)
    } else if c.0 < 264 {
        ability_count_21(c)
    } else if c.0 < 276 {
        ability_count_22(c)
    } else if c.0 < 288 {
        ability_count_23(c)
    } else if c.0 < 300 {
        ability_count_24(c)
    } else if c.0 < 312 {
        ability_count_25(c)
    } else if c.0 < 324 {
        ability_count_26(c)
    } else if c.0 < 336 {
        ability_count_27(c)
    } else if c.0 < 348 {
        ability_count_28(c)
    } else if c.0 < 360 {
        ability_count_29(c)
    } else if c.0 < 372 {
        ability_count_30(c)
    } else if c.0 < 384 {
        ability_count_31(c)
    } else if c.0 < 396 {
        ability_count_32(c)
    } else if c.0 < 408 {
        ability_count_33(c)
    } else if c.0 < 420 {
        ability_count_34(c)
    } else if c.0 < 432 {
        ability_count_35(c)
    } else if c.0 < 444 {
        ability_count_36(c)
    } else if c.0 < 456 {
        ability_count_37(c)
    } else if c.0 < 468 {
        ability_count_38(c)
    } else if c.0 < 472 {
        ability_count_39(c)
    } else {
        0
    }
}

/// The mana cost of a card that can be cast, if this engine casts it. (cards 0 to 11).
pub open spec fn spec_spell_cost_0(c: CardIndex) -> Option<ManaCost> {
    match c.0 {
        0 => None,
        1 => None,
        2 => None,
        3 => None,
        4 => None,
        5 => None,
        6 => None,
        7 => None,
        8 => Some(mana(0, 0, 1, 1, 0, 0, 0)),
        9 => None,
        10 => None,
        11 => None,
        _ => None,
    }
}

/// The mana cost of a card that can be cast, if this engine casts it. (cards 0 to 11).
fn spell_cost_0(c: CardIndex) -> (r: Option<ManaCost>)
    ensures
        r == spec_spell_cost_0(c),
{
    match c.0 {
        0 => None,
        1 => None,
        2 => None,
        3 => None,
        4 => None,
        5 => None,
        6 => None,
        7 => None,
        8 => Some(mana(0, 0, 1, 1, 0, 0, 0)),
        9 => None,
        10 => None,
        11 => None,
        _ => None,
    }
}

/// The mana cost of a card that can be cast, if this engine casts it. (cards 12 to 23).
pub open spec fn spec_spell_cost_1(c: CardIndex) -> Option<ManaCost> {
    match c.0 {
        12 => None,
        13 => None,
        14 => None,
        15 => None,
        16 => None,
        17 => None,
        18 => None,
        19 => None,
        20 => None,
        21 => None,
        22 => None,
        23 => None,
        _ => None,
    }
}

/// The mana cost of a card that can be cast, if this engine casts it. (cards 12 to 23).
fn spell_cost_1(c: CardIndex) -> (r: Option<ManaCost>)
    ensures
        r == spec_spell_cost_1(c),
{
    match c.0 {
        12 => None,
        13 => None,
        14 => None,
        15 => None,
        16 => None,
        17 => None,
        18 => None,
        19 => None,
        20 => None,
        21 => None,
        22 => None,
        23 => None,
        _ => None,
    }
}

/// The mana cost of a card that can be cast, if this engine casts it. (cards 24 to 35).
pub open spec fn spec_spell_cost_2(c: CardIndex) -> Option<ManaCost> {
    match c.0 {
        24 => None,
        25 => None,
        26 => None,
        27 => None,
        28 => None,
        29 => None,
        30 => None,
        31 => None,
        32 => None,
        33 => None,
        34 => None,
        35 => None,
        _ => None,
    }
}

/// The mana cost of a card that can be cast, if this engine casts it. (cards 24 to 35).
fn spell_cost_2(c: CardIndex) -> (r: Option<ManaCost>)
    ensures
        r == spec_spell_cost_2(c),
{
    match c.0 {
        24 => None,
        25 => None,
        26 => None,
        27 => None,
        28 => None,
        29 => None,
        30 => None,
        31 => None,
        32 => None,
        33 => None,
        34 => None,
        35 => None,
        _ => None,
    }
}

/// The mana cost of a card that can be cast, if this engine casts it. (cards 36 to 47).
pub open spec fn spec_spell_cost_3(c: CardIndex) -> Option<ManaCost> {
    match c.0 {
        36 => None,
        37 => None,
        38 => None,
        39 => None,
        40 => None,
        41 => None,
        42 => None,
        43 => None,
        44 => None,
        45 => None,
        46 => None,
        47 => None,
        _ => None,
    }
}

/// The mana cost of a card that can be cast, if this engine casts it. (cards 36 to 47).
fn spell_cost_3(c: CardIndex) -> (r: Option<ManaCost>)
    ensures
        r == spec_spell_cost_3(c),
{
    match c.0 {
        36 => None,
        37 => None,
        38 => None,
        39 => None,
        40 => None,
        41 => None,
        42 => None,
        43 => None,
        44 => None,
        45 => None,
        46 => None,
        47 => None,
        _ => None,
    }
}

/// The mana cost of a card that can be cast, if this engine casts it. (cards 48 to 59).
pub open spec fn spec_spell_cost_4(c: CardIndex) -> Option<ManaCost> {
    match c.0 {
        48 => None,
        49 => None,
        50 => None,
        51 => None,
        52 => None,
        53 => None,
        54 => None,
        55 => None,
        56 => None,
        57 => None,
        58 => None,
        59 => None,
        _ => None,
    }
}

/// The mana cost of a card that can be cast, if this engine casts it. (cards 48 to 59).
fn spell_cost_4(c: CardIndex) -> (r: Option<ManaCost>)
    ensures
        r == spec_spell_cost_4(c),
{
    match c.0 {
        48 => None,
        49 => None,
        50 => None,
        51 => None,
        52 => None,
        53 => None,
        54 => None,
        55 => None,
        56 => None,
        57 => None,
        58 => None,
        59 => None,
        _ => None,
    }
}

/// The mana cost of a card that can be cast, if this engine casts it. (cards 60 to 71).
pub open spec fn spec_spell_cost_5(c: CardIndex) -> Option<ManaCost> {
    match c.0 {
        60 => None,
        61 => None,
        62 => None,
        63 => None,
        64 => None,
        65 => None,
        66 => None,
        67 => None,
        68 => None,
        69 => None,
        70 => None,
        71 => None,
        _ => None,
    }
}

/// The mana cost of a card that can be cast, if this engine casts it. (cards 60 to 71).
fn spell_cost_5(c: CardIndex) -> (r: Option<ManaCost>)
    ensures
        r == spec_spell_cost_5(c),
{
    match c.0 {
        60 => None,
        61 => None,
        62 => None,
        63 => None,
        64 => None,
        65 => None,
        66 => None,
        67 => None,
        68 => None,
        69 => None,
        70 => None,
        71 => None,
        _ => None,
    }
}

/// The mana cost of a card that can be cast, if this engine casts it. (cards 72 to 83).
pub open spec fn spec_spell_cost_6(c: CardIndex) -> Option<ManaCost> {
    match c.0 {
        72 => None,
        73 => None,
        74 => None,
        75 => None,
        76 => None,
        77 => None,
        78 => None,
        79 => None,
        80 => None,
        81 => None,
        82 => None,
        83 => None,
        _ => None,
    }
}

/// The mana cost of a card that can be cast, if this engine casts it. (cards 72 to 83).
fn spell_cost_6(c: CardIndex) -> (r: Option<ManaCost>)
    ensures
        r == spec_spell_cost_6(c),
{
    match c.0 {
        72 => None,
        73 => None,
        74 => None,
        75 => None,
        76 => None,
        77 => None,
        78 => None,
        79 => None,
        80 => None,
        81 => None,
        82 => None,
        83 => None,
        _ => None,
    }
}

/// The mana cost of a card that can be cast, if this engine casts it. (cards 84 to 95).
pub open spec fn spec_spell_cost_7(c: CardIndex) -> Option<ManaCost> {
    match c.0 {
        84 => None,
        85 => None,
        86 => None,
        87 => None,
        88 => None,
        89 => None,
        90 => None,
        91 => None,
        92 => None,
        93 => None,
        94 => None,
        95 => None,
        _ => None,
    }
}

/// The mana cost of a card that can be cast, if this engine casts it. (cards 84 to 95).
fn spell_cost_7(c: CardIndex) -> (r: Option<ManaCost>)
    ensures
        r == spec_spell_cost_7(c),
{
    match c.0 {
        84 => None,
        85 => None,
        86 => None,
        87 => None,
        88 => None,
        89 => None,
        90 => None,
        91 => None,
        92 => None,
        93 => None,
        94 => None,
        95 => None,
        _ => None,
    }
}

/// The mana cost of a card that can be cast, if this engine casts it. (cards 96 to 107).
pub open spec fn spec_spell_cost_8(c: CardIndex) -> Option<ManaCost> {
    match c.0 {
        96 => None,
        97 => None,
        98 => None,
        99 => None,
        100 => None,
        101 => None,
        102 => None,
        103 => None,
        104 => None,
        105 => None,
        106 => None,
        107 => None,
        _ => None,
    }
}

/// The mana cost of a card that can be cast, if this engine casts it. (cards 96 to 107).
fn spell_cost_8(c: CardIndex) -> (r: Option<ManaCost>)
    ensures
        r == spec_spell_cost_8(c),
{
    match c.0 {
        96 => None,
        97 => None,
        98 => None,
        99 => None,
        100 => None,
        101 => None,
        102 => None,
        103 => None,
        104 => None,
        105 => None,
        106 => None,
        107 => None,
        _ => None,
    }
}

/// The mana cost of a card that can be cast, if this engine casts it. (cards 108 to 119).
pub open spec fn spec_spell_cost_9(c: CardIndex) -> Option<ManaCost> {
    match c.0 {
        108 => None,
        109 => None,
        110 => None,
        111 => None,
        112 => None,
        113 => None,
        114 => None,
        115 => None,
        116 => None,
        117 => None,
        118 => None,
        119 => None,
        _ => None,
    }
}

/// The mana cost of a card that can be cast, if this engine casts it. (cards 108 to 119).
fn spell_cost_9(c: CardIndex) -> (r: Option<ManaCost>)
    ensures
        r == spec_spell_cost_9(c),
{
    match c.0 {
        108 => None,
        109 => None,
        110 => None,
        111 => None,
        112 => None,
        113 => None,
        114 => None,
        115 => None,
        116 => None,
        117 => None,
        118 => None,
        119 => None,
        _ => None,
    }
}

/// The mana cost of a card that can be cast, if this engine casts it. (cards 120 to 131).
pub open spec fn spec_spell_cost_10(c: CardIndex) -> Option<ManaCost> {
    match c.0 {
        120 => None,
        121 => None,
        122 => None,
        123 => None,
        124 => None,
        125 => None,
        126 => None,
        127 => None,
        128 => None,
        129 => None,
        130 => None,
        131 => None,
        _ => None,
    }
}

/// The mana cost of a card that can be cast, if this engine casts it. (cards 120 to 131).
fn spell_cost_10(c: CardIndex) -> (r: Option<ManaCost>)
    ensures
        r == spec_spell_cost_10(c),
{
    match c.0 {
        120 => None,
        121 => None,
        122 => None,
        123 => None,
        124 => None,
        125 => None,
        126 => None,
        127 => None,
        128 => None,
        129 => None,
        130 => None,
        131 => None,
        _ => None,
    }
}

/// The mana cost of a card that can be cast, if this engine casts it. (cards 132 to 143).
pub open spec fn spec_spell_cost_11(c: CardIndex) -> Option<ManaCost> {
    match c.0 {
        132 => None,
        133 => None,
        134 => None,
        135 => None,
        136 => None,
        137 => None,
        138 => None,
        139 => None,
        140 => None,
        141 => None,
        142 => None,
        143 => None,
        _ => None,
    }
}

/// The mana cost of a card that can be cast, if this engine casts it. (cards 132 to 143).
fn spell_cost_11(c: CardIndex) -> (r: Option<ManaCost>)
    ensures
        r == spec_spell_cost_11(c),
{
    match c.0 {
        132 => None,
        133 => None,
        134 => None,
        135 => None,
        136 => None,
        137 => None,
        138 => None,
        139 => None,
        140 => None,
        141 => None,
        142 => None,
        143 => None,
        _ => None,
    }
}

/// The mana cost of a card that can be cast, if this engine casts it. (cards 144 to 155).
pub open spec fn spec_spell_cost_12(c: CardIndex) -> Option<ManaCost> {
    match c.0 {
        144 => None,
        145 => None,
        146 => None,
        147 => None,
        148 => None,
        149 => None,
        150 => None,
        151 => None,
        152 => None,
        153 => None,
        154 => None,
        155 => None,
        _ => None,
    }
}

/// The mana cost of a card that can be cast, if this engine casts it. (cards 144 to 155).
fn spell_cost_12(c: CardIndex) -> (r: Option<ManaCost>)
    ensures
        r == spec_spell_cost_12(c),
{
    match c.0 {
        144 => None,
        145 => None,
        146 => None,
        147 => None,
        148 => None,
        149 => None,
        150 => None,
        151 => None,
        152 => None,
        153 => None,
        154 => None,
        155 => None,
        _ => None,
    }
}

/// The mana cost of a card that can be cast, if this engine casts it. (cards 156 to 167).
pub open spec fn spec_spell_cost_13(c: CardIndex) -> Option<ManaCost> {
    match c.0 {
        156 => None,
        157 => None,
        158 => None,
        159 => None,
        160 => None,
        161 => None,
        162 => None,
        163 => None,
        164 => None,
        165 => None,
        166 => None,
        167 => None,
        _ => None,
    }
}

/// The mana cost of a card that can be cast, if this engine casts it. (cards 156 to 167).
fn spell_cost_13(c: CardIndex) -> (r: Option<ManaCost>)
    ensures
        r == spec_spell_cost_13(c),
{
    match c.0 {
        156 => None,
        157 => None,
        158 => None,
        159 => None,
        160 => None,
        161 => None,
        162 => None,
        163 => None,
        164 => None,
        165 => None,
        166 => None,
        167 => None,
        _ => None,
    }
}

/// The mana cost of a card that can be cast, if this engine casts it. (cards 168 to 179).
pub open spec fn spec_spell_cost_14(c: CardIndex) -> Option<ManaCost> {
    match c.0 {
        168 => None,
        169 => None,
        170 => None,
        171 => None,
        172 => None,
        173 => None,
        174 => None,
        175 => None,
        176 => None,
        177 => None,
        178 => None,
        179 => None,
        _ => None,
    }
}

/// The mana cost of a card that can be cast, if this engine casts it. (cards 168 to 179).
fn spell_cost_14(c: CardIndex) -> (r: Option<ManaCost>)
    ensures
        r == spec_spell_cost_14(c),
{
    match c.0 {
        168 => None,
        169 => None,
        170 => None,
        171 => None,
        172 => None,
        173 => None,
        174 => None,
        175 => None,
        176 => None,
        177 => None,
        178 => None,
        179 => None,
        _ => None,
    }
}

/// The mana cost of a card that can be cast, if this engine casts it. (cards 180 to 191).
pub open spec fn spec_spell_cost_15(c: CardIndex) -> Option<ManaCost> {
    match c.0 {
        180 => None,
        181 => None,
        182 => None,
        183 => None,
        184 => None,
        185 => None,
        186 => None,
        187 => None,
        188 => None,
        189 => None,
        190 => None,
        191 => None,
        _ => None,
    }
}

/// The mana cost of a card that can be cast, if this engine casts it. (cards 180 to 191).
fn spell_cost_15(c: CardIndex) -> (r: Option<ManaCost>)
    ensures
        r == spec_spell_cost_15(c),
{
    match c.0 {
        180 => None,
        181 => None,
        182 => None,
        183 => None,
        184 => None,
        185 => None,
        186 => None,
        187 => None,
        188 => None,
        189 => None,
        190 => None,
        191 => None,
        _ => None,
    }
}

/// The mana cost of a card that can be cast, if this engine casts it. (cards 192 to 203).
pub open spec fn spec_spell_cost_16(c: CardIndex) -> Option<ManaCost> {
    match c.0 {
        192 => None,
        193 => None,
        194 => None,
        195 => None,
        196 => None,
        197 => None,
        198 => None,
        199 => None,
        200 => None,
        201 => None,
        202 => None,
        203 => None,
        _ => None,
    }
}

/// The mana cost of a card that can be cast, if this engine casts it. (cards 192 to 203).
fn spell_cost_16(c: CardIndex) -> (r: Option<ManaCost>)
    ensures
        r == spec_spell_cost_16(c),
{
    match c.0 {
        192 => None,
        193 => None,
        194 => None,
        195 => None,
        196 => None,
        197 => None,
        198 => None,
        199 => None,
        200 => None,
        201 => None,
        202 => None,
        203 => None,
        _ => None,
    }
}

/// The mana cost of a card that can be cast, if this engine casts it. (cards 204 to 215).
pub open spec fn spec_spell_cost_17(c: CardIndex) -> Option<ManaCost> {
    match c.0 {
        204 => None,
        205 => None,
        206 => None,
        207 => None,
        208 => None,
        209 => None,
        210 => None,
        211 => None,
        212 => None,
        213 => None,
        214 => None,
        215 => None,
        _ => None,
    }
}

/// The mana cost of a card that can be cast, if this engine casts it. (cards 204 to 215).
fn spell_cost_17(c: CardIndex) -> (r: Option<ManaCost>)
    ensures
        r == spec_spell_cost_17(c),
{
    match c.0 {
        204 => None,
        205 => None,
        206 => None,
        207 => None,
        208 => None,
        209 => None,
        210 => None,
        211 => None,
        212 => None,
        213 => None,
        214 => None,
        215 => None,
        _ => None,
    }
}

/// The mana cost of a card that can be cast, if this engine casts it. (cards 216 to 227).
pub open spec fn spec_spell_cost_18(c: CardIndex) -> Option<ManaCost> {
    match c.0 {
        216 => None,
        217 => None,
        218 => None,
        219 => None,
        220 => None,
        221 => None,
        222 => None,
        223 => None,
        224 => None,
        225 => None,
        226 => None,
        227 => None,
        _ => None,
    }
}

/// The mana cost of a card that can be cast, if this engine casts it. (cards 216 to 227).
fn spell_cost_18(c: CardIndex) -> (r: Option<ManaCost>)
    ensures
        r == spec_spell_cost_18(c),
{
    match c.0 {
        216 => None,
        217 => None,
        218 => None,
        219 => None,
        220 => None,
        221 => None,
        222 => None,
        223 => None,
        224 => None,
        225 => None,
        226 => None,
        227 => None,
        _ => None,
    }
}

/// The mana cost of a card that can be cast, if this engine casts it. (cards 228 to 239).
pub open spec fn spec_spell_cost_19(c: CardIndex) -> Option<ManaCost> {
    match c.0 {
        228 => None,
        229 => None,
        230 => None,
        231 => None,
        232 => None,
        233 => None,
        234 => None,
        235 => None,
        236 => None,
        237 => None,
        238 => None,
        239 => None,
        _ => None,
    }
}

/// The mana cost of a card that can be cast, if this engine casts it. (cards 228 to 239).
fn spell_cost_19(c: CardIndex) -> (r: Option<ManaCost>)
    ensures
        r == spec_spell_cost_19(c),
{
    match c.0 {
        228 => None,
        229 => None,
        230 => None,
        231 => None,
        232 => None,
        233 => None,
        234 => None,
        235 => None,
        236 => None,
        237 => None,
        238 => None,
        239 => None,
        _ => None,
    }
}

/// The mana cost of a card that can be cast, if this engine casts it. (cards 240 to 251).
pub open spec fn spec_spell_cost_20(c: CardIndex) -> Option<ManaCost> {
    match c.0 {
        240 => None,
        241 => None,
        242 => None,
        243 => None,
        244 => None,
        245 => None,
        246 => None,
        247 => None,
        248 => None,
        249 => None,
        250 => None,
        251 => None,
        _ => None,
    }
}

/// The mana cost of a card that can be cast, if this engine casts it. (cards 240 to 251).
fn spell_cost_20(c: CardIndex) -> (r: Option<ManaCost>)
    ensures
        r == spec_spell_cost_20(c),
{
    match c.0 {
        240 => None,
        241 => None,
        242 => None,
        243 => None,
        244 => None,
        245 => None,
        246 => None,
        247 => None,
        248 => None,
        249 => None,
        250 => None,
        251 => None,
        _ => None,
    }
}

/// The mana cost of a card that can be cast, if this engine casts it. (cards 252 to 263).
pub open spec fn spec_spell_cost_21(c: CardIndex) -> Option<ManaCost> {
    match c.0 {
        252 => None,
        253 => None,
        254 => None,
        255 => None,
        256 => None,
        257 => None,
        258 => None,
        259 => None,
        260 => None,
        261 => None,
        262 => None,
        263 => None,
        _ => None,
    }
}

/// The mana cost of a card that can be cast, if this engine casts it. (cards 252 to 263).
fn spell_cost_21(c: CardIndex) -> (r: Option<ManaCost>)
    ensures
        r == spec_spell_cost_21(c),
{
    match c.0 {
        252 => None,
        253 => None,
        254 => None,
        255 => None,
        256 => None,
        257 => None,
        258 => None,
        259 => None,
        260 => None,
        261 => None,
        262 => None,
        263 => None,
        _ => None,
    }
}

/// The mana cost of a card that can be cast, if this engine casts it. (cards 264 to 275).
pub open spec fn spec_spell_cost_22(c: CardIndex) -> Option<ManaCost> {
    match c.0 {
        264 => None,
        265 => None,
        266 => None,
        267 => None,
        268 => None,
        269 => None,
        270 => None,
        271 => None,
        272 => None,
        273 => None,
        274 => None,
        275 => None,
        _ => None,
    }
}

/// The mana cost of a card that can be cast, if this engine casts it. (cards 264 to 275).
fn spell_cost_22(c: CardIndex) -> (r: Option<ManaCost>)
    ensures
        r == spec_spell_cost_22(c),
{
    match c.0 {
        264 => None,
        265 => None,
        266 => None,
        267 => None,
        268 => None,
        269 => None,
        270 => None,
        271 => None,
        272 => None,
        273 => None,
        274 => None,
        275 => None,
        _ => None,
    }
}

/// The mana cost of a card that can be cast, if this engine casts it. (cards 276 to 287).
pub open spec fn spec_spell_cost_23(c: CardIndex) -> Option<ManaCost> {
    match c.0 {
        276 => None,
        277 => None,
        278 => None,
        279 => None,
        280 => None,
        281 => None,
        282 => None,
        283 => None,
        284 => None,
        285 => None,
        286 => None,
        287 => None,
        _ => None,
    }
}

/// The mana cost of a card that can be cast, if this engine casts it. (cards 276 to 287).
fn spell_cost_23(c: CardIndex) -> (r: Option<ManaCost>)
    ensures
        r == spec_spell_cost_23(c),
{
    match c.0 {
        276 => None,
        277 => None,
        278 => None,
        279 => None,
        280 => None,
        281 => None,
        282 => None,
        283 => None,
        284 => None,
        285 => None,
        286 => None,
        287 => None,
        _ => None,
    }
}

/// The mana cost of a card that can be cast, if this engine casts it. (cards 288 to 299).
pub open spec fn spec_spell_cost_24(c: CardIndex) -> Option<ManaCost> {
    match c.0 {
        288 => None,
        289 => None,
        290 => None,
        291 => None,
        292 => None,
        293 => None,
        294 => None,
        295 => None,
        296 => None,
        297 => None,
        298 => None,
        299 => None,
        _ => None,
    }
}

/// The mana cost of a card that can be cast, if this engine casts it. (cards 288 to 299).
fn spell_cost_24(c: CardIndex) -> (r: Option<ManaCost>)
    ensures
        r == spec_spell_cost_24(c),
{
    match c.0 {
        288 => None,
        289 => None,
        290 => None,
        291 => None,
        292 => None,
        293 => None,
        294 => None,
        295 => None,
        296 => None,
        297 => None,
        298 => None,
        299 => None,
        _ => None,
    }
}

/// The mana cost of a card that can be cast, if this engine casts it. (cards 300 to 311).
pub open spec fn spec_spell_cost_25(c: CardIndex) -> Option<ManaCost> {
    match c.0 {
        300 => None,
        301 => None,
        302 => None,
        303 => None,
        304 => None,
        305 => None,
        306 => None,
        307 => None,
        308 => None,
        309 => None,
        310 => None,
        311 => None,
        _ => None,
    }
}

/// The mana cost of a card that can be cast, if this engine casts it. (cards 300 to 311).
fn spell_cost_25(c: CardIndex) -> (r: Option<ManaCost>)
    ensures
        r == spec_spell_cost_25(c),
{
    match c.0 {
        300 => None,
        301 => None,
        302 => None,
        303 => None,
        304 => None,
        305 => None,
        306 => None,
        307 => None,
        308 => None,
        309 => None,
        310 => None,
        311 => None,
        _ => None,
    }
}

/// The mana cost of a card that can be cast, if this engine casts it. (cards 312 to 323).
pub open spec fn spec_spell_cost_26(c: CardIndex) -> Option<ManaCost> {
    match c.0 {
        312 => None,
        313 => None,
        314 => None,
        315 => None,
        316 => None,
        317 => None,
        318 => None,
        319 => None,
        320 => None,
        321 => None,
        322 => None,
        323 => None,
        _ => None,
    }
}

/// The mana cost of a card that can be cast, if this engine casts it. (cards 312 to 323).
fn spell_cost_26(c: CardIndex) -> (r: Option<ManaCost>)
    ensures
        r == spec_spell_cost_26(c),
{
    match c.0 {
        312 => None,
        313 => None,
        314 => None,
        315 => None,
        316 => None,
        317 => None,
        318 => None,
        319 => None,
        320 => None,
        321 => None,
        322 => None,
        323 => None,
        _ => None,
    }
}

/// The mana cost of a card that can be cast, if this engine casts it. (cards 324 to 335).
pub open spec fn spec_spell_cost_27(c: CardIndex) -> Option<ManaCost> {
    match c.0 {
        324 => None,
        325 => None,
        326 => None,
        327 => None,
        328 => None,
        329 => None,
        330 => None,
        331 => None,
        332 => None,
        333 => None,
        334 => None,
        335 => None,
        _ => None,
    }
}

/// The mana cost of a card that can be cast, if this engine casts it. (cards 324 to 335).
fn spell_cost_27(c: CardIndex) -> (r: Option<ManaCost>)
    ensures
        r == spec_spell_cost_27(c),
{
    match c.0 {
        324 => None,
        325 => None,
        326 => None,
        327 => None,
        328 => None,
        329 => None,
        330 => None,
        331 => None,
        332 => None,
        333 => None,
        334 => None,
        335 => None,
        _ => None,
    }
}

/// The mana cost of a card that can be cast, if this engine casts it. (cards 336 to 347).
pub open spec fn spec_spell_cost_28(c: CardIndex) -> Option<ManaCost> {
    match c.0 {
        336 => None,
        337 => None,
        338 => None,
        339 => None,
        340 => None,
        341 => None,
        342 => None,
        343 => None,
        344 => None,
        345 => None,
        346 => None,
        347 => None,
        _ => None,
    }
}

/// The mana cost of a card that can be cast, if this engine casts it. (cards 336 to 347).
fn spell_cost_28(c: CardIndex) -> (r: Option<ManaCost>)
    ensures
        r == spec_spell_cost_28(c),
{
    match c.0 {
        336 => None,
        337 => None,
        338 => None,
        339 => None,
        340 => None,
        341 => None,
        342 => None,
        343 => None,
        344 => None,
        345 => None,
        346 => None,
        347 => None,
        _ => None,
    }
}

/// The mana cost of a card that can be cast, if this engine casts it. (cards 348 to 359).
pub open spec fn spec_spell_cost_29(c: CardIndex) -> Option<ManaCost> {
    match c.0 {
        348 => None,
        349 => None,
        350 => None,
        351 => None,
        352 => None,
        353 => None,
        354 => None,
        355 => None,
        356 => None,
        357 => None,
        358 => None,
        359 => None,
        _ => None,
    }
}

/// The mana cost of a card that can be cast, if this engine casts it. (cards 348 to 359).
fn spell_cost_29(c: CardIndex) -> (r: Option<ManaCost>)
    ensures
        r == spec_spell_cost_29(c),
{
    match c.0 {
        348 => None,
        349 => None,
        350 => None,
        351 => None,
        352 => None,
        353 => None,
        354 => None,
        355 => None,
        356 => None,
        357 => None,
        358 => None,
        359 => None,
        _ => None,
    }
}

/// The mana cost of a card that can be cast, if this engine casts it. (cards 360 to 371).
pub open spec fn spec_spell_cost_30(c: CardIndex) -> Option<ManaCost> {
    match c.0 {
        360 => None,
        361 => None,
        362 => None,
        363 => None,
        364 => None,
        365 => None,
        366 => None,
        367 => None,
        368 => None,
        369 => None,
        370 => None,
        371 => None,
        _ => None,
    }
}

/// The mana cost of a card that can be cast, if this engine casts it. (cards 360 to 371).
fn spell_cost_30(c: CardIndex) -> (r: Option<ManaCost>)
    ensures
        r == spec_spell_cost_30(c),
{
    match c.0 {
        360 => None,
        361 => None,
        362 => None,
        363 => None,
        364 => None,
        365 => None,
        366 => None,
        367 => None,
        368 => None,
        369 => None,
        370 => None,
        371 => None,
        _ => None,
    }
}

/// The mana cost of a card that can be cast, if this engine casts it. (cards 372 to 383).
pub open spec fn spec_spell_cost_31(c: CardIndex) -> Option<ManaCost> {
    match c.0 {
        372 => None,
        373 => None,
        374 => None,
        375 => None,
        376 => None,
        377 => None,
        378 => None,
        379 => None,
        380 => None,
        381 => None,
        382 => None,
        383 => None,
        _ => None,
    }
}

/// The mana cost of a card that can be cast, if this engine casts it. (cards 372 to 383).
fn spell_cost_31(c: CardIndex) -> (r: Option<ManaCost>)
    ensures
        r == spec_spell_cost_31(c),
{
    match c.0 {
        372 => None,
        373 => None,
        374 => None,
        375 => None,
        376 => None,
        377 => None,
        378 => None,
        379 => None,
        380 => None,
        381 => None,
        382 => None,
        383 => None,
        _ => None,
    }
}

/// The mana cost of a card that can be cast, if this engine casts it. (cards 384 to 395).
pub open spec fn spec_spell_cost_32(c: CardIndex) -> Option<ManaCost> {
    match c.0 {
        384 => None,
        385 => None,
        386 => None,
        387 => None,
        388 => None,
        389 => None,
        390 => None,
        391 => None,
        392 => None,
        393 => None,
        394 => None,
        395 => None,
        _ => None,
    }
}

/// The mana cost of a card that can be cast, if this engine casts it. (cards 384 to 395).
fn spell_cost_32(c: CardIndex) -> (r: Option<ManaCost>)
    ensures
        r == spec_spell_cost_32(c),
{
    match c.0 {
        384 => None,
        385 => None,
        386 => None,
        387 => None,
        388 => None,
        389 => None,
        390 => None,
        391 => None,
        392 => None,
        393 => None,
        394 => None,
        395 => None,
        _ => None,
    }
}

/// The mana cost of a card that can be cast, if this engine casts it. (cards 396 to 407).
pub open spec fn spec_spell_cost_33(c: CardIndex) -> Option<ManaCost> {
    match c.0 {
        396 => None,
        397 => None,
        398 => None,
        399 => None,
        400 => None,
        401 => None,
        402 => None,
        403 => None,
        404 => None,
        405 => None,
        406 => None,
        407 => None,
        _ => None,
    }
}

/// The mana cost of a card that can be cast, if this engine casts it. (cards 396 to 407).
fn spell_cost_33(c: CardIndex) -> (r: Option<ManaCost>)
    ensures
        r == spec_spell_cost_33(c),
{
    match c.0 {
        396 => None,
        397 => None,
        398 => None,
        399 => None,
        400 => None,
        401 => None,
        402 => None,
        403 => None,
        404 => None,
        405 => None,
        406 => None,
        407 => None,
        _ => None,
    }
}

/// The mana cost of a card that can be cast, if this engine casts it. (cards 408 to 419).
pub open spec fn spec_spell_cost_34(c: CardIndex) -> Option<ManaCost> {
    match c.0 {
        408 => None,
        409 => None,
        410 => None,
        411 => None,
        412 => None,
        413 => None,
        414 => None,
        415 => None,
        416 => None,
        417 => None,
        418 => None,
        419 => None,
        _ => None,
    }
}

/// The mana cost of a card that can be cast, if this engine casts it. (cards 408 to 419).
fn spell_cost_34(c: CardIndex) -> (r: Option<ManaCost>)
    ensures
        r == spec_spell_cost_34(c),
{
    match c.0 {
        408 => None,
        409 => None,
        410 => None,
        411 => None,
        412 => None,
        413 => None,
        414 => None,
        415 => None,
        416 => None,
        417 => None,
        418 => None,
        419 => None,
        _ => None,
    }
}

/// The mana cost of a card that can be cast, if this engine casts it. (cards 420 to 431).
pub open spec fn spec_spell_cost_35(c: CardIndex) -> Option<ManaCost> {
    match c.0 {
        420 => None,
        421 => None,
        422 => None,
        423 => None,
        424 => None,
        425 => None,
        426 => None,
        427 => None,
        428 => None,
        429 => None,
        430 => None,
        431 => None,
        _ => None,
    }
}

/// The mana cost of a card that can be cast, if this engine casts it. (cards 420 to 431).
fn spell_cost_35(c: CardIndex) -> (r: Option<ManaCost>)
    ensures
        r == spec_spell_cost_35(c),
{
    match c.0 {
        420 => None,
        421 => None,
        422 => None,
        423 => None,
        424 => None,
        425 => None,
        426 => None,
        427 => None,
        428 => None,
        429 => None,
        430 => None,
        431 => None,
        _ => None,
    }
}

/// The mana cost of a card that can be cast, if this engine casts it. (cards 432 to 443).
pub open spec fn spec_spell_cost_36(c: CardIndex) -> Option<ManaCost> {
    match c.0 {
        432 => None,
        433 => None,
        434 => None,
        435 => None,
        436 => None,
        437 => None,
        438 => None,
        439 => None,
        440 => None,
        441 => None,
        442 => None,
        443 => None,
        _ => None,
    }
}

/// The mana cost of a card that can be cast, if this engine casts it. (cards 432 to 443).
fn spell_cost_36(c: CardIndex) -> (r: Option<ManaCost>)
    ensures
        r == spec_spell_cost_36(c),
{
    match c.0 {
        432 => None,
        433 => None,
        434 => None,
        435 => None,
        436 => None,
        437 => None,
        438 => None,
        439 => None,
        440 => None,
        441 => None,
        442 => None,
        443 => None,
        _ => None,
    }
}

/// The mana cost of a card that can be cast, if this engine casts it. (cards 444 to 455).
pub open spec fn spec_spell_cost_37(c: CardIndex) -> Option<ManaCost> {
    match c.0 {
        444 => None,
        445 => None,
        446 => None,
        447 => None,
        448 => None,
        449 => None,
        450 => None,
        451 => None,
        452 => None,
        453 => None,
        454 => Some(mana(1, 1, 0, 1, 0, 0, 0)),
        455 => None,
        _ => None,
    }
}

/// The mana cost of a card that can be cast, if this engine casts it. (cards 444 to 455).
fn spell_cost_37(c: CardIndex) -> (r: Option<ManaCost>)
    ensures
        r == spec_spell_cost_37(c),
{
    match c.0 {
        444 => None,
        445 => None,
        446 => None,
        447 => None,
        448 => None,
        449 => None,
        450 => None,
        451 => None,
        452 => None,
        453 => None,
        454 => Some(mana(1, 1, 0, 1, 0, 0, 0)),
        455 => None,
        _ => None,
    }
}

/// The mana cost of a card that can be cast, if this engine casts it. (cards 456 to 467).
pub open spec fn spec_spell_cost_38(c: CardIndex) -> Option<ManaCost> {
    match c.0 {
        456 => None,
        457 => None,
        458 => None,
        459 => None,
        460 => None,
        461 => None,
        462 => None,
        463 => None,
        464 => None,
        465 => None,
        466 => None,
        467 => None,
        _ => None,
    }
}

/// The mana cost of a card that can be cast, if this engine casts it. (cards 456 to 467).
fn spell_cost_38(c: CardIndex) -> (r: Option<ManaCost>)
    ensures
        r == spec_spell_cost_38(c),
{
    match c.0 {
        456 => None,
        457 => None,
        458 => None,
        459 => None,
        460 => None,
        461 => None,
        462 => None,
        463 => None,
        464 => None,
        465 => None,
        466 => None,
        467 => None,
        _ => None,
    }
}

/// The mana cost of a card that can be cast, if this engine casts it. (cards 468 to 471).
pub open spec fn spec_spell_cost_39(c: CardIndex) -> Option<ManaCost> {
    match c.0 {
        468 => None,
        469 => None,
        470 => None,
        471 => None,
        _ => None,
    }
}

/// The mana cost of a card that can be cast, if this engine casts it. (cards 468 to 471).
fn spell_cost_39(c: CardIndex) -> (r: Option<ManaCost>)
    ensures
        r == spec_spell_cost_39(c),
{
    match c.0 {
        468 => None,
        469 => None,
        470 => None,
        471 => None,
        _ => None,
    }
}

/// The mana cost of a card that can be cast, if this engine casts it.
pub open spec fn spec_spell_cost(c: CardIndex) -> Option<ManaCost> {
    if c.0 < 12 {
        spec_spell_cost_0(c)
    } else if c.0 < 24 {
        spec_spell_cost_1(c)
    } else if c.0 < 36 {
        spec_spell_cost_2(c)
    } else if c.0 < 48 {
        spec_spell_cost_3(c)
    } else if c.0 < 60 {
        spec_spell_cost_4(c)
    } else if c.0 < 72 {
        spec_spell_cost_5(c)
    } else if c.0 < 84 {
        spec_spell_cost_6(c)
    } else if c.0 < 96 {
        spec_spell_cost_7(c)
    } else if c.0 < 108 {
        spec_spell_cost_8(c)
    } else if c.0 < 120 {
        spec_spell_cost_9(c)
    } else if c.0 < 132 {
        spec_spell_cost_10(c)
    } else if c.0 < 144 {
        spec_spell_cost_11(c)
    } else if c.0 < 156 {
        spec_spell_cost_12(c)
    } else if c.0 < 168 {
        spec_spell_cost_13(c)
    } else if c.0 < 180 {
        spec_spell_cost_14(c)
    } else if c.0 < 192 {
        spec_spell_cost_15(c)
    } else if c.0 < 204 {
        spec_spell_cost_16(c)
    } else if c.0 < 216 {
        spec_spell_cost_17(c)
    } else if c.0 < 228 {
        spec_spell_cost_18(c)
    } else if c.0 < 240 {
        spec_spell_cost_19(c)
    } else if c.0 < 252 {
        spec_spell_cost_20(c)
    } else if c.0 < 264 {
        spec_spell_cost_21(c)
    } else if c.0 < 276 {
        spec_spell_cost_22(c)
    } else if c.0 < 288 {
        spec_spell_cost_23(c)
    } else if c.0 < 300 {
        spec_spell_cost_24(c)
    } else if c.0 < 312 {
        spec_spell_cost_25(c)
    } else if c.0 < 324 {
        spec_spell_cost_26(c)
    } else if c.0 < 336 {
        spec_spell_cost_27(c)
    } else if c.0 < 348 {
        spec_spell_cost_28(c)
    } else if c.0 < 360 {
        spec_spell_cost_29(c)
    } else if c.0 < 372 {
        spec_spell_cost_30(c)
    } else if c.0 < 384 {
        spec_spell_cost_31(c)
    } else if c.0 < 396 {
        spec_spell_cost_32(c)
    } else if c.0 < 408 {
        spec_spell_cost_33(c)
    } else if c.0 < 420 {
        spec_spell_cost_34(c)
    } else if c.0 < 432 {
        spec_spell_cost_35(c)
    } else if c.0 < 444 {
        spec_spell_cost_36(c)
    } else if c.0 < 456 {
        spec_spell_cost_37(c)
    } else if c.0 < 468 {
        spec_spell_cost_38(c)
    } else if c.0 < 472 {
        spec_spell_cost_39(c)
    } else {
        None
    }
}

/// The mana cost of a card that can be cast, if this engine casts it.
pub fn spell_cost(c: CardIndex) -> (r: Option<ManaCost>)
    ensures
        r == spec_spell_cost(c),
{
    if c.0 < 12 {
        spell_cost_0(c)
    } else if c.0 < 24 {
        spell_cost_1(c)
    } else if c.0 < 36 {
        spell_cost_2(c)
    } else if c.0 < 48 {
        spell_cost_3(c)
    } else if c.0 < 60 {
        spell_cost_4(c)
    } else if c.0 < 72 {
        spell_cost_5(c)
    } else if c.0 < 84 {
        spell_cost_6(c)
    } else if c.0 < 96 {
        spell_cost_7(c)
    } else if c.0 < 108 {
        spell_cost_8(c)
    } else if c.0 < 120 {
        spell_cost_9(c)
    } else if c.0 < 132 {
        spell_cost_10(c)
    } else if c.0 < 144 {
        spell_cost_11(c)
    } else if c.0 < 156 {
        spell_cost_12(c)
    } else if c.0 < 168 {
        spell_cost_13(c)
    } else if c.0 < 180 {
        spell_cost_14(c)
    } else if c.0 < 192 {
        spell_cost_15(c)
    } else if c.0 < 204 {
        spell_cost_16(c)
    } else if c.0 < 216 {
        spell_cost_17(c)
    } else if c.0 < 228 {
        spell_cost_18(c)
    } else if c.0 < 240 {
        spell_cost_19(c)
    } else if c.0 < 252 {
        spell_cost_20(c)
    } else if c.0 < 264 {
        spell_cost_21(c)
    } else if c.0 < 276 {
        spell_cost_22(c)
    } else if c.0 < 288 {
        spell_cost_23(c)
    } else if c.0 < 300 {
        spell_cost_24(c)
    } else if c.0 < 312 {
        spell_cost_25(c)
    } else if c.0 < 324 {
        spell_cost_26(c)
    } else if c.0 < 336 {
        spell_cost_27(c)
    } else if c.0 < 348 {
        spell_cost_28(c)
    } else if c.0 < 360 {
        spell_cost_29(c)
    } else if c.0 < 372 {
        spell_cost_30(c)
    } else if c.0 < 384 {
        spell_cost_31(c)
    } else if c.0 < 396 {
        spell_cost_32(c)
    } else if c.0 < 408 {
        spell_cost_33(c)
    } else if c.0 < 420 {
        spell_cost_34(c)
    } else if c.0 < 432 {
        spell_cost_35(c)
    } else if c.0 < 444 {
        spell_cost_36(c)
    } else if c.0 < 456 {
        spell_cost_37(c)
    } else if c.0 < 468 {
        spell_cost_38(c)
    } else if c.0 < 472 {
        spell_cost_39(c)
    } else {
        None
    }
}

/// The ability a card (or face) prints at index `i`, if it has one. (cards 0 to 11).
pub open spec fn spec_ability_0(c: CardIndex, i: u32) -> Option<Ability> {
    match c.0 {
        0 => match i {
            0 => Some(tap_for(ManaColor::White, 1)),
            _ => None,
        },
        1 => match i {
            0 => Some(tap_for(ManaColor::Blue, 1)),
            _ => None,
        },
        2 => match i {
            0 => Some(tap_for(ManaColor::Black, 1)),
            _ => None,
        },
        3 => match i {
            0 => Some(tap_for(ManaColor::Red, 1)),
            _ => None,
        },
        4 => match i {
            0 => Some(tap_for(ManaColor::Green, 1)),
            _ => None,
        },
        5 => match i {
            0 => Some(activated(cost(false, mana(2, 0, 0, 0, 0, 0, 0), 0, true), Effect::Draw(1), TargetSpec::NoTarget)),
            _ => None,
        },
        6 => None,
        7 => match i {
            0 => Some(tap_for(ManaColor::Green, 1)),
            _ => None,
        },
        8 => match i {
            0 => Some(triggered(Trigger::EntersBattlefield, Effect::Draw(1), TargetSpec::NoTarget)),
            _ => None,
        },
        9 => None,
        10 => None,
        11 => None,
        _ => None,
    }
}

/// The ability a card (or face) prints at index `i`, if it has one. (cards 0 to 11).
fn ability_at_0(c: CardIndex, i: u32) -> (r: Option<Ability>)
    ensures
        r == spec_ability_0(c, i),
{
    match c.0 {
        0 => match i {
            0 => Some(tap_for(ManaColor::White, 1)),
            _ => None,
        },
        1 => match i {
            0 => Some(tap_for(ManaColor::Blue, 1)),
            _ => None,
        },
        2 => match i {
            0 => Some(tap_for(ManaColor::Black, 1)),
            _ => None,
        },
        3 => match i {
            0 => Some(tap_for(ManaColor::Red, 1)),
            _ => None,
        },
        4 => match i {
            0 => Some(tap_for(ManaColor::Green, 1)),
            _ => None,
        },
        5 => match i {
            0 => Some(activated(cost(false, mana(2, 0, 0, 0, 0, 0, 0), 0, true), Effect::Draw(1), TargetSpec::NoTarget)),
            _ => None,
        },
        6 => None,
        7 => match i {
            0 => Some(tap_for(ManaColor::Green, 1)),
            _ => None,
        },
        8 => match i {
            0 => Some(triggered(Trigger::EntersBattlefield, Effect::Draw(1), TargetSpec::NoTarget)),
            _ => None,
        },
        9 => None,
        10 => None,
        11 => None,
        _ => None,
    }
}

/// The ability a card (or face) prints at index `i`, if it has one. (cards 12 to 23).
pub open spec fn spec_ability_1(c: CardIndex, i: u32) -> Option<Ability> {
    match c.0 {
        12 => None,
        13 => None,
        14 => match i {
            0 => Some(tap_for(ManaColor::Colorless, 2)),
            _ => None,
        },
        15 => None,
        16 => None,
        17 => None,
        18 => None,
        19 => match i {
            0 => Some(activated(tap(), Effect::DrawThenDiscard(2, 3), TargetSpec::NoTarget)),
            _ => None,
        },
        20 => None,
        21 => match i {
            0 => Some(triggered(Trigger::YouPlayAnotherLand, Effect::SacrificeSource, TargetSpec::NoTarget)),
            1 => Some(tap_for(ManaColor::Colorless, 2)),
            _ => None,
        },
        22 => match i {
            0 => Some(tap_for(ManaColor::Colorless, 1)),
            1 => Some(activated(cost(true, mana(1, 0, 1, 0, 1, 0, 0), 0, false), Effect::DrawThenDiscard(1, 1), TargetSpec::NoTarget)),
            _ => None,
        },
        23 => match i {
            0 => Some(tap_for(ManaColor::Colorless, 1)),
            _ => None,
        },
        _ => None,
    }
}

/// The ability a card (or face) prints at index `i`, if it has one. (cards 12 to 23).
fn ability_at_1(c: CardIndex, i: u32) -> (r: Option<Ability>)
    ensures
        r == spec_ability_1(c, i),
{
    match c.0 {
        12 => None,
        13 => None,
        14 => match i {
            0 => Some(tap_for(ManaColor::Colorless, 2)),
            _ => None,
        },
        15 => None,
        16 => None,
        17 => None,
        18 => None,
        19 => match i {
            0 => Some(activated(tap(), Effect::DrawThenDiscard(2, 3), TargetSpec::NoTarget)),
            _ => None,
        },
        20 => None,
        21 => match i {
            0 => Some(triggered(Trigger::YouPlayAnotherLand, Effect::SacrificeSource, TargetSpec::NoTarget)),
            1 => Some(tap_for(ManaColor::Colorless, 2)),
            _ => None,
        },
        22 => match i {
            0 => Some(tap_for(ManaColor::Colorless, 1)),
            1 => Some(activated(cost(true, mana(1, 0, 1, 0, 1, 0, 0), 0, false), Effect::DrawThenDiscard(1, 1), TargetSpec::NoTarget)),
            _ => None,
        },
        23 => match i {
            0 => Some(tap_for(ManaColor::Colorless, 1)),
            _ => None,
        },
        _ => None,
    }
}

/// The ability a card (or face) prints at index `i`, if it has one. (cards 24 to 35).
pub open spec fn spec_ability_2(c: CardIndex, i: u32) -> Option<Ability> {
    match c.0 {
        24 => match i {
            0 => Some(tap_for(ManaColor::Colorless, 1)),
            1 => Some(activated(cost(true, mana(2, 0, 0, 0, 0, 0, 0), 0, false), Effect::EachPlayerDrawsThenDiscards, TargetSpec::NoTarget)),
            _ => None,
        },
        25 => match i {
            0 => Some(tap_for(ManaColor::Blue, 1)),
            1 => Some(activated(cost(false, mana(1, 0, 0, 0, 0, 0, 0), 0, false), Effect::ReturnSourceToHand, TargetSpec::NoTarget)),
            _ => None,
        },
        26 => match i {
            0 => Some(tap_for(ManaColor::Colorless, 1)),
            1 => Some(activated(sacrificing(cost(true, mana(2, 0, 0, 0, 0, 0, 0), 0, false), of_subtypes(0x20)), Effect::ExileAllGraveyards, TargetSpec::NoTarget)),
            _ => None,
        },
        27 => match i {
            0 => Some(tap_for(ManaColor::Colorless, 1)),
            _ => None,
        },
        28 => match i {
            0 => Some(tap_for(ManaColor::Colorless, 1)),
            1 => Some(activated(cost(true, mana(4, 0, 0, 0, 0, 0, 0), 0, true), Effect::BecomeMonarch, TargetSpec::NoTarget)),
            _ => None,
        },
        29 => match i {
            0 => Some(tap_for(ManaColor::Colorless, 1)),
            1 => Some(activated(cost(true, mana(0, 0, 0, 0, 0, 0, 0), 0, true), Effect::Nothing, TargetSpec::NoTarget)),
            _ => None,
        },
        30 => match i {
            0 => Some(tap_for(ManaColor::Colorless, 2)),
            _ => None,
        },
        31 => match i {
            0 => Some(tap_for(ManaColor::Colorless, 1)),
            _ => None,
        },
        32 => match i {
            0 => Some(tap_for(ManaColor::Colorless, 1)),
            _ => None,
        },
        33 => match i {
            0 => Some(tap_for(ManaColor::Colorless, 1)),
            _ => None,
        },
        34 => match i {
            0 => Some(tap_for(ManaColor::Colorless, 1)),
            _ => None,
        },
        35 => match i {
            0 => Some(tap_for(ManaColor::Colorless, 1)),
            1 => Some(with_rider(tap_for_one_of(0xc), ManaRider::SkipNextUntap)),
            _ => None,
        },
        _ => None,
    }
}

/// The ability a card (or face) prints at index `i`, if it has one. (cards 24 to 35).
fn ability_at_2(c: CardIndex, i: u32) -> (r: Option<Ability>)
    ensures
        r == spec_ability_2(c, i),
{
    match c.0 {
        24 => match i {
            0 => Some(tap_for(ManaColor::Colorless, 1)),
            1 => Some(activated(cost(true, mana(2, 0, 0, 0, 0, 0, 0), 0, false), Effect::EachPlayerDrawsThenDiscards, TargetSpec::NoTarget)),
            _ => None,
        },
        25 => match i {
            0 => Some(tap_for(ManaColor::Blue, 1)),
            1 => Some(activated(cost(false, mana(1, 0, 0, 0, 0, 0, 0), 0, false), Effect::ReturnSourceToHand, TargetSpec::NoTarget)),
            _ => None,
        },
        26 => match i {
            0 => Some(tap_for(ManaColor::Colorless, 1)),
            1 => Some(activated(sacrificing(cost(true, mana(2, 0, 0, 0, 0, 0, 0), 0, false), of_subtypes(0x20)), Effect::ExileAllGraveyards, TargetSpec::NoTarget)),
            _ => None,
        },
        27 => match i {
            0 => Some(tap_for(ManaColor::Colorless, 1)),
            _ => None,
        },
        28 => match i {
            0 => Some(tap_for(ManaColor::Colorless, 1)),
            1 => Some(activated(cost(true, mana(4, 0, 0, 0, 0, 0, 0), 0, true), Effect::BecomeMonarch, TargetSpec::NoTarget)),
            _ => None,
        },
        29 => match i {
            0 => Some(tap_for(ManaColor::Colorless, 1)),
            1 => Some(activated(cost(true, mana(0, 0, 0, 0, 0, 0, 0), 0, true), Effect::Nothing, TargetSpec::NoTarget)),
            _ => None,
        },
        30 => match i {
            0 => Some(tap_for(ManaColor::Colorless, 2)),
            _ => None,
        },
        31 => match i {
            0 => Some(tap_for(ManaColor::Colorless, 1)),
            _ => None,
        },
        32 => match i {
            0 => Some(tap_for(ManaColor::Colorless, 1)),
            _ => None,
        },
        33 => match i {
            0 => Some(tap_for(ManaColor::Colorless, 1)),
            _ => None,
        },
        34 => match i {
            0 => Some(tap_for(ManaColor::Colorless, 1)),
            _ => None,
        },
        35 => match i {
            0 => Some(tap_for(ManaColor::Colorless, 1)),
            1 => Some(with_rider(tap_for_one_of(0xc), ManaRider::SkipNextUntap)),
            _ => None,
        },
        _ => None,
    }
}

/// The ability a card (or face) prints at index `i`, if it has one. (cards 36 to 47).
pub open spec fn spec_ability_3(c: CardIndex, i: u32) -> Option<Ability> {
    match c.0 {
        36 => match i {
            0 => Some(tap_for(ManaColor::Colorless, 1)),
            1 => Some(with_rider(tap_for_one_of(0x3), ManaRider::SkipNextUntap)),
            _ => None,
        },
        37 => match i {
            0 => Some(tap_for(ManaColor::Colorless, 1)),
            1 => Some(with_rider(tap_for_one_of(0xc), ManaRider::SkipNextUntap)),
            _ => None,
        },
        38 => match i {
            0 => Some(tap_for(ManaColor::Colorless, 1)),
            1 => Some(with_rider(tap_for_one_of(0x18), ManaRider::SkipNextUntap)),
            _ => None,
        },
        39 => match i {
            0 => Some(tap_for(ManaColor::Colorless, 1)),
            1 => Some(with_rider(tap_for_one_of(0x18), ManaRider::SkipNextUntap)),
            _ => None,
        },
        40 => match i {
            0 => Some(tap_for(ManaColor::Colorless, 1)),
            1 => Some(with_rider(tap_for_one_of(0x6), ManaRider::SkipNextUntap)),
            _ => None,
        },
        41 => match i {
            0 => Some(tap_for(ManaColor::Colorless, 1)),
            1 => Some(with_rider(tap_for_one_of(0x3), ManaRider::SkipNextUntap)),
            _ => None,
        },
        42 => match i {
            0 => Some(tap_for(ManaColor::Colorless, 1)),
            1 => Some(with_rider(tap_for_one_of(0x11), ManaRider::SkipNextUntap)),
            _ => None,
        },
        43 => match i {
            0 => Some(tap_for(ManaColor::Colorless, 1)),
            1 => Some(with_rider(tap_for_one_of(0x11), ManaRider::SkipNextUntap)),
            _ => None,
        },
        44 => match i {
            0 => Some(tap_for(ManaColor::Colorless, 1)),
            1 => Some(with_rider(tap_for_one_of(0x6), ManaRider::SkipNextUntap)),
            _ => None,
        },
        45 => match i {
            0 => Some(tap_for(ManaColor::Colorless, 1)),
            _ => None,
        },
        46 => match i {
            0 => Some(tap_for(ManaColor::Colorless, 1)),
            _ => None,
        },
        47 => match i {
            0 => Some(tap_for(ManaColor::Colorless, 1)),
            1 => Some(activated(cost(true, mana(2, 1, 0, 0, 0, 1, 0), 0, false), Effect::CountersOnYourCreatures(CounterKind::P1P1, 1), TargetSpec::NoTarget)),
            _ => None,
        },
        _ => None,
    }
}

/// The ability a card (or face) prints at index `i`, if it has one. (cards 36 to 47).
fn ability_at_3(c: CardIndex, i: u32) -> (r: Option<Ability>)
    ensures
        r == spec_ability_3(c, i),
{
    match c.0 {
        36 => match i {
            0 => Some(tap_for(ManaColor::Colorless, 1)),
            1 => Some(with_rider(tap_for_one_of(0x3), ManaRider::SkipNextUntap)),
            _ => None,
        },
        37 => match i {
            0 => Some(tap_for(ManaColor::Colorless, 1)),
            1 => Some(with_rider(tap_for_one_of(0xc), ManaRider::SkipNextUntap)),
            _ => None,
        },
        38 => match i {
            0 => Some(tap_for(ManaColor::Colorless, 1)),
            1 => Some(with_rider(tap_for_one_of(0x18), ManaRider::SkipNextUntap)),
            _ => None,
        },
        39 => match i {
            0 => Some(tap_for(ManaColor::Colorless, 1)),
            1 => Some(with_rider(tap_for_one_of(0x18), ManaRider::SkipNextUntap)),
            _ => None,
        },
        40 => match i {
            0 => Some(tap_for(ManaColor::Colorless, 1)),
            1 => Some(with_rider(tap_for_one_of(0x6), ManaRider::SkipNextUntap)),
            _ => None,
        },
        41 => match i {
            0 => Some(tap_for(ManaColor::Colorless, 1)),
            1 => Some(with_rider(tap_for_one_of(0x3), ManaRider::SkipNextUntap)),
            _ => None,
        },
        42 => match i {
            0 => Some(tap_for(ManaColor::Colorless, 1)),
            1 => Some(with_rider(tap_for_one_of(0x11), ManaRider::SkipNextUntap)),
            _ => None,
        },
        43 => match i {
            0 => Some(tap_for(ManaColor::Colorless, 1)),
            1 => Some(with_rider(tap_for_one_of(0x11), ManaRider::SkipNextUntap)),
            _ => None,
        },
        44 => match i {
            0 => Some(tap_for(ManaColor::Colorless, 1)),
            1 => Some(with_rider(tap_for_one_of(0x6), ManaRider::SkipNextUntap)),
            _ => None,
        },
        45 => match i {
            0 => Some(tap_for(ManaColor::Colorless, 1)),
            _ => None,
        },
        46 => match i {
            0 => Some(tap_for(ManaColor::Colorless, 1)),
            _ => None,
        },
        47 => match i {
            0 => Some(tap_for(ManaColor::Colorless, 1)),
            1 => Some(activated(cost(true, mana(2, 1, 0, 0, 0, 1, 0), 0, false), Effect::CountersOnYourCreatures(CounterKind::P1P1, 1), TargetSpec::NoTarget)),
            _ => None,
        },
        _ => None,
    }
}

/// The ability a card (or face) prints at index `i`, if it has one. (cards 48 to 59).
pub open spec fn spec_ability_4(c: CardIndex, i: u32) -> Option<Ability> {
    match c.0 {
        48 => match i {
            0 => Some(tap_for(ManaColor::Colorless, 1)),
            1 => Some(triggered(Trigger::EntersBattlefield, Effect::GainLifePerPermanent(of_subtypes(0x40)), TargetSpec::NoTarget)),
            _ => None,
        },
        49 => match i {
            0 => Some(mana_ability(tap(), Effect::AddPerPermanentOnBattlefield(ManaColor::Colorless, of_subtypes(0x40)))),
            _ => None,
        },
        50 => match i {
            0 => Some(tap_for(ManaColor::Red, 1)),
            _ => None,
        },
        51 => match i {
            0 => Some(tap_for(ManaColor::Colorless, 1)),
            _ => None,
        },
        52 => match i {
            0 => Some(tap_for(ManaColor::Colorless, 1)),
            _ => None,
        },
        53 => match i {
            0 => Some(tap_for(ManaColor::Colorless, 1)),
            _ => None,
        },
        54 => match i {
            0 => Some(tap_for(ManaColor::Colorless, 1)),
            1 => Some(sorcery(activated(cost(true, mana(1, 0, 0, 1, 1, 0, 0), 0, false), Effect::EachPlayerDiscards, TargetSpec::NoTarget))),
            _ => None,
        },
        55 => match i {
            0 => Some(tap_for(ManaColor::Colorless, 1)),
            _ => None,
        },
        56 => match i {
            0 => Some(tap_for(ManaColor::Colorless, 1)),
            _ => None,
        },
        57 => match i {
            0 => Some(tap_for(ManaColor::Colorless, 1)),
            1 => Some(activated(cost(true, mana(2, 0, 0, 0, 0, 0, 0), 0, false), Effect::GainLifePerYours(flagged(0x2, false, false, false, true, false)), TargetSpec::NoTarget)),
            _ => None,
        },
        58 => match i {
            0 => Some(tap_for(ManaColor::Colorless, 1)),
            1 => Some(activated(cost(true, mana(3, 0, 0, 0, 0, 0, 0), 0, false), Effect::MillTargetPerYours(of_subtypes(0x40)), TargetSpec::AnyPlayer)),
            _ => None,
        },
        59 => match i {
            0 => Some(tap_for(ManaColor::Colorless, 1)),
            _ => None,
        },
        _ => None,
    }
}

/// The ability a card (or face) prints at index `i`, if it has one. (cards 48 to 59).
fn ability_at_4(c: CardIndex, i: u32) -> (r: Option<Ability>)
    ensures
        r == spec_ability_4(c, i),
{
    match c.0 {
        48 => match i {
            0 => Some(tap_for(ManaColor::Colorless, 1)),
            1 => Some(triggered(Trigger::EntersBattlefield, Effect::GainLifePerPermanent(of_subtypes(0x40)), TargetSpec::NoTarget)),
            _ => None,
        },
        49 => match i {
            0 => Some(mana_ability(tap(), Effect::AddPerPermanentOnBattlefield(ManaColor::Colorless, of_subtypes(0x40)))),
            _ => None,
        },
        50 => match i {
            0 => Some(tap_for(ManaColor::Red, 1)),
            _ => None,
        },
        51 => match i {
            0 => Some(tap_for(ManaColor::Colorless, 1)),
            _ => None,
        },
        52 => match i {
            0 => Some(tap_for(ManaColor::Colorless, 1)),
            _ => None,
        },
        53 => match i {
            0 => Some(tap_for(ManaColor::Colorless, 1)),
            _ => None,
        },
        54 => match i {
            0 => Some(tap_for(ManaColor::Colorless, 1)),
            1 => Some(sorcery(activated(cost(true, mana(1, 0, 0, 1, 1, 0, 0), 0, false), Effect::EachPlayerDiscards, TargetSpec::NoTarget))),
            _ => None,
        },
        55 => match i {
            0 => Some(tap_for(ManaColor::Colorless, 1)),
            _ => None,
        },
        56 => match i {
            0 => Some(tap_for(ManaColor::Colorless, 1)),
            _ => None,
        },
        57 => match i {
            0 => Some(tap_for(ManaColor::Colorless, 1)),
            1 => Some(activated(cost(true, mana(2, 0, 0, 0, 0, 0, 0), 0, false), Effect::GainLifePerYours(flagged(0x2, false, false, false, true, false)), TargetSpec::NoTarget)),
            _ => None,
        },
        58 => match i {
            0 => Some(tap_for(ManaColor::Colorless, 1)),
            1 => Some(activated(cost(true, mana(3, 0, 0, 0, 0, 0, 0), 0, false), Effect::MillTargetPerYours(of_subtypes(0x40)), TargetSpec::AnyPlayer)),
            _ => None,
        },
        59 => match i {
            0 => Some(tap_for(ManaColor::Colorless, 1)),
            _ => None,
        },
        _ => None,
    }
}

/// The ability a card (or face) prints at index `i`, if it has one. (cards 60 to 71).
pub open spec fn spec_ability_5(c: CardIndex, i: u32) -> Option<Ability> {
    match c.0 {
        60 => match i {
            0 => Some(tap_for(ManaColor::Black, 1)),
            _ => None,
        },
        61 => match i {
            0 => Some(tap_for(ManaColor::Colorless, 1)),
            _ => None,
        },
        62 => match i {
            0 => Some(tap_for(ManaColor::Colorless, 1)),
            _ => None,
        },
        63 => match i {
            0 => Some(tap_for(ManaColor::Colorless, 1)),
            _ => None,
        },
        64 => match i {
            0 => Some(tap_for(ManaColor::Colorless, 1)),
            _ => None,
        },
        65 => match i {
            0 => Some(tap_for(ManaColor::Blue, 1)),
            _ => None,
        },
        66 => match i {
            0 => Some(tap_for(ManaColor::Green, 1)),
            _ => None,
        },
        67 => match i {
            0 => Some(tap_for(ManaColor::Red, 1)),
            _ => None,
        },
        68 => match i {
            0 => Some(tap_for(ManaColor::Black, 1)),
            _ => None,
        },
        69 => match i {
            0 => Some(tap_for(ManaColor::White, 1)),
            _ => None,
        },
        70 => match i {
            0 => Some(tap_for(ManaColor::Green, 1)),
            _ => None,
        },
        71 => match i {
            0 => Some(tap_for(ManaColor::Green, 1)),
            _ => None,
        },
        _ => None,
    }
}

/// The ability a card (or face) prints at index `i`, if it has one. (cards 60 to 71).
fn ability_at_5(c: CardIndex, i: u32) -> (r: Option<Ability>)
    ensures
        r == spec_ability_5(c, i),
{
    match c.0 {
        60 => match i {
            0 => Some(tap_for(ManaColor::Black, 1)),
            _ => None,
        },
        61 => match i {
            0 => Some(tap_for(ManaColor::Colorless, 1)),
            _ => None,
        },
        62 => match i {
            0 => Some(tap_for(ManaColor::Colorless, 1)),
            _ => None,
        },
        63 => match i {
            0 => Some(tap_for(ManaColor::Colorless, 1)),
            _ => None,
        },
        64 => match i {
            0 => Some(tap_for(ManaColor::Colorless, 1)),
            _ => None,
        },
        65 => match i {
            0 => Some(tap_for(ManaColor::Blue, 1)),
            _ => None,
        },
        66 => match i {
            0 => Some(tap_for(ManaColor::Green, 1)),
            _ => None,
        },
        67 => match i {
            0 => Some(tap_for(ManaColor::Red, 1)),
            _ => None,
        },
        68 => match i {
            0 => Some(tap_for(ManaColor::Black, 1)),
            _ => None,
        },
        69 => match i {
            0 => Some(tap_for(ManaColor::White, 1)),
            _ => None,
        },
        70 => match i {
            0 => Some(tap_for(ManaColor::Green, 1)),
            _ => None,
        },
        71 => match i {
            0 => Some(tap_for(ManaColor::Green, 1)),
            _ => None,
        },
        _ => None,
    }
}

/// The ability a card (or face) prints at index `i`, if it has one. (cards 72 to 83).
pub open spec fn spec_ability_6(c: CardIndex, i: u32) -> Option<Ability> {
    match c.0 {
        72 => match i {
            0 => Some(tap_for(ManaColor::Red, 1)),
            _ => None,
        },
        73 => match i {
            0 => Some(tap_for(ManaColor::Green, 1)),
            _ => None,
        },
        74 => match i {
            0 => Some(tap_for(ManaColor::Black, 1)),
            _ => None,
        },
        75 => match i {
            0 => Some(tap_for(ManaColor::White, 1)),
            _ => None,
        },
        76 => match i {
            0 => Some(tap_for(ManaColor::Red, 1)),
            _ => None,
        },
        77 => match i {
            0 => Some(tap_for(ManaColor::Red, 1)),
            _ => None,
        },
        78 => match i {
            0 => Some(tap_for(ManaColor::Blue, 1)),
            _ => None,
        },
        79 => match i {
            0 => Some(tap_for(ManaColor::Colorless, 1)),
            1 => Some(activated(cost(true, mana(4, 0, 0, 1, 0, 0, 0), 0, true), Effect::TargetPlayerSacrificesCreature, TargetSpec::Opponent)),
            _ => None,
        },
        80 => match i {
            0 => Some(tap_for(ManaColor::Colorless, 1)),
            _ => None,
        },
        81 => match i {
            0 => Some(tap_for(ManaColor::Colorless, 1)),
            _ => None,
        },
        82 => match i {
            0 => Some(tap_for(ManaColor::Colorless, 1)),
            _ => None,
        },
        83 => match i {
            0 => Some(tap_for(ManaColor::Black, 1)),
            1 => Some(mana_ability(cost(true, mana(2, 0, 0, 0, 0, 0, 0), 0, false), Effect::AddPerGraveyardCard(ManaColor::Black, of_types_colored(0x2, 0x4)))),
            _ => None,
        },
        _ => None,
    }
}

/// The ability a card (or face) prints at index `i`, if it has one. (cards 72 to 83).
fn ability_at_6(c: CardIndex, i: u32) -> (r: Option<Ability>)
    ensures
        r == spec_ability_6(c, i),
{
    match c.0 {
        72 => match i {
            0 => Some(tap_for(ManaColor::Red, 1)),
            _ => None,
        },
        73 => match i {
            0 => Some(tap_for(ManaColor::Green, 1)),
            _ => None,
        },
        74 => match i {
            0 => Some(tap_for(ManaColor::Black, 1)),
            _ => None,
        },
        75 => match i {
            0 => Some(tap_for(ManaColor::White, 1)),
            _ => None,
        },
        76 => match i {
            0 => Some(tap_for(ManaColor::Red, 1)),
            _ => None,
        },
        77 => match i {
            0 => Some(tap_for(ManaColor::Red, 1)),
            _ => None,
        },
        78 => match i {
            0 => Some(tap_for(ManaColor::Blue, 1)),
            _ => None,
        },
        79 => match i {
            0 => Some(tap_for(ManaColor::Colorless, 1)),
            1 => Some(activated(cost(true, mana(4, 0, 0, 1, 0, 0, 0), 0, true), Effect::TargetPlayerSacrificesCreature, TargetSpec::Opponent)),
            _ => None,
        },
        80 => match i {
            0 => Some(tap_for(ManaColor::Colorless, 1)),
            _ => None,
        },
        81 => match i {
            0 => Some(tap_for(ManaColor::Colorless, 1)),
            _ => None,
        },
        82 => match i {
            0 => Some(tap_for(ManaColor::Colorless, 1)),
            _ => None,
        },
        83 => match i {
            0 => Some(tap_for(ManaColor::Black, 1)),
            1 => Some(mana_ability(cost(true, mana(2, 0, 0, 0, 0, 0, 0), 0, false), Effect::AddPerGraveyardCard(ManaColor::Black, of_types_colored(0x2, 0x4)))),
            _ => None,
        },
        _ => None,
    }
}

/// The ability a card (or face) prints at index `i`, if it has one. (cards 84 to 95).
pub open spec fn spec_ability_7(c: CardIndex, i: u32) -> Option<Ability> {
    match c.0 {
        84 => match i {
            0 => Some(tap_for(ManaColor::Colorless, 1)),
            1 => Some(activated(cost(true, mana(2, 0, 0, 0, 0, 0, 0), 0, false), Effect::CountersOnTarget(CounterKind::P1P1, 2), TargetSpec::Permanent(flagged(0x2, false, false, false, false, true)))),
            _ => None,
        },
        85 => match i {
            0 => Some(tap_for(ManaColor::Colorless, 1)),
            1 => Some(activated(cost(false, mana(4, 0, 0, 0, 0, 0, 0), 0, false), Effect::AnimateSource(animation(4, 2, 0x6, 0x0, true)), TargetSpec::NoTarget)),
            _ => None,
        },
        86 => match i {
            0 => Some(tap_for(ManaColor::White, 1)),
            _ => None,
        },
        87 => match i {
            0 => Some(tap_for(ManaColor::Colorless, 1)),
            1 => Some(activated(cost(true, mana(1, 0, 0, 0, 0, 0, 0), 0, true), Effect::Nothing, TargetSpec::NoTarget)),
            _ => None,
        },
        88 => match i {
            0 => Some(tap_for(ManaColor::Colorless, 1)),
            1 => Some(activated(cost(false, mana(0, 0, 0, 0, 0, 0, 0), 0, false), Effect::ReturnSourceToHand, TargetSpec::NoTarget)),
            _ => None,
        },
        89 => match i {
            0 => Some(tap_for(ManaColor::Colorless, 1)),
            1 => Some(activated(cost(true, mana(1, 1, 0, 0, 0, 0, 0), 0, false), Effect::TargetCardToLibraryTop, TargetSpec::CardInYourGraveyard(of_types(0x8)))),
            _ => None,
        },
        90 => match i {
            0 => Some(tap_for(ManaColor::Colorless, 1)),
            1 => Some(activated(cost(true, mana(0, 0, 0, 0, 1, 1, 0), 0, false), Effect::KeywordsToTarget(0x2), TargetSpec::Permanent(of_types(0x2)))),
            _ => None,
        },
        91 => match i {
            0 => Some(tap_for(ManaColor::Colorless, 1)),
            _ => None,
        },
        92 => match i {
            0 => Some(tap_for(ManaColor::Colorless, 1)),
            _ => None,
        },
        93 => match i {
            0 => Some(tap_for(ManaColor::Colorless, 1)),
            1 => Some(activated(cost(true, mana(0, 0, 0, 0, 0, 0, 0), 0, true), Effect::TargetCardToHand, TargetSpec::CardInYourGraveyard(of_types(0x1)))),
            _ => None,
        },
        94 => match i {
            0 => Some(tap_for(ManaColor::Colorless, 1)),
            _ => None,
        },
        95 => match i {
            0 => Some(tap_for(ManaColor::Colorless, 1)),
            _ => None,
        },
        _ => None,
    }
}

/// The ability a card (or face) prints at index `i`, if it has one. (cards 84 to 95).
fn ability_at_7(c: CardIndex, i: u32) -> (r: Option<Ability>)
    ensures
        r == spec_ability_7(c, i),
{
    match c.0 {
        84 => match i {
            0 => Some(tap_for(ManaColor::Colorless, 1)),
            1 => Some(activated(cost(true, mana(2, 0, 0, 0, 0, 0, 0), 0, false), Effect::CountersOnTarget(CounterKind::P1P1, 2), TargetSpec::Permanent(flagged(0x2, false, false, false, false, true)))),
            _ => None,
        },
        85 => match i {
            0 => Some(tap_for(ManaColor::Colorless, 1)),
            1 => Some(activated(cost(false, mana(4, 0, 0, 0, 0, 0, 0), 0, false), Effect::AnimateSource(animation(4, 2, 0x6, 0x0, true)), TargetSpec::NoTarget)),
            _ => None,
        },
        86 => match i {
            0 => Some(tap_for(ManaColor::White, 1)),
            _ => None,
        },
        87 => match i {
            0 => Some(tap_for(ManaColor::Colorless, 1)),
            1 => Some(activated(cost(true, mana(1, 0, 0, 0, 0, 0, 0), 0, true), Effect::Nothing, TargetSpec::NoTarget)),
            _ => None,
        },
        88 => match i {
            0 => Some(tap_for(ManaColor::Colorless, 1)),
            1 => Some(activated(cost(false, mana(0, 0, 0, 0, 0, 0, 0), 0, false), Effect::ReturnSourceToHand, TargetSpec::NoTarget)),
            _ => None,
        },
        89 => match i {
            0 => Some(tap_for(ManaColor::Colorless, 1)),
            1 => Some(activated(cost(true, mana(1, 1, 0, 0, 0, 0, 0), 0, false), Effect::TargetCardToLibraryTop, TargetSpec::CardInYourGraveyard(of_types(0x8)))),
            _ => None,
        },
        90 => match i {
            0 => Some(tap_for(ManaColor::Colorless, 1)),
            1 => Some(activated(cost(true, mana(0, 0, 0, 0, 1, 1, 0), 0, false), Effect::KeywordsToTarget(0x2), TargetSpec::Permanent(of_types(0x2)))),
            _ => None,
        },
        91 => match i {
            0 => Some(tap_for(ManaColor::Colorless, 1)),
            _ => None,
        },
        92 => match i {
            0 => Some(tap_for(ManaColor::Colorless, 1)),
            _ => None,
        },
        93 => match i {
            0 => Some(tap_for(ManaColor::Colorless, 1)),
            1 => Some(activated(cost(true, mana(0, 0, 0, 0, 0, 0, 0), 0, true), Effect::TargetCardToHand, TargetSpec::CardInYourGraveyard(of_types(0x1)))),
            _ => None,
        },
        94 => match i {
            0 => Some(tap_for(ManaColor::Colorless, 1)),
            _ => None,
        },
        95 => match i {
            0 => Some(tap_for(ManaColor::Colorless, 1)),
            _ => None,
        },
        _ => None,
    }
}

/// The ability a card (or face) prints at index `i`, if it has one. (cards 96 to 107).
pub open spec fn spec_ability_8(c: CardIndex, i: u32) -> Option<Ability> {
    match c.0 {
        96 => match i {
            0 => Some(tap_for_one_of(0x1f)),
            _ => None,
        },
        97 => match i {
            0 => Some(tap_for_one_of(0x1f)),
            _ => None,
        },
        98 => match i {
            0 => Some(tap_for(ManaColor::Colorless, 1)),
            _ => None,
        },
        99 => match i {
            0 => Some(tap_for(ManaColor::Colorless, 1)),
            _ => None,
        },
        100 => match i {
            0 => Some(tap_for(ManaColor::Red, 1)),
            _ => None,
        },
        101 => match i {
            0 => Some(tap_for(ManaColor::Colorless, 1)),
            1 => Some(activated(cost(false, mana(4, 0, 0, 0, 0, 0, 0), 0, false), Effect::AnimateSource(animation(3, 3, 0x2, 0x8, false)), TargetSpec::NoTarget)),
            _ => None,
        },
        102 => match i {
            0 => Some(tap_for(ManaColor::Colorless, 1)),
            _ => None,
        },
        103 => match i {
            0 => Some(tap_for(ManaColor::Colorless, 1)),
            _ => None,
        },
        104 => match i {
            0 => Some(tap_for(ManaColor::Colorless, 1)),
            1 => Some(activated(cost(true, mana(0, 0, 0, 1, 0, 0, 0), 0, false), Effect::TargetCardToLibraryTop, TargetSpec::CardInYourGraveyard(of_subtypes(0x2000)))),
            _ => None,
        },
        105 => match i {
            0 => Some(tap_for(ManaColor::Colorless, 1)),
            _ => None,
        },
        106 => match i {
            0 => Some(mana_ability(cost(true, mana(0, 0, 0, 0, 0, 0, 0), 2, false), Effect::AddRestricted(ManaColor::Colorless, 2, SpendRestriction::LegendarySpell))),
            _ => None,
        },
        107 => match i {
            0 => Some(tap_for(ManaColor::Colorless, 1)),
            1 => Some(activated(cost(true, mana(2, 1, 0, 1, 0, 0, 0), 0, false), Effect::KeywordsToYourCreatures(0xc0), TargetSpec::NoTarget)),
            _ => None,
        },
        _ => None,
    }
}

/// The ability a card (or face) prints at index `i`, if it has one. (cards 96 to 107).
fn ability_at_8(c: CardIndex, i: u32) -> (r: Option<Ability>)
    ensures
        r == spec_ability_8(c, i),
{
    match c.0 {
        96 => match i {
            0 => Some(tap_for_one_of(0x1f)),
            _ => None,
        },
        97 => match i {
            0 => Some(tap_for_one_of(0x1f)),
            _ => None,
        },
        98 => match i {
            0 => Some(tap_for(ManaColor::Colorless, 1)),
            _ => None,
        },
        99 => match i {
            0 => Some(tap_for(ManaColor::Colorless, 1)),
            _ => None,
        },
        100 => match i {
            0 => Some(tap_for(ManaColor::Red, 1)),
            _ => None,
        },
        101 => match i {
            0 => Some(tap_for(ManaColor::Colorless, 1)),
            1 => Some(activated(cost(false, mana(4, 0, 0, 0, 0, 0, 0), 0, false), Effect::AnimateSource(animation(3, 3, 0x2, 0x8, false)), TargetSpec::NoTarget)),
            _ => None,
        },
        102 => match i {
            0 => Some(tap_for(ManaColor::Colorless, 1)),
            _ => None,
        },
        103 => match i {
            0 => Some(tap_for(ManaColor::Colorless, 1)),
            _ => None,
        },
        104 => match i {
            0 => Some(tap_for(ManaColor::Colorless, 1)),
            1 => Some(activated(cost(true, mana(0, 0, 0, 1, 0, 0, 0), 0, false), Effect::TargetCardToLibraryTop, TargetSpec::CardInYourGraveyard(of_subtypes(0x2000)))),
            _ => None,
        },
        105 => match i {
            0 => Some(tap_for(ManaColor::Colorless, 1)),
            _ => None,
        },
        106 => match i {
            0 => Some(mana_ability(cost(true, mana(0, 0, 0, 0, 0, 0, 0), 2, false), Effect::AddRestricted(ManaColor::Colorless, 2, SpendRestriction::LegendarySpell))),
            _ => None,
        },
        107 => match i {
            0 => Some(tap_for(ManaColor::Colorless, 1)),
            1 => Some(activated(cost(true, mana(2, 1, 0, 1, 0, 0, 0), 0, false), Effect::KeywordsToYourCreatures(0xc0), TargetSpec::NoTarget)),
            _ => None,
        },
        _ => None,
    }
}

/// The ability a card (or face) prints at index `i`, if it has one. (cards 108 to 119).
pub open spec fn spec_ability_9(c: CardIndex, i: u32) -> Option<Ability> {
    match c.0 {
        108 => match i {
            0 => Some(tap_for(ManaColor::Colorless, 1)),
            _ => None,
        },
        109 => match i {
            0 => Some(tap_for(ManaColor::Colorless, 1)),
            _ => None,
        },
        110 => match i {
            0 => Some(tap_for(ManaColor::Blue, 1)),
            1 => Some(activated(cost(true, mana(2, 0, 1, 0, 0, 0, 0), 0, false), Effect::DrawThenDiscard(1, 1), TargetSpec::NoTarget)),
            _ => None,
        },
        111 => match i {
            0 => Some(tap_for_one_of(0x9)),
            _ => None,
        },
        112 => match i {
            0 => Some(tap_for_one_of(0xc)),
            _ => None,
        },
        113 => match i {
            0 => Some(tap_for_one_of(0x14)),
            _ => None,
        },
        114 => match i {
            0 => Some(tap_for_one_of(0x6)),
            _ => None,
        },
        115 => match i {
            0 => Some(tap_for_one_of(0x3)),
            _ => None,
        },
        116 => match i {
            0 => Some(tap_for_one_of(0x6)),
            _ => None,
        },
        117 => match i {
            0 => Some(tap_for_one_of(0xc)),
            _ => None,
        },
        118 => match i {
            0 => Some(tap_for_one_of(0x11)),
            _ => None,
        },
        119 => match i {
            0 => Some(tap_for_one_of(0x18)),
            _ => None,
        },
        _ => None,
    }
}

/// The ability a card (or face) prints at index `i`, if it has one. (cards 108 to 119).
fn ability_at_9(c: CardIndex, i: u32) -> (r: Option<Ability>)
    ensures
        r == spec_ability_9(c, i),
{
    match c.0 {
        108 => match i {
            0 => Some(tap_for(ManaColor::Colorless, 1)),
            _ => None,
        },
        109 => match i {
            0 => Some(tap_for(ManaColor::Colorless, 1)),
            _ => None,
        },
        110 => match i {
            0 => Some(tap_for(ManaColor::Blue, 1)),
            1 => Some(activated(cost(true, mana(2, 0, 1, 0, 0, 0, 0), 0, false), Effect::DrawThenDiscard(1, 1), TargetSpec::NoTarget)),
            _ => None,
        },
        111 => match i {
            0 => Some(tap_for_one_of(0x9)),
            _ => None,
        },
        112 => match i {
            0 => Some(tap_for_one_of(0xc)),
            _ => None,
        },
        113 => match i {
            0 => Some(tap_for_one_of(0x14)),
            _ => None,
        },
        114 => match i {
            0 => Some(tap_for_one_of(0x6)),
            _ => None,
        },
        115 => match i {
            0 => Some(tap_for_one_of(0x3)),
            _ => None,
        },
        116 => match i {
            0 => Some(tap_for_one_of(0x6)),
            _ => None,
        },
        117 => match i {
            0 => Some(tap_for_one_of(0xc)),
            _ => None,
        },
        118 => match i {
            0 => Some(tap_for_one_of(0x11)),
            _ => None,
        },
        119 => match i {
            0 => Some(tap_for_one_of(0x18)),
            _ => None,
        },
        _ => None,
    }
}

/// The ability a card (or face) prints at index `i`, if it has one. (cards 120 to 131).
pub open spec fn spec_ability_10(c: CardIndex, i: u32) -> Option<Ability> {
    match c.0 {
        120 => match i {
            0 => Some(tap_for_one_of(0x3)),
            _ => None,
        },
        121 => match i {
            0 => Some(tap_for_one_of(0xa)),
            _ => None,
        },
        122 => match i {
            0 => Some(tap_for_one_of(0x9)),
            _ => None,
        },
        123 => match i {
            0 => Some(tap_for_one_of(0x14)),
            _ => None,
        },
        124 => match i {
            0 => Some(tap_for_one_of(0x5)),
            _ => None,
        },
        125 => match i {
            0 => Some(tap_for_one_of(0x12)),
            _ => None,
        },
        126 => match i {
            0 => Some(tap_for(ManaColor::Colorless, 1)),
            _ => None,
        },
        127 => match i {
            0 => Some(tap_for(ManaColor::Colorless, 1)),
            _ => None,
        },
        128 => match i {
            0 => Some(tap_for(ManaColor::Colorless, 1)),
            _ => None,
        },
        129 => match i {
            0 => Some(tap_for(ManaColor::Colorless, 1)),
            1 => Some(only_if(tap_for_one_of(0x11), Condition::YouControlAtLeast(flagged(0x1, true, false, false, false, false), 1))),
            _ => None,
        },
        130 => match i {
            0 => Some(tap_for(ManaColor::Colorless, 1)),
            1 => Some(only_if(tap_for_one_of(0x3), Condition::YouControlAtLeast(flagged(0x1, true, false, false, false, false), 1))),
            _ => None,
        },
        131 => match i {
            0 => Some(tap_for(ManaColor::Colorless, 1)),
            1 => Some(only_if(tap_for_one_of(0x6), Condition::YouControlAtLeast(flagged(0x1, true, false, false, false, false), 1))),
            _ => None,
        },
        _ => None,
    }
}

/// The ability a card (or face) prints at index `i`, if it has one. (cards 120 to 131).
fn ability_at_10(c: CardIndex, i: u32) -> (r: Option<Ability>)
    ensures
        r == spec_ability_10(c, i),
{
    match c.0 {
        120 => match i {
            0 => Some(tap_for_one_of(0x3)),
            _ => None,
        },
        121 => match i {
            0 => Some(tap_for_one_of(0xa)),
            _ => None,
        },
        122 => match i {
            0 => Some(tap_for_one_of(0x9)),
            _ => None,
        },
        123 => match i {
            0 => Some(tap_for_one_of(0x14)),
            _ => None,
        },
        124 => match i {
            0 => Some(tap_for_one_of(0x5)),
            _ => None,
        },
        125 => match i {
            0 => Some(tap_for_one_of(0x12)),
            _ => None,
        },
        126 => match i {
            0 => Some(tap_for(ManaColor::Colorless, 1)),
            _ => None,
        },
        127 => match i {
            0 => Some(tap_for(ManaColor::Colorless, 1)),
            _ => None,
        },
        128 => match i {
            0 => Some(tap_for(ManaColor::Colorless, 1)),
            _ => None,
        },
        129 => match i {
            0 => Some(tap_for(ManaColor::Colorless, 1)),
            1 => Some(only_if(tap_for_one_of(0x11), Condition::YouControlAtLeast(flagged(0x1, true, false, false, false, false), 1))),
            _ => None,
        },
        130 => match i {
            0 => Some(tap_for(ManaColor::Colorless, 1)),
            1 => Some(only_if(tap_for_one_of(0x3), Condition::YouControlAtLeast(flagged(0x1, true, false, false, false, false), 1))),
            _ => None,
        },
        131 => match i {
            0 => Some(tap_for(ManaColor::Colorless, 1)),
            1 => Some(only_if(tap_for_one_of(0x6), Condition::YouControlAtLeast(flagged(0x1, true, false, false, false, false), 1))),
            _ => None,
        },
        _ => None,
    }
}

/// The ability a card (or face) prints at index `i`, if it has one. (cards 132 to 143).
pub open spec fn spec_ability_11(c: CardIndex, i: u32) -> Option<Ability> {
    match c.0 {
        132 => match i {
            0 => Some(tap_for(ManaColor::Colorless, 1)),
            _ => None,
        },
        133 => match i {
            0 => Some(tap_for_one_of(0x1f)),
            _ => None,
        },
        134 => match i {
            0 => Some(tap_for(ManaColor::Colorless, 1)),
            _ => None,
        },
        135 => match i {
            0 => Some(tap_for(ManaColor::Colorless, 1)),
            _ => None,
        },
        136 => match i {
            0 => Some(tap_for(ManaColor::Colorless, 1)),
            1 => Some(sorcery(activated(cost(true, mana(1, 0, 0, 0, 0, 0, 0), 0, true), Effect::CountersOnTarget(CounterKind::M1M1, 1), TargetSpec::Permanent(of_types(0x2))))),
            _ => None,
        },
        137 => match i {
            0 => Some(tap_for(ManaColor::Colorless, 1)),
            1 => Some(mana_ability(cost(true, mana(1, 0, 0, 0, 0, 0, 0), 0, false), Effect::AddChoice { colors: 0x1f, amount: 1, times: 2, restriction: Some(SpendRestriction::LegendarySpell) })),
            _ => None,
        },
        138 => match i {
            0 => Some(mana_ability(cost(true, mana(0, 0, 0, 0, 0, 0, 0), 3, false), Effect::AddMana(ManaColor::Colorless, 1))),
            _ => None,
        },
        139 => match i {
            0 => Some(tap_for(ManaColor::Colorless, 1)),
            _ => None,
        },
        140 => match i {
            0 => Some(triggered(Trigger::EntersBattlefield, Effect::SacrificeLands(2), TargetSpec::NoTarget)),
            1 => Some(mana_ability(tap(), Effect::AddChoice { colors: 0x1f, amount: 3, times: 1, restriction: None })),
            _ => None,
        },
        141 => match i {
            0 => Some(tap_for(ManaColor::Colorless, 1)),
            _ => None,
        },
        142 => match i {
            0 => Some(tap_for(ManaColor::Colorless, 1)),
            1 => Some(activated(cost(false, mana(1, 0, 0, 0, 0, 0, 0), 0, false), Effect::AnimateSource(animation(2, 2, 0x2, 0x0, true)), TargetSpec::NoTarget)),
            _ => None,
        },
        143 => match i {
            0 => Some(tap_for(ManaColor::Green, 1)),
            _ => None,
        },
        _ => None,
    }
}

/// The ability a card (or face) prints at index `i`, if it has one. (cards 132 to 143).
fn ability_at_11(c: CardIndex, i: u32) -> (r: Option<Ability>)
    ensures
        r == spec_ability_11(c, i),
{
    match c.0 {
        132 => match i {
            0 => Some(tap_for(ManaColor::Colorless, 1)),
            _ => None,
        },
        133 => match i {
            0 => Some(tap_for_one_of(0x1f)),
            _ => None,
        },
        134 => match i {
            0 => Some(tap_for(ManaColor::Colorless, 1)),
            _ => None,
        },
        135 => match i {
            0 => Some(tap_for(ManaColor::Colorless, 1)),
            _ => None,
        },
        136 => match i {
            0 => Some(tap_for(ManaColor::Colorless, 1)),
            1 => Some(sorcery(activated(cost(true, mana(1, 0, 0, 0, 0, 0, 0), 0, true), Effect::CountersOnTarget(CounterKind::M1M1, 1), TargetSpec::Permanent(of_types(0x2))))),
            _ => None,
        },
        137 => match i {
            0 => Some(tap_for(ManaColor::Colorless, 1)),
            1 => Some(mana_ability(cost(true, mana(1, 0, 0, 0, 0, 0, 0), 0, false), Effect::AddChoice { colors: 0x1f, amount: 1, times: 2, restriction: Some(SpendRestriction::LegendarySpell) })),
            _ => None,
        },
        138 => match i {
            0 => Some(mana_ability(cost(true, mana(0, 0, 0, 0, 0, 0, 0), 3, false), Effect::AddMana(ManaColor::Colorless, 1))),
            _ => None,
        },
        139 => match i {
            0 => Some(tap_for(ManaColor::Colorless, 1)),
            _ => None,
        },
        140 => match i {
            0 => Some(triggered(Trigger::EntersBattlefield, Effect::SacrificeLands(2), TargetSpec::NoTarget)),
            1 => Some(mana_ability(tap(), Effect::AddChoice { colors: 0x1f, amount: 3, times: 1, restriction: None })),
            _ => None,
        },
        141 => match i {
            0 => Some(tap_for(ManaColor::Colorless, 1)),
            _ => None,
        },
        142 => match i {
            0 => Some(tap_for(ManaColor::Colorless, 1)),
            1 => Some(activated(cost(false, mana(1, 0, 0, 0, 0, 0, 0), 0, false), Effect::AnimateSource(animation(2, 2, 0x2, 0x0, true)), TargetSpec::NoTarget)),
            _ => None,
        },
        143 => match i {
            0 => Some(tap_for(ManaColor::Green, 1)),
            _ => None,
        },
        _ => None,
    }
}

/// The ability a card (or face) prints at index `i`, if it has one. (cards 144 to 155).
pub open spec fn spec_ability_12(c: CardIndex, i: u32) -> Option<Ability> {
    match c.0 {
        144 => match i {
            0 => Some(tap_for(ManaColor::Colorless, 1)),
            1 => Some(mana_ability(cost(true, mana(0, 0, 0, 0, 0, 0, 0), 1, false), Effect::AddMana(ManaColor::Red, 1))),
            2 => Some(activated(sacrificing(cost(true, mana(2, 0, 0, 0, 2, 0, 0), 0, false), of_subtypes(0x20)), Effect::DamageOpponents(2), TargetSpec::NoTarget)),
            _ => None,
        },
        145 => match i {
            0 => Some(tap_for(ManaColor::Colorless, 1)),
            _ => None,
        },
        146 => match i {
            0 => Some(tap_for(ManaColor::Green, 1)),
            1 => Some(only_if(activated(cost(true, mana(0, 0, 0, 0, 0, 1, 0), 0, false), Effect::GainLife(1), TargetSpec::NoTarget), Condition::YouControlAtLeast(of_types_colored(0x0, 0x10), 2))),
            _ => None,
        },
        147 => match i {
            0 => Some(tap_for(ManaColor::Colorless, 1)),
            _ => None,
        },
        148 => match i {
            0 => Some(tap_for(ManaColor::Colorless, 1)),
            _ => None,
        },
        149 => match i {
            0 => Some(tap_for(ManaColor::Colorless, 1)),
            _ => None,
        },
        150 => match i {
            0 => Some(tap_for(ManaColor::Colorless, 1)),
            1 => Some(activated(cost(false, mana(6, 0, 0, 0, 0, 0, 0), 0, false), Effect::AnimateSource(animation(3, 3, 0x6, 0x0, false)), TargetSpec::NoTarget)),
            _ => None,
        },
        151 => match i {
            0 => Some(tap_for_one_of(0x1f)),
            _ => None,
        },
        152 => match i {
            0 => Some(tap_for(ManaColor::Colorless, 1)),
            _ => None,
        },
        153 => match i {
            0 => Some(tap_for(ManaColor::Colorless, 1)),
            1 => Some(activated(cost(true, mana(1, 0, 0, 0, 0, 0, 0), 0, false), Effect::OpponentsCreaturesLoseHexproof, TargetSpec::NoTarget)),
            _ => None,
        },
        154 => match i {
            0 => Some(mana_ability(cost(true, mana(0, 0, 0, 0, 0, 0, 0), 2, false), Effect::AddRestricted(ManaColor::Colorless, 1, SpendRestriction::UncounterableRider))),
            _ => None,
        },
        155 => match i {
            0 => Some(tap_for(ManaColor::Red, 1)),
            1 => Some(activated(cost(true, mana(1, 0, 0, 0, 2, 0, 0), 0, false), Effect::PumpYourCreatures(1, 0), TargetSpec::NoTarget)),
            _ => None,
        },
        _ => None,
    }
}

/// The ability a card (or face) prints at index `i`, if it has one. (cards 144 to 155).
fn ability_at_12(c: CardIndex, i: u32) -> (r: Option<Ability>)
    ensures
        r == spec_ability_12(c, i),
{
    match c.0 {
        144 => match i {
            0 => Some(tap_for(ManaColor::Colorless, 1)),
            1 => Some(mana_ability(cost(true, mana(0, 0, 0, 0, 0, 0, 0), 1, false), Effect::AddMana(ManaColor::Red, 1))),
            2 => Some(activated(sacrificing(cost(true, mana(2, 0, 0, 0, 2, 0, 0), 0, false), of_subtypes(0x20)), Effect::DamageOpponents(2), TargetSpec::NoTarget)),
            _ => None,
        },
        145 => match i {
            0 => Some(tap_for(ManaColor::Colorless, 1)),
            _ => None,
        },
        146 => match i {
            0 => Some(tap_for(ManaColor::Green, 1)),
            1 => Some(only_if(activated(cost(true, mana(0, 0, 0, 0, 0, 1, 0), 0, false), Effect::GainLife(1), TargetSpec::NoTarget), Condition::YouControlAtLeast(of_types_colored(0x0, 0x10), 2))),
            _ => None,
        },
        147 => match i {
            0 => Some(tap_for(ManaColor::Colorless, 1)),
            _ => None,
        },
        148 => match i {
            0 => Some(tap_for(ManaColor::Colorless, 1)),
            _ => None,
        },
        149 => match i {
            0 => Some(tap_for(ManaColor::Colorless, 1)),
            _ => None,
        },
        150 => match i {
            0 => Some(tap_for(ManaColor::Colorless, 1)),
            1 => Some(activated(cost(false, mana(6, 0, 0, 0, 0, 0, 0), 0, false), Effect::AnimateSource(animation(3, 3, 0x6, 0x0, false)), TargetSpec::NoTarget)),
            _ => None,
        },
        151 => match i {
            0 => Some(tap_for_one_of(0x1f)),
            _ => None,
        },
        152 => match i {
            0 => Some(tap_for(ManaColor::Colorless, 1)),
            _ => None,
        },
        153 => match i {
            0 => Some(tap_for(ManaColor::Colorless, 1)),
            1 => Some(activated(cost(true, mana(1, 0, 0, 0, 0, 0, 0), 0, false), Effect::OpponentsCreaturesLoseHexproof, TargetSpec::NoTarget)),
            _ => None,
        },
        154 => match i {
            0 => Some(mana_ability(cost(true, mana(0, 0, 0, 0, 0, 0, 0), 2, false), Effect::AddRestricted(ManaColor::Colorless, 1, SpendRestriction::UncounterableRider))),
            _ => None,
        },
        155 => match i {
            0 => Some(tap_for(ManaColor::Red, 1)),
            1 => Some(activated(cost(true, mana(1, 0, 0, 0, 2, 0, 0), 0, false), Effect::PumpYourCreatures(1, 0), TargetSpec::NoTarget)),
            _ => None,
        },
        _ => None,
    }
}

/// The ability a card (or face) prints at index `i`, if it has one. (cards 156 to 167).
pub open spec fn spec_ability_13(c: CardIndex, i: u32) -> Option<Ability> {
    match c.0 {
        156 => match i {
            0 => Some(tap_for(ManaColor::Colorless, 1)),
            _ => None,
        },
        157 => match i {
            0 => Some(tap_for(ManaColor::Colorless, 1)),
            _ => None,
        },
        158 => match i {
            0 => Some(tap_for(ManaColor::Colorless, 1)),
            1 => Some(mana_ability(tap(), Effect::AddRestricted(ManaColor::Colorless, 2, SpendRestriction::ColorlessEldrazi))),
            _ => None,
        },
        159 => match i {
            0 => Some(tap_for_one_of(0x1f)),
            _ => None,
        },
        160 => match i {
            0 => Some(triggered(Trigger::EntersBattlefield, Effect::LookAndReorder(3), TargetSpec::NoTarget)),
            1 => Some(tap_for(ManaColor::Blue, 1)),
            _ => None,
        },
        161 => match i {
            0 => Some(tap_for(ManaColor::Colorless, 1)),
            _ => None,
        },
        162 => match i {
            0 => Some(tap_for(ManaColor::Black, 1)),
            1 => Some(only_if(activated(cost(true, mana(0, 0, 0, 1, 0, 0, 0), 0, false), Effect::LoseLifeOpponents(1), TargetSpec::NoTarget), Condition::YouControlAtLeast(of_types_colored(0x0, 0x4), 2))),
            _ => None,
        },
        163 => match i {
            0 => Some(tap_for(ManaColor::Red, 1)),
            _ => None,
        },
        164 => match i {
            0 => Some(tap_for(ManaColor::Black, 1)),
            1 => Some(activated(cost(true, mana(2, 0, 0, 1, 0, 0, 0), 0, true), Effect::TargetCardToHand, TargetSpec::CardInYourGraveyard(of_types(0x2)))),
            _ => None,
        },
        165 => match i {
            0 => Some(triggered(Trigger::EntersBattlefield, Effect::TargetCardToLibraryTop, TargetSpec::CardInYourGraveyard(of_types(0x2)))),
            1 => Some(tap_for(ManaColor::Black, 1)),
            _ => None,
        },
        166 => match i {
            0 => Some(tap_for(ManaColor::Colorless, 1)),
            1 => Some(activated(cost(true, mana(4, 0, 0, 0, 0, 0, 1), 0, true), Effect::DamageTarget(4), TargetSpec::Permanent(of_types(0x2)))),
            _ => None,
        },
        167 => match i {
            0 => Some(tap_for(ManaColor::Colorless, 1)),
            _ => None,
        },
        _ => None,
    }
}

/// The ability a card (or face) prints at index `i`, if it has one. (cards 156 to 167).
fn ability_at_13(c: CardIndex, i: u32) -> (r: Option<Ability>)
    ensures
        r == spec_ability_13(c, i),
{
    match c.0 {
        156 => match i {
            0 => Some(tap_for(ManaColor::Colorless, 1)),
            _ => None,
        },
        157 => match i {
            0 => Some(tap_for(ManaColor::Colorless, 1)),
            _ => None,
        },
        158 => match i {
            0 => Some(tap_for(ManaColor::Colorless, 1)),
            1 => Some(mana_ability(tap(), Effect::AddRestricted(ManaColor::Colorless, 2, SpendRestriction::ColorlessEldrazi))),
            _ => None,
        },
        159 => match i {
            0 => Some(tap_for_one_of(0x1f)),
            _ => None,
        },
        160 => match i {
            0 => Some(triggered(Trigger::EntersBattlefield, Effect::LookAndReorder(3), TargetSpec::NoTarget)),
            1 => Some(tap_for(ManaColor::Blue, 1)),
            _ => None,
        },
        161 => match i {
            0 => Some(tap_for(ManaColor::Colorless, 1)),
            _ => None,
        },
        162 => match i {
            0 => Some(tap_for(ManaColor::Black, 1)),
            1 => Some(only_if(activated(cost(true, mana(0, 0, 0, 1, 0, 0, 0), 0, false), Effect::LoseLifeOpponents(1), TargetSpec::NoTarget), Condition::YouControlAtLeast(of_types_colored(0x0, 0x4), 2))),
            _ => None,
        },
        163 => match i {
            0 => Some(tap_for(ManaColor::Red, 1)),
            _ => None,
        },
        164 => match i {
            0 => Some(tap_for(ManaColor::Black, 1)),
            1 => Some(activated(cost(true, mana(2, 0, 0, 1, 0, 0, 0), 0, true), Effect::TargetCardToHand, TargetSpec::CardInYourGraveyard(of_types(0x2)))),
            _ => None,
        },
        165 => match i {
            0 => Some(triggered(Trigger::EntersBattlefield, Effect::TargetCardToLibraryTop, TargetSpec::CardInYourGraveyard(of_types(0x2)))),
            1 => Some(tap_for(ManaColor::Black, 1)),
            _ => None,
        },
        166 => match i {
            0 => Some(tap_for(ManaColor::Colorless, 1)),
            1 => Some(activated(cost(true, mana(4, 0, 0, 0, 0, 0, 1), 0, true), Effect::DamageTarget(4), TargetSpec::Permanent(of_types(0x2)))),
            _ => None,
        },
        167 => match i {
            0 => Some(tap_for(ManaColor::Colorless, 1)),
            _ => None,
        },
        _ => None,
    }
}

/// The ability a card (or face) prints at index `i`, if it has one. (cards 168 to 179).
pub open spec fn spec_ability_14(c: CardIndex, i: u32) -> Option<Ability> {
    match c.0 {
        168 => match i {
            0 => Some(tap_for(ManaColor::Colorless, 1)),
            _ => None,
        },
        169 => match i {
            0 => Some(static_ability()),
            1 => Some(tap_for(ManaColor::Colorless, 1)),
            _ => None,
        },
        170 => match i {
            0 => Some(tap_for(ManaColor::Colorless, 1)),
            1 => Some(activated(cost(true, mana(4, 0, 0, 0, 0, 0, 0), 0, true), Effect::MillYou(5), TargetSpec::NoTarget)),
            _ => None,
        },
        171 => match i {
            0 => Some(tap_for(ManaColor::Colorless, 1)),
            1 => Some(only_if(mana_ability(tap(), Effect::AddRestricted(ManaColor::Colorless, 2, SpendRestriction::ColorlessSpell)), Condition::YouControlAtLeast(of_types(0x1), 6))),
            _ => None,
        },
        172 => match i {
            0 => Some(tap_for(ManaColor::Colorless, 1)),
            _ => None,
        },
        173 => match i {
            0 => Some(tap_for(ManaColor::Colorless, 1)),
            1 => Some(mana_ability(cost(true, mana(0, 0, 0, 0, 0, 0, 0), 1, false), Effect::AddChoice { colors: 0x1f, amount: 1, times: 1, restriction: None })),
            _ => None,
        },
        174 => match i {
            0 => Some(tap_for(ManaColor::Colorless, 1)),
            1 => Some(activated(cost(true, mana(1, 0, 0, 0, 0, 0, 0), 0, true), Effect::DestroyTarget, TargetSpec::Permanent(flagged(0x1, false, true, false, false, false)))),
            _ => None,
        },
        175 => match i {
            0 => Some(tap_for(ManaColor::Colorless, 1)),
            _ => None,
        },
        176 => match i {
            0 => Some(triggered(Trigger::EntersBattlefield, Effect::Scry(1), TargetSpec::NoTarget)),
            1 => Some(tap_for(ManaColor::Colorless, 1)),
            _ => None,
        },
        177 => match i {
            0 => Some(tap_for_one_of(0x1f)),
            _ => None,
        },
        178 => match i {
            0 => Some(tap_for(ManaColor::Colorless, 1)),
            1 => Some(only_if(mana_ability(tap(), Effect::AddPerPermanent(ManaColor::Colorless, of_subtypes(0x200))), Condition::YouControlAtLeast(of_types(0x4), 3))),
            _ => None,
        },
        179 => match i {
            0 => Some(tap_for(ManaColor::Colorless, 1)),
            _ => None,
        },
        _ => None,
    }
}

/// The ability a card (or face) prints at index `i`, if it has one. (cards 168 to 179).
fn ability_at_14(c: CardIndex, i: u32) -> (r: Option<Ability>)
    ensures
        r == spec_ability_14(c, i),
{
    match c.0 {
        168 => match i {
            0 => Some(tap_for(ManaColor::Colorless, 1)),
            _ => None,
        },
        169 => match i {
            0 => Some(static_ability()),
            1 => Some(tap_for(ManaColor::Colorless, 1)),
            _ => None,
        },
        170 => match i {
            0 => Some(tap_for(ManaColor::Colorless, 1)),
            1 => Some(activated(cost(true, mana(4, 0, 0, 0, 0, 0, 0), 0, true), Effect::MillYou(5), TargetSpec::NoTarget)),
            _ => None,
        },
        171 => match i {
            0 => Some(tap_for(ManaColor::Colorless, 1)),
            1 => Some(only_if(mana_ability(tap(), Effect::AddRestricted(ManaColor::Colorless, 2, SpendRestriction::ColorlessSpell)), Condition::YouControlAtLeast(of_types(0x1), 6))),
            _ => None,
        },
        172 => match i {
            0 => Some(tap_for(ManaColor::Colorless, 1)),
            _ => None,
        },
        173 => match i {
            0 => Some(tap_for(ManaColor::Colorless, 1)),
            1 => Some(mana_ability(cost(true, mana(0, 0, 0, 0, 0, 0, 0), 1, false), Effect::AddChoice { colors: 0x1f, amount: 1, times: 1, restriction: None })),
            _ => None,
        },
        174 => match i {
            0 => Some(tap_for(ManaColor::Colorless, 1)),
            1 => Some(activated(cost(true, mana(1, 0, 0, 0, 0, 0, 0), 0, true), Effect::DestroyTarget, TargetSpec::Permanent(flagged(0x1, false, true, false, false, false)))),
            _ => None,
        },
        175 => match i {
            0 => Some(tap_for(ManaColor::Colorless, 1)),
            _ => None,
        },
        176 => match i {
            0 => Some(triggered(Trigger::EntersBattlefield, Effect::Scry(1), TargetSpec::NoTarget)),
            1 => Some(tap_for(ManaColor::Colorless, 1)),
            _ => None,
        },
        177 => match i {
            0 => Some(tap_for_one_of(0x1f)),
            _ => None,
        },
        178 => match i {
            0 => Some(tap_for(ManaColor::Colorless, 1)),
            1 => Some(only_if(mana_ability(tap(), Effect::AddPerPermanent(ManaColor::Colorless, of_subtypes(0x200))), Condition::YouControlAtLeast(of_types(0x4), 3))),
            _ => None,
        },
        179 => match i {
            0 => Some(tap_for(ManaColor::Colorless, 1)),
            _ => None,
        },
        _ => None,
    }
}

/// The ability a card (or face) prints at index `i`, if it has one. (cards 180 to 191).
pub open spec fn spec_ability_15(c: CardIndex, i: u32) -> Option<Ability> {
    match c.0 {
        180 => match i {
            0 => Some(tap_for(ManaColor::White, 1)),
            _ => None,
        },
        181 => match i {
            0 => Some(tap_for(ManaColor::Colorless, 1)),
            _ => None,
        },
        182 => match i {
            0 => Some(tap_for(ManaColor::Green, 1)),
            1 => Some(sorcery(activated(cost(true, mana(2, 0, 0, 0, 0, 1, 0), 0, false), Effect::Earthbend(2), TargetSpec::Permanent(of_types(0x1))))),
            _ => None,
        },
        183 => match i {
            0 => Some(tap_for_one_of(0x12)),
            _ => None,
        },
        184 => match i {
            0 => Some(tap_for(ManaColor::Colorless, 1)),
            1 => Some(mana_ability(tap(), Effect::AddChoice { colors: 0x1f, amount: 1, times: 1, restriction: Some(SpendRestriction::MountSpell) })),
            _ => None,
        },
        185 => match i {
            0 => Some(tap_for(ManaColor::Green, 1)),
            _ => None,
        },
        186 => match i {
            0 => Some(tap_for(ManaColor::Colorless, 1)),
            1 => Some(activated(cost(true, mana(2, 0, 0, 0, 0, 0, 0), 0, true), Effect::DestroyTargetThenBasicSearch, TargetSpec::OpponentsPermanent(flagged(0x1, false, true, false, false, false)))),
            _ => None,
        },
        187 => match i {
            0 => Some(tap_for(ManaColor::Colorless, 1)),
            _ => None,
        },
        188 => match i {
            0 => Some(triggered(Trigger::EntersBattlefield, Effect::Scry(1), TargetSpec::NoTarget)),
            1 => Some(mana_ability(tap(), Effect::AddChosenColor)),
            _ => None,
        },
        189 => match i {
            0 => Some(tap_for(ManaColor::Colorless, 1)),
            1 => Some(activated(cost(false, mana(1, 0, 0, 0, 0, 0, 1), 0, false), Effect::AnimateSource(animation(2, 3, 0x6, 0x0, true)), TargetSpec::NoTarget)),
            _ => None,
        },
        190 => match i {
            0 => Some(triggered(Trigger::EntersBattlefield, Effect::SacrificeLands(1), TargetSpec::NoTarget)),
            _ => None,
        },
        191 => match i {
            0 => Some(tap_for(ManaColor::Colorless, 1)),
            1 => Some(mana_ability(cost(true, mana(0, 0, 0, 0, 0, 0, 0), 1, false), Effect::AddChoice { colors: 0x1f, amount: 1, times: 1, restriction: Some(SpendRestriction::InstantOrSorcery) })),
            _ => None,
        },
        _ => None,
    }
}

/// The ability a card (or face) prints at index `i`, if it has one. (cards 180 to 191).
fn ability_at_15(c: CardIndex, i: u32) -> (r: Option<Ability>)
    ensures
        r == spec_ability_15(c, i),
{
    match c.0 {
        180 => match i {
            0 => Some(tap_for(ManaColor::White, 1)),
            _ => None,
        },
        181 => match i {
            0 => Some(tap_for(ManaColor::Colorless, 1)),
            _ => None,
        },
        182 => match i {
            0 => Some(tap_for(ManaColor::Green, 1)),
            1 => Some(sorcery(activated(cost(true, mana(2, 0, 0, 0, 0, 1, 0), 0, false), Effect::Earthbend(2), TargetSpec::Permanent(of_types(0x1))))),
            _ => None,
        },
        183 => match i {
            0 => Some(tap_for_one_of(0x12)),
            _ => None,
        },
        184 => match i {
            0 => Some(tap_for(ManaColor::Colorless, 1)),
            1 => Some(mana_ability(tap(), Effect::AddChoice { colors: 0x1f, amount: 1, times: 1, restriction: Some(SpendRestriction::MountSpell) })),
            _ => None,
        },
        185 => match i {
            0 => Some(tap_for(ManaColor::Green, 1)),
            _ => None,
        },
        186 => match i {
            0 => Some(tap_for(ManaColor::Colorless, 1)),
            1 => Some(activated(cost(true, mana(2, 0, 0, 0, 0, 0, 0), 0, true), Effect::DestroyTargetThenBasicSearch, TargetSpec::OpponentsPermanent(flagged(0x1, false, true, false, false, false)))),
            _ => None,
        },
        187 => match i {
            0 => Some(tap_for(ManaColor::Colorless, 1)),
            _ => None,
        },
        188 => match i {
            0 => Some(triggered(Trigger::EntersBattlefield, Effect::Scry(1), TargetSpec::NoTarget)),
            1 => Some(mana_ability(tap(), Effect::AddChosenColor)),
            _ => None,
        },
        189 => match i {
            0 => Some(tap_for(ManaColor::Colorless, 1)),
            1 => Some(activated(cost(false, mana(1, 0, 0, 0, 0, 0, 1), 0, false), Effect::AnimateSource(animation(2, 3, 0x6, 0x0, true)), TargetSpec::NoTarget)),
            _ => None,
        },
        190 => match i {
            0 => Some(triggered(Trigger::EntersBattlefield, Effect::SacrificeLands(1), TargetSpec::NoTarget)),
            _ => None,
        },
        191 => match i {
            0 => Some(tap_for(ManaColor::Colorless, 1)),
            1 => Some(mana_ability(cost(true, mana(0, 0, 0, 0, 0, 0, 0), 1, false), Effect::AddChoice { colors: 0x1f, amount: 1, times: 1, restriction: Some(SpendRestriction::InstantOrSorcery) })),
            _ => None,
        },
        _ => None,
    }
}

/// The ability a card (or face) prints at index `i`, if it has one. (cards 192 to 203).
pub open spec fn spec_ability_16(c: CardIndex, i: u32) -> Option<Ability> {
    match c.0 {
        192 => match i {
            0 => Some(tap_for(ManaColor::Blue, 1)),
            1 => Some(activated(cost(false, mana(5, 0, 1, 0, 0, 0, 0), 0, false), Effect::AnimateSource(animation(7, 7, 0x2, 0x0, true)), TargetSpec::NoTarget)),
            _ => None,
        },
        193 => match i {
            0 => Some(tap_for(ManaColor::Colorless, 1)),
            1 => Some(activated(cost(true, mana(4, 0, 0, 0, 0, 0, 0), 0, false), Effect::Investigate, TargetSpec::NoTarget)),
            _ => None,
        },
        194 => match i {
            0 => Some(tap_for(ManaColor::Blue, 1)),
            _ => None,
        },
        195 => match i {
            0 => Some(tap_for(ManaColor::White, 1)),
            _ => None,
        },
        196 => match i {
            0 => Some(tap_for(ManaColor::Black, 1)),
            _ => None,
        },
        197 => match i {
            0 => Some(tap_for(ManaColor::Green, 1)),
            _ => None,
        },
        198 => match i {
            0 => Some(tap_for(ManaColor::Red, 1)),
            _ => None,
        },
        199 => match i {
            0 => Some(tap_for(ManaColor::Colorless, 1)),
            _ => None,
        },
        200 => match i {
            0 => Some(tap_for(ManaColor::Red, 1)),
            _ => None,
        },
        201 => match i {
            0 => Some(tap_for(ManaColor::Colorless, 1)),
            1 => Some(mana_ability(tap(), Effect::AddRestricted(ManaColor::White, 1, SpendRestriction::CreatureSpell))),
            _ => None,
        },
        202 => match i {
            0 => Some(tap_for(ManaColor::White, 1)),
            _ => None,
        },
        203 => match i {
            0 => Some(tap_for(ManaColor::Green, 1)),
            _ => None,
        },
        _ => None,
    }
}

/// The ability a card (or face) prints at index `i`, if it has one. (cards 192 to 203).
fn ability_at_16(c: CardIndex, i: u32) -> (r: Option<Ability>)
    ensures
        r == spec_ability_16(c, i),
{
    match c.0 {
        192 => match i {
            0 => Some(tap_for(ManaColor::Blue, 1)),
            1 => Some(activated(cost(false, mana(5, 0, 1, 0, 0, 0, 0), 0, false), Effect::AnimateSource(animation(7, 7, 0x2, 0x0, true)), TargetSpec::NoTarget)),
            _ => None,
        },
        193 => match i {
            0 => Some(tap_for(ManaColor::Colorless, 1)),
            1 => Some(activated(cost(true, mana(4, 0, 0, 0, 0, 0, 0), 0, false), Effect::Investigate, TargetSpec::NoTarget)),
            _ => None,
        },
        194 => match i {
            0 => Some(tap_for(ManaColor::Blue, 1)),
            _ => None,
        },
        195 => match i {
            0 => Some(tap_for(ManaColor::White, 1)),
            _ => None,
        },
        196 => match i {
            0 => Some(tap_for(ManaColor::Black, 1)),
            _ => None,
        },
        197 => match i {
            0 => Some(tap_for(ManaColor::Green, 1)),
            _ => None,
        },
        198 => match i {
            0 => Some(tap_for(ManaColor::Red, 1)),
            _ => None,
        },
        199 => match i {
            0 => Some(tap_for(ManaColor::Colorless, 1)),
            _ => None,
        },
        200 => match i {
            0 => Some(tap_for(ManaColor::Red, 1)),
            _ => None,
        },
        201 => match i {
            0 => Some(tap_for(ManaColor::Colorless, 1)),
            1 => Some(mana_ability(tap(), Effect::AddRestricted(ManaColor::White, 1, SpendRestriction::CreatureSpell))),
            _ => None,
        },
        202 => match i {
            0 => Some(tap_for(ManaColor::White, 1)),
            _ => None,
        },
        203 => match i {
            0 => Some(tap_for(ManaColor::Green, 1)),
            _ => None,
        },
        _ => None,
    }
}

/// The ability a card (or face) prints at index `i`, if it has one. (cards 204 to 215).
pub open spec fn spec_ability_17(c: CardIndex, i: u32) -> Option<Ability> {
    match c.0 {
        204 => match i {
            0 => Some(tap_for(ManaColor::Blue, 1)),
            _ => None,
        },
        205 => match i {
            0 => Some(tap_for(ManaColor::White, 1)),
            _ => None,
        },
        206 => match i {
            0 => Some(tap_for(ManaColor::Black, 1)),
            1 => Some(activated(cost(false, mana(1, 0, 0, 1, 0, 0, 0), 0, false), Effect::AnimateSource(animation(1, 1, 0x2, 0x0, true)), TargetSpec::NoTarget)),
            _ => None,
        },
        207 => match i {
            0 => Some(tap_for(ManaColor::Black, 1)),
            _ => None,
        },
        208 => match i {
            0 => Some(tap_for(ManaColor::Black, 1)),
            _ => None,
        },
        209 => match i {
            0 => Some(tap_for(ManaColor::Green, 1)),
            _ => None,
        },
        210 => match i {
            0 => Some(tap_for(ManaColor::Colorless, 1)),
            1 => Some(mana_ability(tap(), Effect::AddChoice { colors: 0x1f, amount: 1, times: 1, restriction: Some(SpendRestriction::VillainSpell) })),
            _ => None,
        },
        211 => match i {
            0 => Some(tap_for(ManaColor::Colorless, 1)),
            1 => Some(mana_ability(cost(true, mana(0, 0, 0, 0, 0, 0, 0), 1, false), Effect::AddChoice { colors: 0x1f, amount: 1, times: 1, restriction: Some(SpendRestriction::VampireSpell) })),
            _ => None,
        },
        212 => match i {
            0 => Some(tap_for(ManaColor::Blue, 1)),
            _ => None,
        },
        213 => match i {
            0 => Some(tap_for(ManaColor::Red, 1)),
            _ => None,
        },
        214 => match i {
            0 => Some(mana_ability(tap(), Effect::AddPair(ManaColor::Colorless, ManaColor::Red))),
            _ => None,
        },
        215 => match i {
            0 => Some(tap_for(ManaColor::Colorless, 1)),
            _ => None,
        },
        _ => None,
    }
}

/// The ability a card (or face) prints at index `i`, if it has one. (cards 204 to 215).
fn ability_at_17(c: CardIndex, i: u32) -> (r: Option<Ability>)
    ensures
        r == spec_ability_17(c, i),
{
    match c.0 {
        204 => match i {
            0 => Some(tap_for(ManaColor::Blue, 1)),
            _ => None,
        },
        205 => match i {
            0 => Some(tap_for(ManaColor::White, 1)),
            _ => None,
        },
        206 => match i {
            0 => Some(tap_for(ManaColor::Black, 1)),
            1 => Some(activated(cost(false, mana(1, 0, 0, 1, 0, 0, 0), 0, false), Effect::AnimateSource(animation(1, 1, 0x2, 0x0, true)), TargetSpec::NoTarget)),
            _ => None,
        },
        207 => match i {
            0 => Some(tap_for(ManaColor::Black, 1)),
            _ => None,
        },
        208 => match i {
            0 => Some(tap_for(ManaColor::Black, 1)),
            _ => None,
        },
        209 => match i {
            0 => Some(tap_for(ManaColor::Green, 1)),
            _ => None,
        },
        210 => match i {
            0 => Some(tap_for(ManaColor::Colorless, 1)),
            1 => Some(mana_ability(tap(), Effect::AddChoice { colors: 0x1f, amount: 1, times: 1, restriction: Some(SpendRestriction::VillainSpell) })),
            _ => None,
        },
        211 => match i {
            0 => Some(tap_for(ManaColor::Colorless, 1)),
            1 => Some(mana_ability(cost(true, mana(0, 0, 0, 0, 0, 0, 0), 1, false), Effect::AddChoice { colors: 0x1f, amount: 1, times: 1, restriction: Some(SpendRestriction::VampireSpell) })),
            _ => None,
        },
        212 => match i {
            0 => Some(tap_for(ManaColor::Blue, 1)),
            _ => None,
        },
        213 => match i {
            0 => Some(tap_for(ManaColor::Red, 1)),
            _ => None,
        },
        214 => match i {
            0 => Some(mana_ability(tap(), Effect::AddPair(ManaColor::Colorless, ManaColor::Red))),
            _ => None,
        },
        215 => match i {
            0 => Some(tap_for(ManaColor::Colorless, 1)),
            _ => None,
        },
        _ => None,
    }
}

/// The ability a card (or face) prints at index `i`, if it has one. (cards 216 to 227).
pub open spec fn spec_ability_18(c: CardIndex, i: u32) -> Option<Ability> {
    match c.0 {
        216 => match i {
            0 => Some(tap_for(ManaColor::Colorless, 1)),
            _ => None,
        },
        217 => match i {
            0 => Some(mana_ability(tap(), Effect::AddWhatALandCould)),
            _ => None,
        },
        218 => match i {
            0 => Some(tap_for(ManaColor::Colorless, 1)),
            _ => None,
        },
        219 => match i {
            0 => Some(tap_for(ManaColor::White, 1)),
            _ => None,
        },
        220 => match i {
            0 => Some(tap_for(ManaColor::Black, 1)),
            _ => None,
        },
        221 => match i {
            0 => Some(tap_for(ManaColor::Blue, 1)),
            _ => None,
        },
        222 => match i {
            0 => Some(tap_for(ManaColor::Red, 1)),
            _ => None,
        },
        223 => match i {
            0 => Some(tap_for(ManaColor::Green, 1)),
            _ => None,
        },
        224 => match i {
            0 => Some(tap_for(ManaColor::White, 1)),
            _ => None,
        },
        225 => match i {
            0 => Some(tap_for(ManaColor::Red, 1)),
            1 => Some(activated(cost(false, mana(3, 0, 0, 0, 1, 0, 0), 0, false), Effect::AnimateSource(animation(3, 2, 0x2, 0x0, true)), TargetSpec::NoTarget)),
            _ => None,
        },
        226 => match i {
            0 => Some(tap_for(ManaColor::Colorless, 1)),
            1 => Some(tap_for_one_of(0x1f)),
            _ => None,
        },
        227 => match i {
            0 => Some(tap_for(ManaColor::Green, 1)),
            _ => None,
        },
        _ => None,
    }
}

/// The ability a card (or face) prints at index `i`, if it has one. (cards 216 to 227).
fn ability_at_18(c: CardIndex, i: u32) -> (r: Option<Ability>)
    ensures
        r == spec_ability_18(c, i),
{
    match c.0 {
        216 => match i {
            0 => Some(tap_for(ManaColor::Colorless, 1)),
            _ => None,
        },
        217 => match i {
            0 => Some(mana_ability(tap(), Effect::AddWhatALandCould)),
            _ => None,
        },
        218 => match i {
            0 => Some(tap_for(ManaColor::Colorless, 1)),
            _ => None,
        },
        219 => match i {
            0 => Some(tap_for(ManaColor::White, 1)),
            _ => None,
        },
        220 => match i {
            0 => Some(tap_for(ManaColor::Black, 1)),
            _ => None,
        },
        221 => match i {
            0 => Some(tap_for(ManaColor::Blue, 1)),
            _ => None,
        },
        222 => match i {
            0 => Some(tap_for(ManaColor::Red, 1)),
            _ => None,
        },
        223 => match i {
            0 => Some(tap_for(ManaColor::Green, 1)),
            _ => None,
        },
        224 => match i {
            0 => Some(tap_for(ManaColor::White, 1)),
            _ => None,
        },
        225 => match i {
            0 => Some(tap_for(ManaColor::Red, 1)),
            1 => Some(activated(cost(false, mana(3, 0, 0, 0, 1, 0, 0), 0, false), Effect::AnimateSource(animation(3, 2, 0x2, 0x0, true)), TargetSpec::NoTarget)),
            _ => None,
        },
        226 => match i {
            0 => Some(tap_for(ManaColor::Colorless, 1)),
            1 => Some(tap_for_one_of(0x1f)),
            _ => None,
        },
        227 => match i {
            0 => Some(tap_for(ManaColor::Green, 1)),
            _ => None,
        },
        _ => None,
    }
}

/// The ability a card (or face) prints at index `i`, if it has one. (cards 228 to 239).
pub open spec fn spec_ability_19(c: CardIndex, i: u32) -> Option<Ability> {
    match c.0 {
        228 => match i {
            0 => Some(triggered(Trigger::EntersBattlefield, Effect::Surveil(1), TargetSpec::NoTarget)),
            1 => Some(tap_for(ManaColor::Colorless, 1)),
            2 => Some(mana_ability(tap(), Effect::AddChoice { colors: 0x1f, amount: 1, times: 1, restriction: Some(SpendRestriction::TimeLordOrAlienSpell) })),
            _ => None,
        },
        229 => match i {
            0 => Some(tap_for(ManaColor::Colorless, 1)),
            _ => None,
        },
        230 => match i {
            0 => Some(tap_for(ManaColor::Black, 1)),
            1 => Some(activated(cost(false, mana(3, 0, 0, 1, 0, 0, 0), 0, false), Effect::AnimateSource(animation(3, 3, 0x2, 0x10, true)), TargetSpec::NoTarget)),
            _ => None,
        },
        231 => match i {
            0 => Some(tap_for(ManaColor::Colorless, 1)),
            1 => Some(mana_ability(sacrificing(tap(), of_types(0x2)), Effect::AddChoice { colors: 0x1f, amount: 1, times: 1, restriction: None })),
            _ => None,
        },
        232 => match i {
            0 => Some(tap_for(ManaColor::Green, 1)),
            _ => None,
        },
        233 => match i {
            0 => Some(tap_for(ManaColor::Black, 1)),
            _ => None,
        },
        234 => match i {
            0 => Some(tap_for(ManaColor::Colorless, 1)),
            _ => None,
        },
        235 => match i {
            0 => Some(tap_for(ManaColor::Colorless, 1)),
            _ => None,
        },
        236 => match i {
            0 => Some(tap_for(ManaColor::Colorless, 1)),
            1 => Some(mana_ability(tap(), Effect::AddChoice { colors: 0x1f, amount: 1, times: 1, restriction: Some(SpendRestriction::LegendarySpell) })),
            _ => None,
        },
        237 => match i {
            0 => Some(tap_for(ManaColor::Colorless, 1)),
            1 => Some(mana_ability(tap(), Effect::AddChoice { colors: 0x1f, amount: 1, times: 1, restriction: Some(SpendRestriction::ElementalSpell) })),
            _ => None,
        },
        238 => match i {
            0 => Some(tap_for_one_of(0x14)),
            1 => Some(activated(cost(false, mana(2, 0, 0, 1, 0, 1, 0), 0, false), Effect::AnimateSource(animation(4, 4, 0x2, 0x0, true)), TargetSpec::NoTarget)),
            _ => None,
        },
        239 => match i {
            0 => Some(tap_for_one_of(0x5)),
            1 => Some(activated(cost(false, mana(2, 1, 0, 1, 0, 0, 0), 0, false), Effect::AnimateSource(animation(1, 4, 0x2, 0x0, true)), TargetSpec::NoTarget)),
            _ => None,
        },
        _ => None,
    }
}

/// The ability a card (or face) prints at index `i`, if it has one. (cards 228 to 239).
fn ability_at_19(c: CardIndex, i: u32) -> (r: Option<Ability>)
    ensures
        r == spec_ability_19(c, i),
{
    match c.0 {
        228 => match i {
            0 => Some(triggered(Trigger::EntersBattlefield, Effect::Surveil(1), TargetSpec::NoTarget)),
            1 => Some(tap_for(ManaColor::Colorless, 1)),
            2 => Some(mana_ability(tap(), Effect::AddChoice { colors: 0x1f, amount: 1, times: 1, restriction: Some(SpendRestriction::TimeLordOrAlienSpell) })),
            _ => None,
        },
        229 => match i {
            0 => Some(tap_for(ManaColor::Colorless, 1)),
            _ => None,
        },
        230 => match i {
            0 => Some(tap_for(ManaColor::Black, 1)),
            1 => Some(activated(cost(false, mana(3, 0, 0, 1, 0, 0, 0), 0, false), Effect::AnimateSource(animation(3, 3, 0x2, 0x10, true)), TargetSpec::NoTarget)),
            _ => None,
        },
        231 => match i {
            0 => Some(tap_for(ManaColor::Colorless, 1)),
            1 => Some(mana_ability(sacrificing(tap(), of_types(0x2)), Effect::AddChoice { colors: 0x1f, amount: 1, times: 1, restriction: None })),
            _ => None,
        },
        232 => match i {
            0 => Some(tap_for(ManaColor::Green, 1)),
            _ => None,
        },
        233 => match i {
            0 => Some(tap_for(ManaColor::Black, 1)),
            _ => None,
        },
        234 => match i {
            0 => Some(tap_for(ManaColor::Colorless, 1)),
            _ => None,
        },
        235 => match i {
            0 => Some(tap_for(ManaColor::Colorless, 1)),
            _ => None,
        },
        236 => match i {
            0 => Some(tap_for(ManaColor::Colorless, 1)),
            1 => Some(mana_ability(tap(), Effect::AddChoice { colors: 0x1f, amount: 1, times: 1, restriction: Some(SpendRestriction::LegendarySpell) })),
            _ => None,
        },
        237 => match i {
            0 => Some(tap_for(ManaColor::Colorless, 1)),
            1 => Some(mana_ability(tap(), Effect::AddChoice { colors: 0x1f, amount: 1, times: 1, restriction: Some(SpendRestriction::ElementalSpell) })),
            _ => None,
        },
        238 => match i {
            0 => Some(tap_for_one_of(0x14)),
            1 => Some(activated(cost(false, mana(2, 0, 0, 1, 0, 1, 0), 0, false), Effect::AnimateSource(animation(4, 4, 0x2, 0x0, true)), TargetSpec::NoTarget)),
            _ => None,
        },
        239 => match i {
            0 => Some(tap_for_one_of(0x5)),
            1 => Some(activated(cost(false, mana(2, 1, 0, 1, 0, 0, 0), 0, false), Effect::AnimateSource(animation(1, 4, 0x2, 0x0, true)), TargetSpec::NoTarget)),
            _ => None,
        },
        _ => None,
    }
}

/// The ability a card (or face) prints at index `i`, if it has one. (cards 240 to 251).
pub open spec fn spec_ability_20(c: CardIndex, i: u32) -> Option<Ability> {
    match c.0 {
        240 => match i {
            0 => Some(tap_for_one_of(0x11)),
            1 => Some(activated(cost(false, mana(2, 1, 0, 0, 0, 1, 0), 0, false), Effect::AnimateSource(animation(3, 3, 0x2, 0x0, true)), TargetSpec::NoTarget)),
            _ => None,
        },
        241 => match i {
            0 => Some(tap_for_one_of(0x18)),
            1 => Some(activated(cost(false, mana(2, 0, 0, 0, 1, 1, 0), 0, false), Effect::AnimateSource(animation(3, 4, 0x2, 0x0, true)), TargetSpec::NoTarget)),
            _ => None,
        },
        242 => match i {
            0 => Some(tap_for_one_of(0xa)),
            1 => Some(activated(cost(false, mana(0, 0, 1, 0, 1, 0, 0), 0, false), Effect::AnimateSource(animation(2, 1, 0x2, 0x0, true)), TargetSpec::NoTarget)),
            _ => None,
        },
        243 => match i {
            0 => Some(tap_for_one_of(0xc)),
            1 => Some(activated(cost(false, mana(1, 0, 0, 1, 1, 0, 0), 0, false), Effect::AnimateSource(animation(2, 3, 0x2, 0x10, true)), TargetSpec::NoTarget)),
            _ => None,
        },
        244 => match i {
            0 => Some(tap_for_one_of(0x12)),
            1 => Some(activated(cost(false, mana(3, 0, 1, 0, 0, 1, 0), 0, false), Effect::AnimateSource(animation(5, 5, 0x2, 0x2, true)), TargetSpec::NoTarget)),
            _ => None,
        },
        245 => match i {
            0 => Some(tap_for(ManaColor::Green, 1)),
            _ => None,
        },
        246 => match i {
            0 => Some(tap_for(ManaColor::Blue, 1)),
            _ => None,
        },
        247 => match i {
            0 => Some(tap_for(ManaColor::Colorless, 1)),
            _ => None,
        },
        248 => None,
        249 => match i {
            0 => Some(with_rider(tap_for(ManaColor::Blue, 1), ManaRider::TimeCounter)),
            _ => None,
        },
        250 => match i {
            0 => Some(tap_for(ManaColor::White, 1)),
            1 => Some(activated(cost(false, mana(4, 1, 0, 0, 0, 0, 0), 0, false), Effect::AnimateSource(animation(3, 4, 0x2, 0x1, true)), TargetSpec::NoTarget)),
            _ => None,
        },
        251 => None,
        _ => None,
    }
}

/// The ability a card (or face) prints at index `i`, if it has one. (cards 240 to 251).
fn ability_at_20(c: CardIndex, i: u32) -> (r: Option<Ability>)
    ensures
        r == spec_ability_20(c, i),
{
    match c.0 {
        240 => match i {
            0 => Some(tap_for_one_of(0x11)),
            1 => Some(activated(cost(false, mana(2, 1, 0, 0, 0, 1, 0), 0, false), Effect::AnimateSource(animation(3, 3, 0x2, 0x0, true)), TargetSpec::NoTarget)),
            _ => None,
        },
        241 => match i {
            0 => Some(tap_for_one_of(0x18)),
            1 => Some(activated(cost(false, mana(2, 0, 0, 0, 1, 1, 0), 0, false), Effect::AnimateSource(animation(3, 4, 0x2, 0x0, true)), TargetSpec::NoTarget)),
            _ => None,
        },
        242 => match i {
            0 => Some(tap_for_one_of(0xa)),
            1 => Some(activated(cost(false, mana(0, 0, 1, 0, 1, 0, 0), 0, false), Effect::AnimateSource(animation(2, 1, 0x2, 0x0, true)), TargetSpec::NoTarget)),
            _ => None,
        },
        243 => match i {
            0 => Some(tap_for_one_of(0xc)),
            1 => Some(activated(cost(false, mana(1, 0, 0, 1, 1, 0, 0), 0, false), Effect::AnimateSource(animation(2, 3, 0x2, 0x10, true)), TargetSpec::NoTarget)),
            _ => None,
        },
        244 => match i {
            0 => Some(tap_for_one_of(0x12)),
            1 => Some(activated(cost(false, mana(3, 0, 1, 0, 0, 1, 0), 0, false), Effect::AnimateSource(animation(5, 5, 0x2, 0x2, true)), TargetSpec::NoTarget)),
            _ => None,
        },
        245 => match i {
            0 => Some(tap_for(ManaColor::Green, 1)),
            _ => None,
        },
        246 => match i {
            0 => Some(tap_for(ManaColor::Blue, 1)),
            _ => None,
        },
        247 => match i {
            0 => Some(tap_for(ManaColor::Colorless, 1)),
            _ => None,
        },
        248 => None,
        249 => match i {
            0 => Some(with_rider(tap_for(ManaColor::Blue, 1), ManaRider::TimeCounter)),
            _ => None,
        },
        250 => match i {
            0 => Some(tap_for(ManaColor::White, 1)),
            1 => Some(activated(cost(false, mana(4, 1, 0, 0, 0, 0, 0), 0, false), Effect::AnimateSource(animation(3, 4, 0x2, 0x1, true)), TargetSpec::NoTarget)),
            _ => None,
        },
        251 => None,
        _ => None,
    }
}

/// The ability a card (or face) prints at index `i`, if it has one. (cards 252 to 263).
pub open spec fn spec_ability_21(c: CardIndex, i: u32) -> Option<Ability> {
    match c.0 {
        252 => match i {
            0 => Some(mana_ability(tap(), Effect::AddWhatAnOpponentsLandCould)),
            _ => None,
        },
        253 => match i {
            0 => Some(tap_for(ManaColor::Colorless, 1)),
            1 => Some(activated(cost(true, mana(1, 0, 1, 0, 0, 0, 0), 0, false), Effect::TargetCardToLibraryTop, TargetSpec::CardInYourGraveyard(of_types(0x4)))),
            _ => None,
        },
        254 => match i {
            0 => Some(tap_for(ManaColor::Colorless, 1)),
            1 => Some(activated(cost(true, mana(2, 0, 0, 0, 0, 0, 0), 0, true), Effect::TargetCardToHand, TargetSpec::CardInYourGraveyard(of_types(0x4)))),
            _ => None,
        },
        255 => match i {
            0 => Some(tap_for(ManaColor::Green, 1)),
            _ => None,
        },
        256 => match i {
            0 => Some(tap_for(ManaColor::Colorless, 1)),
            1 => Some(mana_ability(sacrificing(tap(), of_types(0x2)), Effect::AddMana(ManaColor::Black, 2))),
            _ => None,
        },
        257 => match i {
            0 => Some(tap_for(ManaColor::Colorless, 1)),
            1 => Some(mana_ability(tapping(tap(), of_types(0x2)), Effect::AddChoice { colors: 0x1f, amount: 1, times: 1, restriction: None })),
            _ => None,
        },
        258 => match i {
            0 => Some(tap_for(ManaColor::Colorless, 1)),
            1 => Some(mana_ability(tapping(tap(), of_types(0x2)), Effect::AddChoice { colors: 0x1f, amount: 1, times: 1, restriction: None })),
            _ => None,
        },
        259 => match i {
            0 => Some(tap_for(ManaColor::Colorless, 1)),
            1 => Some(mana_ability(tapping(tap(), of_types(0x2)), Effect::AddChoice { colors: 0x1f, amount: 1, times: 1, restriction: None })),
            _ => None,
        },
        260 => match i {
            0 => Some(tap_for(ManaColor::Red, 1)),
            1 => Some(mana_ability(removing(tap(), CounterKind::Charge, 1), Effect::AddChoice { colors: 0x1f, amount: 1, times: 1, restriction: None })),
            _ => None,
        },
        261 => match i {
            0 => Some(tap_for(ManaColor::Blue, 1)),
            1 => Some(mana_ability(removing(tap(), CounterKind::Charge, 1), Effect::AddChoice { colors: 0x1f, amount: 1, times: 1, restriction: None })),
            _ => None,
        },
        262 => match i {
            0 => Some(tap_for(ManaColor::Green, 1)),
            1 => Some(mana_ability(removing(tap(), CounterKind::Charge, 1), Effect::AddChoice { colors: 0x1f, amount: 1, times: 1, restriction: None })),
            _ => None,
        },
        263 => match i {
            0 => Some(tap_for(ManaColor::Black, 1)),
            1 => Some(mana_ability(removing(tap(), CounterKind::Charge, 1), Effect::AddChoice { colors: 0x1f, amount: 1, times: 1, restriction: None })),
            _ => None,
        },
        _ => None,
    }
}

/// The ability a card (or face) prints at index `i`, if it has one. (cards 252 to 263).
fn ability_at_21(c: CardIndex, i: u32) -> (r: Option<Ability>)
    ensures
        r == spec_ability_21(c, i),
{
    match c.0 {
        252 => match i {
            0 => Some(mana_ability(tap(), Effect::AddWhatAnOpponentsLandCould)),
            _ => None,
        },
        253 => match i {
            0 => Some(tap_for(ManaColor::Colorless, 1)),
            1 => Some(activated(cost(true, mana(1, 0, 1, 0, 0, 0, 0), 0, false), Effect::TargetCardToLibraryTop, TargetSpec::CardInYourGraveyard(of_types(0x4)))),
            _ => None,
        },
        254 => match i {
            0 => Some(tap_for(ManaColor::Colorless, 1)),
            1 => Some(activated(cost(true, mana(2, 0, 0, 0, 0, 0, 0), 0, true), Effect::TargetCardToHand, TargetSpec::CardInYourGraveyard(of_types(0x4)))),
            _ => None,
        },
        255 => match i {
            0 => Some(tap_for(ManaColor::Green, 1)),
            _ => None,
        },
        256 => match i {
            0 => Some(tap_for(ManaColor::Colorless, 1)),
            1 => Some(mana_ability(sacrificing(tap(), of_types(0x2)), Effect::AddMana(ManaColor::Black, 2))),
            _ => None,
        },
        257 => match i {
            0 => Some(tap_for(ManaColor::Colorless, 1)),
            1 => Some(mana_ability(tapping(tap(), of_types(0x2)), Effect::AddChoice { colors: 0x1f, amount: 1, times: 1, restriction: None })),
            _ => None,
        },
        258 => match i {
            0 => Some(tap_for(ManaColor::Colorless, 1)),
            1 => Some(mana_ability(tapping(tap(), of_types(0x2)), Effect::AddChoice { colors: 0x1f, amount: 1, times: 1, restriction: None })),
            _ => None,
        },
        259 => match i {
            0 => Some(tap_for(ManaColor::Colorless, 1)),
            1 => Some(mana_ability(tapping(tap(), of_types(0x2)), Effect::AddChoice { colors: 0x1f, amount: 1, times: 1, restriction: None })),
            _ => None,
        },
        260 => match i {
            0 => Some(tap_for(ManaColor::Red, 1)),
            1 => Some(mana_ability(removing(tap(), CounterKind::Charge, 1), Effect::AddChoice { colors: 0x1f, amount: 1, times: 1, restriction: None })),
            _ => None,
        },
        261 => match i {
            0 => Some(tap_for(ManaColor::Blue, 1)),
            1 => Some(mana_ability(removing(tap(), CounterKind::Charge, 1), Effect::AddChoice { colors: 0x1f, amount: 1, times: 1, restriction: None })),
            _ => None,
        },
        262 => match i {
            0 => Some(tap_for(ManaColor::Green, 1)),
            1 => Some(mana_ability(removing(tap(), CounterKind::Charge, 1), Effect::AddChoice { colors: 0x1f, amount: 1, times: 1, restriction: None })),
            _ => None,
        },
        263 => match i {
            0 => Some(tap_for(ManaColor::Black, 1)),
            1 => Some(mana_ability(removing(tap(), CounterKind::Charge, 1), Effect::AddChoice { colors: 0x1f, amount: 1, times: 1, restriction: None })),
            _ => None,
        },
        _ => None,
    }
}

/// The ability a card (or face) prints at index `i`, if it has one. (cards 264 to 275).
pub open spec fn spec_ability_22(c: CardIndex, i: u32) -> Option<Ability> {
    match c.0 {
        264 => match i {
            0 => Some(tap_for(ManaColor::White, 1)),
            1 => Some(mana_ability(removing(tap(), CounterKind::Charge, 1), Effect::AddChoice { colors: 0x1f, amount: 1, times: 1, restriction: None })),
            _ => None,
        },
        265 => match i {
            0 => Some(tap_for(ManaColor::Colorless, 1)),
            1 => Some(mana_ability(removing(tap(), CounterKind::Charge, 1), Effect::AddChoice { colors: 0x1f, amount: 1, times: 1, restriction: None })),
            _ => None,
        },
        266 => match i {
            0 => Some(tap_for(ManaColor::Colorless, 1)),
            1 => Some(activated(tap(), Effect::CountersOnSource(CounterKind::Charge, 1), TargetSpec::NoTarget)),
            2 => Some(mana_ability(removing(tap(), CounterKind::Charge, 1), Effect::AddChoice { colors: 0x1f, amount: 1, times: 1, restriction: None })),
            _ => None,
        },
        267 => None,
        268 => match i {
            0 => Some(with_rider(mana_ability(removing(tap(), CounterKind::Depletion, 1), Effect::AddMana(ManaColor::Green, 2)), ManaRider::SacrificeIfEmpty)),
            _ => None,
        },
        269 => match i {
            0 => Some(with_rider(mana_ability(removing(tap(), CounterKind::Depletion, 1), Effect::AddMana(ManaColor::Black, 2)), ManaRider::SacrificeIfEmpty)),
            _ => None,
        },
        270 => match i {
            0 => Some(with_rider(mana_ability(removing(tap(), CounterKind::Depletion, 1), Effect::AddMana(ManaColor::White, 2)), ManaRider::SacrificeIfEmpty)),
            _ => None,
        },
        271 => match i {
            0 => Some(with_rider(mana_ability(removing(tap(), CounterKind::Depletion, 1), Effect::AddMana(ManaColor::Red, 2)), ManaRider::SacrificeIfEmpty)),
            _ => None,
        },
        272 => match i {
            0 => Some(with_rider(mana_ability(removing(tap(), CounterKind::Depletion, 1), Effect::AddMana(ManaColor::Blue, 2)), ManaRider::SacrificeIfEmpty)),
            _ => None,
        },
        273 => match i {
            0 => Some(with_rider(mana_ability(removing(tap(), CounterKind::Mining, 1), Effect::AddChoice { colors: 0x1f, amount: 1, times: 1, restriction: None }), ManaRider::SacrificeIfEmpty)),
            _ => None,
        },
        274 => match i {
            0 => Some(activated(tap(), Effect::CountersOnSource(CounterKind::Storage, 1), TargetSpec::NoTarget)),
            1 => Some(mana_ability(removing_any(tap(), CounterKind::Storage), Effect::AddPerCounterRemoved(ManaColor::White))),
            _ => None,
        },
        275 => match i {
            0 => Some(tap_for(ManaColor::Colorless, 1)),
            1 => Some(activated(cost(true, mana(1, 0, 0, 0, 0, 0, 0), 0, false), Effect::CountersOnSource(CounterKind::Storage, 1), TargetSpec::NoTarget)),
            2 => Some(mana_ability(removing_any(tap(), CounterKind::Storage), Effect::AddPerCounterRemoved(ManaColor::Colorless))),
            _ => None,
        },
        _ => None,
    }
}

/// The ability a card (or face) prints at index `i`, if it has one. (cards 264 to 275).
fn ability_at_22(c: CardIndex, i: u32) -> (r: Option<Ability>)
    ensures
        r == spec_ability_22(c, i),
{
    match c.0 {
        264 => match i {
            0 => Some(tap_for(ManaColor::White, 1)),
            1 => Some(mana_ability(removing(tap(), CounterKind::Charge, 1), Effect::AddChoice { colors: 0x1f, amount: 1, times: 1, restriction: None })),
            _ => None,
        },
        265 => match i {
            0 => Some(tap_for(ManaColor::Colorless, 1)),
            1 => Some(mana_ability(removing(tap(), CounterKind::Charge, 1), Effect::AddChoice { colors: 0x1f, amount: 1, times: 1, restriction: None })),
            _ => None,
        },
        266 => match i {
            0 => Some(tap_for(ManaColor::Colorless, 1)),
            1 => Some(activated(tap(), Effect::CountersOnSource(CounterKind::Charge, 1), TargetSpec::NoTarget)),
            2 => Some(mana_ability(removing(tap(), CounterKind::Charge, 1), Effect::AddChoice { colors: 0x1f, amount: 1, times: 1, restriction: None })),
            _ => None,
        },
        267 => None,
        268 => match i {
            0 => Some(with_rider(mana_ability(removing(tap(), CounterKind::Depletion, 1), Effect::AddMana(ManaColor::Green, 2)), ManaRider::SacrificeIfEmpty)),
            _ => None,
        },
        269 => match i {
            0 => Some(with_rider(mana_ability(removing(tap(), CounterKind::Depletion, 1), Effect::AddMana(ManaColor::Black, 2)), ManaRider::SacrificeIfEmpty)),
            _ => None,
        },
        270 => match i {
            0 => Some(with_rider(mana_ability(removing(tap(), CounterKind::Depletion, 1), Effect::AddMana(ManaColor::White, 2)), ManaRider::SacrificeIfEmpty)),
            _ => None,
        },
        271 => match i {
            0 => Some(with_rider(mana_ability(removing(tap(), CounterKind::Depletion, 1), Effect::AddMana(ManaColor::Red, 2)), ManaRider::SacrificeIfEmpty)),
            _ => None,
        },
        272 => match i {
            0 => Some(with_rider(mana_ability(removing(tap(), CounterKind::Depletion, 1), Effect::AddMana(ManaColor::Blue, 2)), ManaRider::SacrificeIfEmpty)),
            _ => None,
        },
        273 => match i {
            0 => Some(with_rider(mana_ability(removing(tap(), CounterKind::Mining, 1), Effect::AddChoice { colors: 0x1f, amount: 1, times: 1, restriction: None }), ManaRider::SacrificeIfEmpty)),
            _ => None,
        },
        274 => match i {
            0 => Some(activated(tap(), Effect::CountersOnSource(CounterKind::Storage, 1), TargetSpec::NoTarget)),
            1 => Some(mana_ability(removing_any(tap(), CounterKind::Storage), Effect::AddPerCounterRemoved(ManaColor::White))),
            _ => None,
        },
        275 => match i {
            0 => Some(tap_for(ManaColor::Colorless, 1)),
            1 => Some(activated(cost(true, mana(1, 0, 0, 0, 0, 0, 0), 0, false), Effect::CountersOnSource(CounterKind::Storage, 1), TargetSpec::NoTarget)),
            2 => Some(mana_ability(removing_any(tap(), CounterKind::Storage), Effect::AddPerCounterRemoved(ManaColor::Colorless))),
            _ => None,
        },
        _ => None,
    }
}

/// The ability a card (or face) prints at index `i`, if it has one. (cards 276 to 287).
pub open spec fn spec_ability_23(c: CardIndex, i: u32) -> Option<Ability> {
    match c.0 {
        276 => match i {
            0 => Some(activated(tap(), Effect::CountersOnSource(CounterKind::Storage, 1), TargetSpec::NoTarget)),
            1 => Some(mana_ability(removing_any(tap(), CounterKind::Storage), Effect::AddPerCounterRemoved(ManaColor::Blue))),
            _ => None,
        },
        277 => match i {
            0 => Some(activated(tap(), Effect::CountersOnSource(CounterKind::Storage, 1), TargetSpec::NoTarget)),
            1 => Some(mana_ability(removing_any(tap(), CounterKind::Storage), Effect::AddPerCounterRemoved(ManaColor::Black))),
            _ => None,
        },
        278 => match i {
            0 => Some(activated(tap(), Effect::CountersOnSource(CounterKind::Storage, 1), TargetSpec::NoTarget)),
            1 => Some(mana_ability(removing_any(tap(), CounterKind::Storage), Effect::AddPerCounterRemoved(ManaColor::Red))),
            _ => None,
        },
        279 => match i {
            0 => Some(activated(tap(), Effect::CountersOnSource(CounterKind::Storage, 1), TargetSpec::NoTarget)),
            1 => Some(mana_ability(removing_any(tap(), CounterKind::Storage), Effect::AddPerCounterRemoved(ManaColor::Green))),
            _ => None,
        },
        280 => match i {
            0 => Some(tap_for(ManaColor::Colorless, 1)),
            1 => Some(activated(cost(true, mana(1, 0, 0, 0, 0, 0, 0), 0, false), Effect::CountersOnSource(CounterKind::Storage, 1), TargetSpec::NoTarget)),
            2 => Some(mana_ability(removing_any(cost(false, mana(1, 0, 0, 0, 0, 0, 0), 0, false), CounterKind::Storage), Effect::AddEitherPerCounterRemoved(ManaColor::White, ManaColor::Blue))),
            _ => None,
        },
        281 => match i {
            0 => Some(tap_for(ManaColor::Colorless, 1)),
            1 => Some(activated(cost(true, mana(1, 0, 0, 0, 0, 0, 0), 0, false), Effect::CountersOnSource(CounterKind::Storage, 1), TargetSpec::NoTarget)),
            2 => Some(mana_ability(removing_any(cost(false, mana(1, 0, 0, 0, 0, 0, 0), 0, false), CounterKind::Storage), Effect::AddEitherPerCounterRemoved(ManaColor::Blue, ManaColor::Black))),
            _ => None,
        },
        282 => match i {
            0 => Some(tap_for(ManaColor::Colorless, 1)),
            1 => Some(activated(cost(true, mana(1, 0, 0, 0, 0, 0, 0), 0, false), Effect::CountersOnSource(CounterKind::Storage, 1), TargetSpec::NoTarget)),
            2 => Some(mana_ability(removing_any(cost(false, mana(1, 0, 0, 0, 0, 0, 0), 0, false), CounterKind::Storage), Effect::AddEitherPerCounterRemoved(ManaColor::Red, ManaColor::Green))),
            _ => None,
        },
        283 => match i {
            0 => Some(tap_for(ManaColor::Colorless, 1)),
            1 => Some(activated(cost(true, mana(1, 0, 0, 0, 0, 0, 0), 0, false), Effect::CountersOnSource(CounterKind::Storage, 1), TargetSpec::NoTarget)),
            2 => Some(mana_ability(removing_any(cost(false, mana(1, 0, 0, 0, 0, 0, 0), 0, false), CounterKind::Storage), Effect::AddEitherPerCounterRemoved(ManaColor::Black, ManaColor::Red))),
            _ => None,
        },
        284 => match i {
            0 => Some(tap_for(ManaColor::Colorless, 1)),
            1 => Some(activated(cost(true, mana(1, 0, 0, 0, 0, 0, 0), 0, false), Effect::CountersOnSource(CounterKind::Storage, 1), TargetSpec::NoTarget)),
            2 => Some(mana_ability(removing_any(cost(false, mana(1, 0, 0, 0, 0, 0, 0), 0, false), CounterKind::Storage), Effect::AddEitherPerCounterRemoved(ManaColor::Green, ManaColor::White))),
            _ => None,
        },
        285 => match i {
            0 => Some(tap_for(ManaColor::Colorless, 1)),
            1 => Some(mana_ability(cost(true, mana(5, 0, 0, 0, 0, 0, 0), 0, false), Effect::AddChoice { colors: 0x1f, amount: 1, times: 5, restriction: None })),
            _ => None,
        },
        286 => match i {
            0 => Some(tap_for(ManaColor::Colorless, 1)),
            1 => Some(mana_ability(hybrid(tap(), ManaColor::White, ManaColor::Blue), Effect::AddEither(ManaColor::White, ManaColor::Blue, 2))),
            _ => None,
        },
        287 => match i {
            0 => Some(tap_for(ManaColor::Colorless, 1)),
            1 => Some(mana_ability(hybrid(tap(), ManaColor::White, ManaColor::Black), Effect::AddEither(ManaColor::White, ManaColor::Black, 2))),
            _ => None,
        },
        _ => None,
    }
}

/// The ability a card (or face) prints at index `i`, if it has one. (cards 276 to 287).
fn ability_at_23(c: CardIndex, i: u32) -> (r: Option<Ability>)
    ensures
        r == spec_ability_23(c, i),
{
    match c.0 {
        276 => match i {
            0 => Some(activated(tap(), Effect::CountersOnSource(CounterKind::Storage, 1), TargetSpec::NoTarget)),
            1 => Some(mana_ability(removing_any(tap(), CounterKind::Storage), Effect::AddPerCounterRemoved(ManaColor::Blue))),
            _ => None,
        },
        277 => match i {
            0 => Some(activated(tap(), Effect::CountersOnSource(CounterKind::Storage, 1), TargetSpec::NoTarget)),
            1 => Some(mana_ability(removing_any(tap(), CounterKind::Storage), Effect::AddPerCounterRemoved(ManaColor::Black))),
            _ => None,
        },
        278 => match i {
            0 => Some(activated(tap(), Effect::CountersOnSource(CounterKind::Storage, 1), TargetSpec::NoTarget)),
            1 => Some(mana_ability(removing_any(tap(), CounterKind::Storage), Effect::AddPerCounterRemoved(ManaColor::Red))),
            _ => None,
        },
        279 => match i {
            0 => Some(activated(tap(), Effect::CountersOnSource(CounterKind::Storage, 1), TargetSpec::NoTarget)),
            1 => Some(mana_ability(removing_any(tap(), CounterKind::Storage), Effect::AddPerCounterRemoved(ManaColor::Green))),
            _ => None,
        },
        280 => match i {
            0 => Some(tap_for(ManaColor::Colorless, 1)),
            1 => Some(activated(cost(true, mana(1, 0, 0, 0, 0, 0, 0), 0, false), Effect::CountersOnSource(CounterKind::Storage, 1), TargetSpec::NoTarget)),
            2 => Some(mana_ability(removing_any(cost(false, mana(1, 0, 0, 0, 0, 0, 0), 0, false), CounterKind::Storage), Effect::AddEitherPerCounterRemoved(ManaColor::White, ManaColor::Blue))),
            _ => None,
        },
        281 => match i {
            0 => Some(tap_for(ManaColor::Colorless, 1)),
            1 => Some(activated(cost(true, mana(1, 0, 0, 0, 0, 0, 0), 0, false), Effect::CountersOnSource(CounterKind::Storage, 1), TargetSpec::NoTarget)),
            2 => Some(mana_ability(removing_any(cost(false, mana(1, 0, 0, 0, 0, 0, 0), 0, false), CounterKind::Storage), Effect::AddEitherPerCounterRemoved(ManaColor::Blue, ManaColor::Black))),
            _ => None,
        },
        282 => match i {
            0 => Some(tap_for(ManaColor::Colorless, 1)),
            1 => Some(activated(cost(true, mana(1, 0, 0, 0, 0, 0, 0), 0, false), Effect::CountersOnSource(CounterKind::Storage, 1), TargetSpec::NoTarget)),
            2 => Some(mana_ability(removing_any(cost(false, mana(1, 0, 0, 0, 0, 0, 0), 0, false), CounterKind::Storage), Effect::AddEitherPerCounterRemoved(ManaColor::Red, ManaColor::Green))),
            _ => None,
        },
        283 => match i {
            0 => Some(tap_for(ManaColor::Colorless, 1)),
            1 => Some(activated(cost(true, mana(1, 0, 0, 0, 0, 0, 0), 0, false), Effect::CountersOnSource(CounterKind::Storage, 1), TargetSpec::NoTarget)),
            2 => Some(mana_ability(removing_any(cost(false, mana(1, 0, 0, 0, 0, 0, 0), 0, false), CounterKind::Storage), Effect::AddEitherPerCounterRemoved(ManaColor::Black, ManaColor::Red))),
            _ => None,
        },
        284 => match i {
            0 => Some(tap_for(ManaColor::Colorless, 1)),
            1 => Some(activated(cost(true, mana(1, 0, 0, 0, 0, 0, 0), 0, false), Effect::CountersOnSource(CounterKind::Storage, 1), TargetSpec::NoTarget)),
            2 => Some(mana_ability(removing_any(cost(false, mana(1, 0, 0, 0, 0, 0, 0), 0, false), CounterKind::Storage), Effect::AddEitherPerCounterRemoved(ManaColor::Green, ManaColor::White))),
            _ => None,
        },
        285 => match i {
            0 => Some(tap_for(ManaColor::Colorless, 1)),
            1 => Some(mana_ability(cost(true, mana(5, 0, 0, 0, 0, 0, 0), 0, false), Effect::AddChoice { colors: 0x1f, amount: 1, times: 5, restriction: None })),
            _ => None,
        },
        286 => match i {
            0 => Some(tap_for(ManaColor::Colorless, 1)),
            1 => Some(mana_ability(hybrid(tap(), ManaColor::White, ManaColor::Blue), Effect::AddEither(ManaColor::White, ManaColor::Blue, 2))),
            _ => None,
        },
        287 => match i {
            0 => Some(tap_for(ManaColor::Colorless, 1)),
            1 => Some(mana_ability(hybrid(tap(), ManaColor::White, ManaColor::Black), Effect::AddEither(ManaColor::White, ManaColor::Black, 2))),
            _ => None,
        },
        _ => None,
    }
}

/// The ability a card (or face) prints at index `i`, if it has one. (cards 288 to 299).
pub open spec fn spec_ability_24(c: CardIndex, i: u32) -> Option<Ability> {
    match c.0 {
        288 => match i {
            0 => Some(tap_for(ManaColor::Colorless, 1)),
            1 => Some(mana_ability(hybrid(tap(), ManaColor::Blue, ManaColor::Red), Effect::AddEither(ManaColor::Blue, ManaColor::Red, 2))),
            _ => None,
        },
        289 => match i {
            0 => Some(tap_for(ManaColor::Colorless, 1)),
            1 => Some(mana_ability(hybrid(tap(), ManaColor::Blue, ManaColor::Black), Effect::AddEither(ManaColor::Blue, ManaColor::Black, 2))),
            _ => None,
        },
        290 => match i {
            0 => Some(tap_for(ManaColor::Colorless, 1)),
            1 => Some(mana_ability(hybrid(tap(), ManaColor::Green, ManaColor::Blue), Effect::AddEither(ManaColor::Green, ManaColor::Blue, 2))),
            _ => None,
        },
        291 => match i {
            0 => Some(tap_for(ManaColor::Colorless, 1)),
            1 => Some(mana_ability(hybrid(tap(), ManaColor::Green, ManaColor::White), Effect::AddEither(ManaColor::Green, ManaColor::White, 2))),
            _ => None,
        },
        292 => match i {
            0 => Some(tap_for(ManaColor::Colorless, 1)),
            1 => Some(mana_ability(hybrid(tap(), ManaColor::Red, ManaColor::Green), Effect::AddEither(ManaColor::Red, ManaColor::Green, 2))),
            _ => None,
        },
        293 => match i {
            0 => Some(tap_for(ManaColor::Colorless, 1)),
            1 => Some(mana_ability(hybrid(tap(), ManaColor::Red, ManaColor::White), Effect::AddEither(ManaColor::Red, ManaColor::White, 2))),
            _ => None,
        },
        294 => match i {
            0 => Some(tap_for(ManaColor::Colorless, 1)),
            1 => Some(mana_ability(hybrid(tap(), ManaColor::Black, ManaColor::Red), Effect::AddEither(ManaColor::Black, ManaColor::Red, 2))),
            _ => None,
        },
        295 => match i {
            0 => Some(tap_for(ManaColor::Colorless, 1)),
            1 => Some(mana_ability(hybrid(tap(), ManaColor::Black, ManaColor::Green), Effect::AddEither(ManaColor::Black, ManaColor::Green, 2))),
            _ => None,
        },
        296 => match i {
            0 => Some(mana_ability(cost(true, mana(2, 0, 0, 0, 0, 0, 0), 0, false), Effect::AddPerPermanent(ManaColor::Black, of_subtypes(0x4)))),
            _ => None,
        },
        297 => match i {
            0 => Some(tap_for(ManaColor::Colorless, 1)),
            1 => Some(mana_ability(cost(true, mana(3, 0, 0, 0, 0, 0, 0), 0, false), Effect::AddPerPermanent(ManaColor::Black, Filter { basic: true, ..of_subtypes(0x4) }))),
            _ => None,
        },
        298 => match i {
            0 => Some(mana_ability(tap(), Effect::AddPerPermanent(ManaColor::White, of_types(0x8)))),
            _ => None,
        },
        299 => match i {
            0 => Some(mana_ability(tap(), Effect::AddPerPermanent(ManaColor::Blue, of_types(0x4)))),
            _ => None,
        },
        _ => None,
    }
}

/// The ability a card (or face) prints at index `i`, if it has one. (cards 288 to 299).
fn ability_at_24(c: CardIndex, i: u32) -> (r: Option<Ability>)
    ensures
        r == spec_ability_24(c, i),
{
    match c.0 {
        288 => match i {
            0 => Some(tap_for(ManaColor::Colorless, 1)),
            1 => Some(mana_ability(hybrid(tap(), ManaColor::Blue, ManaColor::Red), Effect::AddEither(ManaColor::Blue, ManaColor::Red, 2))),
            _ => None,
        },
        289 => match i {
            0 => Some(tap_for(ManaColor::Colorless, 1)),
            1 => Some(mana_ability(hybrid(tap(), ManaColor::Blue, ManaColor::Black), Effect::AddEither(ManaColor::Blue, ManaColor::Black, 2))),
            _ => None,
        },
        290 => match i {
            0 => Some(tap_for(ManaColor::Colorless, 1)),
            1 => Some(mana_ability(hybrid(tap(), ManaColor::Green, ManaColor::Blue), Effect::AddEither(ManaColor::Green, ManaColor::Blue, 2))),
            _ => None,
        },
        291 => match i {
            0 => Some(tap_for(ManaColor::Colorless, 1)),
            1 => Some(mana_ability(hybrid(tap(), ManaColor::Green, ManaColor::White), Effect::AddEither(ManaColor::Green, ManaColor::White, 2))),
            _ => None,
        },
        292 => match i {
            0 => Some(tap_for(ManaColor::Colorless, 1)),
            1 => Some(mana_ability(hybrid(tap(), ManaColor::Red, ManaColor::Green), Effect::AddEither(ManaColor::Red, ManaColor::Green, 2))),
            _ => None,
        },
        293 => match i {
            0 => Some(tap_for(ManaColor::Colorless, 1)),
            1 => Some(mana_ability(hybrid(tap(), ManaColor::Red, ManaColor::White), Effect::AddEither(ManaColor::Red, ManaColor::White, 2))),
            _ => None,
        },
        294 => match i {
            0 => Some(tap_for(ManaColor::Colorless, 1)),
            1 => Some(mana_ability(hybrid(tap(), ManaColor::Black, ManaColor::Red), Effect::AddEither(ManaColor::Black, ManaColor::Red, 2))),
            _ => None,
        },
        295 => match i {
            0 => Some(tap_for(ManaColor::Colorless, 1)),
            1 => Some(mana_ability(hybrid(tap(), ManaColor::Black, ManaColor::Green), Effect::AddEither(ManaColor::Black, ManaColor::Green, 2))),
            _ => None,
        },
        296 => match i {
            0 => Some(mana_ability(cost(true, mana(2, 0, 0, 0, 0, 0, 0), 0, false), Effect::AddPerPermanent(ManaColor::Black, of_subtypes(0x4)))),
            _ => None,
        },
        297 => match i {
            0 => Some(tap_for(ManaColor::Colorless, 1)),
            1 => Some(mana_ability(cost(true, mana(3, 0, 0, 0, 0, 0, 0), 0, false), Effect::AddPerPermanent(ManaColor::Black, Filter { basic: true, ..of_subtypes(0x4) }))),
            _ => None,
        },
        298 => match i {
            0 => Some(mana_ability(tap(), Effect::AddPerPermanent(ManaColor::White, of_types(0x8)))),
            _ => None,
        },
        299 => match i {
            0 => Some(mana_ability(tap(), Effect::AddPerPermanent(ManaColor::Blue, of_types(0x4)))),
            _ => None,
        },
        _ => None,
    }
}

/// The ability a card (or face) prints at index `i`, if it has one. (cards 300 to 311).
pub open spec fn spec_ability_25(c: CardIndex, i: u32) -> Option<Ability> {
    match c.0 {
        300 => match i {
            0 => Some(tap_for(ManaColor::Colorless, 1)),
            1 => Some(mana_ability(cost(true, mana(2, 0, 0, 0, 0, 0, 0), 0, false), Effect::AddOneColorPerOther(of_subtypes(0x80)))),
            _ => None,
        },
        301 => match i {
            0 => Some(tap_for_one_of(0x3)),
            _ => None,
        },
        302 => match i {
            0 => Some(tap_for_one_of(0x9)),
            _ => None,
        },
        303 => match i {
            0 => Some(tap_for(ManaColor::Colorless, 1)),
            1 => Some(activated(cost(true, mana(1, 0, 0, 0, 0, 0, 0), 0, false), Effect::UntapTarget, TargetSpec::Permanent(of_types(0x1)))),
            _ => None,
        },
        304 => match i {
            0 => Some(Ability { effect: Effect::MayStayTapped, ..static_ability() }),
            1 => Some(only_if(triggered(Trigger::YourUpkeep, Effect::CountersOnSource(CounterKind::Storage, 1), TargetSpec::NoTarget), Condition::SourceTapped)),
            2 => Some(mana_ability(removing_any(tap(), CounterKind::Storage), Effect::AddPerCounterRemoved(ManaColor::Black))),
            _ => None,
        },
        305 => match i {
            0 => Some(Ability { effect: Effect::MayStayTapped, ..static_ability() }),
            1 => Some(only_if(triggered(Trigger::YourUpkeep, Effect::CountersOnSource(CounterKind::Storage, 1), TargetSpec::NoTarget), Condition::SourceTapped)),
            2 => Some(mana_ability(removing_any(tap(), CounterKind::Storage), Effect::AddPerCounterRemoved(ManaColor::Red))),
            _ => None,
        },
        306 => match i {
            0 => Some(Ability { effect: Effect::MayStayTapped, ..static_ability() }),
            1 => Some(only_if(triggered(Trigger::YourUpkeep, Effect::CountersOnSource(CounterKind::Storage, 1), TargetSpec::NoTarget), Condition::SourceTapped)),
            2 => Some(mana_ability(removing_any(tap(), CounterKind::Storage), Effect::AddPerCounterRemoved(ManaColor::Green))),
            _ => None,
        },
        307 => match i {
            0 => Some(Ability { effect: Effect::MayStayTapped, ..static_ability() }),
            1 => Some(only_if(triggered(Trigger::YourUpkeep, Effect::CountersOnSource(CounterKind::Storage, 1), TargetSpec::NoTarget), Condition::SourceTapped)),
            2 => Some(mana_ability(removing_any(tap(), CounterKind::Storage), Effect::AddPerCounterRemoved(ManaColor::White))),
            _ => None,
        },
        308 => match i {
            0 => Some(Ability { effect: Effect::MayStayTapped, ..static_ability() }),
            1 => Some(only_if(triggered(Trigger::YourUpkeep, Effect::CountersOnSource(CounterKind::Storage, 1), TargetSpec::NoTarget), Condition::SourceTapped)),
            2 => Some(mana_ability(removing_any(tap(), CounterKind::Storage), Effect::AddPerCounterRemoved(ManaColor::Blue))),
            _ => None,
        },
        309 => match i {
            0 => Some(tap_for(ManaColor::Black, 1)),
            1 => Some(only_if(tap_for(ManaColor::Red, 1), Condition::YouControlAtLeast(of_subtypes(0xc), 1))),
            _ => None,
        },
        310 => match i {
            0 => Some(tap_for(ManaColor::Black, 1)),
            1 => Some(only_if(tap_for(ManaColor::White, 1), Condition::YouControlAtLeast(of_subtypes(0x14), 1))),
            _ => None,
        },
        311 => match i {
            0 => Some(tap_for(ManaColor::White, 1)),
            1 => Some(only_if(tap_for(ManaColor::Blue, 1), Condition::YouControlAtLeast(of_subtypes(0x12), 1))),
            _ => None,
        },
        _ => None,
    }
}

/// The ability a card (or face) prints at index `i`, if it has one. (cards 300 to 311).
fn ability_at_25(c: CardIndex, i: u32) -> (r: Option<Ability>)
    ensures
        r == spec_ability_25(c, i),
{
    match c.0 {
        300 => match i {
            0 => Some(tap_for(ManaColor::Colorless, 1)),
            1 => Some(mana_ability(cost(true, mana(2, 0, 0, 0, 0, 0, 0), 0, false), Effect::AddOneColorPerOther(of_subtypes(0x80)))),
            _ => None,
        },
        301 => match i {
            0 => Some(tap_for_one_of(0x3)),
            _ => None,
        },
        302 => match i {
            0 => Some(tap_for_one_of(0x9)),
            _ => None,
        },
        303 => match i {
            0 => Some(tap_for(ManaColor::Colorless, 1)),
            1 => Some(activated(cost(true, mana(1, 0, 0, 0, 0, 0, 0), 0, false), Effect::UntapTarget, TargetSpec::Permanent(of_types(0x1)))),
            _ => None,
        },
        304 => match i {
            0 => Some(Ability { effect: Effect::MayStayTapped, ..static_ability() }),
            1 => Some(only_if(triggered(Trigger::YourUpkeep, Effect::CountersOnSource(CounterKind::Storage, 1), TargetSpec::NoTarget), Condition::SourceTapped)),
            2 => Some(mana_ability(removing_any(tap(), CounterKind::Storage), Effect::AddPerCounterRemoved(ManaColor::Black))),
            _ => None,
        },
        305 => match i {
            0 => Some(Ability { effect: Effect::MayStayTapped, ..static_ability() }),
            1 => Some(only_if(triggered(Trigger::YourUpkeep, Effect::CountersOnSource(CounterKind::Storage, 1), TargetSpec::NoTarget), Condition::SourceTapped)),
            2 => Some(mana_ability(removing_any(tap(), CounterKind::Storage), Effect::AddPerCounterRemoved(ManaColor::Red))),
            _ => None,
        },
        306 => match i {
            0 => Some(Ability { effect: Effect::MayStayTapped, ..static_ability() }),
            1 => Some(only_if(triggered(Trigger::YourUpkeep, Effect::CountersOnSource(CounterKind::Storage, 1), TargetSpec::NoTarget), Condition::SourceTapped)),
            2 => Some(mana_ability(removing_any(tap(), CounterKind::Storage), Effect::AddPerCounterRemoved(ManaColor::Green))),
            _ => None,
        },
        307 => match i {
            0 => Some(Ability { effect: Effect::MayStayTapped, ..static_ability() }),
            1 => Some(only_if(triggered(Trigger::YourUpkeep, Effect::CountersOnSource(CounterKind::Storage, 1), TargetSpec::NoTarget), Condition::SourceTapped)),
            2 => Some(mana_ability(removing_any(tap(), CounterKind::Storage), Effect::AddPerCounterRemoved(ManaColor::White))),
            _ => None,
        },
        308 => match i {
            0 => Some(Ability { effect: Effect::MayStayTapped, ..static_ability() }),
            1 => Some(only_if(triggered(Trigger::YourUpkeep, Effect::CountersOnSource(CounterKind::Storage, 1), TargetSpec::NoTarget), Condition::SourceTapped)),
            2 => Some(mana_ability(removing_any(tap(), CounterKind::Storage), Effect::AddPerCounterRemoved(ManaColor::Blue))),
            _ => None,
        },
        309 => match i {
            0 => Some(tap_for(ManaColor::Black, 1)),
            1 => Some(only_if(tap_for(ManaColor::Red, 1), Condition::YouControlAtLeast(of_subtypes(0xc), 1))),
            _ => None,
        },
        310 => match i {
            0 => Some(tap_for(ManaColor::Black, 1)),
            1 => Some(only_if(tap_for(ManaColor::White, 1), Condition::YouControlAtLeast(of_subtypes(0x14), 1))),
            _ => None,
        },
        311 => match i {
            0 => Some(tap_for(ManaColor::White, 1)),
            1 => Some(only_if(tap_for(ManaColor::Blue, 1), Condition::YouControlAtLeast(of_subtypes(0x12), 1))),
            _ => None,
        },
        _ => None,
    }
}

/// The ability a card (or face) prints at index `i`, if it has one. (cards 312 to 323).
pub open spec fn spec_ability_26(c: CardIndex, i: u32) -> Option<Ability> {
    match c.0 {
        312 => match i {
            0 => Some(tap_for(ManaColor::Blue, 1)),
            1 => Some(only_if(tap_for(ManaColor::Black, 1), Condition::YouControlAtLeast(of_subtypes(0x6), 1))),
            _ => None,
        },
        313 => match i {
            0 => Some(tap_for(ManaColor::Green, 1)),
            1 => Some(only_if(tap_for(ManaColor::White, 1), Condition::YouControlAtLeast(of_subtypes(0x11), 1))),
            _ => None,
        },
        314 => match i {
            0 => Some(tap_for(ManaColor::Red, 1)),
            1 => Some(only_if(tap_for(ManaColor::Blue, 1), Condition::YouControlAtLeast(of_subtypes(0xa), 1))),
            _ => None,
        },
        315 => match i {
            0 => Some(tap_for(ManaColor::White, 1)),
            1 => Some(only_if(tap_for(ManaColor::Red, 1), Condition::YouControlAtLeast(of_subtypes(0x18), 1))),
            _ => None,
        },
        316 => match i {
            0 => Some(tap_for(ManaColor::Red, 1)),
            1 => Some(only_if(tap_for(ManaColor::Green, 1), Condition::YouControlAtLeast(of_subtypes(0x9), 1))),
            _ => None,
        },
        317 => match i {
            0 => Some(tap_for(ManaColor::Green, 1)),
            1 => Some(only_if(tap_for(ManaColor::Black, 1), Condition::YouControlAtLeast(of_subtypes(0x5), 1))),
            _ => None,
        },
        318 => match i {
            0 => Some(tap_for(ManaColor::Blue, 1)),
            1 => Some(only_if(tap_for(ManaColor::Green, 1), Condition::YouControlAtLeast(of_subtypes(0x3), 1))),
            _ => None,
        },
        319 => match i {
            0 => Some(tap_for(ManaColor::Colorless, 1)),
            1 => Some(only_if(tap_for(ManaColor::White, 1), Condition::YouControlAtLeast(of_subtypes(0x2), 1))),
            2 => Some(only_if(tap_for(ManaColor::Blue, 1), Condition::YouControlAtLeast(of_subtypes(0x10), 1))),
            _ => None,
        },
        320 => match i {
            0 => Some(tap_for(ManaColor::Colorless, 1)),
            1 => Some(only_if(activated(cost(true, mana(1, 0, 0, 0, 0, 0, 0), 0, true), Effect::Draw(1), TargetSpec::NoTarget), Condition::YouControlAtLeast(of_types(0x1), 4))),
            _ => None,
        },
        321 => match i {
            0 => Some(tap_for(ManaColor::Blue, 1)),
            1 => Some(only_if(activated(cost(true, mana(1, 0, 1, 0, 0, 0, 0), 0, false), Effect::Scry(2), TargetSpec::NoTarget), Condition::YouControlAtLeast(flagged(0x2, false, false, true, false, false), 1))),
            _ => None,
        },
        322 => match i {
            0 => Some(tap_for(ManaColor::Colorless, 1)),
            1 => Some(only_if(mana_ability(cost(true, mana(0, 0, 0, 0, 0, 0, 0), 1, false), Effect::AddChoice { colors: 0x1f, amount: 1, times: 1, restriction: None }), Condition::YouControlAtLeast(of_types(0x4), 1))),
            _ => None,
        },
        323 => match i {
            0 => Some(tap_for(ManaColor::Colorless, 1)),
            1 => Some(only_if(tap_for_one_of(0x5), Condition::YouControlAtLeast(of_subtypes(0x4), 1))),
            _ => None,
        },
        _ => None,
    }
}

/// The ability a card (or face) prints at index `i`, if it has one. (cards 312 to 323).
fn ability_at_26(c: CardIndex, i: u32) -> (r: Option<Ability>)
    ensures
        r == spec_ability_26(c, i),
{
    match c.0 {
        312 => match i {
            0 => Some(tap_for(ManaColor::Blue, 1)),
            1 => Some(only_if(tap_for(ManaColor::Black, 1), Condition::YouControlAtLeast(of_subtypes(0x6), 1))),
            _ => None,
        },
        313 => match i {
            0 => Some(tap_for(ManaColor::Green, 1)),
            1 => Some(only_if(tap_for(ManaColor::White, 1), Condition::YouControlAtLeast(of_subtypes(0x11), 1))),
            _ => None,
        },
        314 => match i {
            0 => Some(tap_for(ManaColor::Red, 1)),
            1 => Some(only_if(tap_for(ManaColor::Blue, 1), Condition::YouControlAtLeast(of_subtypes(0xa), 1))),
            _ => None,
        },
        315 => match i {
            0 => Some(tap_for(ManaColor::White, 1)),
            1 => Some(only_if(tap_for(ManaColor::Red, 1), Condition::YouControlAtLeast(of_subtypes(0x18), 1))),
            _ => None,
        },
        316 => match i {
            0 => Some(tap_for(ManaColor::Red, 1)),
            1 => Some(only_if(tap_for(ManaColor::Green, 1), Condition::YouControlAtLeast(of_subtypes(0x9), 1))),
            _ => None,
        },
        317 => match i {
            0 => Some(tap_for(ManaColor::Green, 1)),
            1 => Some(only_if(tap_for(ManaColor::Black, 1), Condition::YouControlAtLeast(of_subtypes(0x5), 1))),
            _ => None,
        },
        318 => match i {
            0 => Some(tap_for(ManaColor::Blue, 1)),
            1 => Some(only_if(tap_for(ManaColor::Green, 1), Condition::YouControlAtLeast(of_subtypes(0x3), 1))),
            _ => None,
        },
        319 => match i {
            0 => Some(tap_for(ManaColor::Colorless, 1)),
            1 => Some(only_if(tap_for(ManaColor::White, 1), Condition::YouControlAtLeast(of_subtypes(0x2), 1))),
            2 => Some(only_if(tap_for(ManaColor::Blue, 1), Condition::YouControlAtLeast(of_subtypes(0x10), 1))),
            _ => None,
        },
        320 => match i {
            0 => Some(tap_for(ManaColor::Colorless, 1)),
            1 => Some(only_if(activated(cost(true, mana(1, 0, 0, 0, 0, 0, 0), 0, true), Effect::Draw(1), TargetSpec::NoTarget), Condition::YouControlAtLeast(of_types(0x1), 4))),
            _ => None,
        },
        321 => match i {
            0 => Some(tap_for(ManaColor::Blue, 1)),
            1 => Some(only_if(activated(cost(true, mana(1, 0, 1, 0, 0, 0, 0), 0, false), Effect::Scry(2), TargetSpec::NoTarget), Condition::YouControlAtLeast(flagged(0x2, false, false, true, false, false), 1))),
            _ => None,
        },
        322 => match i {
            0 => Some(tap_for(ManaColor::Colorless, 1)),
            1 => Some(only_if(mana_ability(cost(true, mana(0, 0, 0, 0, 0, 0, 0), 1, false), Effect::AddChoice { colors: 0x1f, amount: 1, times: 1, restriction: None }), Condition::YouControlAtLeast(of_types(0x4), 1))),
            _ => None,
        },
        323 => match i {
            0 => Some(tap_for(ManaColor::Colorless, 1)),
            1 => Some(only_if(tap_for_one_of(0x5), Condition::YouControlAtLeast(of_subtypes(0x4), 1))),
            _ => None,
        },
        _ => None,
    }
}

/// The ability a card (or face) prints at index `i`, if it has one. (cards 324 to 335).
pub open spec fn spec_ability_27(c: CardIndex, i: u32) -> Option<Ability> {
    match c.0 {
        324 => match i {
            0 => Some(tap_for(ManaColor::Colorless, 1)),
            1 => Some(only_if(tap_for_one_of(0x6), Condition::YouControlAtLeast(of_subtypes(0x4), 1))),
            _ => None,
        },
        325 => match i {
            0 => Some(tap_for(ManaColor::Colorless, 1)),
            1 => Some(only_if(tap_for_one_of(0xc), Condition::YouControlAtLeast(of_subtypes(0x4), 1))),
            _ => None,
        },
        326 => match i {
            0 => Some(tap_for(ManaColor::Colorless, 1)),
            1 => Some(only_if(tap_for_one_of(0x14), Condition::YouControlAtLeast(of_subtypes(0x4), 1))),
            _ => None,
        },
        327 => match i {
            0 => Some(only_if(tap_for(ManaColor::Colorless, 2), Condition::YouControlAtLeast(of_types(0x1), 4))),
            _ => None,
        },
        328 => match i {
            0 => Some(tap_for(ManaColor::Green, 1)),
            1 => Some(channel(cost(false, mana(1, 0, 0, 0, 0, 1, 0), 0, false), Effect::DestroyTarget, TargetSpec::EitherPermanent(of_types(0xc), flagged(0x1, false, true, false, false, false)))),
            _ => None,
        },
        329 => match i {
            0 => Some(with_rider(tap_for(ManaColor::Blue, 1), ManaRider::Pain)),
            _ => None,
        },
        330 => match i {
            0 => Some(tap_for(ManaColor::Colorless, 1)),
            _ => None,
        },
        331 => match i {
            0 => Some(only_if(triggered(Trigger::YourUpkeep, Effect::GainLife(1), TargetSpec::NoTarget), Condition::YouControlAtLeast(of_types(0x4), 3))),
            1 => Some(tap_for(ManaColor::Colorless, 1)),
            2 => Some(only_if(activated(cost(true, mana(4, 0, 0, 0, 0, 0, 0), 0, true), Effect::SearchLibrary(search(of_types(0x4), 1, SearchDest::Hand, false)), TargetSpec::NoTarget), Condition::YouControlAtLeast(of_types(0x4), 3))),
            _ => None,
        },
        332 => match i {
            0 => Some(tap_for(ManaColor::Blue, 1)),
            1 => Some(channel(cost(false, mana(3, 0, 1, 0, 0, 0, 0), 0, false), Effect::ReturnTargetToHand, TargetSpec::OpponentsPermanent(of_types(0x1e)))),
            _ => None,
        },
        333 => match i {
            0 => Some(tap_for_one_of(0xc)),
            1 => Some(triggered(Trigger::EntersBattlefield, Effect::Surveil(1), TargetSpec::NoTarget)),
            _ => None,
        },
        334 => match i {
            0 => Some(tap_for_one_of(0xa)),
            1 => Some(triggered(Trigger::EntersBattlefield, Effect::Surveil(1), TargetSpec::NoTarget)),
            _ => None,
        },
        335 => match i {
            0 => Some(tap_for_one_of(0x6)),
            1 => Some(triggered(Trigger::EntersBattlefield, Effect::Surveil(1), TargetSpec::NoTarget)),
            _ => None,
        },
        _ => None,
    }
}

/// The ability a card (or face) prints at index `i`, if it has one. (cards 324 to 335).
fn ability_at_27(c: CardIndex, i: u32) -> (r: Option<Ability>)
    ensures
        r == spec_ability_27(c, i),
{
    match c.0 {
        324 => match i {
            0 => Some(tap_for(ManaColor::Colorless, 1)),
            1 => Some(only_if(tap_for_one_of(0x6), Condition::YouControlAtLeast(of_subtypes(0x4), 1))),
            _ => None,
        },
        325 => match i {
            0 => Some(tap_for(ManaColor::Colorless, 1)),
            1 => Some(only_if(tap_for_one_of(0xc), Condition::YouControlAtLeast(of_subtypes(0x4), 1))),
            _ => None,
        },
        326 => match i {
            0 => Some(tap_for(ManaColor::Colorless, 1)),
            1 => Some(only_if(tap_for_one_of(0x14), Condition::YouControlAtLeast(of_subtypes(0x4), 1))),
            _ => None,
        },
        327 => match i {
            0 => Some(only_if(tap_for(ManaColor::Colorless, 2), Condition::YouControlAtLeast(of_types(0x1), 4))),
            _ => None,
        },
        328 => match i {
            0 => Some(tap_for(ManaColor::Green, 1)),
            1 => Some(channel(cost(false, mana(1, 0, 0, 0, 0, 1, 0), 0, false), Effect::DestroyTarget, TargetSpec::EitherPermanent(of_types(0xc), flagged(0x1, false, true, false, false, false)))),
            _ => None,
        },
        329 => match i {
            0 => Some(with_rider(tap_for(ManaColor::Blue, 1), ManaRider::Pain)),
            _ => None,
        },
        330 => match i {
            0 => Some(tap_for(ManaColor::Colorless, 1)),
            _ => None,
        },
        331 => match i {
            0 => Some(only_if(triggered(Trigger::YourUpkeep, Effect::GainLife(1), TargetSpec::NoTarget), Condition::YouControlAtLeast(of_types(0x4), 3))),
            1 => Some(tap_for(ManaColor::Colorless, 1)),
            2 => Some(only_if(activated(cost(true, mana(4, 0, 0, 0, 0, 0, 0), 0, true), Effect::SearchLibrary(search(of_types(0x4), 1, SearchDest::Hand, false)), TargetSpec::NoTarget), Condition::YouControlAtLeast(of_types(0x4), 3))),
            _ => None,
        },
        332 => match i {
            0 => Some(tap_for(ManaColor::Blue, 1)),
            1 => Some(channel(cost(false, mana(3, 0, 1, 0, 0, 0, 0), 0, false), Effect::ReturnTargetToHand, TargetSpec::OpponentsPermanent(of_types(0x1e)))),
            _ => None,
        },
        333 => match i {
            0 => Some(tap_for_one_of(0xc)),
            1 => Some(triggered(Trigger::EntersBattlefield, Effect::Surveil(1), TargetSpec::NoTarget)),
            _ => None,
        },
        334 => match i {
            0 => Some(tap_for_one_of(0xa)),
            1 => Some(triggered(Trigger::EntersBattlefield, Effect::Surveil(1), TargetSpec::NoTarget)),
            _ => None,
        },
        335 => match i {
            0 => Some(tap_for_one_of(0x6)),
            1 => Some(triggered(Trigger::EntersBattlefield, Effect::Surveil(1), TargetSpec::NoTarget)),
            _ => None,
        },
        _ => None,
    }
}

/// The ability a card (or face) prints at index `i`, if it has one. (cards 336 to 347).
pub open spec fn spec_ability_28(c: CardIndex, i: u32) -> Option<Ability> {
    match c.0 {
        336 => match i {
            0 => Some(tap_for(ManaColor::Black, 1)),
            _ => None,
        },
        337 => None,
        338 => match i {
            0 => Some(activated(cost(true, mana(2, 0, 0, 0, 0, 0, 0), 0, true), Effect::GainLife(3), TargetSpec::NoTarget)),
            _ => None,
        },
        339 => None,
        340 => match i {
            0 => Some(triggered(Trigger::EntersUntapped, Effect::CreateToken(dwarf_token()), TargetSpec::NoTarget)),
            _ => None,
        },
        341 => match i {
            0 => Some(triggered(Trigger::EntersUntapped, Effect::CreateToken(food_token()), TargetSpec::NoTarget)),
            _ => None,
        },
        342 => match i {
            0 => Some(mana_ability(tap(), Effect::AddChosenColor)),
            _ => None,
        },
        343 => match i {
            0 => Some(mana_ability(tap(), Effect::AddWhatALandCould)),
            _ => None,
        },
        344 => match i {
            0 => Some(triggered(Trigger::EntersBattlefield, Effect::SacrificeUnless(UnlessCost::Pay(mana(1, 0, 0, 0, 0, 0, 0))), TargetSpec::NoTarget)),
            1 => Some(tap_for_one_of(0x1f)),
            _ => None,
        },
        345 => match i {
            0 => Some(triggered(Trigger::EntersBattlefield, Effect::SacrificeUnless(UnlessCost::Pay(mana(1, 0, 0, 0, 0, 0, 0))), TargetSpec::NoTarget)),
            1 => Some(tap_for_one_of(0x1f)),
            _ => None,
        },
        346 => match i {
            0 => Some(triggered(Trigger::EntersBattlefield, Effect::SacrificeUnless(UnlessCost::Pay(mana(1, 0, 0, 0, 0, 0, 0))), TargetSpec::NoTarget)),
            1 => Some(tap_for_one_of(0x1f)),
            _ => None,
        },
        347 => match i {
            0 => Some(triggered(Trigger::EntersBattlefield, Effect::SacrificeUnless(UnlessCost::Pay(mana(1, 0, 0, 0, 0, 0, 0))), TargetSpec::NoTarget)),
            1 => Some(tap_for_one_of(0x1f)),
            _ => None,
        },
        _ => None,
    }
}

/// The ability a card (or face) prints at index `i`, if it has one. (cards 336 to 347).
fn ability_at_28(c: CardIndex, i: u32) -> (r: Option<Ability>)
    ensures
        r == spec_ability_28(c, i),
{
    match c.0 {
        336 => match i {
            0 => Some(tap_for(ManaColor::Black, 1)),
            _ => None,
        },
        337 => None,
        338 => match i {
            0 => Some(activated(cost(true, mana(2, 0, 0, 0, 0, 0, 0), 0, true), Effect::GainLife(3), TargetSpec::NoTarget)),
            _ => None,
        },
        339 => None,
        340 => match i {
            0 => Some(triggered(Trigger::EntersUntapped, Effect::CreateToken(dwarf_token()), TargetSpec::NoTarget)),
            _ => None,
        },
        341 => match i {
            0 => Some(triggered(Trigger::EntersUntapped, Effect::CreateToken(food_token()), TargetSpec::NoTarget)),
            _ => None,
        },
        342 => match i {
            0 => Some(mana_ability(tap(), Effect::AddChosenColor)),
            _ => None,
        },
        343 => match i {
            0 => Some(mana_ability(tap(), Effect::AddWhatALandCould)),
            _ => None,
        },
        344 => match i {
            0 => Some(triggered(Trigger::EntersBattlefield, Effect::SacrificeUnless(UnlessCost::Pay(mana(1, 0, 0, 0, 0, 0, 0))), TargetSpec::NoTarget)),
            1 => Some(tap_for_one_of(0x1f)),
            _ => None,
        },
        345 => match i {
            0 => Some(triggered(Trigger::EntersBattlefield, Effect::SacrificeUnless(UnlessCost::Pay(mana(1, 0, 0, 0, 0, 0, 0))), TargetSpec::NoTarget)),
            1 => Some(tap_for_one_of(0x1f)),
            _ => None,
        },
        346 => match i {
            0 => Some(triggered(Trigger::EntersBattlefield, Effect::SacrificeUnless(UnlessCost::Pay(mana(1, 0, 0, 0, 0, 0, 0))), TargetSpec::NoTarget)),
            1 => Some(tap_for_one_of(0x1f)),
            _ => None,
        },
        347 => match i {
            0 => Some(triggered(Trigger::EntersBattlefield, Effect::SacrificeUnless(UnlessCost::Pay(mana(1, 0, 0, 0, 0, 0, 0))), TargetSpec::NoTarget)),
            1 => Some(tap_for_one_of(0x1f)),
            _ => None,
        },
        _ => None,
    }
}

/// The ability a card (or face) prints at index `i`, if it has one. (cards 348 to 359).
pub open spec fn spec_ability_29(c: CardIndex, i: u32) -> Option<Ability> {
    match c.0 {
        348 => None,
        349 => None,
        350 => None,
        351 => match i {
            0 => Some(tap_for_one_of(0x3)),
            _ => None,
        },
        352 => match i {
            0 => Some(tap_for_one_of(0xc)),
            _ => None,
        },
        353 => match i {
            0 => Some(tap_for_one_of(0x14)),
            _ => None,
        },
        354 => match i {
            0 => Some(tap_for_one_of(0x12)),
            _ => None,
        },
        355 => match i {
            0 => Some(tap_for_one_of(0x5)),
            _ => None,
        },
        356 => match i {
            0 => Some(tap_for_one_of(0x18)),
            _ => None,
        },
        357 => match i {
            0 => Some(tap_for_one_of(0x6)),
            _ => None,
        },
        358 => match i {
            0 => Some(tap_for_one_of(0x9)),
            _ => None,
        },
        359 => match i {
            0 => Some(tap_for_one_of(0x11)),
            _ => None,
        },
        _ => None,
    }
}

/// The ability a card (or face) prints at index `i`, if it has one. (cards 348 to 359).
fn ability_at_29(c: CardIndex, i: u32) -> (r: Option<Ability>)
    ensures
        r == spec_ability_29(c, i),
{
    match c.0 {
        348 => None,
        349 => None,
        350 => None,
        351 => match i {
            0 => Some(tap_for_one_of(0x3)),
            _ => None,
        },
        352 => match i {
            0 => Some(tap_for_one_of(0xc)),
            _ => None,
        },
        353 => match i {
            0 => Some(tap_for_one_of(0x14)),
            _ => None,
        },
        354 => match i {
            0 => Some(tap_for_one_of(0x12)),
            _ => None,
        },
        355 => match i {
            0 => Some(tap_for_one_of(0x5)),
            _ => None,
        },
        356 => match i {
            0 => Some(tap_for_one_of(0x18)),
            _ => None,
        },
        357 => match i {
            0 => Some(tap_for_one_of(0x6)),
            _ => None,
        },
        358 => match i {
            0 => Some(tap_for_one_of(0x9)),
            _ => None,
        },
        359 => match i {
            0 => Some(tap_for_one_of(0x11)),
            _ => None,
        },
        _ => None,
    }
}

/// The ability a card (or face) prints at index `i`, if it has one. (cards 360 to 371).
pub open spec fn spec_ability_30(c: CardIndex, i: u32) -> Option<Ability> {
    match c.0 {
        360 => match i {
            0 => Some(tap_for_one_of(0x3)),
            _ => None,
        },
        361 => match i {
            0 => Some(tap_for_one_of(0xa)),
            _ => None,
        },
        362 => match i {
            0 => Some(mana_ability(tap(), Effect::AddEither(ManaColor::Black, ManaColor::Green, 1))),
            _ => None,
        },
        363 => match i {
            0 => Some(mana_ability(tap(), Effect::AddEither(ManaColor::White, ManaColor::Black, 1))),
            _ => None,
        },
        364 => match i {
            0 => Some(mana_ability(tap(), Effect::AddEither(ManaColor::Blue, ManaColor::Red, 1))),
            _ => None,
        },
        365 => match i {
            0 => Some(mana_ability(tap(), Effect::AddEither(ManaColor::Red, ManaColor::White, 1))),
            _ => None,
        },
        366 => match i {
            0 => Some(mana_ability(tap(), Effect::AddEither(ManaColor::Green, ManaColor::Blue, 1))),
            _ => None,
        },
        367 => match i {
            0 => Some(tap_for_one_of(0x3)),
            _ => None,
        },
        368 => match i {
            0 => Some(tap_for_one_of(0x18)),
            _ => None,
        },
        369 => match i {
            0 => Some(tap_for_one_of(0x11)),
            _ => None,
        },
        370 => match i {
            0 => Some(tap_for_one_of(0x12)),
            _ => None,
        },
        371 => match i {
            0 => Some(tap_for_one_of(0x6)),
            _ => None,
        },
        _ => None,
    }
}

/// The ability a card (or face) prints at index `i`, if it has one. (cards 360 to 371).
fn ability_at_30(c: CardIndex, i: u32) -> (r: Option<Ability>)
    ensures
        r == spec_ability_30(c, i),
{
    match c.0 {
        360 => match i {
            0 => Some(tap_for_one_of(0x3)),
            _ => None,
        },
        361 => match i {
            0 => Some(tap_for_one_of(0xa)),
            _ => None,
        },
        362 => match i {
            0 => Some(mana_ability(tap(), Effect::AddEither(ManaColor::Black, ManaColor::Green, 1))),
            _ => None,
        },
        363 => match i {
            0 => Some(mana_ability(tap(), Effect::AddEither(ManaColor::White, ManaColor::Black, 1))),
            _ => None,
        },
        364 => match i {
            0 => Some(mana_ability(tap(), Effect::AddEither(ManaColor::Blue, ManaColor::Red, 1))),
            _ => None,
        },
        365 => match i {
            0 => Some(mana_ability(tap(), Effect::AddEither(ManaColor::Red, ManaColor::White, 1))),
            _ => None,
        },
        366 => match i {
            0 => Some(mana_ability(tap(), Effect::AddEither(ManaColor::Green, ManaColor::Blue, 1))),
            _ => None,
        },
        367 => match i {
            0 => Some(tap_for_one_of(0x3)),
            _ => None,
        },
        368 => match i {
            0 => Some(tap_for_one_of(0x18)),
            _ => None,
        },
        369 => match i {
            0 => Some(tap_for_one_of(0x11)),
            _ => None,
        },
        370 => match i {
            0 => Some(tap_for_one_of(0x12)),
            _ => None,
        },
        371 => match i {
            0 => Some(tap_for_one_of(0x6)),
            _ => None,
        },
        _ => None,
    }
}

/// The ability a card (or face) prints at index `i`, if it has one. (cards 372 to 383).
pub open spec fn spec_ability_31(c: CardIndex, i: u32) -> Option<Ability> {
    match c.0 {
        372 => match i {
            0 => Some(tap_for_one_of(0x5)),
            _ => None,
        },
        373 => match i {
            0 => Some(tap_for_one_of(0xa)),
            _ => None,
        },
        374 => match i {
            0 => Some(tap_for_one_of(0x9)),
            _ => None,
        },
        375 => match i {
            0 => Some(tap_for_one_of(0xc)),
            _ => None,
        },
        376 => match i {
            0 => Some(tap_for_one_of(0x14)),
            _ => None,
        },
        377 => match i {
            0 => Some(tap_for_one_of(0x18)),
            1 => Some(triggered(Trigger::EntersBattlefield, Effect::Surveil(1), TargetSpec::NoTarget)),
            _ => None,
        },
        378 => match i {
            0 => Some(tap_for_one_of(0x9)),
            1 => Some(triggered(Trigger::EntersBattlefield, Effect::Surveil(1), TargetSpec::NoTarget)),
            _ => None,
        },
        379 => match i {
            0 => Some(tap_for_one_of(0x12)),
            1 => Some(triggered(Trigger::EntersBattlefield, Effect::Surveil(1), TargetSpec::NoTarget)),
            _ => None,
        },
        380 => match i {
            0 => Some(tap_for_one_of(0x11)),
            1 => Some(triggered(Trigger::EntersBattlefield, Effect::Surveil(1), TargetSpec::NoTarget)),
            _ => None,
        },
        381 => match i {
            0 => Some(tap_for_one_of(0x3)),
            1 => Some(triggered(Trigger::EntersBattlefield, Effect::Surveil(1), TargetSpec::NoTarget)),
            _ => None,
        },
        382 => match i {
            0 => Some(tap_for_one_of(0x5)),
            1 => Some(triggered(Trigger::EntersBattlefield, Effect::Surveil(1), TargetSpec::NoTarget)),
            _ => None,
        },
        383 => match i {
            0 => Some(tap_for_one_of(0x14)),
            1 => Some(triggered(Trigger::EntersBattlefield, Effect::Surveil(1), TargetSpec::NoTarget)),
            _ => None,
        },
        _ => None,
    }
}

/// The ability a card (or face) prints at index `i`, if it has one. (cards 372 to 383).
fn ability_at_31(c: CardIndex, i: u32) -> (r: Option<Ability>)
    ensures
        r == spec_ability_31(c, i),
{
    match c.0 {
        372 => match i {
            0 => Some(tap_for_one_of(0x5)),
            _ => None,
        },
        373 => match i {
            0 => Some(tap_for_one_of(0xa)),
            _ => None,
        },
        374 => match i {
            0 => Some(tap_for_one_of(0x9)),
            _ => None,
        },
        375 => match i {
            0 => Some(tap_for_one_of(0xc)),
            _ => None,
        },
        376 => match i {
            0 => Some(tap_for_one_of(0x14)),
            _ => None,
        },
        377 => match i {
            0 => Some(tap_for_one_of(0x18)),
            1 => Some(triggered(Trigger::EntersBattlefield, Effect::Surveil(1), TargetSpec::NoTarget)),
            _ => None,
        },
        378 => match i {
            0 => Some(tap_for_one_of(0x9)),
            1 => Some(triggered(Trigger::EntersBattlefield, Effect::Surveil(1), TargetSpec::NoTarget)),
            _ => None,
        },
        379 => match i {
            0 => Some(tap_for_one_of(0x12)),
            1 => Some(triggered(Trigger::EntersBattlefield, Effect::Surveil(1), TargetSpec::NoTarget)),
            _ => None,
        },
        380 => match i {
            0 => Some(tap_for_one_of(0x11)),
            1 => Some(triggered(Trigger::EntersBattlefield, Effect::Surveil(1), TargetSpec::NoTarget)),
            _ => None,
        },
        381 => match i {
            0 => Some(tap_for_one_of(0x3)),
            1 => Some(triggered(Trigger::EntersBattlefield, Effect::Surveil(1), TargetSpec::NoTarget)),
            _ => None,
        },
        382 => match i {
            0 => Some(tap_for_one_of(0x5)),
            1 => Some(triggered(Trigger::EntersBattlefield, Effect::Surveil(1), TargetSpec::NoTarget)),
            _ => None,
        },
        383 => match i {
            0 => Some(tap_for_one_of(0x14)),
            1 => Some(triggered(Trigger::EntersBattlefield, Effect::Surveil(1), TargetSpec::NoTarget)),
            _ => None,
        },
        _ => None,
    }
}

/// The ability a card (or face) prints at index `i`, if it has one. (cards 384 to 395).
pub open spec fn spec_ability_32(c: CardIndex, i: u32) -> Option<Ability> {
    match c.0 {
        384 => match i {
            0 => Some(triggered(Trigger::EntersBattlefield, Effect::Surveil(1), TargetSpec::NoTarget)),
            1 => Some(tap_for(ManaColor::Colorless, 1)),
            2 => Some(mana_ability(cost(true, mana(1, 0, 0, 0, 0, 0, 0), 0, false), Effect::AddChoice { colors: 0x1f, amount: 1, times: 1, restriction: None })),
            _ => None,
        },
        385 => match i {
            0 => Some(triggered(Trigger::EntersBattlefield, Effect::Surveil(1), TargetSpec::NoTarget)),
            1 => Some(tap_for(ManaColor::Colorless, 1)),
            2 => Some(mana_ability(cost(true, mana(1, 0, 0, 0, 0, 0, 0), 0, false), Effect::AddChoice { colors: 0x1f, amount: 1, times: 1, restriction: None })),
            _ => None,
        },
        386 => match i {
            0 => Some(triggered(Trigger::EntersBattlefield, Effect::Surveil(1), TargetSpec::NoTarget)),
            1 => Some(tap_for(ManaColor::Colorless, 1)),
            2 => Some(mana_ability(cost(true, mana(1, 0, 0, 0, 0, 0, 0), 0, false), Effect::AddChoice { colors: 0x1f, amount: 1, times: 1, restriction: None })),
            _ => None,
        },
        387 => match i {
            0 => Some(tap_for(ManaColor::Colorless, 1)),
            1 => Some(activated(cost(true, mana(2, 1, 0, 0, 1, 0, 0), 0, false), Effect::Surveil(1), TargetSpec::NoTarget)),
            _ => None,
        },
        388 => match i {
            0 => Some(tap_for(ManaColor::Colorless, 1)),
            1 => Some(activated(cost(true, mana(2, 1, 0, 1, 0, 0, 0), 0, false), Effect::Surveil(1), TargetSpec::NoTarget)),
            _ => None,
        },
        389 => match i {
            0 => Some(tap_for(ManaColor::Colorless, 1)),
            1 => Some(activated(cost(true, mana(4, 0, 0, 0, 0, 0, 0), 0, false), Effect::Surveil(2), TargetSpec::NoTarget)),
            _ => None,
        },
        390 => match i {
            0 => Some(tap_for(ManaColor::Colorless, 1)),
            1 => Some(activated(cost(true, mana(4, 0, 0, 0, 0, 0, 0), 0, false), Effect::Surveil(1), TargetSpec::NoTarget)),
            _ => None,
        },
        391 => match i {
            0 => Some(tap_for(ManaColor::Colorless, 1)),
            1 => Some(activated(cost(true, mana(2, 0, 1, 0, 0, 1, 0), 0, false), Effect::Surveil(1), TargetSpec::NoTarget)),
            _ => None,
        },
        392 => match i {
            0 => Some(tap_for(ManaColor::Colorless, 1)),
            1 => Some(activated(cost(true, mana(4, 0, 0, 0, 0, 0, 0), 0, false), Effect::Surveil(1), TargetSpec::NoTarget)),
            _ => None,
        },
        393 => match i {
            0 => Some(tap_for(ManaColor::Colorless, 1)),
            1 => Some(activated(cost(true, mana(4, 0, 0, 0, 0, 0, 0), 0, false), Effect::Surveil(1), TargetSpec::NoTarget)),
            _ => None,
        },
        394 => match i {
            0 => Some(tap_for(ManaColor::Colorless, 1)),
            1 => Some(activated(cost(true, mana(2, 0, 1, 0, 1, 0, 0), 0, false), Effect::Surveil(1), TargetSpec::NoTarget)),
            _ => None,
        },
        395 => match i {
            0 => Some(tap_for(ManaColor::Colorless, 1)),
            1 => Some(activated(cost(true, mana(4, 0, 0, 0, 0, 0, 0), 0, false), Effect::Surveil(1), TargetSpec::NoTarget)),
            _ => None,
        },
        _ => None,
    }
}

/// The ability a card (or face) prints at index `i`, if it has one. (cards 384 to 395).
fn ability_at_32(c: CardIndex, i: u32) -> (r: Option<Ability>)
    ensures
        r == spec_ability_32(c, i),
{
    match c.0 {
        384 => match i {
            0 => Some(triggered(Trigger::EntersBattlefield, Effect::Surveil(1), TargetSpec::NoTarget)),
            1 => Some(tap_for(ManaColor::Colorless, 1)),
            2 => Some(mana_ability(cost(true, mana(1, 0, 0, 0, 0, 0, 0), 0, false), Effect::AddChoice { colors: 0x1f, amount: 1, times: 1, restriction: None })),
            _ => None,
        },
        385 => match i {
            0 => Some(triggered(Trigger::EntersBattlefield, Effect::Surveil(1), TargetSpec::NoTarget)),
            1 => Some(tap_for(ManaColor::Colorless, 1)),
            2 => Some(mana_ability(cost(true, mana(1, 0, 0, 0, 0, 0, 0), 0, false), Effect::AddChoice { colors: 0x1f, amount: 1, times: 1, restriction: None })),
            _ => None,
        },
        386 => match i {
            0 => Some(triggered(Trigger::EntersBattlefield, Effect::Surveil(1), TargetSpec::NoTarget)),
            1 => Some(tap_for(ManaColor::Colorless, 1)),
            2 => Some(mana_ability(cost(true, mana(1, 0, 0, 0, 0, 0, 0), 0, false), Effect::AddChoice { colors: 0x1f, amount: 1, times: 1, restriction: None })),
            _ => None,
        },
        387 => match i {
            0 => Some(tap_for(ManaColor::Colorless, 1)),
            1 => Some(activated(cost(true, mana(2, 1, 0, 0, 1, 0, 0), 0, false), Effect::Surveil(1), TargetSpec::NoTarget)),
            _ => None,
        },
        388 => match i {
            0 => Some(tap_for(ManaColor::Colorless, 1)),
            1 => Some(activated(cost(true, mana(2, 1, 0, 1, 0, 0, 0), 0, false), Effect::Surveil(1), TargetSpec::NoTarget)),
            _ => None,
        },
        389 => match i {
            0 => Some(tap_for(ManaColor::Colorless, 1)),
            1 => Some(activated(cost(true, mana(4, 0, 0, 0, 0, 0, 0), 0, false), Effect::Surveil(2), TargetSpec::NoTarget)),
            _ => None,
        },
        390 => match i {
            0 => Some(tap_for(ManaColor::Colorless, 1)),
            1 => Some(activated(cost(true, mana(4, 0, 0, 0, 0, 0, 0), 0, false), Effect::Surveil(1), TargetSpec::NoTarget)),
            _ => None,
        },
        391 => match i {
            0 => Some(tap_for(ManaColor::Colorless, 1)),
            1 => Some(activated(cost(true, mana(2, 0, 1, 0, 0, 1, 0), 0, false), Effect::Surveil(1), TargetSpec::NoTarget)),
            _ => None,
        },
        392 => match i {
            0 => Some(tap_for(ManaColor::Colorless, 1)),
            1 => Some(activated(cost(true, mana(4, 0, 0, 0, 0, 0, 0), 0, false), Effect::Surveil(1), TargetSpec::NoTarget)),
            _ => None,
        },
        393 => match i {
            0 => Some(tap_for(ManaColor::Colorless, 1)),
            1 => Some(activated(cost(true, mana(4, 0, 0, 0, 0, 0, 0), 0, false), Effect::Surveil(1), TargetSpec::NoTarget)),
            _ => None,
        },
        394 => match i {
            0 => Some(tap_for(ManaColor::Colorless, 1)),
            1 => Some(activated(cost(true, mana(2, 0, 1, 0, 1, 0, 0), 0, false), Effect::Surveil(1), TargetSpec::NoTarget)),
            _ => None,
        },
        395 => match i {
            0 => Some(tap_for(ManaColor::Colorless, 1)),
            1 => Some(activated(cost(true, mana(4, 0, 0, 0, 0, 0, 0), 0, false), Effect::Surveil(1), TargetSpec::NoTarget)),
            _ => None,
        },
        _ => None,
    }
}

/// The ability a card (or face) prints at index `i`, if it has one. (cards 396 to 407).
pub open spec fn spec_ability_33(c: CardIndex, i: u32) -> Option<Ability> {
    match c.0 {
        396 => match i {
            0 => Some(tap_for(ManaColor::Colorless, 1)),
            1 => Some(activated(cost(true, mana(2, 0, 0, 1, 0, 1, 0), 0, false), Effect::Surveil(1), TargetSpec::NoTarget)),
            _ => None,
        },
        397 => match i {
            0 => Some(tap_for(ManaColor::Colorless, 1)),
            1 => Some(activated(cost(true, mana(3, 0, 0, 0, 0, 0, 0), 0, false), Effect::Surveil(1), TargetSpec::NoTarget)),
            _ => None,
        },
        398 => match i {
            0 => Some(tap_for(ManaColor::Colorless, 1)),
            1 => Some(activated(cost(true, mana(4, 0, 0, 0, 0, 0, 0), 0, false), Effect::Surveil(1), TargetSpec::NoTarget)),
            _ => None,
        },
        399 => match i {
            0 => Some(triggered(Trigger::EntersBattlefield, Effect::ReturnALandYouControl, TargetSpec::NoTarget)),
            1 => Some(mana_ability(tap(), Effect::AddPair(ManaColor::White, ManaColor::Blue))),
            _ => None,
        },
        400 => match i {
            0 => Some(triggered(Trigger::EntersBattlefield, Effect::ReturnALandYouControl, TargetSpec::NoTarget)),
            1 => Some(mana_ability(tap(), Effect::AddPair(ManaColor::Red, ManaColor::White))),
            _ => None,
        },
        401 => match i {
            0 => Some(triggered(Trigger::EntersBattlefield, Effect::ReturnALandYouControl, TargetSpec::NoTarget)),
            1 => Some(mana_ability(tap(), Effect::AddPair(ManaColor::Blue, ManaColor::Black))),
            _ => None,
        },
        402 => match i {
            0 => Some(triggered(Trigger::EntersBattlefield, Effect::ReturnALandYouControl, TargetSpec::NoTarget)),
            1 => Some(mana_ability(tap(), Effect::AddPair(ManaColor::Black, ManaColor::Green))),
            _ => None,
        },
        403 => match i {
            0 => Some(triggered(Trigger::EntersBattlefield, Effect::ReturnALandYouControl, TargetSpec::NoTarget)),
            1 => Some(mana_ability(tap(), Effect::AddPair(ManaColor::Red, ManaColor::Green))),
            _ => None,
        },
        404 => match i {
            0 => Some(triggered(Trigger::EntersBattlefield, Effect::ReturnALandYouControl, TargetSpec::NoTarget)),
            1 => Some(tap_for(ManaColor::Colorless, 1)),
            _ => None,
        },
        405 => match i {
            0 => Some(triggered(Trigger::EntersBattlefield, Effect::ReturnALandYouControl, TargetSpec::NoTarget)),
            1 => Some(mana_ability(tap(), Effect::AddPair(ManaColor::Blue, ManaColor::Red))),
            _ => None,
        },
        406 => match i {
            0 => Some(triggered(Trigger::EntersBattlefield, Effect::ReturnALandYouControl, TargetSpec::NoTarget)),
            1 => Some(mana_ability(tap(), Effect::AddPair(ManaColor::White, ManaColor::Black))),
            _ => None,
        },
        407 => match i {
            0 => Some(triggered(Trigger::EntersBattlefield, Effect::ReturnALandYouControl, TargetSpec::NoTarget)),
            1 => Some(mana_ability(tap(), Effect::AddPair(ManaColor::Black, ManaColor::Red))),
            _ => None,
        },
        _ => None,
    }
}

/// The ability a card (or face) prints at index `i`, if it has one. (cards 396 to 407).
fn ability_at_33(c: CardIndex, i: u32) -> (r: Option<Ability>)
    ensures
        r == spec_ability_33(c, i),
{
    match c.0 {
        396 => match i {
            0 => Some(tap_for(ManaColor::Colorless, 1)),
            1 => Some(activated(cost(true, mana(2, 0, 0, 1, 0, 1, 0), 0, false), Effect::Surveil(1), TargetSpec::NoTarget)),
            _ => None,
        },
        397 => match i {
            0 => Some(tap_for(ManaColor::Colorless, 1)),
            1 => Some(activated(cost(true, mana(3, 0, 0, 0, 0, 0, 0), 0, false), Effect::Surveil(1), TargetSpec::NoTarget)),
            _ => None,
        },
        398 => match i {
            0 => Some(tap_for(ManaColor::Colorless, 1)),
            1 => Some(activated(cost(true, mana(4, 0, 0, 0, 0, 0, 0), 0, false), Effect::Surveil(1), TargetSpec::NoTarget)),
            _ => None,
        },
        399 => match i {
            0 => Some(triggered(Trigger::EntersBattlefield, Effect::ReturnALandYouControl, TargetSpec::NoTarget)),
            1 => Some(mana_ability(tap(), Effect::AddPair(ManaColor::White, ManaColor::Blue))),
            _ => None,
        },
        400 => match i {
            0 => Some(triggered(Trigger::EntersBattlefield, Effect::ReturnALandYouControl, TargetSpec::NoTarget)),
            1 => Some(mana_ability(tap(), Effect::AddPair(ManaColor::Red, ManaColor::White))),
            _ => None,
        },
        401 => match i {
            0 => Some(triggered(Trigger::EntersBattlefield, Effect::ReturnALandYouControl, TargetSpec::NoTarget)),
            1 => Some(mana_ability(tap(), Effect::AddPair(ManaColor::Blue, ManaColor::Black))),
            _ => None,
        },
        402 => match i {
            0 => Some(triggered(Trigger::EntersBattlefield, Effect::ReturnALandYouControl, TargetSpec::NoTarget)),
            1 => Some(mana_ability(tap(), Effect::AddPair(ManaColor::Black, ManaColor::Green))),
            _ => None,
        },
        403 => match i {
            0 => Some(triggered(Trigger::EntersBattlefield, Effect::ReturnALandYouControl, TargetSpec::NoTarget)),
            1 => Some(mana_ability(tap(), Effect::AddPair(ManaColor::Red, ManaColor::Green))),
            _ => None,
        },
        404 => match i {
            0 => Some(triggered(Trigger::EntersBattlefield, Effect::ReturnALandYouControl, TargetSpec::NoTarget)),
            1 => Some(tap_for(ManaColor::Colorless, 1)),
            _ => None,
        },
        405 => match i {
            0 => Some(triggered(Trigger::EntersBattlefield, Effect::ReturnALandYouControl, TargetSpec::NoTarget)),
            1 => Some(mana_ability(tap(), Effect::AddPair(ManaColor::Blue, ManaColor::Red))),
            _ => None,
        },
        406 => match i {
            0 => Some(triggered(Trigger::EntersBattlefield, Effect::ReturnALandYouControl, TargetSpec::NoTarget)),
            1 => Some(mana_ability(tap(), Effect::AddPair(ManaColor::White, ManaColor::Black))),
            _ => None,
        },
        407 => match i {
            0 => Some(triggered(Trigger::EntersBattlefield, Effect::ReturnALandYouControl, TargetSpec::NoTarget)),
            1 => Some(mana_ability(tap(), Effect::AddPair(ManaColor::Black, ManaColor::Red))),
            _ => None,
        },
        _ => None,
    }
}

/// The ability a card (or face) prints at index `i`, if it has one. (cards 408 to 419).
pub open spec fn spec_ability_34(c: CardIndex, i: u32) -> Option<Ability> {
    match c.0 {
        408 => match i {
            0 => Some(triggered(Trigger::EntersBattlefield, Effect::ReturnALandYouControl, TargetSpec::NoTarget)),
            1 => Some(mana_ability(tap(), Effect::AddPair(ManaColor::Green, ManaColor::White))),
            _ => None,
        },
        409 => match i {
            0 => Some(triggered(Trigger::EntersBattlefield, Effect::ReturnALandYouControl, TargetSpec::NoTarget)),
            1 => Some(mana_ability(tap(), Effect::AddPair(ManaColor::Green, ManaColor::Blue))),
            _ => None,
        },
        410 => match i {
            0 => Some(triggered(Trigger::EntersBattlefield, Effect::SacrificeUnless(UnlessCost::Return(of_subtypes(0x10), true)), TargetSpec::NoTarget)),
            1 => Some(mana_ability(tap(), Effect::AddPair(ManaColor::Colorless, ManaColor::White))),
            _ => None,
        },
        411 => match i {
            0 => Some(triggered(Trigger::EntersBattlefield, Effect::SacrificeUnless(UnlessCost::Return(of_subtypes(0x2), true)), TargetSpec::NoTarget)),
            1 => Some(mana_ability(tap(), Effect::AddPair(ManaColor::Colorless, ManaColor::Blue))),
            _ => None,
        },
        412 => match i {
            0 => Some(triggered(Trigger::EntersBattlefield, Effect::SacrificeUnless(UnlessCost::Return(of_subtypes(0x8), true)), TargetSpec::NoTarget)),
            1 => Some(mana_ability(tap(), Effect::AddPair(ManaColor::Colorless, ManaColor::Red))),
            _ => None,
        },
        413 => match i {
            0 => Some(triggered(Trigger::EntersBattlefield, Effect::SacrificeUnless(UnlessCost::Return(of_subtypes(0x4), true)), TargetSpec::NoTarget)),
            1 => Some(mana_ability(tap(), Effect::AddPair(ManaColor::Colorless, ManaColor::Black))),
            _ => None,
        },
        414 => match i {
            0 => Some(triggered(Trigger::EntersBattlefield, Effect::SacrificeUnless(UnlessCost::Return(of_subtypes(0x1), true)), TargetSpec::NoTarget)),
            1 => Some(mana_ability(tap(), Effect::AddPair(ManaColor::Colorless, ManaColor::Green))),
            _ => None,
        },
        415 => match i {
            0 => Some(triggered(Trigger::EntersBattlefield, Effect::SacrificeUnless(UnlessCost::Return(Filter { excluded: 0x200000000000000, ..of_types(0x1) }, false)), TargetSpec::NoTarget)),
            1 => Some(tap_for_one_of(0xe)),
            _ => None,
        },
        416 => match i {
            0 => Some(triggered(Trigger::EntersBattlefield, Effect::SacrificeUnless(UnlessCost::Return(Filter { excluded: 0x200000000000000, ..of_types(0x1) }, false)), TargetSpec::NoTarget)),
            1 => Some(tap_for_one_of(0x1c)),
            _ => None,
        },
        417 => match i {
            0 => Some(triggered(Trigger::EntersBattlefield, Effect::SacrificeUnless(UnlessCost::Return(Filter { excluded: 0x200000000000000, ..of_types(0x1) }, false)), TargetSpec::NoTarget)),
            1 => Some(tap_for_one_of(0x7)),
            _ => None,
        },
        418 => match i {
            0 => Some(triggered(Trigger::EntersBattlefield, Effect::SacrificeUnless(UnlessCost::Return(Filter { excluded: 0x200000000000000, ..of_types(0x1) }, false)), TargetSpec::NoTarget)),
            1 => Some(tap_for_one_of(0x19)),
            _ => None,
        },
        419 => match i {
            0 => Some(triggered(Trigger::EntersBattlefield, Effect::SacrificeUnless(UnlessCost::Return(Filter { excluded: 0x200000000000000, ..of_types(0x1) }, false)), TargetSpec::NoTarget)),
            1 => Some(tap_for_one_of(0x13)),
            _ => None,
        },
        _ => None,
    }
}

/// The ability a card (or face) prints at index `i`, if it has one. (cards 408 to 419).
fn ability_at_34(c: CardIndex, i: u32) -> (r: Option<Ability>)
    ensures
        r == spec_ability_34(c, i),
{
    match c.0 {
        408 => match i {
            0 => Some(triggered(Trigger::EntersBattlefield, Effect::ReturnALandYouControl, TargetSpec::NoTarget)),
            1 => Some(mana_ability(tap(), Effect::AddPair(ManaColor::Green, ManaColor::White))),
            _ => None,
        },
        409 => match i {
            0 => Some(triggered(Trigger::EntersBattlefield, Effect::ReturnALandYouControl, TargetSpec::NoTarget)),
            1 => Some(mana_ability(tap(), Effect::AddPair(ManaColor::Green, ManaColor::Blue))),
            _ => None,
        },
        410 => match i {
            0 => Some(triggered(Trigger::EntersBattlefield, Effect::SacrificeUnless(UnlessCost::Return(of_subtypes(0x10), true)), TargetSpec::NoTarget)),
            1 => Some(mana_ability(tap(), Effect::AddPair(ManaColor::Colorless, ManaColor::White))),
            _ => None,
        },
        411 => match i {
            0 => Some(triggered(Trigger::EntersBattlefield, Effect::SacrificeUnless(UnlessCost::Return(of_subtypes(0x2), true)), TargetSpec::NoTarget)),
            1 => Some(mana_ability(tap(), Effect::AddPair(ManaColor::Colorless, ManaColor::Blue))),
            _ => None,
        },
        412 => match i {
            0 => Some(triggered(Trigger::EntersBattlefield, Effect::SacrificeUnless(UnlessCost::Return(of_subtypes(0x8), true)), TargetSpec::NoTarget)),
            1 => Some(mana_ability(tap(), Effect::AddPair(ManaColor::Colorless, ManaColor::Red))),
            _ => None,
        },
        413 => match i {
            0 => Some(triggered(Trigger::EntersBattlefield, Effect::SacrificeUnless(UnlessCost::Return(of_subtypes(0x4), true)), TargetSpec::NoTarget)),
            1 => Some(mana_ability(tap(), Effect::AddPair(ManaColor::Colorless, ManaColor::Black))),
            _ => None,
        },
        414 => match i {
            0 => Some(triggered(Trigger::EntersBattlefield, Effect::SacrificeUnless(UnlessCost::Return(of_subtypes(0x1), true)), TargetSpec::NoTarget)),
            1 => Some(mana_ability(tap(), Effect::AddPair(ManaColor::Colorless, ManaColor::Green))),
            _ => None,
        },
        415 => match i {
            0 => Some(triggered(Trigger::EntersBattlefield, Effect::SacrificeUnless(UnlessCost::Return(Filter { excluded: 0x200000000000000, ..of_types(0x1) }, false)), TargetSpec::NoTarget)),
            1 => Some(tap_for_one_of(0xe)),
            _ => None,
        },
        416 => match i {
            0 => Some(triggered(Trigger::EntersBattlefield, Effect::SacrificeUnless(UnlessCost::Return(Filter { excluded: 0x200000000000000, ..of_types(0x1) }, false)), TargetSpec::NoTarget)),
            1 => Some(tap_for_one_of(0x1c)),
            _ => None,
        },
        417 => match i {
            0 => Some(triggered(Trigger::EntersBattlefield, Effect::SacrificeUnless(UnlessCost::Return(Filter { excluded: 0x200000000000000, ..of_types(0x1) }, false)), TargetSpec::NoTarget)),
            1 => Some(tap_for_one_of(0x7)),
            _ => None,
        },
        418 => match i {
            0 => Some(triggered(Trigger::EntersBattlefield, Effect::SacrificeUnless(UnlessCost::Return(Filter { excluded: 0x200000000000000, ..of_types(0x1) }, false)), TargetSpec::NoTarget)),
            1 => Some(tap_for_one_of(0x19)),
            _ => None,
        },
        419 => match i {
            0 => Some(triggered(Trigger::EntersBattlefield, Effect::SacrificeUnless(UnlessCost::Return(Filter { excluded: 0x200000000000000, ..of_types(0x1) }, false)), TargetSpec::NoTarget)),
            1 => Some(tap_for_one_of(0x13)),
            _ => None,
        },
        _ => None,
    }
}

/// The ability a card (or face) prints at index `i`, if it has one. (cards 420 to 431).
pub open spec fn spec_ability_35(c: CardIndex, i: u32) -> Option<Ability> {
    match c.0 {
        420 => match i {
            0 => Some(triggered(Trigger::EntersBattlefield, Effect::SacrificeUnless(UnlessCost::Tap(of_types(0x0))), TargetSpec::NoTarget)),
            1 => Some(tap_for_one_of(0x1f)),
            _ => None,
        },
        421 => match i {
            0 => Some(triggered(Trigger::EntersBattlefield, Effect::DamageTarget(1), TargetSpec::Opponent)),
            1 => Some(tap_for_one_of(0x9)),
            _ => None,
        },
        422 => match i {
            0 => Some(tap_for(ManaColor::Green, 1)),
            1 => Some(activated(cost(false, mana(1, 0, 0, 0, 0, 1, 0), 0, false), Effect::AnimateSource(animation(3, 3, 0x2, 0x2, true)), TargetSpec::NoTarget)),
            _ => None,
        },
        423 => match i {
            0 => Some(tap_for(ManaColor::Colorless, 1)),
            1 => Some(activated(cost(true, mana(1, 0, 1, 1, 0, 0, 0), 0, false), Effect::MillTarget(3), TargetSpec::AnyPlayer)),
            _ => None,
        },
        424 => match i {
            0 => Some(tap_for(ManaColor::Colorless, 1)),
            1 => Some(activated(cost(true, mana(4, 0, 0, 0, 1, 0, 0), 0, true), Effect::DamageTarget(2), TargetSpec::AnyTarget)),
            _ => None,
        },
        425 => match i {
            0 => Some(triggered(Trigger::EntersBattlefield, Effect::ExileTargetPlayersGraveyard, TargetSpec::AnyPlayer)),
            1 => Some(tap_for(ManaColor::Black, 1)),
            _ => None,
        },
        426 => match i {
            0 => Some(activated(cost(true, mana(0, 0, 0, 0, 0, 0, 0), 1, true), Effect::SearchLibrary(search(of_subtypes(0x18), 1, SearchDest::Battlefield, false)), TargetSpec::NoTarget)),
            _ => None,
        },
        427 => match i {
            0 => Some(mana_ability(tap(), Effect::AddPerPermanent(ManaColor::Green, of_types(0x2)))),
            _ => None,
        },
        428 => match i {
            0 => Some(Ability { effect: Effect::CreaturesPayUpkeep(1), ..static_ability() }),
            _ => None,
        },
        429 => match i {
            0 => Some(tap_for(ManaColor::Colorless, 1)),
            1 => Some(activated(cost(true, mana(1, 0, 0, 0, 0, 0, 0), 0, true), Effect::SearchLibrary(search(flagged(0x1, true, false, false, false, false), 1, SearchDest::Battlefield, true)), TargetSpec::NoTarget)),
            _ => None,
        },
        430 => match i {
            0 => Some(activated(cost(true, mana(0, 0, 0, 0, 0, 0, 0), 1, true), Effect::SearchLibrary(search(flagged(0x1, true, false, false, false, false), 1, SearchDest::Battlefield, false)), TargetSpec::NoTarget)),
            _ => None,
        },
        431 => match i {
            0 => Some(tap_for(ManaColor::Colorless, 1)),
            1 => Some(activated(cost(true, mana(1, 0, 0, 0, 0, 0, 0), 0, true), Effect::SearchLibrary(search(flagged(0x1, true, false, false, false, false), 1, SearchDest::Battlefield, true)), TargetSpec::NoTarget)),
            _ => None,
        },
        _ => None,
    }
}

/// The ability a card (or face) prints at index `i`, if it has one. (cards 420 to 431).
fn ability_at_35(c: CardIndex, i: u32) -> (r: Option<Ability>)
    ensures
        r == spec_ability_35(c, i),
{
    match c.0 {
        420 => match i {
            0 => Some(triggered(Trigger::EntersBattlefield, Effect::SacrificeUnless(UnlessCost::Tap(of_types(0x0))), TargetSpec::NoTarget)),
            1 => Some(tap_for_one_of(0x1f)),
            _ => None,
        },
        421 => match i {
            0 => Some(triggered(Trigger::EntersBattlefield, Effect::DamageTarget(1), TargetSpec::Opponent)),
            1 => Some(tap_for_one_of(0x9)),
            _ => None,
        },
        422 => match i {
            0 => Some(tap_for(ManaColor::Green, 1)),
            1 => Some(activated(cost(false, mana(1, 0, 0, 0, 0, 1, 0), 0, false), Effect::AnimateSource(animation(3, 3, 0x2, 0x2, true)), TargetSpec::NoTarget)),
            _ => None,
        },
        423 => match i {
            0 => Some(tap_for(ManaColor::Colorless, 1)),
            1 => Some(activated(cost(true, mana(1, 0, 1, 1, 0, 0, 0), 0, false), Effect::MillTarget(3), TargetSpec::AnyPlayer)),
            _ => None,
        },
        424 => match i {
            0 => Some(tap_for(ManaColor::Colorless, 1)),
            1 => Some(activated(cost(true, mana(4, 0, 0, 0, 1, 0, 0), 0, true), Effect::DamageTarget(2), TargetSpec::AnyTarget)),
            _ => None,
        },
        425 => match i {
            0 => Some(triggered(Trigger::EntersBattlefield, Effect::ExileTargetPlayersGraveyard, TargetSpec::AnyPlayer)),
            1 => Some(tap_for(ManaColor::Black, 1)),
            _ => None,
        },
        426 => match i {
            0 => Some(activated(cost(true, mana(0, 0, 0, 0, 0, 0, 0), 1, true), Effect::SearchLibrary(search(of_subtypes(0x18), 1, SearchDest::Battlefield, false)), TargetSpec::NoTarget)),
            _ => None,
        },
        427 => match i {
            0 => Some(mana_ability(tap(), Effect::AddPerPermanent(ManaColor::Green, of_types(0x2)))),
            _ => None,
        },
        428 => match i {
            0 => Some(Ability { effect: Effect::CreaturesPayUpkeep(1), ..static_ability() }),
            _ => None,
        },
        429 => match i {
            0 => Some(tap_for(ManaColor::Colorless, 1)),
            1 => Some(activated(cost(true, mana(1, 0, 0, 0, 0, 0, 0), 0, true), Effect::SearchLibrary(search(flagged(0x1, true, false, false, false, false), 1, SearchDest::Battlefield, true)), TargetSpec::NoTarget)),
            _ => None,
        },
        430 => match i {
            0 => Some(activated(cost(true, mana(0, 0, 0, 0, 0, 0, 0), 1, true), Effect::SearchLibrary(search(flagged(0x1, true, false, false, false, false), 1, SearchDest::Battlefield, false)), TargetSpec::NoTarget)),
            _ => None,
        },
        431 => match i {
            0 => Some(tap_for(ManaColor::Colorless, 1)),
            1 => Some(activated(cost(true, mana(1, 0, 0, 0, 0, 0, 0), 0, true), Effect::SearchLibrary(search(flagged(0x1, true, false, false, false, false), 1, SearchDest::Battlefield, true)), TargetSpec::NoTarget)),
            _ => None,
        },
        _ => None,
    }
}

/// The ability a card (or face) prints at index `i`, if it has one. (cards 432 to 443).
pub open spec fn spec_ability_36(c: CardIndex, i: u32) -> Option<Ability> {
    match c.0 {
        432 => match i {
            0 => Some(tap_for(ManaColor::Colorless, 1)),
            1 => Some(activated(cost(true, mana(2, 0, 0, 0, 0, 0, 0), 0, true), Effect::SearchLibrary(search(flagged(0x1, true, false, false, false, false), 1, SearchDest::Battlefield, true)), TargetSpec::NoTarget)),
            _ => None,
        },
        433 => match i {
            0 => Some(activated(cost(true, mana(0, 0, 0, 0, 0, 0, 0), 0, true), Effect::SearchLibrary(search(flagged(0x1, true, false, false, false, false), 1, SearchDest::Battlefield, true)), TargetSpec::NoTarget)),
            _ => None,
        },
        434 => match i {
            0 => Some(tap_for(ManaColor::Colorless, 1)),
            1 => Some(activated(cost(true, mana(2, 0, 0, 0, 0, 0, 0), 0, true), Effect::SearchLibrary(search(flagged(0x1, true, false, false, false, false), 1, SearchDest::Battlefield, true)), TargetSpec::NoTarget)),
            _ => None,
        },
        435 => match i {
            0 => Some(tap_for(ManaColor::Colorless, 1)),
            1 => Some(activated(cost(true, mana(1, 0, 0, 0, 0, 0, 0), 0, true), Effect::SearchLibrary(search(Filter { basic: true, ..of_subtypes(0x13) }, 1, SearchDest::Battlefield, true)), TargetSpec::NoTarget)),
            _ => None,
        },
        436 => match i {
            0 => Some(tap_for(ManaColor::Colorless, 1)),
            1 => Some(activated(cost(true, mana(1, 0, 0, 0, 0, 0, 0), 0, true), Effect::SearchLibrary(search(Filter { basic: true, ..of_subtypes(0x16) }, 1, SearchDest::Battlefield, true)), TargetSpec::NoTarget)),
            _ => None,
        },
        437 => match i {
            0 => Some(tap_for(ManaColor::Colorless, 1)),
            1 => Some(activated(cost(true, mana(1, 0, 0, 0, 0, 0, 0), 0, true), Effect::SearchLibrary(search(Filter { basic: true, ..of_subtypes(0xe) }, 1, SearchDest::Battlefield, true)), TargetSpec::NoTarget)),
            _ => None,
        },
        438 => match i {
            0 => Some(tap_for(ManaColor::Colorless, 1)),
            1 => Some(activated(cost(true, mana(1, 0, 0, 0, 0, 0, 0), 0, true), Effect::SearchLibrary(search(Filter { basic: true, ..of_subtypes(0xd) }, 1, SearchDest::Battlefield, true)), TargetSpec::NoTarget)),
            _ => None,
        },
        439 => match i {
            0 => Some(tap_for(ManaColor::Colorless, 1)),
            1 => Some(activated(cost(true, mana(1, 0, 0, 0, 0, 0, 0), 0, true), Effect::SearchLibrary(search(Filter { basic: true, ..of_subtypes(0x19) }, 1, SearchDest::Battlefield, true)), TargetSpec::NoTarget)),
            _ => None,
        },
        440 => match i {
            0 => Some(tap_for(ManaColor::Colorless, 1)),
            1 => Some(activated(sacrificing(cost(true, mana(0, 0, 0, 0, 0, 0, 0), 0, false), of_types(0x2)), Effect::GainLife(1), TargetSpec::NoTarget)),
            _ => None,
        },
        441 => match i {
            0 => Some(tap_for(ManaColor::Colorless, 1)),
            1 => Some(activated(sacrificing(cost(true, mana(2, 0, 0, 1, 0, 1, 0), 0, false), of_types(0x2)), Effect::Draw(1), TargetSpec::NoTarget)),
            _ => None,
        },
        442 => match i {
            0 => Some(tap_for(ManaColor::Colorless, 1)),
            1 => Some(activated(sacrificing(cost(true, mana(4, 0, 0, 0, 1, 0, 0), 0, false), of_types(0x2)), Effect::DamageTarget(2), TargetSpec::AnyTarget)),
            _ => None,
        },
        443 => match i {
            0 => Some(tap_for(ManaColor::Colorless, 1)),
            1 => Some(activated(sacrificing(cost(true, mana(1, 0, 0, 0, 0, 0, 0), 0, false), of_types(0x4)), Effect::GainLife(1), TargetSpec::NoTarget)),
            _ => None,
        },
        _ => None,
    }
}

/// The ability a card (or face) prints at index `i`, if it has one. (cards 432 to 443).
fn ability_at_36(c: CardIndex, i: u32) -> (r: Option<Ability>)
    ensures
        r == spec_ability_36(c, i),
{
    match c.0 {
        432 => match i {
            0 => Some(tap_for(ManaColor::Colorless, 1)),
            1 => Some(activated(cost(true, mana(2, 0, 0, 0, 0, 0, 0), 0, true), Effect::SearchLibrary(search(flagged(0x1, true, false, false, false, false), 1, SearchDest::Battlefield, true)), TargetSpec::NoTarget)),
            _ => None,
        },
        433 => match i {
            0 => Some(activated(cost(true, mana(0, 0, 0, 0, 0, 0, 0), 0, true), Effect::SearchLibrary(search(flagged(0x1, true, false, false, false, false), 1, SearchDest::Battlefield, true)), TargetSpec::NoTarget)),
            _ => None,
        },
        434 => match i {
            0 => Some(tap_for(ManaColor::Colorless, 1)),
            1 => Some(activated(cost(true, mana(2, 0, 0, 0, 0, 0, 0), 0, true), Effect::SearchLibrary(search(flagged(0x1, true, false, false, false, false), 1, SearchDest::Battlefield, true)), TargetSpec::NoTarget)),
            _ => None,
        },
        435 => match i {
            0 => Some(tap_for(ManaColor::Colorless, 1)),
            1 => Some(activated(cost(true, mana(1, 0, 0, 0, 0, 0, 0), 0, true), Effect::SearchLibrary(search(Filter { basic: true, ..of_subtypes(0x13) }, 1, SearchDest::Battlefield, true)), TargetSpec::NoTarget)),
            _ => None,
        },
        436 => match i {
            0 => Some(tap_for(ManaColor::Colorless, 1)),
            1 => Some(activated(cost(true, mana(1, 0, 0, 0, 0, 0, 0), 0, true), Effect::SearchLibrary(search(Filter { basic: true, ..of_subtypes(0x16) }, 1, SearchDest::Battlefield, true)), TargetSpec::NoTarget)),
            _ => None,
        },
        437 => match i {
            0 => Some(tap_for(ManaColor::Colorless, 1)),
            1 => Some(activated(cost(true, mana(1, 0, 0, 0, 0, 0, 0), 0, true), Effect::SearchLibrary(search(Filter { basic: true, ..of_subtypes(0xe) }, 1, SearchDest::Battlefield, true)), TargetSpec::NoTarget)),
            _ => None,
        },
        438 => match i {
            0 => Some(tap_for(ManaColor::Colorless, 1)),
            1 => Some(activated(cost(true, mana(1, 0, 0, 0, 0, 0, 0), 0, true), Effect::SearchLibrary(search(Filter { basic: true, ..of_subtypes(0xd) }, 1, SearchDest::Battlefield, true)), TargetSpec::NoTarget)),
            _ => None,
        },
        439 => match i {
            0 => Some(tap_for(ManaColor::Colorless, 1)),
            1 => Some(activated(cost(true, mana(1, 0, 0, 0, 0, 0, 0), 0, true), Effect::SearchLibrary(search(Filter { basic: true, ..of_subtypes(0x19) }, 1, SearchDest::Battlefield, true)), TargetSpec::NoTarget)),
            _ => None,
        },
        440 => match i {
            0 => Some(tap_for(ManaColor::Colorless, 1)),
            1 => Some(activated(sacrificing(cost(true, mana(0, 0, 0, 0, 0, 0, 0), 0, false), of_types(0x2)), Effect::GainLife(1), TargetSpec::NoTarget)),
            _ => None,
        },
        441 => match i {
            0 => Some(tap_for(ManaColor::Colorless, 1)),
            1 => Some(activated(sacrificing(cost(true, mana(2, 0, 0, 1, 0, 1, 0), 0, false), of_types(0x2)), Effect::Draw(1), TargetSpec::NoTarget)),
            _ => None,
        },
        442 => match i {
            0 => Some(tap_for(ManaColor::Colorless, 1)),
            1 => Some(activated(sacrificing(cost(true, mana(4, 0, 0, 0, 1, 0, 0), 0, false), of_types(0x2)), Effect::DamageTarget(2), TargetSpec::AnyTarget)),
            _ => None,
        },
        443 => match i {
            0 => Some(tap_for(ManaColor::Colorless, 1)),
            1 => Some(activated(sacrificing(cost(true, mana(1, 0, 0, 0, 0, 0, 0), 0, false), of_types(0x4)), Effect::GainLife(1), TargetSpec::NoTarget)),
            _ => None,
        },
        _ => None,
    }
}

/// The ability a card (or face) prints at index `i`, if it has one. (cards 444 to 455).
pub open spec fn spec_ability_37(c: CardIndex, i: u32) -> Option<Ability> {
    match c.0 {
        444 => match i {
            0 => Some(tap_for(ManaColor::Colorless, 1)),
            1 => Some(activated(sacrificing(cost(true, mana(0, 1, 1, 0, 0, 0, 0), 0, false), of_subtypes(0x80000000000)), Effect::Draw(1), TargetSpec::NoTarget)),
            _ => None,
        },
        445 => match i {
            0 => Some(tap_for(ManaColor::Green, 1)),
            1 => Some(activated(sacrificing(cost(true, mana(1, 0, 0, 0, 0, 1, 0), 0, false), of_types(0x2)), Effect::CreateToken(food_token()), TargetSpec::NoTarget)),
            _ => None,
        },
        446 => match i {
            0 => Some(tap_for(ManaColor::Colorless, 1)),
            1 => Some(activated(sacrificing(cost(true, mana(3, 0, 0, 0, 0, 0, 0), 0, false), of_types(0x1)), Effect::DestroyTarget, TargetSpec::Permanent(flagged(0x1, false, true, false, false, false)))),
            _ => None,
        },
        447 => match i {
            0 => Some(tap_for(ManaColor::Colorless, 1)),
            1 => Some(activated(sacrificing(cost(true, mana(4, 0, 0, 0, 0, 0, 0), 0, false), of_types(0x1)), Effect::DamageTarget(1), TargetSpec::AnyTarget)),
            _ => None,
        },
        448 => match i {
            0 => Some(tap_for(ManaColor::Colorless, 1)),
            1 => Some(activated(sacrificing(cost(true, mana(2, 0, 0, 0, 0, 0, 0), 0, false), of_subtypes(0x80)), Effect::Draw(1), TargetSpec::NoTarget)),
            _ => None,
        },
        449 => match i {
            0 => Some(tap_for(ManaColor::Colorless, 1)),
            1 => Some(mana_ability(cost(true, mana(0, 0, 0, 0, 0, 0, 0), 1, false), Effect::AddMana(ManaColor::Blue, 1))),
            2 => Some(activated(sacrificing(cost(true, mana(1, 0, 1, 0, 0, 0, 0), 0, false), of_subtypes(0x20)), Effect::MillTarget(4), TargetSpec::AnyPlayer)),
            _ => None,
        },
        450 => match i {
            0 => Some(tap_for(ManaColor::Colorless, 1)),
            1 => Some(activated(discarding(cost(true, mana(1, 0, 0, 0, 0, 0, 0), 0, false)), Effect::Draw(1), TargetSpec::NoTarget)),
            _ => None,
        },
        451 => None,
        452 => match i {
            0 => Some(tap_for(ManaColor::Colorless, 1)),
            1 => Some(activated(cost(true, mana(4, 0, 0, 0, 0, 0, 0), 0, false), Effect::KeywordsToTarget(0x100), TargetSpec::Permanent(of_types(0x2)))),
            _ => None,
        },
        453 => match i {
            0 => Some(tap_for(ManaColor::Colorless, 1)),
            1 => Some(activated(cost(true, mana(0, 0, 0, 0, 0, 0, 0), 0, true), Effect::ShrinkTarget(1, 2), TargetSpec::AttackingWithout(0x1))),
            _ => None,
        },
        454 => match i {
            0 => Some(spell_effect(Effect::DestroyTarget, TargetSpec::Permanent(of_types(0x0)))),
            _ => None,
        },
        455 => match i {
            0 => Some(mana_ability(tap(), Effect::AddChoice { colors: 0x1f, amount: 1, times: 1, restriction: Some(SpendRestriction::MulticoloredSpell) })),
            _ => None,
        },
        _ => None,
    }
}

/// The ability a card (or face) prints at index `i`, if it has one. (cards 444 to 455).
fn ability_at_37(c: CardIndex, i: u32) -> (r: Option<Ability>)
    ensures
        r == spec_ability_37(c, i),
{
    match c.0 {
        444 => match i {
            0 => Some(tap_for(ManaColor::Colorless, 1)),
            1 => Some(activated(sacrificing(cost(true, mana(0, 1, 1, 0, 0, 0, 0), 0, false), of_subtypes(0x80000000000)), Effect::Draw(1), TargetSpec::NoTarget)),
            _ => None,
        },
        445 => match i {
            0 => Some(tap_for(ManaColor::Green, 1)),
            1 => Some(activated(sacrificing(cost(true, mana(1, 0, 0, 0, 0, 1, 0), 0, false), of_types(0x2)), Effect::CreateToken(food_token()), TargetSpec::NoTarget)),
            _ => None,
        },
        446 => match i {
            0 => Some(tap_for(ManaColor::Colorless, 1)),
            1 => Some(activated(sacrificing(cost(true, mana(3, 0, 0, 0, 0, 0, 0), 0, false), of_types(0x1)), Effect::DestroyTarget, TargetSpec::Permanent(flagged(0x1, false, true, false, false, false)))),
            _ => None,
        },
        447 => match i {
            0 => Some(tap_for(ManaColor::Colorless, 1)),
            1 => Some(activated(sacrificing(cost(true, mana(4, 0, 0, 0, 0, 0, 0), 0, false), of_types(0x1)), Effect::DamageTarget(1), TargetSpec::AnyTarget)),
            _ => None,
        },
        448 => match i {
            0 => Some(tap_for(ManaColor::Colorless, 1)),
            1 => Some(activated(sacrificing(cost(true, mana(2, 0, 0, 0, 0, 0, 0), 0, false), of_subtypes(0x80)), Effect::Draw(1), TargetSpec::NoTarget)),
            _ => None,
        },
        449 => match i {
            0 => Some(tap_for(ManaColor::Colorless, 1)),
            1 => Some(mana_ability(cost(true, mana(0, 0, 0, 0, 0, 0, 0), 1, false), Effect::AddMana(ManaColor::Blue, 1))),
            2 => Some(activated(sacrificing(cost(true, mana(1, 0, 1, 0, 0, 0, 0), 0, false), of_subtypes(0x20)), Effect::MillTarget(4), TargetSpec::AnyPlayer)),
            _ => None,
        },
        450 => match i {
            0 => Some(tap_for(ManaColor::Colorless, 1)),
            1 => Some(activated(discarding(cost(true, mana(1, 0, 0, 0, 0, 0, 0), 0, false)), Effect::Draw(1), TargetSpec::NoTarget)),
            _ => None,
        },
        451 => None,
        452 => match i {
            0 => Some(tap_for(ManaColor::Colorless, 1)),
            1 => Some(activated(cost(true, mana(4, 0, 0, 0, 0, 0, 0), 0, false), Effect::KeywordsToTarget(0x100), TargetSpec::Permanent(of_types(0x2)))),
            _ => None,
        },
        453 => match i {
            0 => Some(tap_for(ManaColor::Colorless, 1)),
            1 => Some(activated(cost(true, mana(0, 0, 0, 0, 0, 0, 0), 0, true), Effect::ShrinkTarget(1, 2), TargetSpec::AttackingWithout(0x1))),
            _ => None,
        },
        454 => match i {
            0 => Some(spell_effect(Effect::DestroyTarget, TargetSpec::Permanent(of_types(0x0)))),
            _ => None,
        },
        455 => match i {
            0 => Some(mana_ability(tap(), Effect::AddChoice { colors: 0x1f, amount: 1, times: 1, restriction: Some(SpendRestriction::MulticoloredSpell) })),
            _ => None,
        },
        _ => None,
    }
}

/// The ability a card (or face) prints at index `i`, if it has one. (cards 456 to 467).
pub open spec fn spec_ability_38(c: CardIndex, i: u32) -> Option<Ability> {
    match c.0 {
        456 => match i {
            0 => Some(tap_for(ManaColor::Colorless, 1)),
            1 => Some(triggered(Trigger::PutIntoGraveyardFromBattlefield, Effect::CreateToken(zombie_token()), TargetSpec::NoTarget)),
            _ => None,
        },
        457 => match i {
            0 => Some(tap_for(ManaColor::Colorless, 1)),
            1 => Some(mana_ability(cost(true, mana(1, 0, 0, 0, 0, 0, 0), 0, false), Effect::AddCommanderColor)),
            _ => None,
        },
        458 => match i {
            0 => Some(mana_ability(tap(), Effect::AddChosenColor)),
            _ => None,
        },
        459 => match i {
            0 => Some(mana_ability(tap(), Effect::AddChosenColor)),
            _ => None,
        },
        460 => match i {
            0 => Some(mana_ability(tap(), Effect::AddChosenColor)),
            _ => None,
        },
        461 => match i {
            0 => Some(mana_ability(tap(), Effect::AddChosenColor)),
            _ => None,
        },
        462 => match i {
            0 => Some(mana_ability(tap(), Effect::AddPrintedOrChosen(ManaColor::White))),
            _ => None,
        },
        463 => match i {
            0 => Some(mana_ability(tap(), Effect::AddPrintedOrChosen(ManaColor::Blue))),
            _ => None,
        },
        464 => match i {
            0 => Some(mana_ability(tap(), Effect::AddPrintedOrChosen(ManaColor::Black))),
            _ => None,
        },
        465 => match i {
            0 => Some(mana_ability(tap(), Effect::AddPrintedOrChosen(ManaColor::Red))),
            _ => None,
        },
        466 => match i {
            0 => Some(mana_ability(tap(), Effect::AddPrintedOrChosen(ManaColor::Green))),
            _ => None,
        },
        467 => match i {
            0 => Some(mana_ability(tap(), Effect::AddPrintedOrChosen(ManaColor::White))),
            _ => None,
        },
        _ => None,
    }
}

/// The ability a card (or face) prints at index `i`, if it has one. (cards 456 to 467).
fn ability_at_38(c: CardIndex, i: u32) -> (r: Option<Ability>)
    ensures
        r == spec_ability_38(c, i),
{
    match c.0 {
        456 => match i {
            0 => Some(tap_for(ManaColor::Colorless, 1)),
            1 => Some(triggered(Trigger::PutIntoGraveyardFromBattlefield, Effect::CreateToken(zombie_token()), TargetSpec::NoTarget)),
            _ => None,
        },
        457 => match i {
            0 => Some(tap_for(ManaColor::Colorless, 1)),
            1 => Some(mana_ability(cost(true, mana(1, 0, 0, 0, 0, 0, 0), 0, false), Effect::AddCommanderColor)),
            _ => None,
        },
        458 => match i {
            0 => Some(mana_ability(tap(), Effect::AddChosenColor)),
            _ => None,
        },
        459 => match i {
            0 => Some(mana_ability(tap(), Effect::AddChosenColor)),
            _ => None,
        },
        460 => match i {
            0 => Some(mana_ability(tap(), Effect::AddChosenColor)),
            _ => None,
        },
        461 => match i {
            0 => Some(mana_ability(tap(), Effect::AddChosenColor)),
            _ => None,
        },
        462 => match i {
            0 => Some(mana_ability(tap(), Effect::AddPrintedOrChosen(ManaColor::White))),
            _ => None,
        },
        463 => match i {
            0 => Some(mana_ability(tap(), Effect::AddPrintedOrChosen(ManaColor::Blue))),
            _ => None,
        },
        464 => match i {
            0 => Some(mana_ability(tap(), Effect::AddPrintedOrChosen(ManaColor::Black))),
            _ => None,
        },
        465 => match i {
            0 => Some(mana_ability(tap(), Effect::AddPrintedOrChosen(ManaColor::Red))),
            _ => None,
        },
        466 => match i {
            0 => Some(mana_ability(tap(), Effect::AddPrintedOrChosen(ManaColor::Green))),
            _ => None,
        },
        467 => match i {
            0 => Some(mana_ability(tap(), Effect::AddPrintedOrChosen(ManaColor::White))),
            _ => None,
        },
        _ => None,
    }
}

/// The ability a card (or face) prints at index `i`, if it has one. (cards 468 to 471).
pub open spec fn spec_ability_39(c: CardIndex, i: u32) -> Option<Ability> {
    match c.0 {
        468 => match i {
            0 => Some(mana_ability(tap(), Effect::AddPrintedOrChosen(ManaColor::Blue))),
            _ => None,
        },
        469 => match i {
            0 => Some(mana_ability(tap(), Effect::AddPrintedOrChosen(ManaColor::Black))),
            _ => None,
        },
        470 => match i {
            0 => Some(mana_ability(tap(), Effect::AddPrintedOrChosen(ManaColor::Red))),
            _ => None,
        },
        471 => match i {
            0 => Some(mana_ability(tap(), Effect::AddPrintedOrChosen(ManaColor::Green))),
            _ => None,
        },
        _ => None,
    }
}

/// The ability a card (or face) prints at index `i`, if it has one. (cards 468 to 471).
fn ability_at_39(c: CardIndex, i: u32) -> (r: Option<Ability>)
    ensures
        r == spec_ability_39(c, i),
{
    match c.0 {
        468 => match i {
            0 => Some(mana_ability(tap(), Effect::AddPrintedOrChosen(ManaColor::Blue))),
            _ => None,
        },
        469 => match i {
            0 => Some(mana_ability(tap(), Effect::AddPrintedOrChosen(ManaColor::Black))),
            _ => None,
        },
        470 => match i {
            0 => Some(mana_ability(tap(), Effect::AddPrintedOrChosen(ManaColor::Red))),
            _ => None,
        },
        471 => match i {
            0 => Some(mana_ability(tap(), Effect::AddPrintedOrChosen(ManaColor::Green))),
            _ => None,
        },
        _ => None,
    }
}

/// The ability a card (or face) prints at index `i`, if it has one.
pub open spec fn spec_ability(c: CardIndex, i: u32) -> Option<Ability> {
    if c.0 < 12 {
        spec_ability_0(c, i)
    } else if c.0 < 24 {
        spec_ability_1(c, i)
    } else if c.0 < 36 {
        spec_ability_2(c, i)
    } else if c.0 < 48 {
        spec_ability_3(c, i)
    } else if c.0 < 60 {
        spec_ability_4(c, i)
    } else if c.0 < 72 {
        spec_ability_5(c, i)
    } else if c.0 < 84 {
        spec_ability_6(c, i)
    } else if c.0 < 96 {
        spec_ability_7(c, i)
    } else if c.0 < 108 {
        spec_ability_8(c, i)
    } else if c.0 < 120 {
        spec_ability_9(c, i)
    } else if c.0 < 132 {
        spec_ability_10(c, i)
    } else if c.0 < 144 {
        spec_ability_11(c, i)
    } else if c.0 < 156 {
        spec_ability_12(c, i)
    } else if c.0 < 168 {
        spec_ability_13(c, i)
    } else if c.0 < 180 {
        spec_ability_14(c, i)
    } else if c.0 < 192 {
        spec_ability_15(c, i)
    } else if c.0 < 204 {
        spec_ability_16(c, i)
    } else if c.0 < 216 {
        spec_ability_17(c, i)
    } else if c.0 < 228 {
        spec_ability_18(c, i)
    } else if c.0 < 240 {
        spec_ability_19(c, i)
    } else if c.0 < 252 {
        spec_ability_20(c, i)
    } else if c.0 < 264 {
        spec_ability_21(c, i)
    } else if c.0 < 276 {
        spec_ability_22(c, i)
    } else if c.0 < 288 {
        spec_ability_23(c, i)
    } else if c.0 < 300 {
        spec_ability_24(c, i)
    } else if c.0 < 312 {
        spec_ability_25(c, i)
    } else if c.0 < 324 {
        spec_ability_26(c, i)
    } else if c.0 < 336 {
        spec_ability_27(c, i)
    } else if c.0 < 348 {
        spec_ability_28(c, i)
    } else if c.0 < 360 {
        spec_ability_29(c, i)
    } else if c.0 < 372 {
        spec_ability_30(c, i)
    } else if c.0 < 384 {
        spec_ability_31(c, i)
    } else if c.0 < 396 {
        spec_ability_32(c, i)
    } else if c.0 < 408 {
        spec_ability_33(c, i)
    } else if c.0 < 420 {
        spec_ability_34(c, i)
    } else if c.0 < 432 {
        spec_ability_35(c, i)
    } else if c.0 < 444 {
        spec_ability_36(c, i)
    } else if c.0 < 456 {
        spec_ability_37(c, i)
    } else if c.0 < 468 {
        spec_ability_38(c, i)
    } else if c.0 < 472 {
        spec_ability_39(c, i)
    } else {
        None
    }
}

/// The ability a card (or face) prints at index `i`, if it has one.
pub fn ability_at(c: CardIndex, i: u32) -> (r: Option<Ability>)
    ensures
        r == spec_ability(c, i),
{
    if c.0 < 12 {
        ability_at_0(c, i)
    } else if c.0 < 24 {
        ability_at_1(c, i)
    } else if c.0 < 36 {
        ability_at_2(c, i)
    } else if c.0 < 48 {
        ability_at_3(c, i)
    } else if c.0 < 60 {
        ability_at_4(c, i)
    } else if c.0 < 72 {
        ability_at_5(c, i)
    } else if c.0 < 84 {
        ability_at_6(c, i)
    } else if c.0 < 96 {
        ability_at_7(c, i)
    } else if c.0 < 108 {
        ability_at_8(c, i)
    } else if c.0 < 120 {
        ability_at_9(c, i)
    } else if c.0 < 132 {
        ability_at_10(c, i)
    } else if c.0 < 144 {
        ability_at_11(c, i)
    } else if c.0 < 156 {
        ability_at_12(c, i)
    } else if c.0 < 168 {
        ability_at_13(c, i)
    } else if c.0 < 180 {
        ability_at_14(c, i)
    } else if c.0 < 192 {
        ability_at_15(c, i)
    } else if c.0 < 204 {
        ability_at_16(c, i)
    } else if c.0 < 216 {
        ability_at_17(c, i)
    } else if c.0 < 228 {
        ability_at_18(c, i)
    } else if c.0 < 240 {
        ability_at_19(c, i)
    } else if c.0 < 252 {
        ability_at_20(c, i)
    } else if c.0 < 264 {
        ability_at_21(c, i)
    } else if c.0 < 276 {
        ability_at_22(c, i)
    } else if c.0 < 288 {
        ability_at_23(c, i)
    } else if c.0 < 300 {
        ability_at_24(c, i)
    } else if c.0 < 312 {
        ability_at_25(c, i)
    } else if c.0 < 324 {
        ability_at_26(c, i)
    } else if c.0 < 336 {
        ability_at_27(c, i)
    } else if c.0 < 348 {
        ability_at_28(c, i)
    } else if c.0 < 360 {
        ability_at_29(c, i)
    } else if c.0 < 372 {
        ability_at_30(c, i)
    } else if c.0 < 384 {
        ability_at_31(c, i)
    } else if c.0 < 396 {
        ability_at_32(c, i)
    } else if c.0 < 408 {
        ability_at_33(c, i)
    } else if c.0 < 420 {
        ability_at_34(c, i)
    } else if c.0 < 432 {
        ability_at_35(c, i)
    } else if c.0 < 444 {
        ability_at_36(c, i)
    } else if c.0 < 456 {
        ability_at_37(c, i)
    } else if c.0 < 468 {
        ability_at_38(c, i)
    } else if c.0 < 472 {
        ability_at_39(c, i)
    } else {
        None
    }
}

/// Plains: a basic land, "({T}: Add {W}.)"
#[verifier::allow_in_spec]
pub fn plains() -> CardIndex
    returns
        CardIndex(0),
{
    CardIndex(0)
}

/// Island: a basic land, "({T}: Add {U}.)"
#[verifier::allow_in_spec]
pub fn island() -> CardIndex
    returns
        CardIndex(1),
{
    CardIndex(1)
}

/// Swamp: a basic land, "({T}: Add {B}.)"
#[verifier::allow_in_spec]
pub fn swamp() -> CardIndex
    returns
        CardIndex(2),
{
    CardIndex(2)
}

/// Mountain: a basic land, "({T}: Add {R}.)"
#[verifier::allow_in_spec]
pub fn mountain() -> CardIndex
    returns
        CardIndex(3),
{
    CardIndex(3)
}

/// Forest: a basic land, "({T}: Add {G}.)"
#[verifier::allow_in_spec]
pub fn forest() -> CardIndex
    returns
        CardIndex(4),
{
    CardIndex(4)
}

/// A Clue token: an artifact with "{2}, Sacrifice this artifact: Draw a card."
#[verifier::allow_in_spec]
pub fn clue_token() -> CardIndex
    returns
        CardIndex(5),
{
    CardIndex(5)
}

/// A 2/2 black Zombie creature token.
#[verifier::allow_in_spec]
pub fn zombie_token() -> CardIndex
    returns
        CardIndex(6),
{
    CardIndex(6)
}

/// Llanowar Elves: a 1/1 green Elf Druid creature, "{T}: Add {G}."
#[verifier::allow_in_spec]
pub fn llanowar_elves() -> CardIndex
    returns
        CardIndex(7),
{
    CardIndex(7)
}

/// Baleful Strix: a 1/1 blue and black artifact creature, a Bird with flying and deathtouch, "When this creature enters, draw a card."
#[verifier::allow_in_spec]
pub fn baleful_strix() -> CardIndex
    returns
        CardIndex(8),
{
    CardIndex(8)
}

/// Myr Retriever: a 1/1 colorless artifact creature, a Myr.
#[verifier::allow_in_spec]
pub fn myr_retriever() -> CardIndex
    returns
        CardIndex(9),
{
    CardIndex(9)
}

/// Carnage Tyrant: a 7/6 green Dinosaur creature with trample and hexproof.
#[verifier::allow_in_spec]
pub fn carnage_tyrant() -> CardIndex
    returns
        CardIndex(10),
{
    CardIndex(10)
}

/// Sheoldred, the Apocalypse: a legendary 4/5 black Phyrexian Praetor creature with deathtouch.
#[verifier::allow_in_spec]
pub fn sheoldred_the_apocalypse() -> CardIndex
    returns
        CardIndex(11),
{
    CardIndex(11)
}

/// Luminarch Ascension: a white enchantment.
#[verifier::allow_in_spec]
pub fn luminarch_ascension() -> CardIndex
    returns
        CardIndex(12),
{
    CardIndex(12)
}

/// A 1/1 green Elf creature with no abilities.
#[verifier::allow_in_spec]
pub fn quiet_creature() -> CardIndex
    returns
        CardIndex(13),
{
    CardIndex(13)
}

/// Sol Ring: an artifact, "{T}: Add {C}{C}."
#[verifier::allow_in_spec]
pub fn quiet_artifact() -> CardIndex
    returns
        CardIndex(14),
{
    CardIndex(14)
}

/// Katara, the Fearless: a legendary blue Human Warrior Ally creature.
#[verifier::allow_in_spec]
pub fn katara_the_fearless() -> CardIndex
    returns
        CardIndex(15),
{
    CardIndex(15)
}

/// Badlands: a land, a Swamp Mountain, "({T}: Add {B} or {R}.)"
#[verifier::allow_in_spec]
pub fn badlands() -> CardIndex
    returns
        CardIndex(16),
{
    CardIndex(16)
}

/// Irrigated Farmland: a land, a Plains Island, "This land enters tapped."
#[verifier::allow_in_spec]
pub fn irrigated_farmland() -> CardIndex
    returns
        CardIndex(17),
{
    CardIndex(17)
}

/// Festering Goblin: a 1/1 black Zombie Goblin creature.
#[verifier::allow_in_spec]
pub fn festering_goblin() -> CardIndex
    returns
        CardIndex(18),
{
    CardIndex(18)
}

/// Bazaar of Baghdad: "{T}: Draw two cards, then discard three cards."
#[verifier::allow_in_spec]
pub fn bazaar_of_baghdad() -> CardIndex
    returns
        CardIndex(19),
{
    CardIndex(19)
}

/// City of Ass: "This land enters tapped." Its fractional mana ability is not carried out.
#[verifier::allow_in_spec]
pub fn city_of_ass() -> CardIndex
    returns
        CardIndex(20),
{
    CardIndex(20)
}

/// City of Traitors: "When you play another land, sacrifice this land." / "{T}: Add {C}{C}."
#[verifier::allow_in_spec]
pub fn city_of_traitors() -> CardIndex
    returns
        CardIndex(21),
{
    CardIndex(21)
}

/// Desolate Lighthouse: "{T}: Add {C}." / "{1}{U}{R}, {T}: Draw a card, then discard a card."
#[verifier::allow_in_spec]
pub fn desolate_lighthouse() -> CardIndex
    returns
        CardIndex(22),
{
    CardIndex(22)
}

/// Elephant Graveyard: "{T}: Add {C}." Its regeneration ability is not carried out.
#[verifier::allow_in_spec]
pub fn elephant_graveyard() -> CardIndex
    returns
        CardIndex(23),
{
    CardIndex(23)
}

/// Geier Reach Sanitarium: "{T}: Add {C}." / "{2}, {T}: Each player draws a card, then discards a card."
#[verifier::allow_in_spec]
pub fn geier_reach_sanitarium() -> CardIndex
    returns
        CardIndex(24),
{
    CardIndex(24)
}

/// Oboro, Palace in the Clouds: "{T}: Add {U}." / "{1}: Return Oboro to its owner's hand."
#[verifier::allow_in_spec]
pub fn oboro_palace_in_the_clouds() -> CardIndex
    returns
        CardIndex(25),
{
    CardIndex(25)
}

/// Scavenger Grounds, a Desert: "{T}: Add {C}." / "{2}, {T}, Sacrifice a Desert: Exile all graveyards."
#[verifier::allow_in_spec]
pub fn scavenger_grounds() -> CardIndex
    returns
        CardIndex(26),
{
    CardIndex(26)
}

/// Shivan Gorge: "{T}: Add {C}." Its damage ability is not carried out.
#[verifier::allow_in_spec]
pub fn shivan_gorge() -> CardIndex
    returns
        CardIndex(27),
{
    CardIndex(27)
}

/// Throne of the High City: "{T}: Add {C}." / "{4}, {T}, Sacrifice this land: You become the monarch."
#[verifier::allow_in_spec]
pub fn throne_of_the_high_city() -> CardIndex
    returns
        CardIndex(28),
{
    CardIndex(28)
}

/// Treasure Vault, an artifact land: "{T}: Add {C}." / "{X}{X}, {T}, Sacrifice this land: Create X Treasure tokens." (X is paid as zero.)
#[verifier::allow_in_spec]
pub fn treasure_vault() -> CardIndex
    returns
        CardIndex(29),
{
    CardIndex(29)
}

/// Watermarket: "{T}: Add {C}{C}." (Its watermark restriction is not carried out.)
#[verifier::allow_in_spec]
pub fn watermarket() -> CardIndex
    returns
        CardIndex(30),
{
    CardIndex(30)
}

/// Witch's Clinic: "{T}: Add {C}." Its commander ability is not carried out.
#[verifier::allow_in_spec]
pub fn witch_s_clinic() -> CardIndex
    returns
        CardIndex(31),
{
    CardIndex(31)
}

/// Yavimaya Hollow: "{T}: Add {C}." Its regeneration ability is not carried out.
#[verifier::allow_in_spec]
pub fn yavimaya_hollow() -> CardIndex
    returns
        CardIndex(32),
{
    CardIndex(32)
}

/// Access Tunnel: "{T}: Add {C}." Its evasion ability is not carried out.
#[verifier::allow_in_spec]
pub fn access_tunnel() -> CardIndex
    returns
        CardIndex(33),
{
    CardIndex(33)
}

/// Alchemist's Refuge: "{T}: Add {C}." Its flash ability is not carried out.
#[verifier::allow_in_spec]
pub fn alchemist_s_refuge() -> CardIndex
    returns
        CardIndex(34),
{
    CardIndex(34)
}

/// Cinder Marsh: "{T}: Add {C}." / "{T}: Add {B} or {R}. This land doesn't untap during your next untap step."
#[verifier::allow_in_spec]
pub fn cinder_marsh() -> CardIndex
    returns
        CardIndex(35),
{
    CardIndex(35)
}

/// Cloudcrest Lake: "{T}: Add {C}." / "{T}: Add {W} or {U}. This land doesn't untap during your next untap step."
#[verifier::allow_in_spec]
pub fn cloudcrest_lake() -> CardIndex
    returns
        CardIndex(36),
{
    CardIndex(36)
}

/// Lantern-Lit Graveyard: "{T}: Add {C}." / "{T}: Add {B} or {R}. This land doesn't untap during your next untap step."
#[verifier::allow_in_spec]
pub fn lantern_lit_graveyard() -> CardIndex
    returns
        CardIndex(37),
{
    CardIndex(37)
}

/// Mogg Hollows: "{T}: Add {C}." / "{T}: Add {R} or {G}. This land doesn't untap during your next untap step."
#[verifier::allow_in_spec]
pub fn mogg_hollows() -> CardIndex
    returns
        CardIndex(38),
{
    CardIndex(38)
}

/// Pinecrest Ridge: "{T}: Add {C}." / "{T}: Add {R} or {G}. This land doesn't untap during your next untap step."
#[verifier::allow_in_spec]
pub fn pinecrest_ridge() -> CardIndex
    returns
        CardIndex(39),
{
    CardIndex(39)
}

/// Rootwater Depths: "{T}: Add {C}." / "{T}: Add {U} or {B}. This land doesn't untap during your next untap step."
#[verifier::allow_in_spec]
pub fn rootwater_depths() -> CardIndex
    returns
        CardIndex(40),
{
    CardIndex(40)
}

/// Thalakos Lowlands: "{T}: Add {C}." / "{T}: Add {W} or {U}. This land doesn't untap during your next untap step."
#[verifier::allow_in_spec]
pub fn thalakos_lowlands() -> CardIndex
    returns
        CardIndex(41),
{
    CardIndex(41)
}

/// Tranquil Garden: "{T}: Add {C}." / "{T}: Add {G} or {W}. This land doesn't untap during your next untap step."
#[verifier::allow_in_spec]
pub fn tranquil_garden() -> CardIndex
    returns
        CardIndex(42),
{
    CardIndex(42)
}

/// Vec Townships: "{T}: Add {C}." / "{T}: Add {G} or {W}. This land doesn't untap during your next untap step."
#[verifier::allow_in_spec]
pub fn vec_townships() -> CardIndex
    returns
        CardIndex(43),
{
    CardIndex(43)
}

/// Waterveil Cavern: "{T}: Add {C}." / "{T}: Add {U} or {B}. This land doesn't untap during your next untap step."
#[verifier::allow_in_spec]
pub fn waterveil_cavern() -> CardIndex
    returns
        CardIndex(44),
{
    CardIndex(44)
}

/// Drownyard Temple: "{T}: Add {C}." Its graveyard ability is not carried out.
#[verifier::allow_in_spec]
pub fn drownyard_temple() -> CardIndex
    returns
        CardIndex(45),
{
    CardIndex(45)
}

/// Forgotten Monument, a Cave: "{T}: Add {C}." Its grant to other Caves is not carried out.
#[verifier::allow_in_spec]
pub fn forgotten_monument() -> CardIndex
    returns
        CardIndex(46),
{
    CardIndex(46)
}

/// Gavony Township: "{T}: Add {C}." / "{2}{G}{W}, {T}: Put a +1/+1 counter on each creature you control."
#[verifier::allow_in_spec]
pub fn gavony_township() -> CardIndex
    returns
        CardIndex(47),
{
    CardIndex(47)
}

/// Glimmerpost, a Locus: "{T}: Add {C}." / "When this land enters, you gain 1 life for each Locus on the battlefield."
#[verifier::allow_in_spec]
pub fn glimmerpost() -> CardIndex
    returns
        CardIndex(48),
{
    CardIndex(48)
}

/// Cloudpost, a Locus: "This land enters tapped." / "{T}: Add {C} for each Locus on the battlefield."
#[verifier::allow_in_spec]
pub fn cloudpost() -> CardIndex
    returns
        CardIndex(49),
{
    CardIndex(49)
}

/// Hammerheim: "{T}: Add {R}." Its landwalk ability is not carried out.
#[verifier::allow_in_spec]
pub fn hammerheim() -> CardIndex
    returns
        CardIndex(50),
{
    CardIndex(50)
}

/// Labyrinth of Skophos: "{T}: Add {C}." Its combat ability is not carried out.
#[verifier::allow_in_spec]
pub fn labyrinth_of_skophos() -> CardIndex
    returns
        CardIndex(51),
{
    CardIndex(51)
}

/// Library of Alexandria: "{T}: Add {C}." Its draw ability is not carried out.
#[verifier::allow_in_spec]
pub fn library_of_alexandria() -> CardIndex
    returns
        CardIndex(52),
{
    CardIndex(52)
}

/// Novijen, Heart of Progress: "{T}: Add {C}." Its counter ability is not carried out.
#[verifier::allow_in_spec]
pub fn novijen_heart_of_progress() -> CardIndex
    returns
        CardIndex(53),
{
    CardIndex(53)
}

/// Rix Maadi, Dungeon Palace: "{T}: Add {C}." / "{1}{B}{R}, {T}: Each player discards a card. Activate only as a sorcery."
#[verifier::allow_in_spec]
pub fn rix_maadi_dungeon_palace() -> CardIndex
    returns
        CardIndex(54),
{
    CardIndex(54)
}

/// Stensia Bloodhall: "{T}: Add {C}." Its damage ability is not carried out.
#[verifier::allow_in_spec]
pub fn stensia_bloodhall() -> CardIndex
    returns
        CardIndex(55),
{
    CardIndex(55)
}

/// Sunscorched Desert, a Desert: "{T}: Add {C}." Its enters trigger is not carried out.
#[verifier::allow_in_spec]
pub fn sunscorched_desert() -> CardIndex
    returns
        CardIndex(56),
{
    CardIndex(56)
}

/// Tomb of the Spirit Dragon: "{T}: Add {C}." / "{2}, {T}: You gain 1 life for each colorless creature you control."
#[verifier::allow_in_spec]
pub fn tomb_of_the_spirit_dragon() -> CardIndex
    returns
        CardIndex(57),
{
    CardIndex(57)
}

/// Trenchpost, a Locus: "{T}: Add {C}." / "{3}, {T}: Target player mills a card for each Locus you control."
#[verifier::allow_in_spec]
pub fn trenchpost() -> CardIndex
    returns
        CardIndex(58),
{
    CardIndex(58)
}

/// Underdome: "{T}: Add {C}." Its Un-cost ability is not carried out.
#[verifier::allow_in_spec]
pub fn underdome() -> CardIndex
    returns
        CardIndex(59),
{
    CardIndex(59)
}

/// Urborg: "{T}: Add {B}." Its keyword ability is not carried out.
#[verifier::allow_in_spec]
pub fn urborg() -> CardIndex
    returns
        CardIndex(60),
{
    CardIndex(60)
}

/// Urza's Power-Plant, an Urza's Power-Plant: "{T}: Add {C}." (Its Tron clause is not carried out.)
#[verifier::allow_in_spec]
pub fn urza_s_power_plant() -> CardIndex
    returns
        CardIndex(61),
{
    CardIndex(61)
}

/// Urza's Mine, an Urza's Mine: "{T}: Add {C}." (Its Tron clause is not carried out.)
#[verifier::allow_in_spec]
pub fn urza_s_mine() -> CardIndex
    returns
        CardIndex(62),
{
    CardIndex(62)
}

/// Urza's Tower, an Urza's Tower: "{T}: Add {C}." (Its Tron clause is not carried out.)
#[verifier::allow_in_spec]
pub fn urza_s_tower() -> CardIndex
    returns
        CardIndex(63),
{
    CardIndex(63)
}

/// Winding Canyons: "{T}: Add {C}." Its flash ability is not carried out.
#[verifier::allow_in_spec]
pub fn winding_canyons() -> CardIndex
    returns
        CardIndex(64),
{
    CardIndex(64)
}

/// Barkchannel Pathway // Tidechannel Pathway: a modal double-faced land. The front face says "{T}: Add {G}."; the back face "{T}: Add {U}."
#[verifier::allow_in_spec]
pub fn barkchannel_pathway() -> CardIndex
    returns
        CardIndex(66),
{
    CardIndex(66)
}

/// Blightstep Pathway // Searstep Pathway: a modal double-faced land. The front face says "{T}: Add {B}."; the back face "{T}: Add {R}."
#[verifier::allow_in_spec]
pub fn blightstep_pathway() -> CardIndex
    returns
        CardIndex(68),
{
    CardIndex(68)
}

/// Branchloft Pathway // Boulderloft Pathway: a modal double-faced land. The front face says "{T}: Add {G}."; the back face "{T}: Add {W}."
#[verifier::allow_in_spec]
pub fn branchloft_pathway() -> CardIndex
    returns
        CardIndex(70),
{
    CardIndex(70)
}

/// Cragcrown Pathway // Timbercrown Pathway: a modal double-faced land. The front face says "{T}: Add {R}."; the back face "{T}: Add {G}."
#[verifier::allow_in_spec]
pub fn cragcrown_pathway() -> CardIndex
    returns
        CardIndex(72),
{
    CardIndex(72)
}

/// Darkbore Pathway // Slitherbore Pathway: a modal double-faced land. The front face says "{T}: Add {B}."; the back face "{T}: Add {G}."
#[verifier::allow_in_spec]
pub fn darkbore_pathway() -> CardIndex
    returns
        CardIndex(74),
{
    CardIndex(74)
}

/// Needleverge Pathway // Pillarverge Pathway: a modal double-faced land. The front face says "{T}: Add {R}."; the back face "{T}: Add {W}."
#[verifier::allow_in_spec]
pub fn needleverge_pathway() -> CardIndex
    returns
        CardIndex(76),
{
    CardIndex(76)
}

/// Riverglide Pathway // Lavaglide Pathway: a modal double-faced land. The front face says "{T}: Add {U}."; the back face "{T}: Add {R}."
#[verifier::allow_in_spec]
pub fn riverglide_pathway() -> CardIndex
    returns
        CardIndex(78),
{
    CardIndex(78)
}

/// Blighted Fen: "{T}: Add {C}." / "{4}{B}, {T}, Sacrifice this land: Target opponent sacrifices a creature of their choice."
#[verifier::allow_in_spec]
pub fn blighted_fen() -> CardIndex
    returns
        CardIndex(79),
{
    CardIndex(79)
}

/// Blighted Steppe: "{T}: Add {C}." Its life ability is not carried out.
#[verifier::allow_in_spec]
pub fn blighted_steppe() -> CardIndex
    returns
        CardIndex(80),
{
    CardIndex(80)
}

/// Bonders' Enclave: "{T}: Add {C}." Its draw ability is not carried out.
#[verifier::allow_in_spec]
pub fn bonders_enclave() -> CardIndex
    returns
        CardIndex(81),
{
    CardIndex(81)
}

/// Command Beacon: "{T}: Add {C}." Its commander ability is not carried out.
#[verifier::allow_in_spec]
pub fn command_beacon() -> CardIndex
    returns
        CardIndex(82),
{
    CardIndex(82)
}

/// Crypt of Agadeem: "This land enters tapped." / "{T}: Add {B}." / "{2}, {T}: Add {B} for each black creature card in your graveyard."
#[verifier::allow_in_spec]
pub fn crypt_of_agadeem() -> CardIndex
    returns
        CardIndex(83),
{
    CardIndex(83)
}

/// Drannith Ruins: "{T}: Add {C}." / "{2}, {T}: Put two +1/+1 counters on target non-Human creature." (Its entered-this-turn clause is not carried out.)
#[verifier::allow_in_spec]
pub fn drannith_ruins() -> CardIndex
    returns
        CardIndex(84),
{
    CardIndex(84)
}

/// Dread Statuary: "{T}: Add {C}." / "{4}: This land becomes a 4/2 Golem artifact creature until end of turn. It's still a land."
#[verifier::allow_in_spec]
pub fn dread_statuary() -> CardIndex
    returns
        CardIndex(85),
{
    CardIndex(85)
}

/// Eiganjo Castle: "{T}: Add {W}." Its prevention ability is not carried out.
#[verifier::allow_in_spec]
pub fn eiganjo_castle() -> CardIndex
    returns
        CardIndex(86),
{
    CardIndex(86)
}

/// Emergence Zone: "{T}: Add {C}." / "{1}, {T}, Sacrifice this land: You may cast spells this turn as though they had flash." (Its permission has no effect here: this engine casts no spells.)
#[verifier::allow_in_spec]
pub fn emergence_zone() -> CardIndex
    returns
        CardIndex(87),
{
    CardIndex(87)
}

/// Ghost Town: "{T}: Add {C}." / "{0}: Return this land to its owner's hand." (Its timing clause is not carried out.)
#[verifier::allow_in_spec]
pub fn ghost_town() -> CardIndex
    returns
        CardIndex(88),
{
    CardIndex(88)
}

/// Hall of Heliod's Generosity: "{T}: Add {C}." / "{1}{W}, {T}: Put target enchantment card from your graveyard on top of your library."
#[verifier::allow_in_spec]
pub fn hall_of_heliod_s_generosity() -> CardIndex
    returns
        CardIndex(89),
{
    CardIndex(89)
}

/// Kessig Wolf Run: "{T}: Add {C}." / "{X}{R}{G}, {T}: Target creature gets +X/+0 and gains trample until end of turn." (X is paid as zero.)
#[verifier::allow_in_spec]
pub fn kessig_wolf_run() -> CardIndex
    returns
        CardIndex(90),
{
    CardIndex(90)
}

/// Miren, the Moaning Well: "{T}: Add {C}." Its sacrifice ability is not carried out.
#[verifier::allow_in_spec]
pub fn miren_the_moaning_well() -> CardIndex
    returns
        CardIndex(91),
{
    CardIndex(91)
}

/// Ominous Cemetery: "{T}: Add {C}." Its exile ability is not carried out.
#[verifier::allow_in_spec]
pub fn ominous_cemetery() -> CardIndex
    returns
        CardIndex(92),
{
    CardIndex(92)
}

/// Petrified Field: "{T}: Add {C}." / "{T}, Sacrifice this land: Return target land card from your graveyard to your hand."
#[verifier::allow_in_spec]
pub fn petrified_field() -> CardIndex
    returns
        CardIndex(93),
{
    CardIndex(93)
}

/// Prahv, Spires of Order: "{T}: Add {C}." Its prevention ability is not carried out.
#[verifier::allow_in_spec]
pub fn prahv_spires_of_order() -> CardIndex
    returns
        CardIndex(94),
{
    CardIndex(94)
}

/// R&D's Secret Lair: "{T}: Add {C}." (Its errata rule has no effect here.)
#[verifier::allow_in_spec]
pub fn r_d_s_secret_lair() -> CardIndex
    returns
        CardIndex(95),
{
    CardIndex(95)
}

/// Rainbow Vale: "{T}: Add one mana of any color." (Its control change is not carried out.)
#[verifier::allow_in_spec]
pub fn rainbow_vale() -> CardIndex
    returns
        CardIndex(96),
{
    CardIndex(96)
}

/// Rhystic Cave: "{T}: Add one mana of any color." (Its payment clause is not carried out.)
#[verifier::allow_in_spec]
pub fn rhystic_cave() -> CardIndex
    returns
        CardIndex(97),
{
    CardIndex(97)
}

/// Riftstone Portal: "{T}: Add {C}." Its graveyard ability is not carried out.
#[verifier::allow_in_spec]
pub fn riftstone_portal() -> CardIndex
    returns
        CardIndex(98),
{
    CardIndex(98)
}

/// Sandstorm Verge, a Desert: "{T}: Add {C}." Its blocking ability is not carried out.
#[verifier::allow_in_spec]
pub fn sandstorm_verge() -> CardIndex
    returns
        CardIndex(99),
{
    CardIndex(99)
}

/// Smoldering Spires: "This land enters tapped." / "{T}: Add {R}." Its enters trigger is not carried out.
#[verifier::allow_in_spec]
pub fn smoldering_spires() -> CardIndex
    returns
        CardIndex(100),
{
    CardIndex(100)
}

/// Soulstone Sanctuary: "{T}: Add {C}." / "{4}: This land becomes a 3/3 creature with vigilance and all creature types. It's still a land." (The effect lasts indefinitely.)
#[verifier::allow_in_spec]
pub fn soulstone_sanctuary() -> CardIndex
    returns
        CardIndex(101),
{
    CardIndex(101)
}

/// Terrain Generator: "{T}: Add {C}." Its land ability is not carried out.
#[verifier::allow_in_spec]
pub fn terrain_generator() -> CardIndex
    returns
        CardIndex(102),
{
    CardIndex(102)
}

/// Thespian's Stage: "{T}: Add {C}." Its copy ability is not carried out.
#[verifier::allow_in_spec]
pub fn thespian_s_stage() -> CardIndex
    returns
        CardIndex(103),
{
    CardIndex(103)
}

/// Unholy Grotto: "{T}: Add {C}." / "{B}, {T}: Put target Zombie card from your graveyard on top of your library."
#[verifier::allow_in_spec]
pub fn unholy_grotto() -> CardIndex
    returns
        CardIndex(104),
{
    CardIndex(104)
}

/// Unstable Frontier: "{T}: Add {C}." Its land type ability is not carried out.
#[verifier::allow_in_spec]
pub fn unstable_frontier() -> CardIndex
    returns
        CardIndex(105),
{
    CardIndex(105)
}

/// Untaidake, the Cloud Keeper: "Untaidake enters tapped." / "{T}, Pay 2 life: Add {C}{C}. Spend this mana only to cast legendary spells."
#[verifier::allow_in_spec]
pub fn untaidake_the_cloud_keeper() -> CardIndex
    returns
        CardIndex(106),
{
    CardIndex(106)
}

/// Vault of the Archangel: "{T}: Add {C}." / "{2}{W}{B}, {T}: Creatures you control gain deathtouch and lifelink until end of turn."
#[verifier::allow_in_spec]
pub fn vault_of_the_archangel() -> CardIndex
    returns
        CardIndex(107),
{
    CardIndex(107)
}

/// Wintermoon Mesa: "This land enters tapped." / "{T}: Add {C}." Its tapping ability is not carried out.
#[verifier::allow_in_spec]
pub fn wintermoon_mesa() -> CardIndex
    returns
        CardIndex(108),
{
    CardIndex(108)
}

/// Aether Hub: "{T}: Add {C}." Its energy abilities are not carried out.
#[verifier::allow_in_spec]
pub fn aether_hub() -> CardIndex
    returns
        CardIndex(109),
{
    CardIndex(109)
}

/// Agna Qel'a: "This land enters tapped unless you control a basic land." / "{T}: Add {U}." / "{2}{U}, {T}: Draw a card, then discard a card."
#[verifier::allow_in_spec]
pub fn agna_qel_a() -> CardIndex
    returns
        CardIndex(110),
{
    CardIndex(110)
}

/// Ancient Amphitheater: "{T}: Add {R} or {W}." (Its reveal clause, for a Giant card, is not carried out: it enters untapped.)
#[verifier::allow_in_spec]
pub fn ancient_amphitheater() -> CardIndex
    returns
        CardIndex(111),
{
    CardIndex(111)
}

/// Auntie's Hovel: "{T}: Add {B} or {R}." (Its reveal clause, for a Goblin card, is not carried out: it enters untapped.)
#[verifier::allow_in_spec]
pub fn auntie_s_hovel() -> CardIndex
    returns
        CardIndex(112),
{
    CardIndex(112)
}

/// Gilt-Leaf Palace: "{T}: Add {B} or {G}." (Its reveal clause, for an Elf card, is not carried out: it enters untapped.)
#[verifier::allow_in_spec]
pub fn gilt_leaf_palace() -> CardIndex
    returns
        CardIndex(113),
{
    CardIndex(113)
}

/// Secluded Glen: "{T}: Add {U} or {B}." (Its reveal clause, for a Faerie card, is not carried out: it enters untapped.)
#[verifier::allow_in_spec]
pub fn secluded_glen() -> CardIndex
    returns
        CardIndex(114),
{
    CardIndex(114)
}

/// Wanderwine Hub: "{T}: Add {W} or {U}." (Its reveal clause, for a Merfolk card, is not carried out: it enters untapped.)
#[verifier::allow_in_spec]
pub fn wanderwine_hub() -> CardIndex
    returns
        CardIndex(115),
{
    CardIndex(115)
}

/// Choked Estuary: "{T}: Add {U} or {B}." (Its reveal clause, for an Island or Swamp card, is not carried out: it enters untapped.)
#[verifier::allow_in_spec]
pub fn choked_estuary() -> CardIndex
    returns
        CardIndex(116),
{
    CardIndex(116)
}

/// Foreboding Ruins: "{T}: Add {B} or {R}." (Its reveal clause, for a Swamp or Mountain card, is not carried out: it enters untapped.)
#[verifier::allow_in_spec]
pub fn foreboding_ruins() -> CardIndex
    returns
        CardIndex(117),
{
    CardIndex(117)
}

/// Fortified Village: "{T}: Add {G} or {W}." (Its reveal clause, for a Forest or Plains card, is not carried out: it enters untapped.)
#[verifier::allow_in_spec]
pub fn fortified_village() -> CardIndex
    returns
        CardIndex(118),
{
    CardIndex(118)
}

/// Game Trail: "{T}: Add {R} or {G}." (Its reveal clause, for a Mountain or Forest card, is not carried out: it enters untapped.)
#[verifier::allow_in_spec]
pub fn game_trail() -> CardIndex
    returns
        CardIndex(119),
{
    CardIndex(119)
}

/// Port Town: "{T}: Add {W} or {U}." (Its reveal clause, for a Plains or Island card, is not carried out: it enters untapped.)
#[verifier::allow_in_spec]
pub fn port_town() -> CardIndex
    returns
        CardIndex(120),
{
    CardIndex(120)
}

/// Frostboil Snarl: "{T}: Add {U} or {R}." (Its reveal clause, for an Island or Mountain card, is not carried out: it enters untapped.)
#[verifier::allow_in_spec]
pub fn frostboil_snarl() -> CardIndex
    returns
        CardIndex(121),
{
    CardIndex(121)
}

/// Furycalm Snarl: "{T}: Add {R} or {W}." (Its reveal clause, for a Mountain or Plains card, is not carried out: it enters untapped.)
#[verifier::allow_in_spec]
pub fn furycalm_snarl() -> CardIndex
    returns
        CardIndex(122),
{
    CardIndex(122)
}

/// Necroblossom Snarl: "{T}: Add {B} or {G}." (Its reveal clause, for a Swamp or Forest card, is not carried out: it enters untapped.)
#[verifier::allow_in_spec]
pub fn necroblossom_snarl() -> CardIndex
    returns
        CardIndex(123),
{
    CardIndex(123)
}

/// Shineshadow Snarl: "{T}: Add {W} or {B}." (Its reveal clause, for a Plains or Swamp card, is not carried out: it enters untapped.)
#[verifier::allow_in_spec]
pub fn shineshadow_snarl() -> CardIndex
    returns
        CardIndex(124),
{
    CardIndex(124)
}

/// Vineglimmer Snarl: "{T}: Add {G} or {U}." (Its reveal clause, for a Forest or Island card, is not carried out: it enters untapped.)
#[verifier::allow_in_spec]
pub fn vineglimmer_snarl() -> CardIndex
    returns
        CardIndex(125),
{
    CardIndex(125)
}

/// Cradle of the Accursed: "{T}: Add {C}." Its token ability is not carried out.
#[verifier::allow_in_spec]
pub fn cradle_of_the_accursed() -> CardIndex
    returns
        CardIndex(126),
{
    CardIndex(126)
}

/// Dark Fortress: "{T}: Add {C}." Its conditional ability is not carried out.
#[verifier::allow_in_spec]
pub fn dark_fortress() -> CardIndex
    returns
        CardIndex(127),
{
    CardIndex(127)
}

/// Desert, a Desert: "{T}: Add {C}." Its combat ability is not carried out.
#[verifier::allow_in_spec]
pub fn desert() -> CardIndex
    returns
        CardIndex(128),
{
    CardIndex(128)
}

/// Gathering Place: "{T}: Add {C}." / "{T}: Add {G} or {W}. Activate only if you control a basic land." (Its entered-this-turn clause is not carried out.)
#[verifier::allow_in_spec]
pub fn gathering_place() -> CardIndex
    returns
        CardIndex(129),
{
    CardIndex(129)
}

/// Gleaming Bastion: "{T}: Add {C}." / "{T}: Add {W} or {U}. Activate only if you control a basic land." (Its entered-this-turn clause is not carried out.)
#[verifier::allow_in_spec]
pub fn gleaming_bastion() -> CardIndex
    returns
        CardIndex(130),
{
    CardIndex(130)
}

/// Hidden Lair: "{T}: Add {C}." / "{T}: Add {U} or {B}. Activate only if you control a basic land." (Its entered-this-turn clause is not carried out.)
#[verifier::allow_in_spec]
pub fn hidden_lair() -> CardIndex
    returns
        CardIndex(131),
{
    CardIndex(131)
}

/// Training Compound: "{T}: Add {C}." Its conditional ability is not carried out.
#[verifier::allow_in_spec]
pub fn training_compound() -> CardIndex
    returns
        CardIndex(132),
{
    CardIndex(132)
}

/// Glimmervoid: "{T}: Add one mana of any color." (Its end step trigger is not carried out.)
#[verifier::allow_in_spec]
pub fn glimmervoid() -> CardIndex
    returns
        CardIndex(133),
{
    CardIndex(133)
}

/// Gods' Eye, Gate to the Reikai: "{T}: Add {C}." Its token trigger is not carried out.
#[verifier::allow_in_spec]
pub fn gods_eye_gate_to_the_reikai() -> CardIndex
    returns
        CardIndex(134),
{
    CardIndex(134)
}

/// Gond Gate, a Gate: "{T}: Add {C}." Its Gate abilities are not carried out.
#[verifier::allow_in_spec]
pub fn gond_gate() -> CardIndex
    returns
        CardIndex(135),
{
    CardIndex(135)
}

/// Grasping Dunes, a Desert: "{T}: Add {C}." / "{1}, {T}, Sacrifice this land: Put a -1/-1 counter on target creature. Activate only as a sorcery."
#[verifier::allow_in_spec]
pub fn grasping_dunes() -> CardIndex
    returns
        CardIndex(136),
{
    CardIndex(136)
}

/// Great Hall of the Citadel: "{T}: Add {C}." / "{1}, {T}: Add two mana in any combination of colors. Spend this mana only to cast legendary spells."
#[verifier::allow_in_spec]
pub fn great_hall_of_the_citadel() -> CardIndex
    returns
        CardIndex(137),
{
    CardIndex(137)
}

/// Hall of the Bandit Lord: "Hall of the Bandit Lord enters tapped." / "{T}, Pay 3 life: Add {C}." (Its haste rider is not carried out.)
#[verifier::allow_in_spec]
pub fn hall_of_the_bandit_lord() -> CardIndex
    returns
        CardIndex(138),
{
    CardIndex(138)
}

/// Haunted Fengraf: "{T}: Add {C}." Its graveyard ability is not carried out.
#[verifier::allow_in_spec]
pub fn haunted_fengraf() -> CardIndex
    returns
        CardIndex(139),
{
    CardIndex(139)
}

/// Lotus Field: "Hexproof" / "This land enters tapped." / "When this land enters, sacrifice two lands." / "{T}: Add three mana of any one color."
#[verifier::allow_in_spec]
pub fn lotus_field() -> CardIndex
    returns
        CardIndex(140),
{
    CardIndex(140)
}

/// Moorland Haunt: "{T}: Add {C}." Its token ability is not carried out.
#[verifier::allow_in_spec]
pub fn moorland_haunt() -> CardIndex
    returns
        CardIndex(141),
{
    CardIndex(141)
}

/// Mutavault: "{T}: Add {C}." / "{1}: This land becomes a 2/2 creature with all creature types until end of turn. It's still a land."
#[verifier::allow_in_spec]
pub fn mutavault() -> CardIndex
    returns
        CardIndex(142),
{
    CardIndex(142)
}

/// Oran-Rief, the Vastwood: "This land enters tapped." / "{T}: Add {G}." Its counter ability is not carried out.
#[verifier::allow_in_spec]
pub fn oran_rief_the_vastwood() -> CardIndex
    returns
        CardIndex(143),
{
    CardIndex(143)
}

/// Ramunap Ruins, a Desert: "{T}: Add {C}." / "{T}, Pay 1 life: Add {R}." / "{2}{R}{R}, {T}, Sacrifice a Desert: This land deals 2 damage to each opponent."
#[verifier::allow_in_spec]
pub fn ramunap_ruins() -> CardIndex
    returns
        CardIndex(144),
{
    CardIndex(144)
}

/// Sanctum of Eternity: "{T}: Add {C}." Its commander ability is not carried out.
#[verifier::allow_in_spec]
pub fn sanctum_of_eternity() -> CardIndex
    returns
        CardIndex(145),
{
    CardIndex(145)
}

/// Sapseep Forest, a Forest: "({T}: Add {G}.)" / "This land enters tapped." / "{G}, {T}: You gain 1 life. Activate only if you control two or more green permanents."
#[verifier::allow_in_spec]
pub fn sapseep_forest() -> CardIndex
    returns
        CardIndex(146),
{
    CardIndex(146)
}

/// Sea Gate Wreckage: "{T}: Add {C}." Its draw ability is not carried out.
#[verifier::allow_in_spec]
pub fn sea_gate_wreckage() -> CardIndex
    returns
        CardIndex(147),
{
    CardIndex(147)
}

/// Secret Base: "{T}: Add {C}." Its watermark ability is not carried out.
#[verifier::allow_in_spec]
pub fn secret_base() -> CardIndex
    returns
        CardIndex(148),
{
    CardIndex(148)
}

/// Skycoach Waypoint: "{T}: Add {C}." Its prepare ability is not carried out.
#[verifier::allow_in_spec]
pub fn skycoach_waypoint() -> CardIndex
    returns
        CardIndex(149),
{
    CardIndex(149)
}

/// Stalking Stones: "{T}: Add {C}." / "{6}: This land becomes a 3/3 Elemental artifact creature that's still a land. (This effect lasts indefinitely.)"
#[verifier::allow_in_spec]
pub fn stalking_stones() -> CardIndex
    returns
        CardIndex(150),
{
    CardIndex(150)
}

/// Thran Quarry: "{T}: Add one mana of any color." (Its end step trigger is not carried out.)
#[verifier::allow_in_spec]
pub fn thran_quarry() -> CardIndex
    returns
        CardIndex(151),
{
    CardIndex(151)
}

/// War Room: "{T}: Add {C}." Its draw ability is not carried out.
#[verifier::allow_in_spec]
pub fn war_room() -> CardIndex
    returns
        CardIndex(152),
{
    CardIndex(152)
}

/// Arcane Lighthouse: "{T}: Add {C}." / "{1}, {T}: Until end of turn, creatures your opponents control lose hexproof and shroud."
#[verifier::allow_in_spec]
pub fn arcane_lighthouse() -> CardIndex
    returns
        CardIndex(153),
{
    CardIndex(153)
}

/// Boseiju, Who Shelters All: "Boseiju enters tapped." / "{T}, Pay 2 life: Add {C}. If that mana is spent on an instant or sorcery spell, that spell can't be countered."
#[verifier::allow_in_spec]
pub fn boseiju_who_shelters_all() -> CardIndex
    returns
        CardIndex(154),
{
    CardIndex(154)
}

/// Castle Embereth: "Castle Embereth enters tapped unless you control a Mountain." / "{T}: Add {R}." / "{1}{R}{R}, {T}: Creatures you control get +1/+0 until end of turn."
#[verifier::allow_in_spec]
pub fn castle_embereth() -> CardIndex
    returns
        CardIndex(155),
{
    CardIndex(155)
}

/// Cathedral of War: "This land enters tapped." / "{T}: Add {C}." (Exalted is not carried out.)
#[verifier::allow_in_spec]
pub fn cathedral_of_war() -> CardIndex
    returns
        CardIndex(156),
{
    CardIndex(156)
}

/// Corrupted Crossroads: "{T}: Add {C}." Its devoid ability is not carried out.
#[verifier::allow_in_spec]
pub fn corrupted_crossroads() -> CardIndex
    returns
        CardIndex(157),
{
    CardIndex(157)
}

/// Eldrazi Temple: "{T}: Add {C}." / "{T}: Add {C}{C}. Spend this mana only to cast colorless Eldrazi spells or activate abilities of colorless Eldrazi."
#[verifier::allow_in_spec]
pub fn eldrazi_temple() -> CardIndex
    returns
        CardIndex(158),
{
    CardIndex(158)
}

/// Forbidden Orchard: "{T}: Add one mana of any color." (Its tap trigger is not carried out.)
#[verifier::allow_in_spec]
pub fn forbidden_orchard() -> CardIndex
    returns
        CardIndex(159),
{
    CardIndex(159)
}

/// Halimar Depths: "This land enters tapped." / "When this land enters, look at the top three cards of your library, then put them back in any order." / "{T}: Add {U}."
#[verifier::allow_in_spec]
pub fn halimar_depths() -> CardIndex
    returns
        CardIndex(160),
{
    CardIndex(160)
}

/// Hostile Desert, a Desert: "{T}: Add {C}." Its animation ability is not carried out.
#[verifier::allow_in_spec]
pub fn hostile_desert() -> CardIndex
    returns
        CardIndex(161),
{
    CardIndex(161)
}

/// Leechridden Swamp, a Swamp: "({T}: Add {B}.)" / "Leechridden Swamp enters tapped." / "{B}, {T}: Each opponent loses 1 life. Activate only if you control two or more black permanents."
#[verifier::allow_in_spec]
pub fn leechridden_swamp() -> CardIndex
    returns
        CardIndex(162),
{
    CardIndex(162)
}

/// Madblind Mountain, a Mountain: "({T}: Add {R}.)" / "Madblind Mountain enters tapped." Its shuffle ability is not carried out.
#[verifier::allow_in_spec]
pub fn madblind_mountain() -> CardIndex
    returns
        CardIndex(163),
{
    CardIndex(163)
}

/// Memorial to Folly: "This land enters tapped." / "{T}: Add {B}." / "{2}{B}, {T}, Sacrifice this land: Return target creature card from your graveyard to your hand."
#[verifier::allow_in_spec]
pub fn memorial_to_folly() -> CardIndex
    returns
        CardIndex(164),
{
    CardIndex(164)
}

/// Mortuary Mire: "This land enters tapped." / "When this land enters, you may put target creature card from your graveyard on top of your library." / "{T}: Add {B}."
#[verifier::allow_in_spec]
pub fn mortuary_mire() -> CardIndex
    returns
        CardIndex(165),
{
    CardIndex(165)
}

/// Mouth of Ronom, a snow land: "{T}: Add {C}." / "{4}{S}, {T}, Sacrifice this land: It deals 4 damage to target creature." (A snow symbol is paid with colorless mana.)
#[verifier::allow_in_spec]
pub fn mouth_of_ronom() -> CardIndex
    returns
        CardIndex(166),
{
    CardIndex(166)
}

/// Nesting Grounds: "{T}: Add {C}." Its counter ability is not carried out.
#[verifier::allow_in_spec]
pub fn nesting_grounds() -> CardIndex
    returns
        CardIndex(167),
{
    CardIndex(167)
}

/// Roadside Reliquary: "{T}: Add {C}." Its draw ability is not carried out.
#[verifier::allow_in_spec]
pub fn roadside_reliquary() -> CardIndex
    returns
        CardIndex(168),
{
    CardIndex(168)
}

/// Secret Tunnel: "This land can't be blocked." / "{T}: Add {C}." Its two-target ability is not carried out.
#[verifier::allow_in_spec]
pub fn secret_tunnel() -> CardIndex
    returns
        CardIndex(169),
{
    CardIndex(169)
}

/// Sequestered Stash: "{T}: Add {C}." / "{4}, {T}, Sacrifice this land: Mill five cards." (Its artifact return is not carried out.)
#[verifier::allow_in_spec]
pub fn sequestered_stash() -> CardIndex
    returns
        CardIndex(170),
{
    CardIndex(170)
}

/// Shrine of the Forsaken Gods: "{T}: Add {C}." / "{T}: Add {C}{C}. Spend this mana only to cast colorless spells. Activate only if you control seven or more lands."
#[verifier::allow_in_spec]
pub fn shrine_of_the_forsaken_gods() -> CardIndex
    returns
        CardIndex(171),
{
    CardIndex(171)
}

/// Springjack Pasture: "{T}: Add {C}." Its Goat abilities are not carried out.
#[verifier::allow_in_spec]
pub fn springjack_pasture() -> CardIndex
    returns
        CardIndex(172),
{
    CardIndex(172)
}

/// Starting Town: "{T}: Add {C}." / "{T}, Pay 1 life: Add one mana of any color." (Its turn-count clause is not carried out: it enters untapped.)
#[verifier::allow_in_spec]
pub fn starting_town() -> CardIndex
    returns
        CardIndex(173),
{
    CardIndex(173)
}

/// Tectonic Edge: "{T}: Add {C}." / "{1}, {T}, Sacrifice this land: Destroy target nonbasic land." (Its opponent-count clause is not carried out.)
#[verifier::allow_in_spec]
pub fn tectonic_edge() -> CardIndex
    returns
        CardIndex(174),
{
    CardIndex(174)
}

/// The Gold Saucer: "{T}: Add {C}." Its other abilities are not carried out.
#[verifier::allow_in_spec]
pub fn the_gold_saucer() -> CardIndex
    returns
        CardIndex(175),
{
    CardIndex(175)
}

/// The Grey Havens: "When The Grey Havens enters, scry 1." / "{T}: Add {C}." Its graveyard mana ability is not carried out.
#[verifier::allow_in_spec]
pub fn the_grey_havens() -> CardIndex
    returns
        CardIndex(176),
{
    CardIndex(176)
}

/// Undiscovered Paradise: "{T}: Add one mana of any color." (Its return clause is not carried out.)
#[verifier::allow_in_spec]
pub fn undiscovered_paradise() -> CardIndex
    returns
        CardIndex(177),
{
    CardIndex(177)
}

/// Urza's Workshop, an Urza's land: "{T}: Add {C}." / "Metalcraft — {T}: Add {C} for each Urza's land you control. Activate only if you control three or more artifacts."
#[verifier::allow_in_spec]
pub fn urza_s_workshop() -> CardIndex
    returns
        CardIndex(178),
{
    CardIndex(178)
}

/// Zoetic Cavern: "{T}: Add {C}." (Morph is not carried out.)
#[verifier::allow_in_spec]
pub fn zoetic_cavern() -> CardIndex
    returns
        CardIndex(179),
{
    CardIndex(179)
}

/// Adagia, Windswept Bastion: "This land enters tapped." / "{T}: Add {W}." (Station is not carried out.)
#[verifier::allow_in_spec]
pub fn adagia_windswept_bastion() -> CardIndex
    returns
        CardIndex(180),
{
    CardIndex(180)
}

/// Avengers Tower: "{T}: Add {C}." Its Hero abilities are not carried out.
#[verifier::allow_in_spec]
pub fn avengers_tower() -> CardIndex
    returns
        CardIndex(181),
{
    CardIndex(181)
}

/// Ba Sing Se: "This land enters tapped unless you control a basic land." / "{T}: Add {G}." / "{2}{G}, {T}: Earthbend 2. Activate only as a sorcery."
#[verifier::allow_in_spec]
pub fn ba_sing_se() -> CardIndex
    returns
        CardIndex(182),
{
    CardIndex(182)
}

/// Balamb Garden, SeeD Academy: "This land enters tapped." / "{T}: Add {G} or {U}." Its transform ability is not carried out.
#[verifier::allow_in_spec]
pub fn balamb_garden_see_d_academy() -> CardIndex
    returns
        CardIndex(183),
{
    CardIndex(183)
}

/// Bucolic Ranch: "{T}: Add {C}." / "{T}: Add one mana of any color. Spend this mana only to cast a Mount spell."
#[verifier::allow_in_spec]
pub fn bucolic_ranch() -> CardIndex
    returns
        CardIndex(184),
{
    CardIndex(184)
}

/// Chocobo Camp: "This land enters tapped unless you control a legendary creature." / "{T}: Add {G}." Its token ability is not carried out.
#[verifier::allow_in_spec]
pub fn chocobo_camp() -> CardIndex
    returns
        CardIndex(185),
{
    CardIndex(185)
}

/// Demolition Field: "{T}: Add {C}." / "{2}, {T}, Sacrifice this land: Destroy target nonbasic land an opponent controls. That land's controller may search their library for a basic land card, put it onto the battlefield, then shuffle. You may search your library for a basic land card, put it onto the battlefield, then shuffle."
#[verifier::allow_in_spec]
pub fn demolition_field() -> CardIndex
    returns
        CardIndex(186),
{
    CardIndex(186)
}

/// Diamond City: "{T}: Add {C}." Its shield counter abilities are not carried out.
#[verifier::allow_in_spec]
pub fn diamond_city() -> CardIndex
    returns
        CardIndex(187),
{
    CardIndex(187)
}

/// Forsaken Crossroads: "Forsaken Crossroads enters the battlefield tapped." / "As Forsaken Crossroads enters the battlefield, choose a color." / "When Forsaken Crossroads enters the battlefield, scry 1." / "{T}: Add one mana of the chosen color."
#[verifier::allow_in_spec]
pub fn forsaken_crossroads() -> CardIndex
    returns
        CardIndex(188),
{
    CardIndex(188)
}

/// Frostwalk Bastion, a snow land: "{T}: Add {C}." / "{1}{S}: Until end of turn, this land becomes a 2/3 Construct artifact creature. It's still a land."
#[verifier::allow_in_spec]
pub fn frostwalk_bastion() -> CardIndex
    returns
        CardIndex(189),
{
    CardIndex(189)
}

/// Glacial Chasm: "When this land enters, sacrifice a land." Its other abilities are not carried out.
#[verifier::allow_in_spec]
pub fn glacial_chasm() -> CardIndex
    returns
        CardIndex(190),
{
    CardIndex(190)
}

/// Great Hall of the Biblioplex: "{T}: Add {C}." / "{T}, Pay 1 life: Add one mana of any color. Spend this mana only to cast an instant or sorcery spell."
#[verifier::allow_in_spec]
pub fn great_hall_of_the_biblioplex() -> CardIndex
    returns
        CardIndex(191),
{
    CardIndex(191)
}

/// Hall of Storm Giants: "If you control two or more other lands, this land enters tapped." / "{T}: Add {U}." / "{5}{U}: Until end of turn, this land becomes a 7/7 blue Giant creature. It's still a land." (Ward is not carried out.)
#[verifier::allow_in_spec]
pub fn hall_of_storm_giants() -> CardIndex
    returns
        CardIndex(192),
{
    CardIndex(192)
}

/// Havengul Laboratory: "{T}: Add {C}." / "{4}, {T}: Investigate." (Its transform trigger is not carried out.)
#[verifier::allow_in_spec]
pub fn havengul_laboratory() -> CardIndex
    returns
        CardIndex(193),
{
    CardIndex(193)
}

/// Hidden Cataract: "This land enters tapped." / "{T}: Add {U}." (Discover is not carried out.)
#[verifier::allow_in_spec]
pub fn hidden_cataract() -> CardIndex
    returns
        CardIndex(194),
{
    CardIndex(194)
}

/// Hidden Courtyard: "This land enters tapped." / "{T}: Add {W}." (Discover is not carried out.)
#[verifier::allow_in_spec]
pub fn hidden_courtyard() -> CardIndex
    returns
        CardIndex(195),
{
    CardIndex(195)
}

/// Hidden Necropolis: "This land enters tapped." / "{T}: Add {B}." (Discover is not carried out.)
#[verifier::allow_in_spec]
pub fn hidden_necropolis() -> CardIndex
    returns
        CardIndex(196),
{
    CardIndex(196)
}

/// Hidden Nursery: "This land enters tapped." / "{T}: Add {G}." (Discover is not carried out.)
#[verifier::allow_in_spec]
pub fn hidden_nursery() -> CardIndex
    returns
        CardIndex(197),
{
    CardIndex(197)
}

/// Hidden Volcano: "This land enters tapped." / "{T}: Add {R}." (Discover is not carried out.)
#[verifier::allow_in_spec]
pub fn hidden_volcano() -> CardIndex
    returns
        CardIndex(198),
{
    CardIndex(198)
}

/// Hostile Hostel: "{T}: Add {C}." Its soul counter ability is not carried out.
#[verifier::allow_in_spec]
pub fn hostile_hostel() -> CardIndex
    returns
        CardIndex(199),
{
    CardIndex(199)
}

/// Kavaron, Memorial World: "This land enters tapped." / "{T}: Add {R}." (Station is not carried out.)
#[verifier::allow_in_spec]
pub fn kavaron_memorial_world() -> CardIndex
    returns
        CardIndex(200),
{
    CardIndex(200)
}

/// Lupinflower Village: "{T}: Add {C}." / "{T}: Add {W}. Spend this mana only to cast a creature spell."
#[verifier::allow_in_spec]
pub fn lupinflower_village() -> CardIndex
    returns
        CardIndex(201),
{
    CardIndex(201)
}

/// Monumental Henge: "This land enters tapped unless you control a Plains." / "{T}: Add {W}." Its look ability is not carried out.
#[verifier::allow_in_spec]
pub fn monumental_henge() -> CardIndex
    returns
        CardIndex(202),
{
    CardIndex(202)
}

/// Mosswort Bridge: "This land enters tapped." / "{T}: Add {G}." (Hideaway is not carried out.)
#[verifier::allow_in_spec]
pub fn mosswort_bridge() -> CardIndex
    returns
        CardIndex(203),
{
    CardIndex(203)
}

/// Shelldock Isle: "This land enters tapped." / "{T}: Add {U}." (Hideaway is not carried out.)
#[verifier::allow_in_spec]
pub fn shelldock_isle() -> CardIndex
    returns
        CardIndex(204),
{
    CardIndex(204)
}

/// Windbrisk Heights: "This land enters tapped." / "{T}: Add {W}." (Hideaway is not carried out.)
#[verifier::allow_in_spec]
pub fn windbrisk_heights() -> CardIndex
    returns
        CardIndex(205),
{
    CardIndex(205)
}

/// Spawning Pool: "This land enters tapped." / "{T}: Add {B}." / "{1}{B}: This land becomes a 1/1 black Skeleton creature until end of turn. It's still a land." (Its regeneration is not carried out.)
#[verifier::allow_in_spec]
pub fn spawning_pool() -> CardIndex
    returns
        CardIndex(206),
{
    CardIndex(206)
}

/// Spymaster's Vault: "This land enters tapped unless you control a Swamp." / "{T}: Add {B}." Its connive ability is not carried out.
#[verifier::allow_in_spec]
pub fn spymaster_s_vault() -> CardIndex
    returns
        CardIndex(207),
{
    CardIndex(207)
}

/// Susur Secundi, Void Altar: "This land enters tapped." / "{T}: Add {B}." (Station is not carried out.)
#[verifier::allow_in_spec]
pub fn susur_secundi_void_altar() -> CardIndex
    returns
        CardIndex(208),
{
    CardIndex(208)
}

/// The World Tree: "This land enters tapped." / "{T}: Add {G}." Its other abilities are not carried out.
#[verifier::allow_in_spec]
pub fn the_world_tree() -> CardIndex
    returns
        CardIndex(209),
{
    CardIndex(209)
}

/// Villainous Hideout: "{T}: Add {C}." / "{T}: Add one mana of any color. Spend this mana only to cast a Villain spell."
#[verifier::allow_in_spec]
pub fn villainous_hideout() -> CardIndex
    returns
        CardIndex(210),
{
    CardIndex(210)
}

/// Voldaren Estate: "{T}: Add {C}." / "{T}, Pay 1 life: Add one mana of any color. Spend this mana only to cast a Vampire spell."
#[verifier::allow_in_spec]
pub fn voldaren_estate() -> CardIndex
    returns
        CardIndex(211),
{
    CardIndex(211)
}

/// Archway of Innovation: "This land enters tapped unless you control an Island." / "{T}: Add {U}." Its improvise ability is not carried out.
#[verifier::allow_in_spec]
pub fn archway_of_innovation() -> CardIndex
    returns
        CardIndex(212),
{
    CardIndex(212)
}

/// Arena of Glory: "This land enters tapped unless you control a Mountain." / "{T}: Add {R}." Its exert ability is not carried out.
#[verifier::allow_in_spec]
pub fn arena_of_glory() -> CardIndex
    returns
        CardIndex(213),
{
    CardIndex(213)
}

/// Balduvian Trading Post: "{T}: Add {C}{R}." Its entry replacement and combat ability are not carried out.
#[verifier::allow_in_spec]
pub fn balduvian_trading_post() -> CardIndex
    returns
        CardIndex(214),
{
    CardIndex(214)
}

/// Blast Zone: "This land enters with a charge counter on it." / "{T}: Add {C}." Its other abilities are not carried out.
#[verifier::allow_in_spec]
pub fn blast_zone() -> CardIndex
    returns
        CardIndex(215),
{
    CardIndex(215)
}

/// Branch of Vitu-Ghazi: "{T}: Add {C}." (Disguise is not carried out.)
#[verifier::allow_in_spec]
pub fn branch_of_vitu_ghazi() -> CardIndex
    returns
        CardIndex(216),
{
    CardIndex(216)
}

/// Cactus Preserve: "This land enters tapped." / "{T}: Add one mana of any type that a land you control could produce." Its animation is not carried out.
#[verifier::allow_in_spec]
pub fn cactus_preserve() -> CardIndex
    returns
        CardIndex(217),
{
    CardIndex(217)
}

/// Clive's Hideaway: "{T}: Add {C}." (Hideaway is not carried out.)
#[verifier::allow_in_spec]
pub fn clive_s_hideaway() -> CardIndex
    returns
        CardIndex(218),
{
    CardIndex(218)
}

/// Country Roads: "This land enters tapped unless you control a Mount or Vehicle." / "{T}: Add {W}." Its sacrifice ability is not carried out.
#[verifier::allow_in_spec]
pub fn country_roads() -> CardIndex
    returns
        CardIndex(219),
{
    CardIndex(219)
}

/// Foul Roads: "This land enters tapped unless you control a Mount or Vehicle." / "{T}: Add {B}." Its sacrifice ability is not carried out.
#[verifier::allow_in_spec]
pub fn foul_roads() -> CardIndex
    returns
        CardIndex(220),
{
    CardIndex(220)
}

/// Reef Roads: "This land enters tapped unless you control a Mount or Vehicle." / "{T}: Add {U}." Its sacrifice ability is not carried out.
#[verifier::allow_in_spec]
pub fn reef_roads() -> CardIndex
    returns
        CardIndex(221),
{
    CardIndex(221)
}

/// Rocky Roads: "This land enters tapped unless you control a Mount or Vehicle." / "{T}: Add {R}." Its sacrifice ability is not carried out.
#[verifier::allow_in_spec]
pub fn rocky_roads() -> CardIndex
    returns
        CardIndex(222),
{
    CardIndex(222)
}

/// Wild Roads: "This land enters tapped unless you control a Mount or Vehicle." / "{T}: Add {G}." Its sacrifice ability is not carried out.
#[verifier::allow_in_spec]
pub fn wild_roads() -> CardIndex
    returns
        CardIndex(223),
{
    CardIndex(223)
}

/// Dalkovan Encampment: "This land enters tapped unless you control a Swamp or a Mountain." / "{T}: Add {W}." Its attack ability is not carried out.
#[verifier::allow_in_spec]
pub fn dalkovan_encampment() -> CardIndex
    returns
        CardIndex(224),
{
    CardIndex(224)
}

/// Den of the Bugbear: "If you control two or more other lands, this land enters tapped." / "{T}: Add {R}." / "{3}{R}: Until end of turn, this land becomes a 3/2 red Goblin creature. It's still a land." (Its attack trigger is not carried out.)
#[verifier::allow_in_spec]
pub fn den_of_the_bugbear() -> CardIndex
    returns
        CardIndex(225),
{
    CardIndex(225)
}

/// Eclipsed Realms: "As this land enters, choose Elemental, Elf, Faerie, Giant, Goblin, Kithkin, Merfolk, or Treefolk." / "{T}: Add {C}." / "{T}: Add one mana of any color." (Its spend restriction is not carried out.)
#[verifier::allow_in_spec]
pub fn eclipsed_realms() -> CardIndex
    returns
        CardIndex(226),
{
    CardIndex(226)
}

/// Fertile Thicket: "This land enters tapped." / "{T}: Add {G}." Its enters trigger is not carried out.
#[verifier::allow_in_spec]
pub fn fertile_thicket() -> CardIndex
    returns
        CardIndex(227),
{
    CardIndex(227)
}

/// Gallifrey Council Chamber: "When Gallifrey Council Chamber enters, surveil 1." / "{T}: Add {C}." / "{T}: Add one mana of any color. Spend this mana only to cast a Time Lord or Alien spell."
#[verifier::allow_in_spec]
pub fn gallifrey_council_chamber() -> CardIndex
    returns
        CardIndex(228),
{
    CardIndex(228)
}

/// Hellion Crucible: "{T}: Add {C}." Its pressure counter abilities are not carried out.
#[verifier::allow_in_spec]
pub fn hellion_crucible() -> CardIndex
    returns
        CardIndex(229),
{
    CardIndex(229)
}

/// Hive of the Eye Tyrant: "If you control two or more other lands, this land enters tapped." / "{T}: Add {B}." / "{3}{B}: Until end of turn, this land becomes a 3/3 black Beholder creature with menace. It's still a land." (Its attack trigger is not carried out.)
#[verifier::allow_in_spec]
pub fn hive_of_the_eye_tyrant() -> CardIndex
    returns
        CardIndex(230),
{
    CardIndex(230)
}

/// Lazotep Quarry, a Desert: "{T}: Add {C}." / "{T}, Sacrifice a creature: Add one mana of any color." Its third ability is not carried out.
#[verifier::allow_in_spec]
pub fn lazotep_quarry() -> CardIndex
    returns
        CardIndex(231),
{
    CardIndex(231)
}

/// Memorial to Unity: "This land enters tapped." / "{T}: Add {G}." Its look ability is not carried out.
#[verifier::allow_in_spec]
pub fn memorial_to_unity() -> CardIndex
    returns
        CardIndex(232),
{
    CardIndex(232)
}

/// Minas Morgul, Dark Fortress: "Minas Morgul enters tapped." / "{T}: Add {B}." Its counter ability is not carried out.
#[verifier::allow_in_spec]
pub fn minas_morgul_dark_fortress() -> CardIndex
    returns
        CardIndex(233),
{
    CardIndex(233)
}

/// Mirrex: "{T}: Add {C}." Its other abilities are not carried out.
#[verifier::allow_in_spec]
pub fn mirrex() -> CardIndex
    returns
        CardIndex(234),
{
    CardIndex(234)
}

/// Mirrorpool: "This land enters tapped." / "{T}: Add {C}." Its copy abilities are not carried out.
#[verifier::allow_in_spec]
pub fn mirrorpool() -> CardIndex
    returns
        CardIndex(235),
{
    CardIndex(235)
}

/// Plaza of Heroes: "{T}: Add {C}." / "{T}: Add one mana of any color. Spend this mana only to cast a legendary spell." Its third ability is not carried out.
#[verifier::allow_in_spec]
pub fn plaza_of_heroes() -> CardIndex
    returns
        CardIndex(236),
{
    CardIndex(236)
}

/// Primal Beyond: "{T}: Add {C}." / "{T}: Add one mana of any color. Spend this mana only to cast an Elemental spell." (Its reveal clause is not carried out.)
#[verifier::allow_in_spec]
pub fn primal_beyond() -> CardIndex
    returns
        CardIndex(237),
{
    CardIndex(237)
}

/// Restless Cottage: "This land enters tapped." / "{T}: Add {B} or {G}." / "{2BG}: Until end of turn, this land becomes a 4/4 creature. It's still a land."
#[verifier::allow_in_spec]
pub fn restless_cottage() -> CardIndex
    returns
        CardIndex(238),
{
    CardIndex(238)
}

/// Restless Fortress: "This land enters tapped." / "{T}: Add {W} or {B}." / "{2WB}: Until end of turn, this land becomes a 1/4 creature. It's still a land."
#[verifier::allow_in_spec]
pub fn restless_fortress() -> CardIndex
    returns
        CardIndex(239),
{
    CardIndex(239)
}

/// Restless Prairie: "This land enters tapped." / "{T}: Add {G} or {W}." / "{2GW}: Until end of turn, this land becomes a 3/3 creature. It's still a land."
#[verifier::allow_in_spec]
pub fn restless_prairie() -> CardIndex
    returns
        CardIndex(240),
{
    CardIndex(240)
}

/// Restless Ridgeline: "This land enters tapped." / "{T}: Add {R} or {G}." / "{2RG}: Until end of turn, this land becomes a 3/4 creature. It's still a land."
#[verifier::allow_in_spec]
pub fn restless_ridgeline() -> CardIndex
    returns
        CardIndex(241),
{
    CardIndex(241)
}

/// Restless Spire: "This land enters tapped." / "{T}: Add {U} or {R}." / "{UR}: Until end of turn, this land becomes a 2/1 creature. It's still a land."
#[verifier::allow_in_spec]
pub fn restless_spire() -> CardIndex
    returns
        CardIndex(242),
{
    CardIndex(242)
}

/// Restless Vents: "This land enters tapped." / "{T}: Add {B} or {R}." / "{1BR}: Until end of turn, this land becomes a 2/3 creature. It's still a land."
#[verifier::allow_in_spec]
pub fn restless_vents() -> CardIndex
    returns
        CardIndex(243),
{
    CardIndex(243)
}

/// Restless Vinestalk: "This land enters tapped." / "{T}: Add {G} or {U}." / "{3GU}: Until end of turn, this land becomes a 5/5 creature. It's still a land."
#[verifier::allow_in_spec]
pub fn restless_vinestalk() -> CardIndex
    returns
        CardIndex(244),
{
    CardIndex(244)
}

/// Shifting Woodland: "This land enters tapped unless you control a Forest." / "{T}: Add {G}." Its delirium ability is not carried out.
#[verifier::allow_in_spec]
pub fn shifting_woodland() -> CardIndex
    returns
        CardIndex(245),
{
    CardIndex(245)
}

/// Sunken Palace: "This land enters tapped." / "{T}: Add {U}." Its exile ability is not carried out.
#[verifier::allow_in_spec]
pub fn sunken_palace() -> CardIndex
    returns
        CardIndex(246),
{
    CardIndex(246)
}

/// The Biblioplex: "{T}: Add {C}." Its look ability is not carried out.
#[verifier::allow_in_spec]
pub fn the_biblioplex() -> CardIndex
    returns
        CardIndex(247),
{
    CardIndex(247)
}

/// Thran Portal, a Gate: "This land enters tapped unless you control two or fewer other lands." Its land type choice is not carried out.
#[verifier::allow_in_spec]
pub fn thran_portal() -> CardIndex
    returns
        CardIndex(248),
{
    CardIndex(248)
}

/// Trenzalore Clocktower: "{T}: Add {U}. Put a time counter on Trenzalore Clocktower." Its second ability is not carried out.
#[verifier::allow_in_spec]
pub fn trenzalore_clocktower() -> CardIndex
    returns
        CardIndex(249),
{
    CardIndex(249)
}

/// Cave of the Frost Dragon: "If you control two or more other lands, this land enters tapped." / "{T}: Add {W}." / "{4}{W}: This land becomes a 3/4 white Dragon creature with flying until end of turn. It's still a land."
#[verifier::allow_in_spec]
pub fn cave_of_the_frost_dragon() -> CardIndex
    returns
        CardIndex(250),
{
    CardIndex(250)
}

/// Lightning Greaves: an artifact, an Equipment. (Its equip abilities are not carried out.)
#[verifier::allow_in_spec]
pub fn lightning_greaves() -> CardIndex
    returns
        CardIndex(251),
{
    CardIndex(251)
}

/// Fellwar Stone: an artifact, "{T}: Add one mana of any color that a land an opponent controls could produce."
#[verifier::allow_in_spec]
pub fn fellwar_stone() -> CardIndex
    returns
        CardIndex(252),
{
    CardIndex(252)
}

/// Academy Ruins: "{T}: Add {C}." / "{1}{U}, {T}: Put target artifact card from your graveyard on top of your library."
#[verifier::allow_in_spec]
pub fn academy_ruins() -> CardIndex
    returns
        CardIndex(253),
{
    CardIndex(253)
}

/// Buried Ruin: "{T}: Add {C}." / "{2}, {T}, Sacrifice this land: Return target artifact card from your graveyard to your hand."
#[verifier::allow_in_spec]
pub fn buried_ruin() -> CardIndex
    returns
        CardIndex(254),
{
    CardIndex(254)
}

/// Dryad Arbor: a land creature, a 1/1 green Forest Dryad, "({T}: Add {G}.)"
#[verifier::allow_in_spec]
pub fn the_land_creature() -> CardIndex
    returns
        CardIndex(255),
{
    CardIndex(255)
}

/// Phyrexian Tower: "{T}: Add {C}." / "{T}, Sacrifice a creature: Add {B}{B}."
#[verifier::allow_in_spec]
pub fn phyrexian_tower() -> CardIndex
    returns
        CardIndex(256),
{
    CardIndex(256)
}

/// Survivors' Encampment: "{T}: Add {C}." / "{T}, Tap an untapped creature you control: Add one mana of any color."
#[verifier::allow_in_spec]
pub fn survivors_encampment() -> CardIndex
    returns
        CardIndex(257),
{
    CardIndex(257)
}

/// Holdout Settlement: "{T}: Add {C}." / "{T}, Tap an untapped creature you control: Add one mana of any color."
#[verifier::allow_in_spec]
pub fn holdout_settlement() -> CardIndex
    returns
        CardIndex(258),
{
    CardIndex(258)
}

/// Scene of the Crime, an artifact land: "This land enters tapped." / "{T}: Add {C}." / "{T}, Tap an untapped creature you control: Add one mana of any color." (Its other ability is not carried out.)
#[verifier::allow_in_spec]
pub fn scene_of_the_crime() -> CardIndex
    returns
        CardIndex(259),
{
    CardIndex(259)
}

/// Vivid Crag: "This land enters tapped with two charge counters on it." / "{T}: Add {R}." / "{T}, Remove a charge counter from this land: Add one mana of any color."
#[verifier::allow_in_spec]
pub fn vivid_crag() -> CardIndex
    returns
        CardIndex(260),
{
    CardIndex(260)
}

/// Vivid Creek: "This land enters tapped with two charge counters on it." / "{T}: Add {U}." / "{T}, Remove a charge counter from this land: Add one mana of any color."
#[verifier::allow_in_spec]
pub fn vivid_creek() -> CardIndex
    returns
        CardIndex(261),
{
    CardIndex(261)
}

/// Vivid Grove: "This land enters tapped with two charge counters on it." / "{T}: Add {G}." / "{T}, Remove a charge counter from this land: Add one mana of any color."
#[verifier::allow_in_spec]
pub fn vivid_grove() -> CardIndex
    returns
        CardIndex(262),
{
    CardIndex(262)
}

/// Vivid Marsh: "This land enters tapped with two charge counters on it." / "{T}: Add {B}." / "{T}, Remove a charge counter from this land: Add one mana of any color."
#[verifier::allow_in_spec]
pub fn vivid_marsh() -> CardIndex
    returns
        CardIndex(263),
{
    CardIndex(263)
}

/// Vivid Meadow: "This land enters tapped with two charge counters on it." / "{T}: Add {W}." / "{T}, Remove a charge counter from this land: Add one mana of any color."
#[verifier::allow_in_spec]
pub fn vivid_meadow() -> CardIndex
    returns
        CardIndex(264),
{
    CardIndex(264)
}

/// Tendo Ice Bridge: "This land enters with a charge counter on it." / "{T}: Add {C}." / "{T}, Remove a charge counter from this land: Add one mana of any color."
#[verifier::allow_in_spec]
pub fn tendo_ice_bridge() -> CardIndex
    returns
        CardIndex(265),
{
    CardIndex(265)
}

/// Mirrodin's Core: "{T}: Add {C}." / "{T}: Put a charge counter on this land." / "{T}, Remove a charge counter from this land: Add one mana of any color."
#[verifier::allow_in_spec]
pub fn mirrodin_s_core() -> CardIndex
    returns
        CardIndex(266),
{
    CardIndex(266)
}

/// Doubling Season: a green enchantment, "If an effect would put one or more counters on a permanent you control, it puts twice that many of those counters on that permanent instead." (Its doubling of tokens is not carried out.)
#[verifier::allow_in_spec]
pub fn doubling_season() -> CardIndex
    returns
        CardIndex(267),
{
    CardIndex(267)
}

/// Hickory Woodlot: "This land enters tapped with two depletion counters on it." / "{T}, Remove a depletion counter from this land: Add {G}{G}. If there are no depletion counters on it, sacrifice it."
#[verifier::allow_in_spec]
pub fn hickory_woodlot() -> CardIndex
    returns
        CardIndex(268),
{
    CardIndex(268)
}

/// Peat Bog: "This land enters tapped with two depletion counters on it." / "{T}, Remove a depletion counter from this land: Add {B}{B}. If there are no depletion counters on it, sacrifice it."
#[verifier::allow_in_spec]
pub fn peat_bog() -> CardIndex
    returns
        CardIndex(269),
{
    CardIndex(269)
}

/// Remote Farm: "This land enters tapped with two depletion counters on it." / "{T}, Remove a depletion counter from this land: Add {W}{W}. If there are no depletion counters on it, sacrifice it."
#[verifier::allow_in_spec]
pub fn remote_farm() -> CardIndex
    returns
        CardIndex(270),
{
    CardIndex(270)
}

/// Sandstone Needle: "This land enters tapped with two depletion counters on it." / "{T}, Remove a depletion counter from this land: Add {R}{R}. If there are no depletion counters on it, sacrifice it."
#[verifier::allow_in_spec]
pub fn sandstone_needle() -> CardIndex
    returns
        CardIndex(271),
{
    CardIndex(271)
}

/// Saprazzan Skerry: "This land enters tapped with two depletion counters on it." / "{T}, Remove a depletion counter from this land: Add {U}{U}. If there are no depletion counters on it, sacrifice it."
#[verifier::allow_in_spec]
pub fn saprazzan_skerry() -> CardIndex
    returns
        CardIndex(272),
{
    CardIndex(272)
}

/// Gemstone Mine: "This land enters with three mining counters on it." / "{T}, Remove a mining counter from this land: Add one mana of any color. If there are no mining counters on it, sacrifice it."
#[verifier::allow_in_spec]
pub fn gemstone_mine() -> CardIndex
    returns
        CardIndex(273),
{
    CardIndex(273)
}

/// Fountain of Cho: "This land enters tapped." / "{T}: Put a storage counter on this land." / "{T}, Remove any number of storage counters from this land: Add {W} for each storage counter removed this way."
#[verifier::allow_in_spec]
pub fn fountain_of_cho() -> CardIndex
    returns
        CardIndex(274),
{
    CardIndex(274)
}

/// Mage-Ring Network: "{T}: Add {C}." / "{1}, {T}: Put a storage counter on this land." / "{T}, Remove any number of storage counters from this land: Add {C} for each storage counter removed this way."
#[verifier::allow_in_spec]
pub fn mage_ring_network() -> CardIndex
    returns
        CardIndex(275),
{
    CardIndex(275)
}

/// Saprazzan Cove: "This land enters tapped." / "{T}: Put a storage counter on this land." / "{T}, Remove any number of storage counters from this land: Add {U} for each storage counter removed this way."
#[verifier::allow_in_spec]
pub fn saprazzan_cove() -> CardIndex
    returns
        CardIndex(276),
{
    CardIndex(276)
}

/// Subterranean Hangar: "This land enters tapped." / "{T}: Put a storage counter on this land." / "{T}, Remove any number of storage counters from this land: Add {B} for each storage counter removed this way."
#[verifier::allow_in_spec]
pub fn subterranean_hangar() -> CardIndex
    returns
        CardIndex(277),
{
    CardIndex(277)
}

/// Mercadian Bazaar: "This land enters tapped." / "{T}: Put a storage counter on this land." / "{T}, Remove any number of storage counters from this land: Add {R} for each storage counter removed this way."
#[verifier::allow_in_spec]
pub fn mercadian_bazaar() -> CardIndex
    returns
        CardIndex(278),
{
    CardIndex(278)
}

/// Rushwood Grove: "This land enters tapped." / "{T}: Put a storage counter on this land." / "{T}, Remove any number of storage counters from this land: Add {G} for each storage counter removed this way."
#[verifier::allow_in_spec]
pub fn rushwood_grove() -> CardIndex
    returns
        CardIndex(279),
{
    CardIndex(279)
}

/// Calciform Pools: "{T}: Add {C}." / "{1}, {T}: Put a storage counter on this land." / "{1}, Remove X storage counters from this land: Add X mana in any combination of {W} and/or {U}."
#[verifier::allow_in_spec]
pub fn calciform_pools() -> CardIndex
    returns
        CardIndex(280),
{
    CardIndex(280)
}

/// Dreadship Reef: "{T}: Add {C}." / "{1}, {T}: Put a storage counter on this land." / "{1}, Remove X storage counters from this land: Add X mana in any combination of {U} and/or {B}."
#[verifier::allow_in_spec]
pub fn dreadship_reef() -> CardIndex
    returns
        CardIndex(281),
{
    CardIndex(281)
}

/// Fungal Reaches: "{T}: Add {C}." / "{1}, {T}: Put a storage counter on this land." / "{1}, Remove X storage counters from this land: Add X mana in any combination of {R} and/or {G}."
#[verifier::allow_in_spec]
pub fn fungal_reaches() -> CardIndex
    returns
        CardIndex(282),
{
    CardIndex(282)
}

/// Molten Slagheap: "{T}: Add {C}." / "{1}, {T}: Put a storage counter on this land." / "{1}, Remove X storage counters from this land: Add X mana in any combination of {B} and/or {R}."
#[verifier::allow_in_spec]
pub fn molten_slagheap() -> CardIndex
    returns
        CardIndex(283),
{
    CardIndex(283)
}

/// Saltcrusted Steppe: "{T}: Add {C}." / "{1}, {T}: Put a storage counter on this land." / "{1}, Remove X storage counters from this land: Add X mana in any combination of {G} and/or {W}."
#[verifier::allow_in_spec]
pub fn saltcrusted_steppe() -> CardIndex
    returns
        CardIndex(284),
{
    CardIndex(284)
}

/// Cascading Cataracts: "Indestructible" / "{T}: Add {C}." / "{5}, {T}: Add five mana in any combination of colors."
#[verifier::allow_in_spec]
pub fn cascading_cataracts() -> CardIndex
    returns
        CardIndex(285),
{
    CardIndex(285)
}

/// Mystic Gate: "{T}: Add {C}." / "{W/U}, {T}: Add {W}{W}, {W}{U}, or {U}{U}."
#[verifier::allow_in_spec]
pub fn mystic_gate() -> CardIndex
    returns
        CardIndex(286),
{
    CardIndex(286)
}

/// Fetid Heath: "{T}: Add {C}." / "{W/B}, {T}: Add {W}{W}, {W}{B}, or {B}{B}."
#[verifier::allow_in_spec]
pub fn fetid_heath() -> CardIndex
    returns
        CardIndex(287),
{
    CardIndex(287)
}

/// Cascade Bluffs: "{T}: Add {C}." / "{U/R}, {T}: Add {U}{U}, {U}{R}, or {R}{R}."
#[verifier::allow_in_spec]
pub fn cascade_bluffs() -> CardIndex
    returns
        CardIndex(288),
{
    CardIndex(288)
}

/// Sunken Ruins: "{T}: Add {C}." / "{U/B}, {T}: Add {U}{U}, {U}{B}, or {B}{B}."
#[verifier::allow_in_spec]
pub fn sunken_ruins() -> CardIndex
    returns
        CardIndex(289),
{
    CardIndex(289)
}

/// Flooded Grove: "{T}: Add {C}." / "{G/U}, {T}: Add {G}{G}, {G}{U}, or {U}{U}."
#[verifier::allow_in_spec]
pub fn flooded_grove() -> CardIndex
    returns
        CardIndex(290),
{
    CardIndex(290)
}

/// Wooded Bastion: "{T}: Add {C}." / "{G/W}, {T}: Add {G}{G}, {G}{W}, or {W}{W}."
#[verifier::allow_in_spec]
pub fn wooded_bastion() -> CardIndex
    returns
        CardIndex(291),
{
    CardIndex(291)
}

/// Fire-Lit Thicket: "{T}: Add {C}." / "{R/G}, {T}: Add {R}{R}, {R}{G}, or {G}{G}."
#[verifier::allow_in_spec]
pub fn fire_lit_thicket() -> CardIndex
    returns
        CardIndex(292),
{
    CardIndex(292)
}

/// Rugged Prairie: "{T}: Add {C}." / "{R/W}, {T}: Add {R}{R}, {R}{W}, or {W}{W}."
#[verifier::allow_in_spec]
pub fn rugged_prairie() -> CardIndex
    returns
        CardIndex(293),
{
    CardIndex(293)
}

/// Graven Cairns: "{T}: Add {C}." / "{B/R}, {T}: Add {B}{B}, {B}{R}, or {R}{R}."
#[verifier::allow_in_spec]
pub fn graven_cairns() -> CardIndex
    returns
        CardIndex(294),
{
    CardIndex(294)
}

/// Twilight Mire: "{T}: Add {C}." / "{B/G}, {T}: Add {B}{B}, {B}{G}, or {G}{G}."
#[verifier::allow_in_spec]
pub fn twilight_mire() -> CardIndex
    returns
        CardIndex(295),
{
    CardIndex(295)
}

/// Cabal Coffers: "{2}, {T}: Add {B} for each Swamp you control."
#[verifier::allow_in_spec]
pub fn cabal_coffers() -> CardIndex
    returns
        CardIndex(296),
{
    CardIndex(296)
}

/// Cabal Stronghold: "{T}: Add {C}." / "{3}, {T}: Add {B} for each basic Swamp you control."
#[verifier::allow_in_spec]
pub fn cabal_stronghold() -> CardIndex
    returns
        CardIndex(297),
{
    CardIndex(297)
}

/// Serra's Sanctum: "{T}: Add {W} for each enchantment you control."
#[verifier::allow_in_spec]
pub fn serra_s_sanctum() -> CardIndex
    returns
        CardIndex(298),
{
    CardIndex(298)
}

/// Tolarian Academy: "{T}: Add {U} for each artifact you control."
#[verifier::allow_in_spec]
pub fn tolarian_academy() -> CardIndex
    returns
        CardIndex(299),
{
    CardIndex(299)
}

/// Baldur's Gate, a Gate: "{T}: Add {C}." / "{2}, {T}: Add X mana of any one color, where X is the number of other Gates you control."
#[verifier::allow_in_spec]
pub fn baldurs_gate() -> CardIndex
    returns
        CardIndex(300),
{
    CardIndex(300)
}

/// Azorius Guildgate, a Gate: "This land enters tapped." / "{T}: Add {W} or {U}."
#[verifier::allow_in_spec]
pub fn azorius_guildgate() -> CardIndex
    returns
        CardIndex(301),
{
    CardIndex(301)
}

/// Boros Guildgate, a Gate: "This land enters tapped." / "{T}: Add {R} or {W}."
#[verifier::allow_in_spec]
pub fn boros_guildgate() -> CardIndex
    returns
        CardIndex(302),
{
    CardIndex(302)
}

/// Deserted Temple: "{T}: Add {C}." / "{1}, {T}: Untap target land."
#[verifier::allow_in_spec]
pub fn deserted_temple() -> CardIndex
    returns
        CardIndex(303),
{
    CardIndex(303)
}

/// Bottomless Vault: "This land enters tapped." / "You may choose not to untap this land during your untap step." / "At the beginning of your upkeep, if this land is tapped, put a storage counter on it." / "{T}, Remove any number of storage counters from this land: Add {B} for each storage counter removed this way."
#[verifier::allow_in_spec]
pub fn bottomless_vault() -> CardIndex
    returns
        CardIndex(304),
{
    CardIndex(304)
}

/// Dwarven Hold: "This land enters tapped." / "You may choose not to untap this land during your untap step." / "At the beginning of your upkeep, if this land is tapped, put a storage counter on it." / "{T}, Remove any number of storage counters from this land: Add {R} for each storage counter removed this way."
#[verifier::allow_in_spec]
pub fn dwarven_hold() -> CardIndex
    returns
        CardIndex(305),
{
    CardIndex(305)
}

/// Hollow Trees: "This land enters tapped." / "You may choose not to untap this land during your untap step." / "At the beginning of your upkeep, if this land is tapped, put a storage counter on it." / "{T}, Remove any number of storage counters from this land: Add {G} for each storage counter removed this way."
#[verifier::allow_in_spec]
pub fn hollow_trees() -> CardIndex
    returns
        CardIndex(306),
{
    CardIndex(306)
}

/// Icatian Store: "This land enters tapped." / "You may choose not to untap this land during your untap step." / "At the beginning of your upkeep, if this land is tapped, put a storage counter on it." / "{T}, Remove any number of storage counters from this land: Add {W} for each storage counter removed this way."
#[verifier::allow_in_spec]
pub fn icatian_store() -> CardIndex
    returns
        CardIndex(307),
{
    CardIndex(307)
}

/// Sand Silos: "This land enters tapped." / "You may choose not to untap this land during your untap step." / "At the beginning of your upkeep, if this land is tapped, put a storage counter on it." / "{T}, Remove any number of storage counters from this land: Add {U} for each storage counter removed this way."
#[verifier::allow_in_spec]
pub fn sand_silos() -> CardIndex
    returns
        CardIndex(308),
{
    CardIndex(308)
}

/// Blazemire Verge: "{T}: Add {B}." / "{T}: Add {R}. Activate only if you control a Swamp or a Mountain."
#[verifier::allow_in_spec]
pub fn blazemire_verge() -> CardIndex
    returns
        CardIndex(309),
{
    CardIndex(309)
}

/// Bleachbone Verge: "{T}: Add {B}." / "{T}: Add {W}. Activate only if you control a Plains or a Swamp."
#[verifier::allow_in_spec]
pub fn bleachbone_verge() -> CardIndex
    returns
        CardIndex(310),
{
    CardIndex(310)
}

/// Floodfarm Verge: "{T}: Add {W}." / "{T}: Add {U}. Activate only if you control a Plains or a Island."
#[verifier::allow_in_spec]
pub fn floodfarm_verge() -> CardIndex
    returns
        CardIndex(311),
{
    CardIndex(311)
}

/// Gloomlake Verge: "{T}: Add {U}." / "{T}: Add {B}. Activate only if you control a Island or a Swamp."
#[verifier::allow_in_spec]
pub fn gloomlake_verge() -> CardIndex
    returns
        CardIndex(312),
{
    CardIndex(312)
}

/// Hushwood Verge: "{T}: Add {G}." / "{T}: Add {W}. Activate only if you control a Forest or a Plains."
#[verifier::allow_in_spec]
pub fn hushwood_verge() -> CardIndex
    returns
        CardIndex(313),
{
    CardIndex(313)
}

/// Riverpyre Verge: "{T}: Add {R}." / "{T}: Add {U}. Activate only if you control a Island or a Mountain."
#[verifier::allow_in_spec]
pub fn riverpyre_verge() -> CardIndex
    returns
        CardIndex(314),
{
    CardIndex(314)
}

/// Sunbillow Verge: "{T}: Add {W}." / "{T}: Add {R}. Activate only if you control a Mountain or a Plains."
#[verifier::allow_in_spec]
pub fn sunbillow_verge() -> CardIndex
    returns
        CardIndex(315),
{
    CardIndex(315)
}

/// Thornspire Verge: "{T}: Add {R}." / "{T}: Add {G}. Activate only if you control a Mountain or a Forest."
#[verifier::allow_in_spec]
pub fn thornspire_verge() -> CardIndex
    returns
        CardIndex(316),
{
    CardIndex(316)
}

/// Wastewood Verge: "{T}: Add {G}." / "{T}: Add {B}. Activate only if you control a Swamp or a Forest."
#[verifier::allow_in_spec]
pub fn wastewood_verge() -> CardIndex
    returns
        CardIndex(317),
{
    CardIndex(317)
}

/// Willowrush Verge: "{T}: Add {U}." / "{T}: Add {G}. Activate only if you control a Forest or a Island."
#[verifier::allow_in_spec]
pub fn willowrush_verge() -> CardIndex
    returns
        CardIndex(318),
{
    CardIndex(318)
}

/// Nimbus Maze: "{T}: Add {C}." / "{T}: Add {W}. Activate only if you control an Island." / "{T}: Add {U}. Activate only if you control a Plains."
#[verifier::allow_in_spec]
pub fn nimbus_maze() -> CardIndex
    returns
        CardIndex(319),
{
    CardIndex(319)
}

/// Cryptic Caves: "{T}: Add {C}." / "{1}, {T}, Sacrifice this land: Draw a card. Activate only if you control five or more lands."
#[verifier::allow_in_spec]
pub fn cryptic_caves() -> CardIndex
    returns
        CardIndex(320),
{
    CardIndex(320)
}

/// Rivendell: "This land enters tapped unless you control a legendary creature." / "{T}: Add {U}." / "{1}{U}, {T}: Scry 2. Activate only if you control a legendary creature."
#[verifier::allow_in_spec]
pub fn rivendell() -> CardIndex
    returns
        CardIndex(321),
{
    CardIndex(321)
}

/// Spire of Industry: "{T}: Add {C}." / "{T}, Pay 1 life: Add one mana of any color. Activate only if you control an artifact."
#[verifier::allow_in_spec]
pub fn spire_of_industry() -> CardIndex
    returns
        CardIndex(322),
{
    CardIndex(322)
}

/// Tainted Field: "{T}: Add {C}." / "{T}: Add {W} or {B}. Activate only if you control a Swamp."
#[verifier::allow_in_spec]
pub fn tainted_field() -> CardIndex
    returns
        CardIndex(323),
{
    CardIndex(323)
}

/// Tainted Isle: "{T}: Add {C}." / "{T}: Add {U} or {B}. Activate only if you control a Swamp."
#[verifier::allow_in_spec]
pub fn tainted_isle() -> CardIndex
    returns
        CardIndex(324),
{
    CardIndex(324)
}

/// Tainted Peak: "{T}: Add {C}." / "{T}: Add {R} or {B}. Activate only if you control a Swamp."
#[verifier::allow_in_spec]
pub fn tainted_peak() -> CardIndex
    returns
        CardIndex(325),
{
    CardIndex(325)
}

/// Tainted Wood: "{T}: Add {C}." / "{T}: Add {G} or {B}. Activate only if you control a Swamp."
#[verifier::allow_in_spec]
pub fn tainted_wood() -> CardIndex
    returns
        CardIndex(326),
{
    CardIndex(326)
}

/// Temple of the False God: "{T}: Add {C}{C}. Activate only if you control five or more lands."
#[verifier::allow_in_spec]
pub fn temple_of_the_false_god() -> CardIndex
    returns
        CardIndex(327),
{
    CardIndex(327)
}

/// Boseiju, Who Endures: "{T}: Add {G}." / "Channel: {1}{G}, Discard this card: Destroy target artifact, enchantment, or nonbasic land an opponent controls." (Its cost reduction and the search it grants that player are not carried out.)
#[verifier::allow_in_spec]
pub fn boseiju_who_endures() -> CardIndex
    returns
        CardIndex(328),
{
    CardIndex(328)
}

/// Cephalid Coliseum: "{T}: Add {U}. This land deals 1 damage to you." (Threshold is not carried out.)
#[verifier::allow_in_spec]
pub fn cephalid_coliseum() -> CardIndex
    returns
        CardIndex(329),
{
    CardIndex(329)
}

/// Gemstone Caverns: "{T}: Add {C}." (Its opening-hand and luck counter clauses are not carried out.)
#[verifier::allow_in_spec]
pub fn gemstone_caverns() -> CardIndex
    returns
        CardIndex(330),
{
    CardIndex(330)
}

/// Inventors' Fair: "At the beginning of your upkeep, if you control three or more artifacts, you gain 1 life." / "{T}: Add {C}." / "{4}, {T}, Sacrifice this land: Search your library for an artifact card, reveal it, put it into your hand, then shuffle. Activate only if you control three or more artifacts." (The reveal and the shuffle are not carried out.)
#[verifier::allow_in_spec]
pub fn inventors_fair() -> CardIndex
    returns
        CardIndex(331),
{
    CardIndex(331)
}

/// Otawara, Soaring City: "{T}: Add {U}." / "Channel: {3}{U}, Discard this card: Return target artifact, creature, enchantment, or planeswalker you don't control to its owner's hand." (Its cost reduction is not carried out.)
#[verifier::allow_in_spec]
pub fn otawara_soaring_city() -> CardIndex
    returns
        CardIndex(332),
{
    CardIndex(332)
}

/// Raucous Theater, a Swamp Mountain: "This land enters tapped." / "{T}: Add {B} or {R}." / "When this land enters, surveil 1."
#[verifier::allow_in_spec]
pub fn raucous_theater() -> CardIndex
    returns
        CardIndex(333),
{
    CardIndex(333)
}

/// Thundering Falls, a Island Mountain: "This land enters tapped." / "{T}: Add {U} or {R}." / "When this land enters, surveil 1."
#[verifier::allow_in_spec]
pub fn thundering_falls() -> CardIndex
    returns
        CardIndex(334),
{
    CardIndex(334)
}

/// Undercity Sewers, a Island Swamp: "This land enters tapped." / "{T}: Add {U} or {B}." / "When this land enters, surveil 1."
#[verifier::allow_in_spec]
pub fn undercity_sewers() -> CardIndex
    returns
        CardIndex(335),
{
    CardIndex(335)
}

/// Takenuma, Abandoned Mire: "{T}: Add {B}." (Channel is not carried out.)
#[verifier::allow_in_spec]
pub fn takenuma_abandoned_mire() -> CardIndex
    returns
        CardIndex(336),
{
    CardIndex(336)
}

/// A 1/1 red Dwarf creature token.
#[verifier::allow_in_spec]
pub fn dwarf_token() -> CardIndex
    returns
        CardIndex(337),
{
    CardIndex(337)
}

/// A Food token: an artifact with "{2}, {T}, Sacrifice this token: You gain 3 life."
#[verifier::allow_in_spec]
pub fn food_token() -> CardIndex
    returns
        CardIndex(338),
{
    CardIndex(338)
}

/// Idyllic Grange, a Plains: "({T}: Add the mana of a Plains.)" / "This land enters tapped unless you control three or more other Plainss." (Its trigger on entering untapped, "put a +1/+1 counter on target creature you control", is not carried out.)
#[verifier::allow_in_spec]
pub fn idyllic_grange() -> CardIndex
    returns
        CardIndex(339),
{
    CardIndex(339)
}

/// Dwarven Mine, a Mountain: "({T}: Add the mana of a Mountain.)" / "This land enters tapped unless you control three or more other Mountains." / "When this land enters untapped, create a 1/1 red Dwarf creature token."
#[verifier::allow_in_spec]
pub fn dwarven_mine() -> CardIndex
    returns
        CardIndex(340),
{
    CardIndex(340)
}

/// Gingerbread Cabin, a Forest: "({T}: Add the mana of a Forest.)" / "This land enters tapped unless you control three or more other Forests." / "When this land enters untapped, create a Food token."
#[verifier::allow_in_spec]
pub fn gingerbread_cabin() -> CardIndex
    returns
        CardIndex(341),
{
    CardIndex(341)
}

/// Uncharted Haven: "This land enters tapped." / "As this land enters, choose a color." / "{T}: Add one mana of the chosen color."
#[verifier::allow_in_spec]
pub fn uncharted_haven() -> CardIndex
    returns
        CardIndex(342),
{
    CardIndex(342)
}

/// Reflecting Pool: "{T}: Add one mana of any type that a land you control could produce."
#[verifier::allow_in_spec]
pub fn reflecting_pool() -> CardIndex
    returns
        CardIndex(343),
{
    CardIndex(343)
}

/// Gateway Plaza, a Gate: "This land enters tapped." / "When this land enters, sacrifice it unless you pay {1}." / "{T}: Add one mana of any color."
#[verifier::allow_in_spec]
pub fn gateway_plaza() -> CardIndex
    returns
        CardIndex(344),
{
    CardIndex(344)
}

/// Archway Commons: "This land enters tapped." / "When this land enters, sacrifice it unless you pay {1}." / "{T}: Add one mana of any color."
#[verifier::allow_in_spec]
pub fn archway_commons() -> CardIndex
    returns
        CardIndex(345),
{
    CardIndex(345)
}

/// Rupture Spire: "This land enters tapped." / "When this land enters, sacrifice it unless you pay {1}." / "{T}: Add one mana of any color."
#[verifier::allow_in_spec]
pub fn rupture_spire() -> CardIndex
    returns
        CardIndex(346),
{
    CardIndex(346)
}

/// Transguild Promenade: "This land enters tapped." / "When this land enters, sacrifice it unless you pay {1}." / "{T}: Add one mana of any color."
#[verifier::allow_in_spec]
pub fn transguild_promenade() -> CardIndex
    returns
        CardIndex(347),
{
    CardIndex(347)
}

/// Jin-Gitaxias: a legendary 5/5 blue Phyrexian Praetor creature.
#[verifier::allow_in_spec]
pub fn jin_gitaxias() -> CardIndex
    returns
        CardIndex(348),
{
    CardIndex(348)
}

/// Sunken Hollow, a Island Swamp: "({T}: Add {U} or {B}.)" / "This land enters tapped unless you control two or more basic lands."
#[verifier::allow_in_spec]
pub fn sunken_hollow() -> CardIndex
    returns
        CardIndex(349),
{
    CardIndex(349)
}

/// Prairie Stream, a Plains Island: "({T}: Add {W} or {U}.)" / "This land enters tapped unless you control two or more basic lands."
#[verifier::allow_in_spec]
pub fn prairie_stream() -> CardIndex
    returns
        CardIndex(350),
{
    CardIndex(350)
}

/// Deserted Beach: "This land enters tapped unless you control two or more other lands." / "{T}: Add {W} or {U}."
#[verifier::allow_in_spec]
pub fn deserted_beach() -> CardIndex
    returns
        CardIndex(351),
{
    CardIndex(351)
}

/// Blackcleave Cliffs: "This land enters tapped unless you control two or fewer other lands." / "{T}: Add {B} or {R}."
#[verifier::allow_in_spec]
pub fn blackcleave_cliffs() -> CardIndex
    returns
        CardIndex(352),
{
    CardIndex(352)
}

/// Blooming Marsh: "This land enters tapped unless you control two or fewer other lands." / "{T}: Add {B} or {G}."
#[verifier::allow_in_spec]
pub fn blooming_marsh() -> CardIndex
    returns
        CardIndex(353),
{
    CardIndex(353)
}

/// Botanical Sanctum: "This land enters tapped unless you control two or fewer other lands." / "{T}: Add {G} or {U}."
#[verifier::allow_in_spec]
pub fn botanical_sanctum() -> CardIndex
    returns
        CardIndex(354),
{
    CardIndex(354)
}

/// Concealed Courtyard: "This land enters tapped unless you control two or fewer other lands." / "{T}: Add {W} or {B}."
#[verifier::allow_in_spec]
pub fn concealed_courtyard() -> CardIndex
    returns
        CardIndex(355),
{
    CardIndex(355)
}

/// Copperline Gorge: "This land enters tapped unless you control two or fewer other lands." / "{T}: Add {R} or {G}."
#[verifier::allow_in_spec]
pub fn copperline_gorge() -> CardIndex
    returns
        CardIndex(356),
{
    CardIndex(356)
}

/// Darkslick Shores: "This land enters tapped unless you control two or fewer other lands." / "{T}: Add {U} or {B}."
#[verifier::allow_in_spec]
pub fn darkslick_shores() -> CardIndex
    returns
        CardIndex(357),
{
    CardIndex(357)
}

/// Inspiring Vantage: "This land enters tapped unless you control two or fewer other lands." / "{T}: Add {R} or {W}."
#[verifier::allow_in_spec]
pub fn inspiring_vantage() -> CardIndex
    returns
        CardIndex(358),
{
    CardIndex(358)
}

/// Razorverge Thicket: "This land enters tapped unless you control two or fewer other lands." / "{T}: Add {G} or {W}."
#[verifier::allow_in_spec]
pub fn razorverge_thicket() -> CardIndex
    returns
        CardIndex(359),
{
    CardIndex(359)
}

/// Seachrome Coast: "This land enters tapped unless you control two or fewer other lands." / "{T}: Add {W} or {U}."
#[verifier::allow_in_spec]
pub fn seachrome_coast() -> CardIndex
    returns
        CardIndex(360),
{
    CardIndex(360)
}

/// Spirebluff Canal: "This land enters tapped unless you control two or fewer other lands." / "{T}: Add {U} or {R}."
#[verifier::allow_in_spec]
pub fn spirebluff_canal() -> CardIndex
    returns
        CardIndex(361),
{
    CardIndex(361)
}

/// Turbulent Fen, a Swamp Forest: "This land enters tapped unless your opponents control eight or more lands." / "{T}: Add {B} or {G}."
#[verifier::allow_in_spec]
pub fn turbulent_fen() -> CardIndex
    returns
        CardIndex(362),
{
    CardIndex(362)
}

/// Turbulent Moor, a Plains Swamp: "This land enters tapped unless your opponents control eight or more lands." / "{T}: Add {W} or {B}."
#[verifier::allow_in_spec]
pub fn turbulent_moor() -> CardIndex
    returns
        CardIndex(363),
{
    CardIndex(363)
}

/// Turbulent Springs, a Island Mountain: "This land enters tapped unless your opponents control eight or more lands." / "{T}: Add {U} or {R}."
#[verifier::allow_in_spec]
pub fn turbulent_springs() -> CardIndex
    returns
        CardIndex(364),
{
    CardIndex(364)
}

/// Turbulent Steppe, a Mountain Plains: "This land enters tapped unless your opponents control eight or more lands." / "{T}: Add {R} or {W}."
#[verifier::allow_in_spec]
pub fn turbulent_steppe() -> CardIndex
    returns
        CardIndex(365),
{
    CardIndex(365)
}

/// Turbulent Wilderness, a Forest Island: "This land enters tapped unless your opponents control eight or more lands." / "{T}: Add {G} or {U}."
#[verifier::allow_in_spec]
pub fn turbulent_wilderness() -> CardIndex
    returns
        CardIndex(366),
{
    CardIndex(366)
}

/// Abandoned Campground: "This land enters tapped unless a player has 13 or less life." / "{T}: Add {W} or {U}."
#[verifier::allow_in_spec]
pub fn abandoned_campground() -> CardIndex
    returns
        CardIndex(367),
{
    CardIndex(367)
}

/// Bleeding Woods: "This land enters tapped unless a player has 13 or less life." / "{T}: Add {R} or {G}."
#[verifier::allow_in_spec]
pub fn bleeding_woods() -> CardIndex
    returns
        CardIndex(368),
{
    CardIndex(368)
}

/// Etched Cornfield: "This land enters tapped unless a player has 13 or less life." / "{T}: Add {G} or {W}."
#[verifier::allow_in_spec]
pub fn etched_cornfield() -> CardIndex
    returns
        CardIndex(369),
{
    CardIndex(369)
}

/// Lakeside Shack: "This land enters tapped unless a player has 13 or less life." / "{T}: Add {G} or {U}."
#[verifier::allow_in_spec]
pub fn lakeside_shack() -> CardIndex
    returns
        CardIndex(370),
{
    CardIndex(370)
}

/// Murky Sewer: "This land enters tapped unless a player has 13 or less life." / "{T}: Add {U} or {B}."
#[verifier::allow_in_spec]
pub fn murky_sewer() -> CardIndex
    returns
        CardIndex(371),
{
    CardIndex(371)
}

/// Neglected Manor: "This land enters tapped unless a player has 13 or less life." / "{T}: Add {W} or {B}."
#[verifier::allow_in_spec]
pub fn neglected_manor() -> CardIndex
    returns
        CardIndex(372),
{
    CardIndex(372)
}

/// Peculiar Lighthouse: "This land enters tapped unless a player has 13 or less life." / "{T}: Add {U} or {R}."
#[verifier::allow_in_spec]
pub fn peculiar_lighthouse() -> CardIndex
    returns
        CardIndex(373),
{
    CardIndex(373)
}

/// Raucous Carnival: "This land enters tapped unless a player has 13 or less life." / "{T}: Add {R} or {W}."
#[verifier::allow_in_spec]
pub fn raucous_carnival() -> CardIndex
    returns
        CardIndex(374),
{
    CardIndex(374)
}

/// Razortrap Gorge: "This land enters tapped unless a player has 13 or less life." / "{T}: Add {B} or {R}."
#[verifier::allow_in_spec]
pub fn razortrap_gorge() -> CardIndex
    returns
        CardIndex(375),
{
    CardIndex(375)
}

/// Strangled Cemetery: "This land enters tapped unless a player has 13 or less life." / "{T}: Add {B} or {G}."
#[verifier::allow_in_spec]
pub fn strangled_cemetery() -> CardIndex
    returns
        CardIndex(376),
{
    CardIndex(376)
}

/// Commercial District, a Mountain Forest: "This land enters tapped." / "{T}: Add {R} or {G}." / "When this land enters, surveil 1."
#[verifier::allow_in_spec]
pub fn commercial_district() -> CardIndex
    returns
        CardIndex(377),
{
    CardIndex(377)
}

/// Elegant Parlor, a Mountain Plains: "This land enters tapped." / "{T}: Add {R} or {W}." / "When this land enters, surveil 1."
#[verifier::allow_in_spec]
pub fn elegant_parlor() -> CardIndex
    returns
        CardIndex(378),
{
    CardIndex(378)
}

/// Hedge Maze, a Forest Island: "This land enters tapped." / "{T}: Add {G} or {U}." / "When this land enters, surveil 1."
#[verifier::allow_in_spec]
pub fn hedge_maze() -> CardIndex
    returns
        CardIndex(379),
{
    CardIndex(379)
}

/// Lush Portico, a Forest Plains: "This land enters tapped." / "{T}: Add {G} or {W}." / "When this land enters, surveil 1."
#[verifier::allow_in_spec]
pub fn lush_portico() -> CardIndex
    returns
        CardIndex(380),
{
    CardIndex(380)
}

/// Meticulous Archive, a Plains Island: "This land enters tapped." / "{T}: Add {W} or {U}." / "When this land enters, surveil 1."
#[verifier::allow_in_spec]
pub fn meticulous_archive() -> CardIndex
    returns
        CardIndex(381),
{
    CardIndex(381)
}

/// Shadowy Backstreet, a Plains Swamp: "This land enters tapped." / "{T}: Add {W} or {B}." / "When this land enters, surveil 1."
#[verifier::allow_in_spec]
pub fn shadowy_backstreet() -> CardIndex
    returns
        CardIndex(382),
{
    CardIndex(382)
}

/// Underground Mortuary, a Swamp Forest: "This land enters tapped." / "{T}: Add {B} or {G}." / "When this land enters, surveil 1."
#[verifier::allow_in_spec]
pub fn underground_mortuary() -> CardIndex
    returns
        CardIndex(383),
{
    CardIndex(383)
}

/// Conduit Pylons, a Desert: "When this land enters, surveil 1." / "{T}: Add {C}." / "{1}, {T}: Add one mana of any color."
#[verifier::allow_in_spec]
pub fn conduit_pylons() -> CardIndex
    returns
        CardIndex(384),
{
    CardIndex(384)
}

/// Hidden Grotto: "When this land enters, surveil 1." / "{T}: Add {C}." / "{1}, {T}: Add one mana of any color."
#[verifier::allow_in_spec]
pub fn hidden_grotto() -> CardIndex
    returns
        CardIndex(385),
{
    CardIndex(385)
}

/// Surveillance Room: "When this land enters, surveil 1." / "{T}: Add {C}." / "{1}, {T}: Add one mana of any color."
#[verifier::allow_in_spec]
pub fn surveillance_room() -> CardIndex
    returns
        CardIndex(386),
{
    CardIndex(386)
}

/// Fields of Strife: "{T}: Add {C}." / "{2}{R}{W}, {T}: Surveil 1."
#[verifier::allow_in_spec]
pub fn fields_of_strife() -> CardIndex
    returns
        CardIndex(387),
{
    CardIndex(387)
}

/// Forum of Amity: "{T}: Add {C}." / "{2}{W}{B}, {T}: Surveil 1."
#[verifier::allow_in_spec]
pub fn forum_of_amity() -> CardIndex
    returns
        CardIndex(388),
{
    CardIndex(388)
}

/// Kishla Village: "{T}: Add {C}." / "{4}, {T}: Surveil 2."
#[verifier::allow_in_spec]
pub fn kishla_village() -> CardIndex
    returns
        CardIndex(389),
{
    CardIndex(389)
}

/// Ominous Asylum: "{T}: Add {C}." / "{4}, {T}: Surveil 1."
#[verifier::allow_in_spec]
pub fn ominous_asylum() -> CardIndex
    returns
        CardIndex(390),
{
    CardIndex(390)
}

/// Paradox Gardens: "{T}: Add {C}." / "{2}{G}{U}, {T}: Surveil 1."
#[verifier::allow_in_spec]
pub fn paradox_gardens() -> CardIndex
    returns
        CardIndex(391),
{
    CardIndex(391)
}

/// Savage Mansion: "{T}: Add {C}." / "{4}, {T}: Surveil 1."
#[verifier::allow_in_spec]
pub fn savage_mansion() -> CardIndex
    returns
        CardIndex(392),
{
    CardIndex(392)
}

/// Sinister Hideout: "{T}: Add {C}." / "{4}, {T}: Surveil 1."
#[verifier::allow_in_spec]
pub fn sinister_hideout() -> CardIndex
    returns
        CardIndex(393),
{
    CardIndex(393)
}

/// Spectacle Summit: "{T}: Add {C}." / "{2}{U}{R}, {T}: Surveil 1."
#[verifier::allow_in_spec]
pub fn spectacle_summit() -> CardIndex
    returns
        CardIndex(394),
{
    CardIndex(394)
}

/// Suburban Sanctuary: "{T}: Add {C}." / "{4}, {T}: Surveil 1."
#[verifier::allow_in_spec]
pub fn suburban_sanctuary() -> CardIndex
    returns
        CardIndex(395),
{
    CardIndex(395)
}

/// Titan's Grave: "{T}: Add {C}." / "{2}{B}{G}, {T}: Surveil 1."
#[verifier::allow_in_spec]
pub fn titan_s_grave() -> CardIndex
    returns
        CardIndex(396),
{
    CardIndex(396)
}

/// Tocasia's Dig Site: "{T}: Add {C}." / "{3}, {T}: Surveil 1."
#[verifier::allow_in_spec]
pub fn tocasia_s_dig_site() -> CardIndex
    returns
        CardIndex(397),
{
    CardIndex(397)
}

/// University Campus: "{T}: Add {C}." / "{4}, {T}: Surveil 1."
#[verifier::allow_in_spec]
pub fn university_campus() -> CardIndex
    returns
        CardIndex(398),
{
    CardIndex(398)
}

/// Azorius Chancery: "This land enters tapped." / "When this land enters, return a land you control to its owner's hand." / "{T}: Add {W}{U}."
#[verifier::allow_in_spec]
pub fn azorius_chancery() -> CardIndex
    returns
        CardIndex(399),
{
    CardIndex(399)
}

/// Boros Garrison: "This land enters tapped." / "When this land enters, return a land you control to its owner's hand." / "{T}: Add {R}{W}."
#[verifier::allow_in_spec]
pub fn boros_garrison() -> CardIndex
    returns
        CardIndex(400),
{
    CardIndex(400)
}

/// Dimir Aqueduct: "This land enters tapped." / "When this land enters, return a land you control to its owner's hand." / "{T}: Add {U}{B}."
#[verifier::allow_in_spec]
pub fn dimir_aqueduct() -> CardIndex
    returns
        CardIndex(401),
{
    CardIndex(401)
}

/// Golgari Rot Farm: "This land enters tapped." / "When this land enters, return a land you control to its owner's hand." / "{T}: Add {B}{G}."
#[verifier::allow_in_spec]
pub fn golgari_rot_farm() -> CardIndex
    returns
        CardIndex(402),
{
    CardIndex(402)
}

/// Gruul Turf: "This land enters tapped." / "When this land enters, return a land you control to its owner's hand." / "{T}: Add {R}{G}."
#[verifier::allow_in_spec]
pub fn gruul_turf() -> CardIndex
    returns
        CardIndex(403),
{
    CardIndex(403)
}

/// Guildless Commons: "This land enters tapped." / "When this land enters, return a land you control to its owner's hand." / "{T}: Add {C}."
#[verifier::allow_in_spec]
pub fn guildless_commons() -> CardIndex
    returns
        CardIndex(404),
{
    CardIndex(404)
}

/// Izzet Boilerworks: "This land enters tapped." / "When this land enters, return a land you control to its owner's hand." / "{T}: Add {U}{R}."
#[verifier::allow_in_spec]
pub fn izzet_boilerworks() -> CardIndex
    returns
        CardIndex(405),
{
    CardIndex(405)
}

/// Orzhov Basilica: "This land enters tapped." / "When this land enters, return a land you control to its owner's hand." / "{T}: Add {W}{B}."
#[verifier::allow_in_spec]
pub fn orzhov_basilica() -> CardIndex
    returns
        CardIndex(406),
{
    CardIndex(406)
}

/// Rakdos Carnarium: "This land enters tapped." / "When this land enters, return a land you control to its owner's hand." / "{T}: Add {B}{R}."
#[verifier::allow_in_spec]
pub fn rakdos_carnarium() -> CardIndex
    returns
        CardIndex(407),
{
    CardIndex(407)
}

/// Selesnya Sanctuary: "This land enters tapped." / "When this land enters, return a land you control to its owner's hand." / "{T}: Add {G}{W}."
#[verifier::allow_in_spec]
pub fn selesnya_sanctuary() -> CardIndex
    returns
        CardIndex(408),
{
    CardIndex(408)
}

/// Simic Growth Chamber: "This land enters tapped." / "When this land enters, return a land you control to its owner's hand." / "{T}: Add {G}{U}."
#[verifier::allow_in_spec]
pub fn simic_growth_chamber() -> CardIndex
    returns
        CardIndex(409),
{
    CardIndex(409)
}

/// Karoo: "This land enters tapped." / "When this land enters, sacrifice it unless you return an untapped Plains you control to its owner's hand." / "{T}: Add {C}{W}."
#[verifier::allow_in_spec]
pub fn karoo() -> CardIndex
    returns
        CardIndex(410),
{
    CardIndex(410)
}

/// Coral Atoll: "This land enters tapped." / "When this land enters, sacrifice it unless you return an untapped Island you control to its owner's hand." / "{T}: Add {C}{U}."
#[verifier::allow_in_spec]
pub fn coral_atoll() -> CardIndex
    returns
        CardIndex(411),
{
    CardIndex(411)
}

/// Dormant Volcano: "This land enters tapped." / "When this land enters, sacrifice it unless you return an untapped Mountain you control to its owner's hand." / "{T}: Add {C}{R}."
#[verifier::allow_in_spec]
pub fn dormant_volcano() -> CardIndex
    returns
        CardIndex(412),
{
    CardIndex(412)
}

/// Everglades: "This land enters tapped." / "When this land enters, sacrifice it unless you return an untapped Swamp you control to its owner's hand." / "{T}: Add {C}{B}."
#[verifier::allow_in_spec]
pub fn everglades() -> CardIndex
    returns
        CardIndex(413),
{
    CardIndex(413)
}

/// Jungle Basin: "This land enters tapped." / "When this land enters, sacrifice it unless you return an untapped Forest you control to its owner's hand." / "{T}: Add {C}{G}."
#[verifier::allow_in_spec]
pub fn jungle_basin() -> CardIndex
    returns
        CardIndex(414),
{
    CardIndex(414)
}

/// Crosis's Catacombs, a Lair: "When this land enters, sacrifice it unless you return a non-Lair land you control to its owner's hand." / "{T}: Add {U}, {B}, or {R}."
#[verifier::allow_in_spec]
pub fn crosis_s_catacombs() -> CardIndex
    returns
        CardIndex(415),
{
    CardIndex(415)
}

/// Darigaaz's Caldera, a Lair: "When this land enters, sacrifice it unless you return a non-Lair land you control to its owner's hand." / "{T}: Add {B}, {R}, or {G}."
#[verifier::allow_in_spec]
pub fn darigaaz_s_caldera() -> CardIndex
    returns
        CardIndex(416),
{
    CardIndex(416)
}

/// Dromar's Cavern, a Lair: "When this land enters, sacrifice it unless you return a non-Lair land you control to its owner's hand." / "{T}: Add {W}, {U}, or {B}."
#[verifier::allow_in_spec]
pub fn dromar_s_cavern() -> CardIndex
    returns
        CardIndex(417),
{
    CardIndex(417)
}

/// Rith's Grove, a Lair: "When this land enters, sacrifice it unless you return a non-Lair land you control to its owner's hand." / "{T}: Add {R}, {G}, or {W}."
#[verifier::allow_in_spec]
pub fn rith_s_grove() -> CardIndex
    returns
        CardIndex(418),
{
    CardIndex(418)
}

/// Treva's Ruins, a Lair: "When this land enters, sacrifice it unless you return a non-Lair land you control to its owner's hand." / "{T}: Add {G}, {W}, or {U}."
#[verifier::allow_in_spec]
pub fn treva_s_ruins() -> CardIndex
    returns
        CardIndex(419),
{
    CardIndex(419)
}

/// Command Bridge: "This land enters tapped." / "When this land enters, sacrifice it unless you tap an untapped permanent you control." / "{T}: Add one mana of any color."
#[verifier::allow_in_spec]
pub fn command_bridge() -> CardIndex
    returns
        CardIndex(420),
{
    CardIndex(420)
}

/// Abraded Bluffs: "This land enters tapped." / "When this land enters, it deals 1 damage to target opponent." / "{T}: Add {R} or {W}."
#[verifier::allow_in_spec]
pub fn abraded_bluffs() -> CardIndex
    returns
        CardIndex(421),
{
    CardIndex(421)
}

/// Treetop Village: "This land enters tapped." / "{T}: Add {G}." / "{1}{G}: This land becomes a 3/3 green Ape creature with trample until end of turn. It's still a land."
#[verifier::allow_in_spec]
pub fn treetop_village() -> CardIndex
    returns
        CardIndex(422),
{
    CardIndex(422)
}

/// Nephalia Drownyard: "{T}: Add {C}." / "{1}{U}{B}, {T}: Target player mills three cards."
#[verifier::allow_in_spec]
pub fn nephalia_drownyard() -> CardIndex
    returns
        CardIndex(423),
{
    CardIndex(423)
}

/// Blighted Gorge: "{T}: Add {C}." / "{4}{R}, {T}, Sacrifice this land: It deals 2 damage to any target."
#[verifier::allow_in_spec]
pub fn blighted_gorge() -> CardIndex
    returns
        CardIndex(424),
{
    CardIndex(424)
}

/// Bojuka Bog: "This land enters tapped." / "When this land enters, exile target player's graveyard." / "{T}: Add {B}."
#[verifier::allow_in_spec]
pub fn bojuka_bog() -> CardIndex
    returns
        CardIndex(425),
{
    CardIndex(425)
}

/// Arid Mesa: "{T}, Pay 1 life, Sacrifice this land: Search your library for a Mountain or Plains card, put it onto the battlefield, then shuffle." (The shuffle is not carried out.)
#[verifier::allow_in_spec]
pub fn arid_mesa() -> CardIndex
    returns
        CardIndex(426),
{
    CardIndex(426)
}

/// Gaea's Cradle: "{T}: Add {G} for each creature you control."
#[verifier::allow_in_spec]
pub fn gaea_s_cradle() -> CardIndex
    returns
        CardIndex(427),
{
    CardIndex(427)
}

/// The Tabernacle at Pendrell Vale: "All creatures have 'At the beginning of your upkeep, destroy this creature unless you pay {1}.'"
#[verifier::allow_in_spec]
pub fn the_tabernacle_at_pendrell_vale() -> CardIndex
    returns
        CardIndex(428),
{
    CardIndex(428)
}

/// Promising Vein: "This land enters tapped." / "{T}: Add {C}." / "{1}, {T}, Sacrifice this land: Search your library for a basic land card, put it onto the battlefield tapped, then shuffle." (The shuffle is not carried out.)
#[verifier::allow_in_spec]
pub fn promising_vein() -> CardIndex
    returns
        CardIndex(429),
{
    CardIndex(429)
}

/// Prismatic Vista: "{T}, Pay 1 life, Sacrifice this land: Search your library for a basic land card, put it onto the battlefield, then shuffle." (The shuffle is not carried out.)
#[verifier::allow_in_spec]
pub fn prismatic_vista() -> CardIndex
    returns
        CardIndex(430),
{
    CardIndex(430)
}

/// Shire Terrace: "{T}: Add {C}." / "{1}, {T}, Sacrifice this land: Search your library for a basic land card, put it onto the battlefield tapped, then shuffle." (The shuffle is not carried out.)
#[verifier::allow_in_spec]
pub fn shire_terrace() -> CardIndex
    returns
        CardIndex(431),
{
    CardIndex(431)
}

/// Terminal Moraine: "{T}: Add {C}." / "{2}, {T}, Sacrifice this land: Search your library for a basic land card, put it onto the battlefield tapped, then shuffle." (The shuffle is not carried out.)
#[verifier::allow_in_spec]
pub fn terminal_moraine() -> CardIndex
    returns
        CardIndex(432),
{
    CardIndex(432)
}

/// Vibrant Cityscape: "This land enters tapped." / "{T}, Sacrifice this land: Search your library for a basic land card, put it onto the battlefield tapped, then shuffle." (The shuffle is not carried out.)
#[verifier::allow_in_spec]
pub fn vibrant_cityscape() -> CardIndex
    returns
        CardIndex(433),
{
    CardIndex(433)
}

/// Warped Landscape: "{T}: Add {C}." / "{2}, {T}, Sacrifice this land: Search your library for a basic land card, put it onto the battlefield tapped, then shuffle." (The shuffle is not carried out.)
#[verifier::allow_in_spec]
pub fn warped_landscape() -> CardIndex
    returns
        CardIndex(434),
{
    CardIndex(434)
}

/// Bant Panorama: "{T}: Add {C}." / "{1}, {T}, Sacrifice this land: Search your library for a basic Forest, Plains, or Island card, put it onto the battlefield tapped, then shuffle." (The shuffle is not carried out.)
#[verifier::allow_in_spec]
pub fn bant_panorama() -> CardIndex
    returns
        CardIndex(435),
{
    CardIndex(435)
}

/// Esper Panorama: "{T}: Add {C}." / "{1}, {T}, Sacrifice this land: Search your library for a basic Plains, Island, or Swamp card, put it onto the battlefield tapped, then shuffle." (The shuffle is not carried out.)
#[verifier::allow_in_spec]
pub fn esper_panorama() -> CardIndex
    returns
        CardIndex(436),
{
    CardIndex(436)
}

/// Grixis Panorama: "{T}: Add {C}." / "{1}, {T}, Sacrifice this land: Search your library for a basic Island, Swamp, or Mountain card, put it onto the battlefield tapped, then shuffle." (The shuffle is not carried out.)
#[verifier::allow_in_spec]
pub fn grixis_panorama() -> CardIndex
    returns
        CardIndex(437),
{
    CardIndex(437)
}

/// Jund Panorama: "{T}: Add {C}." / "{1}, {T}, Sacrifice this land: Search your library for a basic Swamp, Mountain, or Forest card, put it onto the battlefield tapped, then shuffle." (The shuffle is not carried out.)
#[verifier::allow_in_spec]
pub fn jund_panorama() -> CardIndex
    returns
        CardIndex(438),
{
    CardIndex(438)
}

/// Naya Panorama: "{T}: Add {C}." / "{1}, {T}, Sacrifice this land: Search your library for a basic Mountain, Forest, or Plains card, put it onto the battlefield tapped, then shuffle." (The shuffle is not carried out.)
#[verifier::allow_in_spec]
pub fn naya_panorama() -> CardIndex
    returns
        CardIndex(439),
{
    CardIndex(439)
}

/// High Market: "{T}: Add {C}." / "{T}, Sacrifice a creature: You gain 1 life."
#[verifier::allow_in_spec]
pub fn high_market() -> CardIndex
    returns
        CardIndex(440),
{
    CardIndex(440)
}

/// Grim Backwoods: "{T}: Add {C}." / "{2}{B}{G}, {T}, Sacrifice a creature: Draw a card."
#[verifier::allow_in_spec]
pub fn grim_backwoods() -> CardIndex
    returns
        CardIndex(441),
{
    CardIndex(441)
}

/// Keldon Necropolis: "{T}: Add {C}." / "{4}{R}, {T}, Sacrifice a creature: It deals 2 damage to any target."
#[verifier::allow_in_spec]
pub fn keldon_necropolis() -> CardIndex
    returns
        CardIndex(442),
{
    CardIndex(442)
}

/// Phyrexia's Core: "{T}: Add {C}." / "{1}, {T}, Sacrifice an artifact: You gain 1 life."
#[verifier::allow_in_spec]
pub fn phyrexia_s_core() -> CardIndex
    returns
        CardIndex(443),
{
    CardIndex(443)
}

/// Seaside Haven: "{T}: Add {C}." / "{W}{U}, {T}, Sacrifice a Bird: Draw a card."
#[verifier::allow_in_spec]
pub fn seaside_haven() -> CardIndex
    returns
        CardIndex(444),
{
    CardIndex(444)
}

/// The Shire: "{T}: Add {G}." / "{1}{G}, {T}, Sacrifice a creature: Create a Food token."
#[verifier::allow_in_spec]
pub fn the_shire() -> CardIndex
    returns
        CardIndex(445),
{
    CardIndex(445)
}

/// Dust Bowl: "{T}: Add {C}." / "{3}, {T}, Sacrifice a land: Destroy target nonbasic land."
#[verifier::allow_in_spec]
pub fn dust_bowl() -> CardIndex
    returns
        CardIndex(446),
{
    CardIndex(446)
}

/// Rath's Edge: "{T}: Add {C}." / "{4}, {T}, Sacrifice a land: It deals 1 damage to any target."
#[verifier::allow_in_spec]
pub fn rath_s_edge() -> CardIndex
    returns
        CardIndex(447),
{
    CardIndex(447)
}

/// Heap Gate: "{T}: Add {C}." / "{2}, {T}, Sacrifice a Gate: Draw a card."
#[verifier::allow_in_spec]
pub fn heap_gate() -> CardIndex
    returns
        CardIndex(448),
{
    CardIndex(448)
}

/// Ipnu Rivulet, a Desert: "{T}: Add {C}." / "{T}, Pay 1 life: Add {U}." / "{1}{U}, {T}, Sacrifice a Desert: Target player mills four cards."
#[verifier::allow_in_spec]
pub fn ipnu_rivulet() -> CardIndex
    returns
        CardIndex(449),
{
    CardIndex(449)
}

/// Fogwell's Gym: "{T}: Add {C}." / "{1}, {T}, Discard a card: Draw a card."
#[verifier::allow_in_spec]
pub fn fogwell_s_gym() -> CardIndex
    returns
        CardIndex(450),
{
    CardIndex(450)
}

/// Ondu Cleric: a 1/1 white Kor Cleric Ally creature. Its life-gain ability is not carried out.
#[verifier::allow_in_spec]
pub fn ondu_cleric() -> CardIndex
    returns
        CardIndex(451),
{
    CardIndex(451)
}

/// Rogue's Passage: "{T}: Add {C}." / "{4}, {T}: Target creature can't be blocked this turn."
#[verifier::allow_in_spec]
pub fn rogue_s_passage() -> CardIndex
    returns
        CardIndex(452),
{
    CardIndex(452)
}

/// Quicksand: "{T}: Add {C}." / "{T}, Sacrifice this land: Target attacking creature without flying gets -1/-2 until end of turn."
#[verifier::allow_in_spec]
pub fn quicksand() -> CardIndex
    returns
        CardIndex(453),
{
    CardIndex(453)
}

/// Vindicate: a white and black sorcery costing {1}{W}{B}, "Destroy target permanent."
#[verifier::allow_in_spec]
pub fn vindicate() -> CardIndex
    returns
        CardIndex(454),
{
    CardIndex(454)
}

/// Pillar of the Paruns: "{T}: Add one mana of any color. Spend this mana only to cast a multicolored spell."
#[verifier::allow_in_spec]
pub fn pillar_of_the_paruns() -> CardIndex
    returns
        CardIndex(455),
{
    CardIndex(455)
}

/// Dunes of the Dead, a Desert: "{T}: Add {C}." / "When this land is put into a graveyard from the battlefield, create a 2/2 black Zombie creature token."
#[verifier::allow_in_spec]
pub fn dunes_of_the_dead() -> CardIndex
    returns
        CardIndex(456),
{
    CardIndex(456)
}

/// Opal Palace: "{T}: Add {C}." / "{1}, {T}: Add one mana of any color in your commander's color identity." What that mana does to a commander cast with it is not carried out.
#[verifier::allow_in_spec]
pub fn opal_palace() -> CardIndex
    returns
        CardIndex(457),
{
    CardIndex(457)
}

/// Mirage Mesa, a Desert: "This land enters tapped." / "As this land enters, choose a color." / "{T}: Add one mana of the chosen color."
#[verifier::allow_in_spec]
pub fn mirage_mesa() -> CardIndex
    returns
        CardIndex(458),
{
    CardIndex(458)
}

/// Valgavoth's Lair, an enchantment land, a Lair, with hexproof: "This land enters tapped." / "As this land enters, choose a color." / "{T}: Add one mana of the chosen color."
#[verifier::allow_in_spec]
pub fn valgavoth_s_lair() -> CardIndex
    returns
        CardIndex(459),
{
    CardIndex(459)
}

/// Shimmerdrift Vale, a snow land: "This land enters tapped." / "As this land enters, choose a color." / "{T}: Add one mana of the chosen color."
#[verifier::allow_in_spec]
pub fn shimmerdrift_vale() -> CardIndex
    returns
        CardIndex(460),
{
    CardIndex(460)
}

/// Crossroads Village, a land: "This land enters tapped." / "As this land enters, choose a color." / "{T}: Add one mana of the chosen color."
#[verifier::allow_in_spec]
pub fn crossroads_village() -> CardIndex
    returns
        CardIndex(461),
{
    CardIndex(461)
}

/// Citadel Gate: "This land enters tapped." / "As it enters, choose a color other than white." / "{T}: Add {W} or one mana of the chosen color."
#[verifier::allow_in_spec]
pub fn citadel_gate() -> CardIndex
    returns
        CardIndex(462),
{
    CardIndex(462)
}

/// Sea Gate: "This land enters tapped." / "As it enters, choose a color other than blue." / "{T}: Add {U} or one mana of the chosen color."
#[verifier::allow_in_spec]
pub fn sea_gate() -> CardIndex
    returns
        CardIndex(463),
{
    CardIndex(463)
}

/// Black Dragon Gate: "This land enters tapped." / "As it enters, choose a color other than black." / "{T}: Add {B} or one mana of the chosen color."
#[verifier::allow_in_spec]
pub fn black_dragon_gate() -> CardIndex
    returns
        CardIndex(464),
{
    CardIndex(464)
}

/// Cliffgate: "This land enters tapped." / "As it enters, choose a color other than red." / "{T}: Add {R} or one mana of the chosen color."
#[verifier::allow_in_spec]
pub fn cliffgate() -> CardIndex
    returns
        CardIndex(465),
{
    CardIndex(465)
}

/// Manor Gate: "This land enters tapped." / "As it enters, choose a color other than green." / "{T}: Add {G} or one mana of the chosen color."
#[verifier::allow_in_spec]
pub fn manor_gate() -> CardIndex
    returns
        CardIndex(466),
{
    CardIndex(466)
}

/// Thriving Heath: "This land enters tapped." / "As it enters, choose a color other than white." / "{T}: Add {W} or one mana of the chosen color."
#[verifier::allow_in_spec]
pub fn thriving_heath() -> CardIndex
    returns
        CardIndex(467),
{
    CardIndex(467)
}

/// Thriving Isle: "This land enters tapped." / "As it enters, choose a color other than blue." / "{T}: Add {U} or one mana of the chosen color."
#[verifier::allow_in_spec]
pub fn thriving_isle() -> CardIndex
    returns
        CardIndex(468),
{
    CardIndex(468)
}

/// Thriving Moor: "This land enters tapped." / "As it enters, choose a color other than black." / "{T}: Add {B} or one mana of the chosen color."
#[verifier::allow_in_spec]
pub fn thriving_moor() -> CardIndex
    returns
        CardIndex(469),
{
    CardIndex(469)
}

/// Thriving Bluff: "This land enters tapped." / "As it enters, choose a color other than red." / "{T}: Add {R} or one mana of the chosen color."
#[verifier::allow_in_spec]
pub fn thriving_bluff() -> CardIndex
    returns
        CardIndex(470),
{
    CardIndex(470)
}

/// Thriving Grove: "This land enters tapped." / "As it enters, choose a color other than green." / "{T}: Add {G} or one mana of the chosen color."
#[verifier::allow_in_spec]
pub fn thriving_grove() -> CardIndex
    returns
        CardIndex(471),
{
    CardIndex(471)
}

/// How many cards the catalog holds; every index below it names one.
pub const CARD_COUNT: u32 = 472;

} // verus!
