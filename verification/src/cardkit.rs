//! Constructors for the card model, usable in executable code and in
//! specifications alike, so that the catalog states each card once.

use vstd::prelude::*;
use crate::cards::{
    Ability, AbilityKind, Animation, Characteristics, ColorPair, Condition, Cost, CounterAmount, Effect,
    EntryChoice, EntryRule, Filter, ManaRider, Search, SearchDest, TargetSpec, Trigger, Entry,
};
use crate::ids::CardIndex;
use crate::mana::{ManaColor, ManaCost};
use crate::sets::{Colors, CounterKind, Keywords, Subtypes, Types};

verus! {

/// A mana cost: generic, then white, blue, black, red, green and `{C}`.
#[verifier::allow_in_spec]
pub fn mana(generic: u32, w: u32, u: u32, b: u32, r: u32, g: u32, c: u32) -> ManaCost
    returns
        (ManaCost { generic, white: w, blue: u, black: b, red: r, green: g, colorless: c }),
{
    ManaCost { generic, white: w, blue: u, black: b, red: r, green: g, colorless: c }
}

/// A cost of `{T}` alone.
#[verifier::allow_in_spec]
pub fn tap() -> Cost
    returns
        (Cost {
            tap: true,
            mana: ManaCost { generic: 0, white: 0, blue: 0, black: 0, red: 0, green: 0, colorless: 0 },
            life: 0,
            sacrifice_self: false,
            sacrifice: None,
            remove_counters: None,
            tap_other: None,
            hybrid: None,
            remove_any: None,
            discard: false,
        }),
{
    Cost {
        tap: true,
        mana: ManaCost { generic: 0, white: 0, blue: 0, black: 0, red: 0, green: 0, colorless: 0 },
        life: 0,
        sacrifice_self: false,
        sacrifice: None,
        remove_counters: None,
        tap_other: None,
        hybrid: None,
        remove_any: None,
        discard: false,
    }
}

/// A cost: whether it taps the source, its mana, life to pay, and whether it
/// sacrifices the source.
#[verifier::allow_in_spec]
pub fn cost(t: bool, m: ManaCost, life: u32, sac_self: bool) -> Cost
    returns
        (Cost { tap: t, mana: m, life, sacrifice_self: sac_self, sacrifice: None, remove_counters: None, tap_other: None, hybrid: None, remove_any: None, discard: false }),
{
    Cost { tap: t, mana: m, life, sacrifice_self: sac_self, sacrifice: None, remove_counters: None, tap_other: None, hybrid: None, remove_any: None, discard: false }
}

/// A cost that also sacrifices a permanent matching `f`.
#[verifier::allow_in_spec]
pub fn sacrificing(c: Cost, f: Filter) -> Cost
    returns
        (Cost { sacrifice: Some(f), ..c }),
{
    Cost { sacrifice: Some(f), ..c }
}

/// A cost that also removes `n` counters of `kind` from the source.
#[verifier::allow_in_spec]
pub fn removing(c: Cost, kind: CounterKind, n: u32) -> Cost
    returns
        (Cost { remove_counters: Some(CounterAmount { kind, n }), ..c }),
{
    Cost { remove_counters: Some(CounterAmount { kind, n }), ..c }
}

/// A cost that also asks one mana of either of two colours.
#[verifier::allow_in_spec]
pub fn hybrid(c: Cost, first: ManaColor, second: ManaColor) -> Cost
    returns
        (Cost { hybrid: Some(ColorPair { first, second }), ..c }),
{
    Cost { hybrid: Some(ColorPair { first, second }), ..c }
}

/// A cost that also removes a number of counters of `kind` from the
/// source, announced as the ability is activated.
#[verifier::allow_in_spec]
pub fn removing_any(c: Cost, kind: CounterKind) -> Cost
    returns
        (Cost { remove_any: Some(kind), ..c }),
{
    Cost { remove_any: Some(kind), ..c }
}

/// A cost that also discards a card.
#[verifier::allow_in_spec]
pub fn discarding(c: Cost) -> Cost
    returns
        (Cost { discard: true, ..c }),
{
    Cost { discard: true, ..c }
}

/// A cost that also taps an untapped permanent you control that matches.
#[verifier::allow_in_spec]
pub fn tapping(c: Cost, f: Filter) -> Cost
    returns
        (Cost { tap_other: Some(f), ..c }),
{
    Cost { tap_other: Some(f), ..c }
}

/// A mana ability.
#[verifier::allow_in_spec]
pub fn mana_ability(c: Cost, e: Effect) -> Ability
    returns
        (Ability {
            kind: AbilityKind::Mana,
            cost: c,
            condition: Condition::Always,
            sorcery_speed: false,
            target: TargetSpec::NoTarget,
            effect: e,
            rider: ManaRider::Plain,
        }),
{
    Ability {
        kind: AbilityKind::Mana,
        cost: c,
        condition: Condition::Always,
        sorcery_speed: false,
        target: TargetSpec::NoTarget,
        effect: e,
        rider: ManaRider::Plain,
    }
}

/// `{T}: Add {X}` for `n` mana of colour `x`.
#[verifier::allow_in_spec]
pub fn tap_for(x: ManaColor, n: u32) -> Ability
    returns
        mana_ability(tap(), Effect::AddMana(x, n)),
{
    mana_ability(tap(), Effect::AddMana(x, n))
}

/// `{T}: Add one mana of any colour in the mask`.
#[verifier::allow_in_spec]
pub fn tap_for_one_of(colors: u8) -> Ability
    returns
        mana_ability(tap(), Effect::AddChoice { colors, amount: 1, times: 1, restriction: None }),
{
    mana_ability(tap(), Effect::AddChoice { colors, amount: 1, times: 1, restriction: None })
}

/// An activated ability that uses the stack.
#[verifier::allow_in_spec]
pub fn activated(c: Cost, e: Effect, t: TargetSpec) -> Ability
    returns
        (Ability {
            kind: AbilityKind::Activated,
            cost: c,
            condition: Condition::Always,
            sorcery_speed: false,
            target: t,
            effect: e,
            rider: ManaRider::Plain,
        }),
{
    Ability {
        kind: AbilityKind::Activated,
        cost: c,
        condition: Condition::Always,
        sorcery_speed: false,
        target: t,
        effect: e,
        rider: ManaRider::Plain,
    }
}

/// An ability activated from its owner's hand by discarding the card.
#[verifier::allow_in_spec]
pub fn channel(c: Cost, e: Effect, t: TargetSpec) -> Ability
    returns
        (Ability { kind: AbilityKind::Channel, ..activated(c, e, t) }),
{
    Ability { kind: AbilityKind::Channel, ..activated(c, e, t) }
}

/// A triggered ability.
#[verifier::allow_in_spec]
pub fn triggered(tr: Trigger, e: Effect, t: TargetSpec) -> Ability
    returns
        (Ability {
            kind: AbilityKind::Triggered(tr),
            cost: Cost {
                tap: false,
                mana: ManaCost { generic: 0, white: 0, blue: 0, black: 0, red: 0, green: 0, colorless: 0 },
                life: 0,
                sacrifice_self: false,
                sacrifice: None,
                remove_counters: None,
                tap_other: None,
                hybrid: None,
                remove_any: None,
                discard: false,
            },
            condition: Condition::Always,
            sorcery_speed: false,
            target: t,
            effect: e,
            rider: ManaRider::Plain,
        }),
{
    Ability {
        kind: AbilityKind::Triggered(tr),
        cost: Cost {
            tap: false,
            mana: ManaCost { generic: 0, white: 0, blue: 0, black: 0, red: 0, green: 0, colorless: 0 },
            life: 0,
            sacrifice_self: false,
            sacrifice: None,
            remove_counters: None,
            tap_other: None,
            hybrid: None,
            remove_any: None,
            discard: false,
        },
        condition: Condition::Always,
        sorcery_speed: false,
        target: t,
        effect: e,
        rider: ManaRider::Plain,
    }
}

/// What an instant or sorcery does as it resolves.
#[verifier::allow_in_spec]
pub fn spell_effect(e: Effect, t: TargetSpec) -> Ability
    returns
        (Ability { kind: AbilityKind::Spell, ..triggered(Trigger::EntersBattlefield, e, t) }),
{
    Ability { kind: AbilityKind::Spell, ..triggered(Trigger::EntersBattlefield, e, t) }
}

/// A static ability, which the engine reads from the characteristics
/// it prints.
#[verifier::allow_in_spec]
pub fn static_ability() -> Ability
    returns
        (Ability {
            kind: AbilityKind::Static,
            cost: Cost {
                tap: false,
                mana: ManaCost { generic: 0, white: 0, blue: 0, black: 0, red: 0, green: 0, colorless: 0 },
                life: 0,
                sacrifice_self: false,
                sacrifice: None,
                remove_counters: None,
                tap_other: None,
                hybrid: None,
                remove_any: None,
                discard: false,
            },
            condition: Condition::Always,
            sorcery_speed: false,
            target: TargetSpec::NoTarget,
            effect: Effect::Nothing,
            rider: ManaRider::Plain,
        }),
{
    Ability {
        kind: AbilityKind::Static,
        cost: Cost {
            tap: false,
            mana: ManaCost { generic: 0, white: 0, blue: 0, black: 0, red: 0, green: 0, colorless: 0 },
            life: 0,
            sacrifice_self: false,
            sacrifice: None,
            remove_counters: None,
            tap_other: None,
            hybrid: None,
            remove_any: None,
            discard: false,
        },
        condition: Condition::Always,
        sorcery_speed: false,
        target: TargetSpec::NoTarget,
        effect: Effect::Nothing,
        rider: ManaRider::Plain,
    }
}

/// The ability, activated only as a sorcery.
#[verifier::allow_in_spec]
pub fn sorcery(a: Ability) -> Ability
    returns
        (Ability { sorcery_speed: true, ..a }),
{
    Ability { sorcery_speed: true, ..a }
}

/// The ability, activated only while `c` holds.
#[verifier::allow_in_spec]
pub fn only_if(a: Ability, c: Condition) -> Ability
    returns
        (Ability { condition: c, ..a }),
{
    Ability { condition: c, ..a }
}

/// The mana ability with a rider.
#[verifier::allow_in_spec]
pub fn with_rider(a: Ability, r: ManaRider) -> Ability
    returns
        (Ability { rider: r, ..a }),
{
    Ability { rider: r, ..a }
}

/// A filter on card types (a mask of them).
#[verifier::allow_in_spec]
pub fn of_types(types: u32) -> Filter
    returns
        (Filter {
            types,
            subtypes: 0,
            colors: 0,
            basic: false,
            nonbasic: false,
            legendary: false,
            colorless: false,
            nonhuman: false,
            excluded: 0,
        }),
{
    Filter {
        types,
        subtypes: 0,
        colors: 0,
        basic: false,
        nonbasic: false,
        legendary: false,
        colorless: false,
        nonhuman: false,
        excluded: 0,
    }
}

/// A filter on subtypes (a mask of them).
#[verifier::allow_in_spec]
pub fn of_subtypes(subtypes: u64) -> Filter
    returns
        (Filter {
            types: 0,
            subtypes,
            colors: 0,
            basic: false,
            nonbasic: false,
            legendary: false,
            colorless: false,
            nonhuman: false,
            excluded: 0,
        }),
{
    Filter {
        types: 0,
        subtypes,
        colors: 0,
        basic: false,
        nonbasic: false,
        legendary: false,
        colorless: false,
        nonhuman: false,
        excluded: 0,
    }
}

/// A filter on card types and colours.
#[verifier::allow_in_spec]
pub fn of_types_colored(types: u32, colors: u8) -> Filter
    returns
        (Filter {
            types,
            subtypes: 0,
            colors,
            basic: false,
            nonbasic: false,
            legendary: false,
            colorless: false,
            nonhuman: false,
            excluded: 0,
        }),
{
    Filter {
        types,
        subtypes: 0,
        colors,
        basic: false,
        nonbasic: false,
        legendary: false,
        colorless: false,
        nonhuman: false,
        excluded: 0,
    }
}

/// A filter with its flags: basic, nonbasic, legendary, colourless and
/// non-Human, over card types.
#[verifier::allow_in_spec]
pub fn flagged(types: u32, basic: bool, nonbasic: bool, legendary: bool, colorless: bool, nonhuman: bool) -> Filter
    returns
        (Filter { types, subtypes: 0, colors: 0, basic, nonbasic, legendary, colorless, nonhuman, excluded: 0 }),
{
    Filter { types, subtypes: 0, colors: 0, basic, nonbasic, legendary, colorless, nonhuman, excluded: 0 }
}

/// Printed characteristics.
#[verifier::allow_in_spec]
pub fn chars(types: u32, subtypes: u64, colors: u8, basic: bool, legendary: bool, power: i32, toughness: i32, keywords: u32) -> Characteristics
    returns
        (Characteristics {
            types: Types(types),
            subtypes: Subtypes(subtypes),
            colors: Colors(colors),
            basic,
            legendary,
            power,
            toughness,
            keywords: Keywords(keywords),
        }),
{
    Characteristics {
        types: Types(types),
        subtypes: Subtypes(subtypes),
        colors: Colors(colors),
        basic,
        legendary,
        power,
        toughness,
        keywords: Keywords(keywords),
    }
}

/// How a card enters: its rule, counters, choice and back face.
#[verifier::allow_in_spec]
pub fn entry(rule: EntryRule, counters: Option<CounterAmount>, choice: EntryChoice, back: Option<CardIndex>) -> Entry
    returns
        (Entry { rule, counters, choice, back }),
{
    Entry { rule, counters, choice, back }
}

/// A search of its controller's library for `count` cards that match `f`,
/// put where `dest` says, tapped when `tapped`.
#[verifier::allow_in_spec]
pub fn search(f: Filter, count: u32, dest: SearchDest, tapped: bool) -> Search
    returns
        (Search { filter: f, count, dest, tapped }),
{
    Search { filter: f, count, dest, tapped }
}

/// An animation: power, toughness, types and keywords gained, and whether
/// it ends with the turn.
#[verifier::allow_in_spec]
pub fn animation(power: i32, toughness: i32, types: u32, keywords: u32, until_end_of_turn: bool) -> Animation
    returns
        (Animation { power, toughness, types, keywords, until_end_of_turn }),
{
    Animation { power, toughness, types, keywords, until_end_of_turn }
}

} // verus!
