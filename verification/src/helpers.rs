//! Walks and questions that a game of lands asks again and again: where a
//! land arrives tapped, whether an ability is on offer, and the walks to the
//! next main phase or the next question.

use vstd::prelude::*;
use crate::catalog::{forest, island, mountain, plains, swamp};
use crate::cards::{Ability, AbilityKind, Cost, Effect, Find, Search};
use crate::engine::{ChoicePrompt, Engine, Pending, PlayerAction};
use crate::choices::spec_counters_spent;
use crate::ids::{CardIndex, ObjectId, Phase, PlayerId};
use crate::mana::ManaColor;
use crate::state::ZoneLocation;
use crate::testkit::{all_on_battlefield, answer_until, append_cards, is_tapped, keep_mulligans, on_battlefield, pass_until, play_land, reach_main_phase, tap_all_mana_but, Duel};

verus! {

/// Whether the land `card` arrives tapped when the starting player plays it
/// from hand on the board `build` lays out. A land that cannot be played
/// there answers `false`.
pub fn arrives_tapped<F: FnOnce() -> Duel>(build: F, card: CardIndex) -> (b: bool)
    requires
        build.requires(()),
{
    let p0 = PlayerId(0);
    let mut cards: Vec<CardIndex> = Vec::new();
    cards.push(card);
    let mut engine = build().hand(0, cards.as_slice()).start();
    if keep_mulligans(&mut engine).is_err() {
        return false;
    }
    if !reach_main_phase(&mut engine, p0) {
        return false;
    }
    match play_land(&mut engine, p0, card) {
        Ok(land) => is_tapped(&engine, land),
        Err(_) => false,
    }
}

/// Whether the engine, waiting for a player to act with priority, offers
/// printed ability `index` of a permanent of `card`.
pub fn offered(engine: &Engine, card: CardIndex, index: u32) -> (b: bool)
    ensures
        b == (engine.pending matches Pending::Priority { legal, .. } && exists|k: int|
            0 <= k < legal.abilities@.len() && #[trigger] is_offer_of(
                engine.state,
                legal.abilities@[k],
                card,
                index,
            )),
{
    match &engine.pending {
        Pending::Priority { legal, .. } => {
            let mut i: usize = 0;
            while i < legal.abilities.len()
                invariant
                    i <= legal.abilities@.len(),
                    engine.pending is Priority,
                    engine.pending->legal == *legal,
                    forall|k: int|
                        0 <= k < i ==> !#[trigger] is_offer_of(engine.state, legal.abilities@[k], card, index),
                decreases legal.abilities@.len() - i,
            {
                let (id, ai) = legal.abilities[i];
                if ai == index && engine.state.contains(id) && engine.state.get(id).card.0 == card.0 {
                    assert(engine.state.obj(id).card == card);
                    assert(is_offer_of(engine.state, legal.abilities@[i as int], card, index));
                    return true;
                }
                i = i + 1;
            }
            false
        },
        _ => false,
    }
}

/// Whether the offer `x` is of printed ability `index` of an object of
/// `card`.
pub open spec fn is_offer_of(s: crate::state::GameState, x: (ObjectId, u32), card: CardIndex, index: u32) -> bool {
    &&& x.1 == index
    &&& s.has(x.0)
    &&& s.obj(x.0).card == card
}

/// Whether two byte strings are the same.
pub fn same_bytes(a: &[u8], b: &[u8]) -> (r: bool)
    ensures
        r == (a@ == b@),
{
    if a.len() != b.len() {
        return false;
    }
    let mut i: usize = 0;
    while i < a.len()
        invariant
            a@.len() == b@.len(),
            i <= a@.len(),
            forall|j: int| 0 <= j < i ==> a@[j] == b@[j],
        decreases a@.len() - i,
    {
        if a[i] != b[i] {
            return false;
        }
        i = i + 1;
    }
    assert(a@ == b@);
    true
}

/// The basic land a name names: "Plains", "Island", "Swamp", "Mountain" or
/// "Forest"; any other name names none.
pub fn basic(name: &str) -> (r: Option<CardIndex>)
    ensures
        name@ == "Plains"@ ==> r == Some(plains()),
        name@ == "Island"@ ==> r == Some(island()),
        name@ == "Swamp"@ ==> r == Some(swamp()),
        name@ == "Mountain"@ ==> r == Some(mountain()),
        name@ == "Forest"@ ==> r == Some(forest()),
        r.is_none() <==> name@ != "Plains"@ && name@ != "Island"@ && name@ != "Swamp"@ && name@
            != "Mountain"@ && name@ != "Forest"@,
{
    proof {
        reveal_strlit("Plains");
        reveal_strlit("Island");
        reveal_strlit("Swamp");
        reveal_strlit("Mountain");
        reveal_strlit("Forest");
        vstd::utf8::encode_utf8_decode_utf8(name@);
        vstd::utf8::encode_utf8_decode_utf8("Plains"@);
        vstd::utf8::encode_utf8_decode_utf8("Island"@);
        vstd::utf8::encode_utf8_decode_utf8("Swamp"@);
        vstd::utf8::encode_utf8_decode_utf8("Mountain"@);
        vstd::utf8::encode_utf8_decode_utf8("Forest"@);
    }
    let n = name.as_bytes();
    if same_bytes(n, "Plains".as_bytes()) {
        Some(plains())
    } else if same_bytes(n, "Island".as_bytes()) {
        Some(island())
    } else if same_bytes(n, "Swamp".as_bytes()) {
        Some(swamp())
    } else if same_bytes(n, "Mountain".as_bytes()) {
        Some(mountain())
    } else if same_bytes(n, "Forest".as_bytes()) {
        Some(forest())
    } else {
        None
    }
}

/// The basic land that taps for `color`; no basic taps for colorless.
pub fn basic_of(color: ManaColor) -> (r: Option<CardIndex>)
    ensures
        color == ManaColor::White ==> r == Some(plains()),
        color == ManaColor::Blue ==> r == Some(island()),
        color == ManaColor::Black ==> r == Some(swamp()),
        color == ManaColor::Red ==> r == Some(mountain()),
        color == ManaColor::Green ==> r == Some(forest()),
        color == ManaColor::Colorless ==> r.is_none(),
{
    match color {
        ManaColor::White => Some(plains()),
        ManaColor::Blue => Some(island()),
        ManaColor::Black => Some(swamp()),
        ManaColor::Red => Some(mountain()),
        ManaColor::Green => Some(forest()),
        ManaColor::Colorless => None,
    }
}

/// Whether the game stands in `seat`'s first main phase with priority to
/// `seat`.
pub open spec fn spec_in_main_of(engine: Engine, seat: PlayerId) -> bool {
    &&& engine.state.turn.phase == Phase::FirstMain
    &&& engine.state.turn.active.0 == seat.0
    &&& engine.waits_for_priority_of(seat)
}

/// Whether the game stands in `seat`'s first main phase with priority to
/// `seat`.
pub fn in_main_with_priority(engine: &Engine, seat: PlayerId) -> (b: bool)
    ensures
        b == (engine.state.turn.phase == Phase::FirstMain && engine.state.turn.active.0 == seat.0
            && engine.waits_for_priority_of(seat)),
{
    engine.state.turn.phase == Phase::FirstMain && engine.state.turn.active.0 == seat.0
        && engine.waits_for_priority_of_exec(seat)
}

/// Walks to `seat`'s next first main phase, in a later turn than the one
/// the game stands in, answering whatever is asked on the way.
pub fn cross_into_the_next_own_main(engine: &mut Engine, seat: PlayerId) -> (reached: bool)
    requires
        old(engine).wf(),
    ensures
        final(engine).wf(),
        reached ==> final(engine).state.turn.number > old(engine).state.turn.number,
        reached ==> final(engine).state.turn.phase == Phase::FirstMain && final(engine).state.turn.active.0
            == seat.0 && final(engine).waits_for_priority_of(seat),
{
    let from = engine.state.turn.number;
    answer_until(engine, |e: &Engine| -> (b: bool)
        ensures
            b == (e.state.turn.number > from && spec_in_main_of(*e, seat)),
        { e.state.turn.number > from && in_main_with_priority(e, seat) })
}

/// Walks to `seat`'s first main phase of the turn the game stands in,
/// answering whatever is asked on the way.
pub fn on_to_this_turn_s_main(engine: &mut Engine, seat: PlayerId) -> (reached: bool)
    requires
        old(engine).wf(),
    ensures
        final(engine).wf(),
        reached ==> final(engine).state.turn.phase == Phase::FirstMain && final(engine).state.turn.active.0
            == seat.0 && final(engine).waits_for_priority_of(seat),
        spec_in_main_of(*old(engine), seat) ==> reached && *final(engine) == *old(engine),
{
    answer_until(engine, |e: &Engine| -> (b: bool)
        ensures
            b == spec_in_main_of(*e, seat),
        { in_main_with_priority(e, seat) })
}

/// Whether the engine asks for cards to surveil into the graveyard.
pub fn asks_surveil(engine: &Engine) -> (b: bool)
    ensures
        b == (engine.pending matches Pending::ChooseCards { prompt, .. } && prompt
            == ChoicePrompt::SurveilGraveyard),
{
    match &engine.pending {
        Pending::ChooseCards { prompt, .. } => *prompt == ChoicePrompt::SurveilGraveyard,
        _ => false,
    }
}

/// Passes priority until a surveil asks its question, and answers the
/// cards looked at and how few and how many may go to the graveyard. The
/// question must be `seat`'s: `None` says the walk never reached a surveil
/// question of `seat`.
pub fn surveil_offer(engine: &mut Engine, seat: PlayerId) -> (r: Option<(Vec<ObjectId>, u8, u8)>)
    requires
        old(engine).wf(),
    ensures
        final(engine).wf(),
        r matches Some(q) ==> (final(engine).pending matches Pending::ChooseCards {
            player,
            options,
            min,
            max,
            prompt,
        } && player == seat && prompt == ChoicePrompt::SurveilGraveyard && q.0@ == options@ && q.1 == min
            && q.2 == max),
        r.is_none() ==> !(final(engine).pending matches Pending::ChooseCards { player, prompt, .. } && player
            == seat && prompt == ChoicePrompt::SurveilGraveyard),
        (old(engine).pending matches Pending::ChooseCards { prompt, .. } && prompt == ChoicePrompt::SurveilGraveyard)
            ==> *final(engine) == *old(engine),
        (old(engine).pending matches Pending::ChooseCards { player, prompt, .. } && player == seat && prompt
            == ChoicePrompt::SurveilGraveyard) ==> r.is_some(),
{
    let _ = pass_until(engine, |e: &Engine| -> (b: bool)
        ensures
            b == (e.pending matches Pending::ChooseCards { prompt, .. } && prompt == ChoicePrompt::SurveilGraveyard),
        { asks_surveil(e) });
    match &engine.pending {
        Pending::ChooseCards { player, options, min, max, prompt } => {
            if *prompt == ChoicePrompt::SurveilGraveyard && player.0 == seat.0 {
                Some((crate::vecs::copy_ids(options), *min, *max))
            } else {
                None
            }
        },
        _ => None,
    }
}

/// Why a walk to a question stopped short of it.
#[derive(Clone, Copy, Debug, PartialEq, Eq)]
pub enum Astray {
    /// The engine waited for something other than a pass of priority.
    UnexpectedWait,
    /// The walk passed as often as it may without getting there.
    OutOfPasses,
}

/// Passes priority until the enters-trigger of `land` asks its question,
/// and answers what it asked. `Ok(None)` says the trigger found nothing to
/// ask and the land has left the battlefield; a walk that meets any other
/// wait while the land is still there, or passes eight times without getting
/// there, went astray.
pub fn reach_the_unless_question(engine: &mut Engine, land: ObjectId) -> (r: Result<
    Option<(Vec<ObjectId>, ChoicePrompt)>,
    Astray,
>)
    requires
        old(engine).wf(),
    ensures
        final(engine).wf(),
        r matches Ok(Some(q)) ==> (final(engine).pending matches Pending::ChooseCards { options, prompt, .. }
            && q.0@ == options@ && q.1 == prompt),
        r matches Ok(None) ==> !final(engine).state.zones.battlefield@.contains(land),
        r is Err ==> final(engine).state.zones.battlefield@.contains(land) && !(final(engine).pending is ChooseCards),
        r matches Err(Astray::UnexpectedWait) ==> !(final(engine).pending is Priority),
        r matches Err(Astray::OutOfPasses) ==> final(engine).pending is Priority,
        old(engine).pending is ChooseCards ==> *final(engine) == *old(engine) && (r matches Ok(Some(q))
            && q.0@ == old(engine).pending->ChooseCards_options@ && q.1 == old(engine).pending->ChooseCards_prompt),
{
    let mut k: u32 = 0;
    loop
        invariant
            engine.wf(),
            k <= 8,
            k == 0 ==> *engine == *old(engine),
            old(engine).pending is ChooseCards ==> k == 0,
        decreases 8 - k,
    {
        match &engine.pending {
            Pending::ChooseCards { options, prompt, .. } => {
                return Ok(Some((crate::vecs::copy_ids(options), *prompt)));
            },
            _ => {},
        }
        if !crate::vecs::has_id(engine.state.zones.list(ZoneLocation::Battlefield), land) {
            return Ok(None);
        }
        let player = match &engine.pending {
            Pending::Priority { player, .. } => *player,
            _ => {
                return Err(Astray::UnexpectedWait);
            },
        };
        if k == 8 {
            return Err(Astray::OutOfPasses);
        }
        let passed = engine.apply(player, PlayerAction::PassPriority);
        proof {
            assert(passed.is_ok());
        }
        k = k + 1;
    }
}

/// Plays a filter land, which asks a hybrid mana of its two colours for two
/// mana of them: with two copies of `gate_card` and one `basic_card`
/// seated, the colourless mana the second copy makes must not pay the
/// first copy's price, and the basic's mana must; then each of the two
/// picks offers exactly `colors`, in order, and the pool ends holding one
/// of each and the unspent colourless. Answers whether all of that held.
pub fn one_filter_land(gate_card: CardIndex, basic_card: CardIndex, colors: [ManaColor; 2]) -> (ok: bool) {
    let p0 = PlayerId(0);
    let mut seated: Vec<CardIndex> = Vec::new();
    seated.push(gate_card);
    seated.push(gate_card);
    seated.push(basic_card);
    let mut engine = Duel::new(919, forest()).battlefield(0, seated.as_slice()).start();
    if keep_mulligans(&mut engine).is_err() || !reach_main_phase(&mut engine, p0) {
        return false;
    }
    let gates = all_on_battlefield(&engine, p0, gate_card);
    if gates.len() != 2 {
        return false;
    }
    let gate = gates[0];
    let other = gates[1];
    let basic = match on_battlefield(&engine, p0, basic_card) {
        Some(id) => id,
        None => {
            return false;
        },
    };
    if engine.apply(p0, PlayerAction::ActivateAbility { source: other, ability_index: 0 }).is_err() {
        return false;
    }
    if engine.state.players[0].mana_pool.available(ManaColor::Colorless) != 1 {
        return false;
    }
    if engine.apply(p0, PlayerAction::ActivateAbility { source: gate, ability_index: 1 }).is_ok() {
        return false;
    }
    if engine.apply(p0, PlayerAction::ActivateAbility { source: basic, ability_index: 0 }).is_err() {
        return false;
    }
    if engine.apply(p0, PlayerAction::ActivateAbility { source: gate, ability_index: 1 }).is_err() {
        return false;
    }
    let mut i: usize = 0;
    while i < 2
        invariant
            engine.wf(),
        decreases 2 - i,
    {
        let offered_both = match &engine.pending {
            Pending::ChooseColor { options, .. } => options.len() == 2 && options[0] == colors[0]
                && options[1] == colors[1],
            _ => false,
        };
        if !offered_both {
            return false;
        }
        if engine.apply(p0, PlayerAction::ChooseColor(colors[i])).is_err() {
            return false;
        }
        i = i + 1;
    }
    let pool = &engine.state.players[0].mana_pool;
    pool.available(colors[0]) == 1 && pool.available(colors[1]) == 1 && pool.available(
        ManaColor::Colorless,
    ) == 1
}

/// Plays a land that makes one mana of `color` for each thing its filter
/// counts: `mine`, the land and `generic` Forests are seated on the starting
/// player's side and `theirs` on the other; the Forests pay the price, and
/// ability `ability_index` of the land is activated. Answers whether it
/// made exactly `want` mana of `color`.
pub fn one_counted_land(
    seed: u64,
    land_card: CardIndex,
    color: ManaColor,
    mine: &[CardIndex],
    theirs: &[CardIndex],
    generic: usize,
    ability_index: u32,
    want: u32,
) -> (ok: bool) {
    let p0 = PlayerId(0);
    let mut seated: Vec<CardIndex> = Vec::new();
    append_cards(&mut seated, mine);
    seated.push(land_card);
    let mut k: usize = 0;
    while k < generic
        decreases generic - k,
    {
        seated.push(forest());
        k = k + 1;
    }
    let mut engine = Duel::new(seed, forest()).battlefield(0, seated.as_slice()).battlefield(1, theirs).start();
    if keep_mulligans(&mut engine).is_err() || !reach_main_phase(&mut engine, p0) {
        return false;
    }
    let land = match on_battlefield(&engine, p0, land_card) {
        Some(id) => id,
        None => {
            return false;
        },
    };
    let forests = all_on_battlefield(&engine, p0, forest());
    let mut j: usize = 0;
    while j < forests.len() && j < generic
        invariant
            engine.wf(),
        decreases forests@.len() - j,
    {
        if engine.apply(p0, PlayerAction::ActivateAbility { source: forests[j], ability_index: 0 }).is_err() {
            return false;
        }
        j = j + 1;
    }
    let before = engine.state.players[0].mana_pool.available(color);
    if engine.apply(p0, PlayerAction::ActivateAbility { source: land, ability_index }).is_err() {
        return false;
    }
    let after = engine.state.players[0].mana_pool.available(color);
    after >= before && after - before == want
}

/// The cards a search finds, one entry for each.
pub fn finds_of(search: &Search) -> (v: Vec<Find>)
    ensures
        v@.len() == search.count,
        forall|i: int| 0 <= i < v@.len() ==> #[trigger] v@[i] == (Find { dest: search.dest, tapped: search.tapped }),
{
    let mut v: Vec<Find> = Vec::new();
    let mut i: u32 = 0;
    while i < search.count
        invariant
            i <= search.count,
            v@.len() == i,
            forall|k: int| 0 <= k < v@.len() ==> #[trigger] v@[k] == (Find { dest: search.dest, tapped: search.tapped }),
        decreases search.count - i,
    {
        v.push(Find { dest: search.dest, tapped: search.tapped });
        i = i + 1;
    }
    v
}

/// The search an activated ability makes, if it is an activated ability
/// that searches a library.
pub open spec fn search_of(a: Option<Ability>) -> Option<Search> {
    match a {
        Some(x) => if x.kind == AbilityKind::Activated {
            match x.effect {
                Effect::SearchLibrary(search) => Some(search),
                _ => None,
            }
        } else {
            None
        },
        None => None,
    }
}

/// Whether the offer `x` is of an activated ability of an object of `card`
/// that searches a library.
pub open spec fn offers_a_search(s: crate::state::GameState, x: (ObjectId, u32), card: CardIndex) -> bool {
    &&& is_offer_of(s, x, card, x.1)
    &&& search_of(crate::catalog::spec_ability(s.obj(x.0).card, x.1)).is_some()
}

/// Among the abilities a player holding priority may activate, the first,
/// in the order they are offered, of a permanent of `card` that searches a
/// library: the permanent, the index of the ability, and what the search
/// finds, one entry for each card; nothing when the engine waits for
/// something else or no offer is of that kind.
pub fn ability_that_searches(engine: &Engine, card: CardIndex) -> (r: Option<(ObjectId, u32, Vec<Find>)>)
    ensures
        r.is_none() <==> !(engine.pending matches Pending::Priority { legal, .. } && exists|k: int|
            0 <= k < legal.abilities@.len() && #[trigger] offers_a_search(engine.state, legal.abilities@[k], card)),
        r matches Some(t) ==> (engine.pending matches Pending::Priority { legal, .. } && exists|k: int|
            0 <= k < legal.abilities@.len() && legal.abilities@[k] == (t.0, t.1) && offers_a_search(
                engine.state,
                legal.abilities@[k],
                card,
            ) && forall|j: int| 0 <= j < k ==> !#[trigger] offers_a_search(engine.state, legal.abilities@[j], card)),
        r matches Some(t) ==> ({
            let search = search_of(crate::catalog::spec_ability(engine.state.obj(t.0).card, t.1)).unwrap();
            &&& t.2@.len() == search.count
            &&& forall|i: int| 0 <= i < t.2@.len() ==> #[trigger] t.2@[i] == (Find { dest: search.dest, tapped: search.tapped })
        }),
{
    match &engine.pending {
        Pending::Priority { legal, .. } => {
            let mut i: usize = 0;
            while i < legal.abilities.len()
                invariant
                    i <= legal.abilities@.len(),
                    engine.pending is Priority,
                    engine.pending->legal == *legal,
                    forall|j: int| 0 <= j < i ==> !#[trigger] offers_a_search(engine.state, legal.abilities@[j], card),
                decreases legal.abilities@.len() - i,
            {
                let (id, index) = legal.abilities[i];
                if engine.state.contains(id) {
                    let o = engine.state.get(id);
                    if o.card.0 == card.0 {
                        match crate::catalog::ability_at(o.card, index) {
                            Some(a) => {
                                if a.kind == AbilityKind::Activated {
                                    match a.effect {
                                        Effect::SearchLibrary(search) => {
                                            assert(legal.abilities@[i as int] == (id, index));
                                            assert(o.card == card);
                                            assert(offers_a_search(engine.state, legal.abilities@[i as int], card));
                                            return Some((id, index, finds_of(&search)));
                                        },
                                        _ => {},
                                    }
                                }
                            },
                            None => {},
                        }
                    }
                }
                assert(!offers_a_search(engine.state, legal.abilities@[i as int], card)) by {
                    assert(legal.abilities@[i as int] == (id, index));
                }
                i = i + 1;
            }
            None
        },
        _ => None,
    }
}

/// Passes priority until a search of a library asks which cards it finds,
/// and answers the cards offered and how few and how many must be named.
/// A search that finds nothing asks nothing (CR 701.23b): `Ok(None)` says
/// the stack emptied without the question. A walk that meets any other
/// wait with the stack not empty, or passes eight times without either,
/// went astray.
pub fn reach_the_search(engine: &mut Engine) -> (r: Result<Option<(Vec<ObjectId>, u8, u8)>, Astray>)
    requires
        old(engine).wf(),
    ensures
        final(engine).wf(),
        r matches Ok(Some(q)) ==> (final(engine).pending matches Pending::ChooseCards {
            options,
            min,
            max,
            prompt,
            ..
        } && prompt == ChoicePrompt::SearchLibrary && q.0@ == options@ && q.1 == min && q.2 == max),
        r matches Ok(None) ==> final(engine).stack@.len() == 0 && !(final(engine).pending matches Pending::ChooseCards {
            prompt,
            ..
        } && prompt == ChoicePrompt::SearchLibrary),
        r is Err ==> final(engine).stack@.len() > 0 && !(final(engine).pending matches Pending::ChooseCards {
            prompt,
            ..
        } && prompt == ChoicePrompt::SearchLibrary),
        r matches Err(Astray::UnexpectedWait) ==> !(final(engine).pending is Priority),
        r matches Err(Astray::OutOfPasses) ==> final(engine).pending is Priority,
        (old(engine).pending matches Pending::ChooseCards { prompt, .. } && prompt == ChoicePrompt::SearchLibrary)
            ==> *final(engine) == *old(engine) && (r matches Ok(Some(_))),
        !(old(engine).pending matches Pending::ChooseCards { prompt, .. } && prompt == ChoicePrompt::SearchLibrary)
            && old(engine).stack@.len() == 0 ==> *final(engine) == *old(engine) && (r matches Ok(None)),
{
    let mut k: u32 = 0;
    loop
        invariant
            engine.wf(),
            k <= 8,
            k == 0 ==> *engine == *old(engine),
            (old(engine).pending matches Pending::ChooseCards { prompt, .. } && prompt == ChoicePrompt::SearchLibrary)
                ==> k == 0,
            old(engine).stack@.len() == 0 ==> k == 0,
        decreases 8 - k,
    {
        match &engine.pending {
            Pending::ChooseCards { options, min, max, prompt, .. } => {
                if *prompt == ChoicePrompt::SearchLibrary {
                    return Ok(Some((crate::vecs::copy_ids(options), *min, *max)));
                }
            },
            _ => {},
        }
        if engine.stack.len() == 0 {
            return Ok(None);
        }
        let player = match &engine.pending {
            Pending::Priority { player, .. } => *player,
            _ => {
                return Err(Astray::UnexpectedWait);
            },
        };
        if k == 8 {
            return Err(Astray::OutOfPasses);
        }
        let passed = engine.apply(player, PlayerAction::PassPriority);
        proof {
            assert(passed.is_ok());
        }
        k = k + 1;
    }
}

/// Whether `finds` is what `search` finds, one entry for each card.
pub open spec fn finds_are(finds: Seq<Find>, search: Search) -> bool {
    &&& finds.len() == search.count
    &&& forall|i: int| 0 <= i < finds.len() ==> #[trigger] finds[i] == (Find { dest: search.dest, tapped: search.tapped })
}

/// Plays `card`, a land that searches, over a board of two of each basic
/// with a library of `library`; crosses into the next turn, pays for the
/// search with everything but the land, and activates it. Answers the game,
/// the land, and what the search finds, or nothing when the land could not
/// be played, its search was not offered on it, or the land was not gone
/// once it was paid for.
pub fn a_land_that_searches(seed: u64, card: CardIndex, library: CardIndex) -> (r: Option<(Engine, ObjectId, Vec<Find>)>)
    ensures
        r matches Some(t) ==> t.0.wf() && !t.0.state.zones.battlefield@.contains(t.1),
        r matches Some(t) ==> exists|i: u32|
            #[trigger] search_of(crate::catalog::spec_ability(card, i)) matches Some(search) && finds_are(t.2@, search),
{
    let p0 = PlayerId(0);
    let mut seated: Vec<CardIndex> = Vec::new();
    seated.push(plains());
    seated.push(plains());
    seated.push(island());
    seated.push(island());
    seated.push(swamp());
    seated.push(swamp());
    seated.push(mountain());
    seated.push(mountain());
    seated.push(forest());
    seated.push(forest());
    let mut hand: Vec<CardIndex> = Vec::new();
    hand.push(card);
    let mut engine = Duel::new(seed, library).battlefield(0, seated.as_slice()).hand(0, hand.as_slice()).start();
    if keep_mulligans(&mut engine).is_err() || !reach_main_phase(&mut engine, p0) {
        return None;
    }
    let land = match play_land(&mut engine, p0, card) {
        Ok(id) => id,
        Err(_) => {
            return None;
        },
    };
    if !cross_into_the_next_own_main(&mut engine, p0) {
        return None;
    }
    let _ = tap_all_mana_but(&mut engine, p0, Some(card));
    let (source, index, finds) = match ability_that_searches(&engine, card) {
        Some(t) => t,
        None => {
            return None;
        },
    };
    if source.0 != land.0 {
        return None;
    }
    assert(search_of(crate::catalog::spec_ability(card, index)) is Some);
    if engine.apply(p0, PlayerAction::ActivateAbility { source, ability_index: index }).is_err() {
        return None;
    }
    if crate::vecs::has_id(engine.state.zones.list(ZoneLocation::Battlefield), land) {
        return None;
    }
    Some((engine, land, finds))
}

/// Activates ability `index` of `land`, the line of a storage land that
/// banks a counter, and lets it resolve. Answers whether the activation was
/// taken, came straight back to priority (banking announces no number) and
/// resolved.
pub fn store_a_counter(engine: &mut Engine, seat: PlayerId, land: ObjectId, index: u32) -> (ok: bool)
    requires
        old(engine).wf(),
    ensures
        final(engine).wf(),
        ok ==> final(engine).spec_stack_is_empty(),
{
    if engine.apply(seat, PlayerAction::ActivateAbility { source: land, ability_index: index }).is_err() {
        return false;
    }
    let at_priority = match &engine.pending {
        Pending::Priority { .. } => true,
        _ => false,
    };
    at_priority && pass_until(engine, Engine::stack_is_empty)
}

/// Whether `seat`, holding priority with no work in hand, may activate
/// ability `index` of `land`, a permanent, and that ability removes any
/// number of counters as its cost.
pub open spec fn spends_counters(e: Engine, seat: PlayerId, land: ObjectId, index: u32) -> bool {
    &&& e.waits_for_priority_of(seat)
    &&& e.jobs@.len() == 0
    &&& e.spec_activation(seat, land, index) matches Some(a)
    &&& a.cost.remove_any is Some
    &&& e.state.obj(land).zone == crate::state::Zone::Battlefield
}

/// Whether spending the counters of `land` is plain: nothing waits and no
/// creature is about to die, the counters are of a kind that does not
/// change a creature's size, and the cost asks no sacrifice, no fixed
/// number of counters, and the ability no choice of colour per counter.
pub open spec fn spends_plainly(e: Engine, seat: PlayerId, land: ObjectId, index: u32) -> bool {
    let a = e.spec_activation(seat, land, index).unwrap();
    &&& e.spec_quiet_but_jobs()
    &&& a.cost.remove_any != Some(crate::sets::CounterKind::P1P1)
    &&& a.cost.remove_any != Some(crate::sets::CounterKind::M1M1)
    &&& !a.cost.sacrifice_self
    &&& a.cost.remove_counters.is_none()
    &&& !(a.effect is AddEitherPerCounterRemoved)
}

/// Whether `land` stands in `after` with `x` fewer counters of the kind
/// its ability spends than in `before`, its other counters as they were,
/// tapped where the cost taps it.
pub open spec fn spent_from(before: Engine, after: Engine, seat: PlayerId, land: ObjectId, index: u32, x: u32) -> bool {
    let a = before.spec_activation(seat, land, index).unwrap();
    let kind = a.cost.remove_any.unwrap();
    let was = before.state.obj(land);
    let now = after.state.obj(land);
    &&& now.counters.spec_count(kind) == was.counters.spec_count(kind) - x
    &&& forall|k: crate::sets::CounterKind| k != kind ==> #[trigger] now.counters.spec_count(k) == was.counters.spec_count(k)
    &&& now.tapped == (was.tapped || a.cost.tap)
}

/// The counters of the kind that ability spends on `land`.
pub open spec fn counters_to_spend(e: Engine, seat: PlayerId, land: ObjectId, index: u32) -> u32 {
    e.state.obj(land).counters.spec_count(e.spec_activation(seat, land, index).unwrap().cost.remove_any.unwrap())
}

/// Activates ability `index` of `land`, the line of a storage land that
/// spends its counters, and announces `x` of them. Answers the bounds the
/// engine offered for the number, or nothing when the activation was
/// refused, no number was asked of `seat`, or `x` was refused.
pub fn spend_storage(engine: &mut Engine, seat: PlayerId, land: ObjectId, index: u32, x: u32) -> (r: Option<(u32, u32)>)
    requires
        old(engine).wf(),
    ensures
        final(engine).wf(),
        r.is_some() ==> r.unwrap().0 <= x <= r.unwrap().1,
        spends_counters(*old(engine), seat, land, index) && spends_plainly(*old(engine), seat, land, index) && x
            <= counters_to_spend(*old(engine), seat, land, index) ==> spent_from(
            *old(engine),
            *final(engine),
            seat,
            land,
            index,
            x,
        ),
        spends_counters(*old(engine), seat, land, index) ==> r == (if x <= counters_to_spend(
            *old(engine),
            seat,
            land,
            index,
        ) {
            Some((0u32, counters_to_spend(*old(engine), seat, land, index)))
        } else {
            None
        }),
{
    if engine.apply(seat, PlayerAction::ActivateAbility { source: land, ability_index: index }).is_err() {
        return None;
    }
    let bounds = match &engine.pending {
        Pending::ChooseNumber { player, min, max } => {
            if player.0 != seat.0 {
                return None;
            }
            (*min, *max)
        },
        _ => {
            return None;
        },
    };
    let ghost asked = *engine;
    proof {
        if spends_counters(*old(engine), seat, land, index) && spends_plainly(*old(engine), seat, land, index) && x
            <= counters_to_spend(*old(engine), seat, land, index) {
            assert(asked.spec_plain_spend(x));
        }
    }
    if engine.apply(seat, PlayerAction::ChooseNumber(x)).is_err() {
        return None;
    }
    proof {
        if spends_counters(*old(engine), seat, land, index) && spends_plainly(*old(engine), seat, land, index) && x
            <= counters_to_spend(*old(engine), seat, land, index) {
            assert(spec_counters_spent(asked, *engine, x));
            assert(asked.state == old(engine).state);
        }
    }
    Some(bounds)
}

/// Walks, answering whatever is asked, until an untap step asks which
/// permanents stay tapped, and answers who is asked and about what; the
/// question itself is left unanswered.
pub fn walk_to_the_untap_question(engine: &mut Engine) -> (r: Option<(PlayerId, Vec<ObjectId>)>)
    requires
        old(engine).wf(),
    ensures
        final(engine).wf(),
        r.is_some() ==> (final(engine).pending matches Pending::ChooseCards { player, options, prompt, .. }
            && prompt == ChoicePrompt::LeaveTapped && r.unwrap().0 == player && r.unwrap().1@ == options@),
        r.is_none() ==> !(final(engine).pending matches Pending::ChooseCards { prompt, .. } && prompt
            == ChoicePrompt::LeaveTapped),
        (old(engine).pending matches Pending::ChooseCards { prompt, .. } && prompt == ChoicePrompt::LeaveTapped)
            ==> r.is_some() && *final(engine) == *old(engine),
{
    let _ = answer_until(engine, asks_about_untapping);
    match &engine.pending {
        Pending::ChooseCards { player, options, prompt, .. } => {
            if *prompt == ChoicePrompt::LeaveTapped {
                Some((*player, crate::vecs::copy_ids(options)))
            } else {
                None
            }
        },
        _ => None,
    }
}

/// Whether the engine asks which permanents stay tapped.
pub fn asks_about_untapping(engine: &Engine) -> (b: bool)
    ensures
        b == (engine.pending matches Pending::ChooseCards { prompt, .. } && prompt
            == ChoicePrompt::LeaveTapped),
{
    match &engine.pending {
        Pending::ChooseCards { prompt, .. } => *prompt == ChoicePrompt::LeaveTapped,
        _ => false,
    }
}

/// The cost of an activated ability; a mana ability, a channel ability, a
/// triggered or a static ability is none of these.
pub fn activation_cost(ability: &Ability) -> (r: Option<Cost>)
    ensures
        r.is_some() <==> ability.kind == AbilityKind::Activated,
        r.is_some() ==> r.unwrap() == ability.cost,
{
    match ability.kind {
        AbilityKind::Activated => Some(ability.cost),
        _ => None,
    }
}

/// Whether the cost `c` names an object to pay with: a permanent to
/// sacrifice, a card to discard or a permanent to tap.
pub open spec fn names_an_object(c: Cost) -> bool {
    c.sacrifice.is_some() || c.discard || c.tap_other.is_some()
}

/// Whether the offer `x` is of an activated ability of an object of `card`
/// whose cost names an object to pay with.
pub open spec fn asks_for_an_object(s: crate::state::GameState, x: (ObjectId, u32), card: CardIndex) -> bool {
    &&& is_offer_of(s, x, card, x.1)
    &&& crate::catalog::spec_ability(s.obj(x.0).card, x.1) matches Some(a)
    &&& a.kind == AbilityKind::Activated
    &&& names_an_object(a.cost)
}

/// Among the abilities a player holding priority may activate, the first,
/// in the order they are offered, of a permanent of `card` whose cost names
/// an object to pay with; nothing when the engine waits for something else
/// or no offer is of that kind.
pub fn ability_that_asks(engine: &Engine, card: CardIndex) -> (r: Option<(ObjectId, u32)>)
    ensures
        r.is_none() <==> !(engine.pending matches Pending::Priority { legal, .. } && exists|k: int|
            0 <= k < legal.abilities@.len() && #[trigger] asks_for_an_object(
                engine.state,
                legal.abilities@[k],
                card,
            )),
        r.is_some() ==> (engine.pending matches Pending::Priority { legal, .. } && exists|k: int|
            0 <= k < legal.abilities@.len() && legal.abilities@[k] == r.unwrap() && asks_for_an_object(
                engine.state,
                legal.abilities@[k],
                card,
            ) && forall|j: int| 0 <= j < k ==> !#[trigger] asks_for_an_object(engine.state, legal.abilities@[j], card)),
{
    match &engine.pending {
        Pending::Priority { legal, .. } => {
            let mut i: usize = 0;
            while i < legal.abilities.len()
                invariant
                    i <= legal.abilities@.len(),
                    engine.pending is Priority,
                    engine.pending->legal == *legal,
                    forall|j: int| 0 <= j < i ==> !#[trigger] asks_for_an_object(engine.state, legal.abilities@[j], card),
                decreases legal.abilities@.len() - i,
            {
                let (id, index) = legal.abilities[i];
                if engine.state.contains(id) {
                    let o = engine.state.get(id);
                    if o.card.0 == card.0 {
                        match crate::catalog::ability_at(o.card, index) {
                            Some(a) => match activation_cost(&a) {
                                Some(c) => {
                                    if c.sacrifice.is_some() || c.discard || c.tap_other.is_some() {
                                        assert(legal.abilities@[i as int] == (id, index));
                                        assert(o.card == card);
                                        assert(asks_for_an_object(engine.state, legal.abilities@[i as int], card));
                                        return Some((id, index));
                                    }
                                },
                                None => {},
                            },
                            None => {},
                        }
                    }
                }
                assert(!asks_for_an_object(engine.state, legal.abilities@[i as int], card)) by {
                    assert(legal.abilities@[i as int] == (id, index));
                }
                i = i + 1;
            }
            None
        },
        _ => None,
    }
}

/// Whether the card of `o` prints the basic supertype on its first face.
pub open spec fn is_basic_land(o: crate::state::GameObject) -> bool {
    crate::catalog::spec_card_chars(o.card).basic
}

/// Whether none of `options` is a card whose first face is basic.
pub fn no_basic_land_on_the_menu(engine: &Engine, options: &[ObjectId]) -> (ok: bool)
    ensures
        ok == forall|k: int|
            0 <= k < options@.len() && engine.state.has(#[trigger] options@[k]) ==> !is_basic_land(
                engine.state.obj(options@[k]),
            ),
{
    let mut i: usize = 0;
    while i < options.len()
        invariant
            i <= options@.len(),
            forall|k: int|
                0 <= k < i && engine.state.has(#[trigger] options@[k]) ==> !is_basic_land(
                    engine.state.obj(options@[k]),
                ),
        decreases options@.len() - i,
    {
        if engine.state.contains(options[i]) {
            let c = engine.state.get(options[i]).card;
            if crate::catalog::card_chars(c).basic {
                return false;
            }
        }
        i = i + 1;
    }
    true
}

/// Whether `paid` was spent the way the cost of ability `index` of
/// `card` asks: tapped, where the cost taps an object; otherwise gone from
/// the battlefield and from `seat`'s hand.
pub open spec fn spec_paid_with(
    s: crate::state::GameState,
    card: CardIndex,
    index: u32,
    paid: ObjectId,
    seat: PlayerId,
) -> bool {
    let c = crate::catalog::spec_ability(card, index).unwrap().cost;
    if c.tap_other.is_some() {
        s.has(paid) && s.obj(paid).tapped
    } else {
        !s.zones.battlefield@.contains(paid) && !s.zones.spec_list(ZoneLocation::Hand(seat)).contains(paid)
    }
}

/// Whether `paid` was spent the way ability `index` of `card`, an
/// activated ability whose cost names an object, asks: tapped, where the
/// cost taps an object; otherwise gone from the battlefield and from
/// `seat`'s hand.
pub fn the_object_paid(engine: &Engine, card: CardIndex, index: u32, paid: ObjectId, seat: PlayerId) -> (ok: bool)
    requires
        crate::catalog::spec_ability(card, index) matches Some(a) && a.kind == AbilityKind::Activated
            && names_an_object(a.cost),
    ensures
        ok == spec_paid_with(engine.state, card, index, paid, seat),
{
    let cost = match crate::catalog::ability_at(card, index) {
        Some(a) => a.cost,
        None => {
            return false;
        },
    };
    if cost.tap_other.is_some() {
        engine.state.contains(paid) && engine.state.get(paid).tapped
    } else {
        !crate::vecs::has_id(engine.state.zones.list(ZoneLocation::Battlefield), paid) && !crate::vecs::has_id(
            engine.state.zones.list(ZoneLocation::Hand(seat)),
            paid,
        )
    }
}

} // verus!
