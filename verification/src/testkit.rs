//! A harness for playing duels: a builder that lays out a board and
//! drivers that walk a game to where a question about it can be asked.

use vstd::prelude::*;
use crate::catalog::card_chars;
use crate::engine::{Engine, EngineError, Pending, PlayerAction};
use crate::ids::{CardIndex, ObjectId, Phase, PlayerId};
use crate::mana::{ManaPool};
use crate::sets::{CounterKind, Keywords, Types};
use crate::board::MAX_OBJECTS;
use crate::state::{GameObject, GameState, PlayerState, TokenKind, TurnState, Zone, ZoneLocation, Zones};
use crate::cards::{AbilityKind, Effect};
use crate::catalog::ability_at;

verus! {

/// How many cards each library holds at the start of a duel.
pub const LIBRARY_SIZE: u32 = 20;

/// How many decisions a driver answers at most before it gives up.
pub const DRIVE_BOUND: u32 = 200;

/// A duel being laid out: both players' hands and battlefields, and the card
/// that fills their libraries.
#[derive(Clone, Debug)]
pub struct Duel {
    pub seed: u64,
    pub filler: CardIndex,
    pub hand0: Vec<CardIndex>,
    pub hand1: Vec<CardIndex>,
    pub battlefield0: Vec<CardIndex>,
    pub battlefield1: Vec<CardIndex>,
    /// The life totals the two players begin with.
    pub life0: i32,
    pub life1: i32,
    /// The colour identities of the two players' commanders.
    pub commander0: u8,
    pub commander1: u8,
}

/// Appends the cards of `cards` to `v`.
pub fn append_cards(v: &mut Vec<CardIndex>, cards: &[CardIndex])
    ensures
        final(v)@ == old(v)@ + cards@,
{
    let mut i: usize = 0;
    while i < cards.len()
        invariant
            i <= cards@.len(),
            v@ == old(v)@ + cards@.take(i as int),
        decreases cards@.len() - i,
    {
        v.push(cards[i]);
        assert(cards@.take(i + 1) == cards@.take(i as int).push(cards@[i as int]));
        i = i + 1;
    }
    assert(cards@.take(i as int) == cards@);
}

/// The colour identity of commanders `cards`: the union of their colours.
pub open spec fn spec_identity(cards: Seq<CardIndex>) -> u8
    decreases cards.len(),
{
    if cards.len() == 0 {
        0
    } else {
        spec_identity(cards.drop_last()) | crate::catalog::spec_card_chars(cards.last()).colors.0
    }
}

impl Duel {
    /// A duel with empty hands and battlefields whose libraries hold
    /// `filler` alone.
    pub fn new(seed: u64, filler: CardIndex) -> (d: Duel)
        ensures
            d.filler == filler,
            d.life0 == 20 && d.life1 == 20,
            d.hand0@.len() == 0,
            d.hand1@.len() == 0,
            d.battlefield0@.len() == 0,
            d.battlefield1@.len() == 0,
    {
        Duel {
            seed,
            filler,
            hand0: Vec::new(),
            hand1: Vec::new(),
            battlefield0: Vec::new(),
            battlefield1: Vec::new(),
            life0: 20,
            life1: 20,
            commander0: 0,
            commander1: 0,
        }
    }

    /// The duel with `cards` as the commanders of seat `seat`: the seat's
    /// commander colour identity is the union of their colours.
    pub fn commander(self, seat: u8, cards: &[CardIndex]) -> (d: Duel)
        ensures
            seat == 0 ==> d.commander0 == spec_identity(cards@),
            seat != 0 ==> d.commander1 == spec_identity(cards@),
            seat == 0 ==> d.commander1 == self.commander1 && d.life0 == self.life0,
            seat != 0 ==> d.commander0 == self.commander0 && d.life1 == self.life1,
            d.hand0 == self.hand0 && d.hand1 == self.hand1,
            d.battlefield0 == self.battlefield0 && d.battlefield1 == self.battlefield1,
    {
        let mut m: u8 = 0;
        let mut i: usize = 0;
        while i < cards.len()
            invariant
                i <= cards@.len(),
                m == spec_identity(cards@.take(i as int)),
            decreases cards@.len() - i,
        {
            assert(cards@.take(i + 1).drop_last() == cards@.take(i as int));
            m = m | card_chars(cards[i]).colors.0;
            i = i + 1;
        }
        assert(cards@.take(i as int) == cards@);
        let mut d = self;
        if seat == 0 {
            d.commander0 = m;
        } else {
            d.commander1 = m;
        }
        d
    }

    /// The duel with seat `seat` beginning at `life` life.
    pub fn life(self, seat: u8, life: i32) -> (d: Duel)
        ensures
            seat == 0 ==> d.life0 == life && d.life1 == self.life1,
            seat != 0 ==> d.life1 == life && d.life0 == self.life0,
    {
        let mut d = self;
        if seat == 0 {
            d.life0 = life;
        } else {
            d.life1 = life;
        }
        d
    }

    /// The duel with `cards` added to the hand of seat `seat`.
    pub fn hand(self, seat: u8, cards: &[CardIndex]) -> (d: Duel)
        ensures
            seat == 0 ==> d.hand0@ == self.hand0@ + cards@,
            seat != 0 ==> d.hand1@ == self.hand1@ + cards@,
    {
        let mut d = self;
        if seat == 0 {
            append_cards(&mut d.hand0, cards);
        } else {
            append_cards(&mut d.hand1, cards);
        }
        d
    }

    /// The duel with `cards` added to the battlefield of seat `seat`.
    pub fn battlefield(self, seat: u8, cards: &[CardIndex]) -> (d: Duel)
        ensures
            seat == 0 ==> d.battlefield0@ == self.battlefield0@ + cards@,
            seat != 0 ==> d.battlefield1@ == self.battlefield1@ + cards@,
    {
        let mut d = self;
        if seat == 0 {
            append_cards(&mut d.battlefield0, cards);
        } else {
            append_cards(&mut d.battlefield1, cards);
        }
        d
    }

    /// The game the duel lays out, about to begin: permanents untapped and
    /// in play since before the first turn, hands as given, and libraries of
    /// the filler card. Objects beyond what a game can hold are left out.
    pub fn start(self) -> (e: Engine)
        ensures
            e.wf(),
            e.pending == (Pending::Mulligan { player: PlayerId(0) }),
            e.spec_stack_is_empty(),
            e.state.players@.len() == 2,
            e.state.players@[0].life == self.life0 && e.state.players@[1].life == self.life1,
            e.state.players@[0].commander_colors == self.commander0,
            e.state.players@[1].commander_colors == self.commander1,
            e.state.players@[0].mana_pool.is_empty() && e.state.players@[1].mana_pool.is_empty(),
            e.state.turn == (TurnState { number: 0, active: PlayerId(0), phase: Phase::Untap, lands_played: 0 }),
            e.state.monarch.is_none(),
            self.battlefield0@.len() + self.battlefield1@.len() + self.hand0@.len() + self.hand1@.len()
                <= MAX_OBJECTS ==> {
                let b0 = self.battlefield0@.len() as int;
                let b1 = self.battlefield1@.len() as int;
                let h0 = self.hand0@.len() as int;
                let h1 = self.hand1@.len() as int;
                &&& e.state.objects@.len() >= b0 + b1 + h0 + h1
                &&& forall|k: int| 0 <= k < b0 ==> placed_as(#[trigger] e.state.objects@[k], self.battlefield0@[k], PlayerId(0), Zone::Battlefield)
                &&& forall|k: int| 0 <= k < b1 ==> placed_as(#[trigger] e.state.objects@[b0 + k], self.battlefield1@[k], PlayerId(1), Zone::Battlefield)
                &&& forall|k: int| 0 <= k < h0 ==> placed_as(#[trigger] e.state.objects@[b0 + b1 + k], self.hand0@[k], PlayerId(0), Zone::Hand)
                &&& forall|k: int| 0 <= k < h1 ==> placed_as(#[trigger] e.state.objects@[b0 + b1 + h0 + k], self.hand1@[k], PlayerId(1), Zone::Hand)
            },
    {
        let mut players: Vec<PlayerState> = Vec::new();
        players.push(PlayerState { life: self.life0, mana_pool: ManaPool::new(), commander_colors: self.commander0 });
        players.push(PlayerState { life: self.life1, mana_pool: ManaPool::new(), commander_colors: self.commander1 });
        let mut state = GameState {
            players,
            zones: Zones::new(),
            turn: TurnState { number: 0, active: PlayerId(0), phase: Phase::Untap, lands_played: 0 },
            monarch: None,
            objects: Vec::new(),
        };
        place(&mut state, &self.battlefield0, PlayerId(0), Zone::Battlefield);
        let ghost s1 = state;
        place(&mut state, &self.battlefield1, PlayerId(1), Zone::Battlefield);
        let ghost s2 = state;
        place(&mut state, &self.hand0, PlayerId(0), Zone::Hand);
        let ghost s3 = state;
        place(&mut state, &self.hand1, PlayerId(1), Zone::Hand);
        let ghost laid = state;
        proof {
            let b0 = self.battlefield0@.len() as int;
            let b1 = self.battlefield1@.len() as int;
            let h0 = self.hand0@.len() as int;
            let h1 = self.hand1@.len() as int;
            if b0 + b1 + h0 + h1 <= MAX_OBJECTS {
                assert(s1.objects@.len() == b0);
                assert(s2.objects@.len() == b0 + b1);
                assert(s3.objects@.len() == b0 + b1 + h0);
                assert(laid.objects@.len() == b0 + b1 + h0 + h1);
                assert forall|k: int| 0 <= k < b0 implies placed_as(#[trigger] laid.objects@[k], self.battlefield0@[k], PlayerId(0), Zone::Battlefield) by {
                    assert(placed_as(s1.objects@[0 + k], self.battlefield0@[k], PlayerId(0), Zone::Battlefield));
                    assert(laid.objects@[k] == s3.objects@[k]);
                    assert(s3.objects@[k] == s2.objects@[k]);
                    assert(s2.objects@[k] == s1.objects@[k]);
                }
                assert forall|k: int| 0 <= k < b1 implies placed_as(#[trigger] laid.objects@[b0 + k], self.battlefield1@[k], PlayerId(1), Zone::Battlefield) by {
                    assert(placed_as(s2.objects@[s1.objects@.len() + k], self.battlefield1@[k], PlayerId(1), Zone::Battlefield));
                    assert(laid.objects@[b0 + k] == s3.objects@[b0 + k]);
                    assert(s3.objects@[b0 + k] == s2.objects@[b0 + k]);
                }
                assert forall|k: int| 0 <= k < h0 implies placed_as(#[trigger] laid.objects@[b0 + b1 + k], self.hand0@[k], PlayerId(0), Zone::Hand) by {
                    assert(placed_as(s3.objects@[s2.objects@.len() + k], self.hand0@[k], PlayerId(0), Zone::Hand));
                    assert(laid.objects@[b0 + b1 + k] == s3.objects@[b0 + b1 + k]);
                }
                assert forall|k: int| 0 <= k < h1 implies placed_as(#[trigger] laid.objects@[b0 + b1 + h0 + k], self.hand1@[k], PlayerId(1), Zone::Hand) by {
                    assert(placed_as(laid.objects@[s3.objects@.len() + k], self.hand1@[k], PlayerId(1), Zone::Hand));
                }
            }
        }
        let mut k: u32 = 0;
        while k < LIBRARY_SIZE
            invariant
                state.wf(),
                state.players == laid.players,
                state.turn == laid.turn,
                state.monarch == laid.monarch,
                state.objects@.len() >= laid.objects@.len(),
                forall|j: int| 0 <= j < laid.objects@.len() ==> state.objects@[j] == laid.objects@[j],
            decreases LIBRARY_SIZE - k,
        {
            if state.has_room() {
                let f = self.filler;
                state.create_object(f, card_chars(f), PlayerId(0), Zone::Library, TokenKind::Card);
            }
            if state.has_room() {
                let f = self.filler;
                state.create_object(f, card_chars(f), PlayerId(1), Zone::Library, TokenKind::Card);
            }
            k = k + 1;
        }
        Engine::new(state)
    }
}

/// Creates an object for each card of `cards`, owned by `owner`, in `zone`.
pub fn place(state: &mut GameState, cards: &Vec<CardIndex>, owner: PlayerId, zone: Zone)
    requires
        old(state).wf(),
    ensures
        final(state).wf(),
        final(state).players == old(state).players,
        final(state).turn == old(state).turn,
        final(state).monarch == old(state).monarch,
        forall|j: int| 0 <= j < old(state).objects@.len() ==> final(state).objects@[j] == old(state).objects@[j],
        old(state).objects@.len() + cards@.len() <= MAX_OBJECTS ==> final(state).objects@.len() == old(
            state,
        ).objects@.len() + cards@.len() && forall|k: int|
            0 <= k < cards@.len() ==> placed_as(
                #[trigger] final(state).objects@[old(state).objects@.len() + k],
                cards@[k],
                owner,
                zone,
            ),
{
    let mut i: usize = 0;
    while i < cards.len()
        invariant
            i <= cards@.len(),
            state.wf(),
            state.players == old(state).players,
            state.turn == old(state).turn,
            state.monarch == old(state).monarch,
            state.objects@.len() >= old(state).objects@.len(),
            forall|j: int| 0 <= j < old(state).objects@.len() ==> state.objects@[j] == old(state).objects@[j],
            old(state).objects@.len() + cards@.len() <= MAX_OBJECTS ==> state.objects@.len() == old(
                state,
            ).objects@.len() + i && forall|k: int|
                0 <= k < i ==> placed_as(
                    #[trigger] state.objects@[old(state).objects@.len() + k],
                    cards@[k],
                    owner,
                    zone,
                ),
        decreases cards@.len() - i,
    {
        if state.has_room() {
            let c = cards[i];
            let ghost before = state.objects@;
            let id = state.create_object(c, card_chars(c), owner, zone, TokenKind::Card);
            proof {
                if old(state).objects@.len() + cards@.len() <= MAX_OBJECTS {
                    assert forall|k: int| 0 <= k < i + 1 implies placed_as(
                        #[trigger] state.objects@[old(state).objects@.len() + k],
                        cards@[k],
                        owner,
                        zone,
                    ) by {
                        if k < i {
                            assert(state.objects@[old(state).objects@.len() + k] == before[old(state).objects@.len() + k]);
                        } else {
                            assert(state.objects@[id.0 as int] == state.obj(id));
                        }
                    }
                }
            }
        }
        i = i + 1;
    }
}

/// Whether `o` is a fresh, untapped object of `card` owned and controlled
/// by `owner` in `zone`.
pub open spec fn placed_as(o: GameObject, card: CardIndex, owner: PlayerId, zone: Zone) -> bool {
    &&& o.card == card
    &&& o.owner == owner
    &&& o.controller == owner
    &&& o.zone == zone
    &&& !o.tapped
}

/// The player the engine waits for, and whether it waits for them to act
/// with priority (rather than to make a choice or keep a hand).
pub fn waiting_for(engine: &Engine) -> (r: (PlayerId, u8))
    ensures
        r.0 == engine.pending.decider(),
        r.1 == match engine.pending {
            Pending::Mulligan { .. } => 0u8,
            Pending::Priority { .. } => 1u8,
            Pending::ChooseAttackers { .. } => 3u8,
            Pending::ChooseBlockers { .. } => 3u8,
            _ => 2u8,
        },
{
    match &engine.pending {
        Pending::Mulligan { player } => (*player, 0),
        Pending::Priority { player, .. } => (*player, 1),
        Pending::ChooseColor { player, .. } => (*player, 2),
        Pending::ChooseTargets { player, .. } => (*player, 2),
        Pending::ChooseCards { player, .. } => (*player, 2),
        Pending::ChooseCastMode { player, .. } => (*player, 2),
        Pending::ChooseSubtype { player, .. } => (*player, 2),
        Pending::OrderObjects { player, .. } => (*player, 2),
        Pending::YesNo { player, .. } => (*player, 2),
        Pending::ChooseNumber { player, .. } => (*player, 2),
        Pending::ChooseAttackers { player, .. } => (*player, 3),
        Pending::ChooseBlockers { player, .. } => (*player, 3),
    }
}

/// The declaration of no attackers, or of no blockers, whichever the
/// engine asks for.
pub fn declare_none(engine: &Engine) -> (a: PlayerAction)
    ensures
        engine.pending is ChooseBlockers ==> (a matches PlayerAction::DeclareBlockers { blocks } && blocks@.len()
            == 0),
        !(engine.pending is ChooseBlockers) ==> (a matches PlayerAction::DeclareAttackers { attackers }
            && attackers@.len() == 0),
{
    match &engine.pending {
        Pending::ChooseBlockers { .. } => PlayerAction::DeclareBlockers { blocks: Vec::new() },
        _ => PlayerAction::DeclareAttackers { attackers: Vec::new() },
    }
}

/// Both players keep their opening hands.
pub fn keep_mulligans(engine: &mut Engine) -> (r: Result<(), EngineError>)
    requires
        old(engine).wf(),
    ensures
        final(engine).wf(),
{
    engine.apply(PlayerId(0), PlayerAction::KeepHand)?;
    engine.apply(PlayerId(1), PlayerAction::KeepHand)
}

/// Whether the engine asks for cards of which none need be named.
pub fn asks_for_none(engine: &Engine) -> (b: bool)
    ensures
        b == (engine.pending matches Pending::ChooseCards { min, .. } && min == 0),
{
    match &engine.pending {
        Pending::ChooseCards { min, .. } => *min == 0,
        _ => false,
    }
}

/// Passes priority, and keeps hands, until `pred` holds of the engine, and
/// answers whether it came to hold. A question that may be answered with no
/// cards (a surveil, a scry) is answered so; any other choice stops the
/// walk.
pub fn pass_until<F: Fn(&Engine) -> bool>(engine: &mut Engine, pred: F) -> (reached: bool)
    requires
        old(engine).wf(),
        forall|e: &Engine| #[trigger] pred.requires((e,)),
    ensures
        final(engine).wf(),
        reached ==> pred.ensures((&*final(engine),), true),
        (forall|b: bool| #[trigger] pred.ensures((&*old(engine),), b) ==> b) ==> reached && *final(engine)
            == *old(engine),
{
    let mut fuel: u32 = DRIVE_BOUND;
    while fuel > 0
        invariant
            engine.wf(),
            forall|e: &Engine| #[trigger] pred.requires((e,)),
            (forall|b: bool| #[trigger] pred.ensures((&*old(engine),), b) ==> b) ==> fuel == DRIVE_BOUND
                && *engine == *old(engine),
        decreases fuel,
    {
        fuel = fuel - 1;
        if pred(&*engine) {
            return true;
        }
        let (p, kind) = waiting_for(engine);
        let r = if kind == 0 {
            engine.apply(p, PlayerAction::KeepHand)
        } else if kind == 1 {
            engine.apply(p, PlayerAction::PassPriority)
        } else if kind == 3 {
            let a = declare_none(engine);
            engine.apply(p, a)
        } else if asks_for_none(engine) {
            engine.apply(p, PlayerAction::ChooseObjects { objects: Vec::new() })
        } else {
            return false;
        };
        if r.is_err() {
            return false;
        }
    }
    false
}

/// Whether the engine stands in `seat`'s first main phase, with priority
/// to `seat` and nothing on the stack.
pub open spec fn spec_at_main_of(e: Engine, seat: PlayerId) -> bool {
    &&& e.state.turn.phase == Phase::FirstMain
    &&& e.state.turn.active == seat
    &&& e.spec_stack_is_empty()
    &&& e.waits_for_priority_of(seat)
}

/// Whether the engine stands in `seat`'s first main phase, with priority
/// to `seat` and nothing on the stack.
pub fn at_main_of(engine: &Engine, seat: PlayerId) -> (b: bool)
    ensures
        b == spec_at_main_of(*engine, seat),
{
    engine.state.turn.phase == Phase::FirstMain && engine.state.turn.active.0 == seat.0
        && engine.stack_is_empty() && engine.waits_for_priority_of_exec(seat)
}

/// Walks to the first main phase of `seat`; where the game stands in it
/// already, nothing happens. Answers whether it got there.
pub fn reach_main_phase(engine: &mut Engine, seat: PlayerId) -> (reached: bool)
    requires
        old(engine).wf(),
    ensures
        final(engine).wf(),
        reached ==> spec_at_main_of(*final(engine), seat),
        spec_at_main_of(*old(engine), seat) ==> reached && *final(engine) == *old(engine),
{
    pass_until(engine, |e: &Engine| -> (b: bool)
        ensures
            b == spec_at_main_of(*e, seat),
        { at_main_of(e, seat) })
}

/// Walks to the next first main phase of `seat`: out of the one the game
/// stands in, if it does, and on to the next. Answers whether it got there.
pub fn reach_their_main_phase(engine: &mut Engine, seat: PlayerId) -> (reached: bool)
    requires
        old(engine).wf(),
    ensures
        final(engine).wf(),
        reached ==> spec_at_main_of(*final(engine), seat),
        reached && spec_at_main_of(*old(engine), seat) ==> final(engine).state.turn.number != old(engine).state.turn.number,
{
    if at_main_of(engine, seat) {
        let turn = engine.state.turn.number;
        return pass_until(engine, |e: &Engine| -> (b: bool)
            ensures
                b == (spec_at_main_of(*e, seat) && e.state.turn.number != turn),
            { at_main_of(e, seat) && e.state.turn.number != turn });
    }
    pass_until(engine, |e: &Engine| -> (b: bool)
        ensures
            b == spec_at_main_of(*e, seat),
        { at_main_of(e, seat) })
}

/// Whether nothing is on the stack or on its way there.
pub fn stack_is_empty(engine: &Engine) -> (b: bool)
    ensures
        b == engine.spec_stack_is_empty(),
{
    engine.stack_is_empty()
}

/// The objects of `card` in the zone list `loc`, in its order.
pub fn all_in(engine: &Engine, loc: ZoneLocation, card: CardIndex, controller: Option<PlayerId>) -> (v: Vec<ObjectId>)
    ensures
        forall|k: int| 0 <= k < v@.len() ==> is_one_of(engine.state, #[trigger] v@[k], loc, card, controller),
        forall|j: int|
            0 <= j < engine.state.zones.spec_list(loc).len() && is_one_of(
                engine.state,
                #[trigger] engine.state.zones.spec_list(loc)[j],
                loc,
                card,
                controller,
            ) ==> v@.contains(engine.state.zones.spec_list(loc)[j]),
{
    let l = engine.state.zones.list(loc);
    let mut v: Vec<ObjectId> = Vec::new();
    let mut i: usize = 0;
    while i < l.len()
        invariant
            i <= l@.len(),
            l@ == engine.state.zones.spec_list(loc),
            forall|k: int| 0 <= k < v@.len() ==> is_one_of(engine.state, #[trigger] v@[k], loc, card, controller),
            forall|j: int| 0 <= j < i && is_one_of(engine.state, #[trigger] l@[j], loc, card, controller) ==> v@.contains(l@[j]),
        decreases l@.len() - i,
    {
        let id = l[i];
        assert(l@[i as int] == id);
        assert(l@.contains(id));
        let mut keep = false;
        if engine.state.contains(id) {
            let o = engine.state.get(id);
            let mine = match controller {
                Some(p) => o.controller.0 == p.0,
                None => true,
            };
            keep = o.card.0 == card.0 && mine;
        }
        assert(keep == is_one_of(engine.state, id, loc, card, controller));
        let ghost before = v@;
        if keep {
            v.push(id);
        }
        assert forall|j: int| 0 <= j < i + 1 && is_one_of(engine.state, #[trigger] l@[j], loc, card, controller) implies v@.contains(l@[j]) by {
            if j < i {
                assert(before.contains(l@[j]));
                let w = choose|w: int| 0 <= w < before.len() && before[w] == l@[j];
                assert(v@[w] == l@[j]);
            } else {
                assert(v@[v@.len() - 1] == l@[j]);
            }
        }
        i = i + 1;
    }
    v
}

/// Whether `id` names an object of `card` in the zone list `loc` (and, when
/// `controller` names a player, controlled by them).
pub open spec fn is_one_of(s: GameState, id: ObjectId, loc: ZoneLocation, card: CardIndex, controller: Option<PlayerId>) -> bool {
    &&& s.zones.spec_list(loc).contains(id)
    &&& s.has(id)
    &&& s.obj(id).card == card
    &&& (controller matches Some(p) ==> s.obj(id).controller == p)
}

/// Every permanent of `card` that `seat` controls, in battlefield order.
pub fn all_on_battlefield(engine: &Engine, seat: PlayerId, card: CardIndex) -> (v: Vec<ObjectId>)
    ensures
        forall|k: int| 0 <= k < v@.len() ==> engine.state.has(#[trigger] v@[k]),
        forall|k: int| 0 <= k < v@.len() ==> is_one_of(engine.state, #[trigger] v@[k], ZoneLocation::Battlefield, card, Some(seat)),
{
    all_in(engine, ZoneLocation::Battlefield, card, Some(seat))
}

/// The first of the objects of `v`, if there is one.
pub fn first_of(v: &Vec<ObjectId>) -> (r: Option<ObjectId>)
    ensures
        r.is_some() == (v@.len() > 0),
        r.is_some() ==> r.unwrap() == v@[0],
{
    if v.len() > 0 {
        Some(v[0])
    } else {
        None
    }
}

/// A permanent of `card` that `seat` controls, if there is one.
pub fn on_battlefield(engine: &Engine, seat: PlayerId, card: CardIndex) -> (r: Option<ObjectId>)
    ensures
        r.is_some() ==> is_one_of(engine.state, r.unwrap(), ZoneLocation::Battlefield, card, Some(seat)),
        r.is_none() ==> forall|id: ObjectId| !is_one_of(engine.state, id, ZoneLocation::Battlefield, card, Some(seat)),
{
    first_of(&all_in(engine, ZoneLocation::Battlefield, card, Some(seat)))
}

/// A card of `card` in `seat`'s hand, if there is one.
pub fn in_hand(engine: &Engine, seat: PlayerId, card: CardIndex) -> (r: Option<ObjectId>)
    ensures
        r.is_some() ==> is_one_of(engine.state, r.unwrap(), ZoneLocation::Hand(seat), card, None),
        r.is_none() ==> forall|id: ObjectId| !is_one_of(engine.state, id, ZoneLocation::Hand(seat), card, None),
{
    first_of(&all_in(engine, ZoneLocation::Hand(seat), card, None))
}

/// A card of `card` in `seat`'s graveyard, if there is one.
pub fn in_graveyard(engine: &Engine, seat: PlayerId, card: CardIndex) -> (r: Option<ObjectId>)
    ensures
        r.is_some() ==> is_one_of(engine.state, r.unwrap(), ZoneLocation::Graveyard(seat), card, None),
        r.is_none() ==> forall|id: ObjectId| !is_one_of(engine.state, id, ZoneLocation::Graveyard(seat), card, None),
{
    first_of(&all_in(engine, ZoneLocation::Graveyard(seat), card, None))
}

/// `seat` casts a card of `card` from their hand; a card of it not being
/// in their hand is refused as an illegal action.
pub fn cast_from_hand(engine: &mut Engine, seat: PlayerId, card: CardIndex) -> (r: Result<(), EngineError>)
    requires
        old(engine).wf(),
    ensures
        final(engine).wf(),
        r.is_err() ==> *final(engine) == *old(engine),
        r.is_ok() ==> exists|id: ObjectId|
            #[trigger] old(engine).spec_may_cast(seat, id) && is_one_of(
                old(engine).state,
                id,
                ZoneLocation::Hand(seat),
                card,
                None,
            ),
{
    match in_hand(engine, seat, card) {
        Some(id) => {
            let r = engine.apply(seat, PlayerAction::CastSpell { card: id });
            assert(r.is_ok() ==> old(engine).spec_may_cast(seat, id));
            r
        },
        None => Err(EngineError::IllegalAction),
    }
}

/// `seat` plays a card of `card` from their hand, and the answer is the
/// land it became. The whole of the play is answered by the engine: a
/// choice it asks as the land enters is left pending.
pub fn play_land(engine: &mut Engine, seat: PlayerId, card: CardIndex) -> (r: Result<ObjectId, EngineError>)
    requires
        old(engine).wf(),
    ensures
        final(engine).wf(),
{
    let id = match in_hand(engine, seat, card) {
        Some(id) => id,
        None => {
            return Err(EngineError::IllegalAction);
        },
    };
    engine.apply(seat, PlayerAction::PlayLand { card: id })?;
    Ok(id)
}

/// The printed abilities the engine offers `seat` now, if it waits for
/// them to act with priority.
pub fn offered_abilities(engine: &Engine) -> (v: Vec<(ObjectId, u32)>)
    ensures
        v@ == match engine.pending {
            Pending::Priority { legal, .. } => legal.abilities@,
            _ => Seq::empty(),
        },
{
    let mut v: Vec<(ObjectId, u32)> = Vec::new();
    match &engine.pending {
        Pending::Priority { legal, .. } => {
            let mut i: usize = 0;
            while i < legal.abilities.len()
                invariant
                    i <= legal.abilities@.len(),
                    v@ == legal.abilities@.take(i as int),
                decreases legal.abilities@.len() - i,
            {
                v.push(legal.abilities[i]);
                assert(legal.abilities@.take(i + 1) == legal.abilities@.take(i as int).push(legal.abilities@[i as int]));
                i = i + 1;
            }
            assert(legal.abilities@.take(i as int) == legal.abilities@);
        },
        _ => {},
    }
    v
}

/// The sources of basic-land-type mana the engine offers now.
pub fn offered_mana_sources(engine: &Engine) -> (v: Vec<ObjectId>)
    ensures
        v@ == match engine.pending {
            Pending::Priority { legal, .. } => legal.mana_abilities@,
            _ => Seq::empty(),
        },
{
    match &engine.pending {
        Pending::Priority { legal, .. } => crate::vecs::copy_ids(&legal.mana_abilities),
        _ => Vec::new(),
    }
}

/// `seat` activates ability `index` of a permanent of `card` they control,
/// the first such permanent for which the engine offers it.
pub fn activate(engine: &mut Engine, seat: PlayerId, card: CardIndex, index: u32) -> (r: Result<(), EngineError>)
    requires
        old(engine).wf(),
    ensures
        final(engine).wf(),
{
    let offers = offered_abilities(engine);
    let mut i: usize = 0;
    while i < offers.len()
        invariant
            engine.wf(),
        decreases offers@.len() - i,
    {
        let (id, ai) = offers[i];
        if ai == index && engine.state.contains(id) {
            let o = engine.state.get(id);
            if o.card.0 == card.0 && o.controller.0 == seat.0 {
                return engine.apply(seat, PlayerAction::ActivateAbility { source: id, ability_index: index });
            }
        }
        i = i + 1;
    }
    Err(EngineError::IllegalAction)
}

/// Whether the object `id` is tapped.
pub fn is_tapped(engine: &Engine, id: ObjectId) -> (b: bool)
    ensures
        b == (engine.state.has(id) && engine.state.obj(id).tapped),
{
    engine.state.contains(id) && engine.state.get(id).tapped
}

/// Whether the object `id` stands tapped: asked as it arrives, whether it
/// entered the battlefield tapped.
pub fn entered_tapped(engine: &Engine, id: ObjectId) -> (b: bool)
    ensures
        b == (engine.state.has(id) && engine.state.obj(id).tapped),
{
    engine.state.contains(id) && engine.state.get(id).tapped
}

/// The card types the object `id` has now.
pub fn types(engine: &Engine, id: ObjectId) -> (t: Types)
    ensures
        engine.state.has(id) ==> t == engine.state.obj(id).chars().types,
{
    if engine.state.contains(id) {
        engine.state.get(id).characteristics().types
    } else {
        Types(0)
    }
}

/// The keywords the object `id` has now.
pub fn keywords(engine: &Engine, id: ObjectId) -> (k: Keywords)
    ensures
        engine.state.has(id) ==> k == engine.state.obj(id).chars().keywords,
{
    if engine.state.contains(id) {
        engine.state.get(id).characteristics().keywords
    } else {
        Keywords(0)
    }
}

/// The power and toughness of the object `id` now.
pub fn pt(engine: &Engine, id: ObjectId) -> (r: (i32, i32))
    ensures
        engine.state.has(id) ==> r == (engine.state.obj(id).chars().power, engine.state.obj(id).chars().toughness),
{
    if engine.state.contains(id) {
        let ch = engine.state.get(id).characteristics();
        (ch.power, ch.toughness)
    } else {
        (0, 0)
    }
}

/// How many counters of `kind` are on the object `id`, told up to 65535.
pub fn counters_on(engine: &Engine, id: ObjectId, kind: CounterKind) -> (n: u16)
    ensures
        engine.state.has(id) && engine.state.obj(id).counters.spec_count(kind) <= 0xffff ==> n
            == engine.state.obj(id).counters.spec_count(kind),
        engine.state.has(id) && engine.state.obj(id).counters.spec_count(kind) > 0xffff ==> n == 0xffff,
        !engine.state.has(id) ==> n == 0,
{
    if engine.state.contains(id) {
        let c = engine.state.get(id).counters.count(kind);
        if c > 0xffff {
            0xffff
        } else {
            c as u16
        }
    } else {
        0
    }
}

/// How many cards are in `seat`'s library.
pub fn library_size(engine: &Engine, seat: PlayerId) -> (n: usize)
    ensures
        n == engine.state.zones.spec_list(ZoneLocation::Library(seat)).len(),
{
    engine.state.zones.list(ZoneLocation::Library(seat)).len()
}

/// The tokens on the battlefield that `seat` controls.
pub fn tokens_of(engine: &Engine, seat: PlayerId) -> (v: Vec<ObjectId>)
    ensures
        forall|k: int|
            0 <= k < v@.len() ==> engine.state.zones.battlefield@.contains(#[trigger] v@[k])
                && engine.state.has(v@[k]) && engine.state.obj(v@[k]).controller.0 == seat.0
                && engine.state.obj(v@[k]).token != TokenKind::Card,
{
    let l = engine.state.zones.list(ZoneLocation::Battlefield);
    let mut v: Vec<ObjectId> = Vec::new();
    let mut i: usize = 0;
    while i < l.len()
        invariant
            i <= l@.len(),
            l@ == engine.state.zones.battlefield@,
            forall|k: int|
                0 <= k < v@.len() ==> engine.state.zones.battlefield@.contains(#[trigger] v@[k])
                    && engine.state.has(v@[k]) && engine.state.obj(v@[k]).controller.0 == seat.0
                    && engine.state.obj(v@[k]).token != TokenKind::Card,
        decreases l@.len() - i,
    {
        let id = l[i];
        if engine.state.contains(id) {
            let o = engine.state.get(id);
            if o.controller.0 == seat.0 && o.token != TokenKind::Card {
                v.push(id);
            }
        }
        i = i + 1;
    }
    v
}

/// Mills `n` cards of `seat`'s library into their graveyard: a graveyard
/// laid out with the library's filler card.
pub fn seed_graveyard(engine: &mut Engine, seat: PlayerId, n: u32)
    requires
        old(engine).wf(),
    ensures
        final(engine).wf(),
{
    engine.state.mill(seat, n);
    if engine.waits_for_priority_of_exec(seat) {
        engine.give_priority(seat);
    }
}

/// The index of the first printed mana ability of `id` that the engine
/// offers, makes mana of one named colour, and costs only `{T}`.
pub fn simple_mana_ability(engine: &Engine, offers: &Vec<(ObjectId, u32)>, id: ObjectId) -> (r: Option<u32>) {
    if !engine.state.contains(id) {
        return None;
    }
    let face = engine.state.get(id).face;
    let mut i: usize = 0;
    while i < offers.len()
        decreases offers@.len() - i,
    {
        let (src, ai) = offers[i];
        if src.0 == id.0 {
            match ability_at(face, ai) {
                Some(a) => {
                    let plain = a.cost.tap && a.cost.life == 0 && !a.cost.sacrifice_self
                        && a.cost.sacrifice.is_none() && a.cost.remove_counters.is_none()
                        && a.cost.tap_other.is_none() && a.cost.hybrid.is_none() && a.cost.remove_any.is_none()
                        && !a.cost.discard
                        && a.cost.mana.generic == 0 && a.cost.mana.white == 0 && a.cost.mana.blue == 0
                        && a.cost.mana.black == 0 && a.cost.mana.red == 0 && a.cost.mana.green == 0
                        && a.cost.mana.colorless == 0;
                    let fixed = match a.effect {
                        Effect::AddMana(..) => true,
                        Effect::AddPair(..) => true,
                        _ => false,
                    };
                    match a.kind {
                        AbilityKind::Mana => {
                            if plain && fixed {
                                return Some(ai);
                            }
                        },
                        _ => {},
                    }
                },
                None => {},
            }
        }
        i = i + 1;
    }
    None
}

/// Taps every mana source `seat` controls that makes mana without a choice
/// or a cost beyond `{T}`, but those `skip` names, and answers how many it
/// tapped.
pub fn tap_mana_where(engine: &mut Engine, seat: PlayerId, skip_id: Option<ObjectId>, skip_card: Option<CardIndex>) -> (n: usize)
    requires
        old(engine).wf(),
    ensures
        final(engine).wf(),
{
    let bf = crate::vecs::copy_ids(engine.state.zones.list(ZoneLocation::Battlefield));
    let mut n: usize = 0;
    let mut i: usize = 0;
    while i < bf.len()
        invariant
            engine.wf(),
            n <= i,
        decreases bf@.len() - i,
    {
        let id = bf[i];
        let skipped = match skip_id {
            Some(s) => s.0 == id.0,
            None => false,
        } || match skip_card {
            Some(c) => engine.state.contains(id) && engine.state.get(id).card.0 == c.0,
            None => false,
        };
        if !skipped {
            let sources = offered_mana_sources(engine);
            if crate::vecs::has_id(&sources, id) {
                if engine.apply(seat, PlayerAction::ActivateManaAbility { source: id }).is_ok() {
                    n = n + 1;
                }
            } else {
                let offers = offered_abilities(engine);
                match simple_mana_ability(engine, &offers, id) {
                    Some(ai) => {
                        if engine.apply(seat, PlayerAction::ActivateAbility { source: id, ability_index: ai }).is_ok() {
                            n = n + 1;
                        }
                    },
                    None => {},
                }
            }
        }
        i = i + 1;
    }
    n
}

/// Taps for mana every source `seat` controls but `except`, and answers
/// how many it tapped.
pub fn tap_mana_except(engine: &mut Engine, seat: PlayerId, except: ObjectId) -> (n: usize)
    requires
        old(engine).wf(),
    ensures
        final(engine).wf(),
{
    tap_mana_where(engine, seat, Some(except), None)
}

/// Taps for mana every source `seat` controls, and answers how many it
/// tapped.
pub fn tap_all_mana(engine: &mut Engine, seat: PlayerId) -> (n: usize)
    requires
        old(engine).wf(),
    ensures
        final(engine).wf(),
{
    tap_mana_where(engine, seat, None, None)
}

/// Taps for mana every source `seat` controls but those of the card `but`,
/// and answers how many it tapped.
pub fn tap_all_mana_but(engine: &mut Engine, seat: PlayerId, but: Option<CardIndex>) -> (n: usize)
    requires
        old(engine).wf(),
    ensures
        final(engine).wf(),
{
    tap_mana_where(engine, seat, None, but)
}

/// A default answer to whatever the engine waits for: keep the hand, pass
/// priority, or take the first options offered (as few as allowed, in the
/// order offered), and decline to pay.
pub fn answer_one(engine: &Engine) -> (r: Option<(PlayerId, PlayerAction)>)
    ensures
        r.is_some() ==> r.unwrap().0 == engine.pending.decider(),
{
    match &engine.pending {
        Pending::Mulligan { player } => Some((*player, PlayerAction::KeepHand)),
        Pending::Priority { player, .. } => Some((*player, PlayerAction::PassPriority)),
        Pending::ChooseColor { player, options } => {
            if options.len() > 0 {
                Some((*player, PlayerAction::ChooseColor(options[0])))
            } else {
                None
            }
        },
        Pending::ChooseTargets { player, options, player_options, .. } => {
            if options.len() > 0 {
                let mut objects: Vec<ObjectId> = Vec::new();
                objects.push(options[0]);
                Some((*player, PlayerAction::ChooseTargets { objects, players: Vec::new() }))
            } else if player_options.len() > 0 {
                let mut players: Vec<PlayerId> = Vec::new();
                players.push(player_options[0]);
                Some((*player, PlayerAction::ChooseTargets { objects: Vec::new(), players }))
            } else {
                None
            }
        },
        Pending::ChooseCards { player, options, min, .. } => {
            let mut objects: Vec<ObjectId> = Vec::new();
            let mut i: usize = 0;
            while i < options.len() && (i as u64) < (*min as u64)
                decreases options@.len() - i,
            {
                objects.push(options[i]);
                i = i + 1;
            }
            Some((*player, PlayerAction::ChooseObjects { objects }))
        },
        Pending::ChooseCastMode { player, .. } => Some((*player, PlayerAction::ChooseMode(0))),
        Pending::ChooseSubtype { player, options } => {
            if options.len() > 0 {
                Some((*player, PlayerAction::ChooseSubtype(options[0])))
            } else {
                None
            }
        },
        Pending::OrderObjects { player, objects } => Some(
            (*player, PlayerAction::OrderObjects { objects: crate::vecs::copy_ids(objects) }),
        ),
        Pending::YesNo { player, .. } => Some((*player, PlayerAction::YesNo(false))),
        Pending::ChooseNumber { player, min, .. } => Some((*player, PlayerAction::ChooseNumber(*min))),
        Pending::ChooseAttackers { player, .. } => Some(
            (*player, PlayerAction::DeclareAttackers { attackers: Vec::new() }),
        ),
        Pending::ChooseBlockers { player, .. } => Some(
            (*player, PlayerAction::DeclareBlockers { blocks: Vec::new() }),
        ),
    }
}

/// Answers the engine with [`answer_one`] until `pred` holds, and answers
/// whether it came to hold.
pub fn answer_until<F: Fn(&Engine) -> bool>(engine: &mut Engine, pred: F) -> (reached: bool)
    requires
        old(engine).wf(),
        forall|e: &Engine| #[trigger] pred.requires((e,)),
    ensures
        final(engine).wf(),
        reached ==> pred.ensures((&*final(engine),), true),
        (forall|b: bool| #[trigger] pred.ensures((&*old(engine),), b) ==> b) ==> reached && *final(engine)
            == *old(engine),
{
    let mut fuel: u32 = DRIVE_BOUND;
    while fuel > 0
        invariant
            engine.wf(),
            forall|e: &Engine| #[trigger] pred.requires((e,)),
            (forall|b: bool| #[trigger] pred.ensures((&*old(engine),), b) ==> b) ==> fuel == DRIVE_BOUND
                && *engine == *old(engine),
        decreases fuel,
    {
        fuel = fuel - 1;
        if pred(&*engine) {
            return true;
        }
        match answer_one(engine) {
            Some((p, action)) => {
                if engine.apply(p, action).is_err() {
                    return false;
                }
            },
            None => {
                return false;
            },
        }
    }
    false
}

/// Walks to the first main phase of `seat` with priority to `seat`,
/// answering whatever is asked on the way; where the game stands there
/// already, nothing happens.
pub fn walk_to_own_main(engine: &mut Engine, seat: PlayerId) -> (reached: bool)
    requires
        old(engine).wf(),
    ensures
        final(engine).wf(),
{
    answer_until(engine, |e: &Engine| e.state.turn.phase == Phase::FirstMain && e.state.turn.active.0 == seat.0
        && e.waits_for_priority_of_exec(seat))
}

/// The objects of `card` that `seat` controls on the battlefield, or that
/// `seat` owns in another zone.
pub fn mine(engine: &Engine, seat: PlayerId, card: CardIndex, zone: Zone) -> (v: Vec<ObjectId>)
    ensures
        forall|k: int|
            0 <= k < v@.len() ==> is_one_of(
                engine.state,
                #[trigger] v@[k],
                crate::state::spec_location(zone, seat),
                card,
                if zone == Zone::Battlefield {
                    Some(seat)
                } else {
                    None
                },
            ),
{
    let loc = crate::state::location(zone, seat);
    if zone == Zone::Battlefield {
        all_in(engine, loc, card, Some(seat))
    } else {
        all_in(engine, loc, card, None)
    }
}

/// Puts a card of `card` from `seat`'s hand on top of their graveyard, as a
/// board is set up, and offers again what may be done; answers the card,
/// or nothing when no such card is in that hand. In this engine an object
/// keeps its id as it changes zones, so the answer names the card in the
/// graveyard too.
pub fn bury_from_hand(engine: &mut Engine, seat: PlayerId, card: CardIndex) -> (r: Option<ObjectId>)
    requires
        old(engine).wf(),
    ensures
        final(engine).wf(),
        r.is_none() <==> forall|id: ObjectId| !is_one_of(old(engine).state, id, ZoneLocation::Hand(seat), card, None),
        r.is_none() ==> *final(engine) == *old(engine),
        r matches Some(id) ==> is_one_of(old(engine).state, id, ZoneLocation::Hand(seat), card, None)
            && final(engine).state.obj(id) == crate::board::spec_moved(
            old(engine).state.obj(id),
            Zone::Graveyard,
            crate::catalog::spec_card_chars(old(engine).state.obj(id).card),
        ),
        final(engine).state.players == old(engine).state.players,
        final(engine).state.turn == old(engine).state.turn,
        r matches Some(id) ==> (old(engine).state.obj(id).zone == Zone::Hand && old(engine).state.obj(id).owner
            == seat ==> final(engine).state.zones.spec_list(ZoneLocation::Hand(seat)).len() == old(
            engine,
        ).state.zones.spec_list(ZoneLocation::Hand(seat)).len() - 1 && final(engine).state.zones.spec_list(
            ZoneLocation::Graveyard(seat),
        ) == old(engine).state.zones.spec_list(ZoneLocation::Graveyard(seat)).push(id)),
{
    let held = match in_hand(engine, seat, card) {
        Some(id) => id,
        None => {
            return None;
        },
    };
    engine.move_to(held, Zone::Graveyard, false);
    engine.refresh_offer();
    Some(held)
}

/// A duel whose starting player holds `card` alone, walked to their first
/// main phase, where they play it with face `face` up; answers the game and
/// the land, or nothing when it cannot be played.
pub fn play_land_face(card: CardIndex, face: u8) -> (r: Option<(Engine, ObjectId)>) {
    let p0 = PlayerId(0);
    let mut cards: Vec<CardIndex> = Vec::new();
    cards.push(card);
    let mut engine = Duel::new(0, crate::catalog::forest()).hand(0, cards.as_slice()).start();
    if keep_mulligans(&mut engine).is_err() || !reach_main_phase(&mut engine, p0) {
        return None;
    }
    let land = match in_hand(&engine, p0, card) {
        Some(id) => id,
        None => {
            return None;
        },
    };
    if engine.apply(p0, PlayerAction::PlayLand { card: land }).is_err() {
        return None;
    }
    let asks_face = match &engine.pending {
        Pending::ChooseCastMode { .. } => true,
        _ => false,
    };
    if asks_face && engine.apply(p0, PlayerAction::ChooseMode(face as usize)).is_err() {
        return None;
    }
    Some((engine, land))
}

/// Whether the game is at rest for `seat`: they hold priority and nothing
/// is on the stack or waiting to be done.
pub fn at_rest(engine: &Engine, seat: PlayerId) -> (b: bool)
    ensures
        b == (engine.waits_for_priority_of(seat) && engine.spec_stack_is_empty()),
{
    engine.waits_for_priority_of_exec(seat) && engine.stack_is_empty()
}

/// Puts the permanent `id` into its owner's graveyard, as a board is set
/// up; what a player holding priority may do is not worked out again.
pub fn destroy(engine: &mut Engine, id: ObjectId)
    requires
        old(engine).wf(),
    ensures
        final(engine).wf(),
{
    if engine.on_battlefield(id) {
        engine.move_to(id, Zone::Graveyard, false);
    }
}

} // verus!
