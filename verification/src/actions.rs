//! What a player does: the engine checks an action against what it waits
//! for and either refuses it, changing nothing, or carries it out.

use vstd::prelude::*;
use crate::cards::{AbilityKind, Cost, Effect, EntryChoice, ManaRider, TargetSpec};
use crate::catalog::{card_chars, card_entry};
use crate::engine::{Engine, EngineError, Job, Pending};
use crate::ids::{ObjectId, PlayerId};
use crate::mana::ManaColor;
use crate::query::{colors_in, intrinsic_colors, is_sick};
use crate::sets::Subtype;
use crate::state::{GameObject, GameState, TurnState, Zone};

verus! {

/// Whether `c` is among `v`.
pub fn has_color(v: &Vec<ManaColor>, c: ManaColor) -> (r: bool)
    ensures
        r == v@.contains(c),
{
    let mut i: usize = 0;
    while i < v.len()
        invariant
            i <= v@.len(),
            forall|j: int| 0 <= j < i ==> v@[j] != c,
        decreases v@.len() - i,
    {
        if v[i] == c {
            return true;
        }
        i = i + 1;
    }
    false
}

/// Whether `s` is among `v`.
pub fn has_subtype(v: &Vec<Subtype>, s: Subtype) -> (r: bool)
    ensures
        r == v@.contains(s),
{
    let mut i: usize = 0;
    while i < v.len()
        invariant
            i <= v@.len(),
            forall|j: int| 0 <= j < i ==> v@[j] != s,
        decreases v@.len() - i,
    {
        if v[i] == s {
            return true;
        }
        i = i + 1;
    }
    false
}

/// Whether playing the card `c` is plain: no work is in hand but target
/// choices for abilities, no creature is about to die, and the card is a
/// land that is not a creature, asks nothing as it enters, and has no land
/// on its back face.
pub open spec fn plain_entry(e: Engine, c: crate::ids::CardIndex) -> bool {
    &&& e.spec_only_targets_work()
    &&& crate::flow::spec_nothing_dies(e.state)
    &&& crate::catalog::spec_card_chars(c).types.0 & crate::sets::spec_type_bit(crate::sets::TypeSet::CREATURE) == 0
    &&& crate::catalog::spec_card_entry(c).choice is Nothing
    &&& (crate::catalog::spec_card_entry(c).back matches Some(b) ==> !crate::query::spec_is_land_card(b))
}

/// Whether a cost asks nothing but, perhaps, the tap of its source.
pub open spec fn spec_tap_only(c: Cost) -> bool {
    &&& c.mana == (crate::mana::ManaCost { generic: 0, white: 0, blue: 0, black: 0, red: 0, green: 0, colorless: 0 })
    &&& c.hybrid.is_none()
    &&& c.life == 0
    &&& !c.sacrifice_self
    &&& c.remove_counters.is_none()
    &&& c.sacrifice.is_none()
    &&& !c.discard
    &&& c.tap_other.is_none()
    &&& c.remove_any.is_none()
}

/// Whether activating ability `index` of `source` is a plain mana
/// ability of `p` that may be activated now with no work in hand: it
/// costs at most the tap of its source, does nothing besides making mana,
/// and makes a fixed amount of a colour or one for each permanent of a kind
/// its controller controls.
pub open spec fn spec_plain_mana(e: Engine, p: PlayerId, source: ObjectId, index: u32) -> bool {
    &&& e.spec_quiet()
    &&& e.spec_activation(p, source, index) matches Some(a)
    &&& a.kind == AbilityKind::Mana
    &&& spec_tap_only(a.cost)
    &&& a.rider == ManaRider::Plain
    &&& (a.effect is AddMana || a.effect is AddPerPermanent)
}

/// Whether `after` is what activating the plain mana ability `a` of
/// `source` in `before` leaves: the source tapped where the cost taps it,
/// and `p`'s pool holding the mana the ability makes, counted on the board
/// of `before`, and nothing else new.
pub open spec fn spec_mana_made(before: Engine, after: Engine, p: PlayerId, source: ObjectId, a: crate::cards::Ability) -> bool {
    &&& after.state.obj(source).tapped == (before.state.obj(source).tapped || a.cost.tap)
    &&& after.waits_for_priority_of(p)
    &&& match a.effect {
        Effect::AddMana(c, n) => crate::effects::spec_gained(before.state, after.state, p, c, n as int),
        Effect::AddPerPermanent(c, f) => crate::effects::spec_gained(
            before.state,
            after.state,
            p,
            c,
            crate::mana::spec_min(crate::rules::spec_count_all_yours(before.state, p, f) as int, u32::MAX as int),
        ),
        _ => true,
    }
}

/// Whether, from `before` to `after`, `source` became tapped and `p`'s pool
/// gained one mana of `c` (held within `u32`) and nothing else, with no
/// work left in hand.
pub open spec fn spec_tapped_for_one(before: Engine, after: Engine, p: PlayerId, source: ObjectId, c: ManaColor) -> bool {
    let was = before.state.players@[p.slot()].mana_pool;
    let now = after.state.players@[p.slot()].mana_pool;
    &&& after.state.obj(source).tapped
    &&& now.amount(c) == crate::mana::spec_min(was.amount(c) + 1, u32::MAX as int)
    &&& forall|d: ManaColor| d != c ==> #[trigger] now.amount(d) == was.amount(d)
    &&& after.waits_for_priority_of(p)
}

/// Whether the land `card`, played by `p` from the engine `before`, stands
/// in `after` on the battlefield under `p`'s control, tapped exactly when
/// its entry rule says so as the land is played.
pub open spec fn spec_land_arrived(before: Engine, after: Engine, p: PlayerId, card: ObjectId) -> bool {
    &&& after.state.zones.battlefield@.contains(card)
    &&& after.state.obj(card).zone == Zone::Battlefield
    &&& after.state.obj(card).controller == p
    &&& after.state.obj(card).tapped == crate::rules::spec_enters_tapped(
        GameState { turn: TurnState { lands_played: 1, ..before.state.turn }, ..before.state },
        p,
        crate::catalog::spec_card_entry(before.state.obj(card).card).rule,
        card,
    )
}

impl Engine {
    /// Whether the engine waits for `p` to act with priority.
    pub open spec fn waits_for_priority_of(self, p: PlayerId) -> bool {
        self.pending matches Pending::Priority { player, .. } && player == p
    }

    /// Pays what `cost` asks of `p` for an ability of `source`, but the
    /// sacrifice of another permanent, which waits for a choice. A card in
    /// hand whose ability is paid for is discarded.
    #[verifier::rlimit(100)]
    pub fn pay_cost(&mut self, p: PlayerId, source: ObjectId, cost: &Cost)
        requires
            old(self).wf(),
        ensures
            final(self).wf(),
            final(self).state.turn == old(self).state.turn,
            final(self).state.life_of(p) == crate::state::clamp_i32(old(self).state.life_of(p) - cost.life),
            cost.hybrid.is_none() && old(self).state.players@[p.slot()].mana_pool.can_pay(cost.mana)
                ==> final(self).state.players@[p.slot()].mana_pool.holds(
                old(self).state.players@[p.slot()].mana_pool.after_paying(cost.mana),
            ),
            old(self).state.has(source) && !cost.sacrifice_self && old(self).state.obj(source).zone
                != Zone::Hand ==> final(self).state.obj(source).tapped == (old(self).state.obj(
                source,
            ).tapped || cost.tap),
            old(self).state.has(source) && (cost.sacrifice_self || old(self).state.obj(source).zone
                == Zone::Hand) ==> final(self).state.obj(source).zone == Zone::Graveyard,
            old(self).state.has(source) && !cost.sacrifice_self && old(self).state.obj(source).zone != Zone::Hand
                && cost.remove_counters.is_none() ==> Engine::same_but_state(*old(self), *final(self))
                && final(self).state.zones == old(self).state.zones
                && final(self).state.objects@ == old(self).state.objects@.update(
                source.0 as int,
                GameObject { tapped: old(self).state.obj(source).tapped || cost.tap, ..old(self).state.obj(source) },
            ),
    {
        let i = p.index();
        match cost.hybrid {
            Some(h) => {
                let first = cost.mana.with_one(h.first);
                if !self.state.players[i].mana_pool.pay(first) {
                    let _ = self.state.players[i].mana_pool.pay(cost.mana.with_one(h.second));
                }
            },
            None => {
                let _ = self.state.players[i].mana_pool.pay(cost.mana);
            },
        }
        if cost.life > 0 {
            self.state.change_life(p, -(cost.life as i64));
        }
        if !self.state.contains(source) {
            return;
        }
        let o = self.state.get(source);
        let mut n = o;
        if cost.tap {
            n = GameObject { tapped: true, ..n };
        }
        match cost.remove_counters {
            Some(c) => {
                if c.n <= n.counters.count(c.kind) {
                    n = GameObject { counters: n.counters.removed(c.kind, c.n), ..n };
                }
            },
            None => {},
        }
        self.set_object(n);
        if cost.sacrifice_self || o.zone == Zone::Hand {
            self.move_to(source, Zone::Graveyard, false);
        }
    }

    /// Player `p` activates ability `index` of `source`. Its costs are paid
    /// at once; a mana ability then makes its mana, and any other ability
    /// goes on the stack once its targets are chosen.
    pub fn activate_ability(&mut self, p: PlayerId, source: ObjectId, index: u32) -> (r: Result<(), EngineError>)
        requires
            old(self).wf(),
        ensures
            final(self).wf(),
            final(self).state.turn == old(self).state.turn,
            r.is_err() ==> *final(self) == *old(self),
            r.is_ok() ==> old(self).pending.decider() == p,
            r.is_ok() ==> old(self).waits_for_priority_of(p),
            r.is_ok() ==> old(self).state.is_ability_source_of(source, p),
            r.is_ok() <==> old(self).waits_for_priority_of(p) && old(self).spec_activation(p, source, index).is_some(),
            r.is_ok() && spec_plain_mana(*old(self), p, source, index) ==> spec_mana_made(
                *old(self),
                *final(self),
                p,
                source,
                old(self).spec_activation(p, source, index).unwrap(),
            ),
            r.is_ok() && old(self).jobs@.len() == 0 && old(self).spec_activation(p, source, index).unwrap().cost.remove_any
                is Some && old(self).state.obj(source).zone == Zone::Battlefield ==> final(self).state
                == old(self).state && final(self).jobs@.len() == 1 && final(self).pending == (Pending::ChooseNumber {
                player: p,
                min: 0,
                max: old(self).state.obj(source).counters.spec_count(
                    old(self).spec_activation(p, source, index).unwrap().cost.remove_any.unwrap(),
                ),
            }) && final(self).triggers == old(self).triggers && final(self).resolving == old(self).resolving
                && final(self).jobs@[0] == (Job::AnnounceX {
                player: p,
                source,
                ability: old(self).spec_activation(p, source, index).unwrap(),
            }),
    {
        if !self.waits_for_priority_of_exec(p) {
            return Err(EngineError::NotYourDecision);
        }
        let a = match self.can_activate(p, source, index) {
            Some(a) => a,
            None => {
                return Err(EngineError::IllegalAction);
            },
        };
        if a.cost.remove_any.is_some() {
            self.priority = p;
            self.passes = 0;
            self.jobs.push(Job::AnnounceX { player: p, source, ability: a });
            self.settle();
            return Ok(());
        }
        self.pay_cost(p, source, &a.cost);
        let ghost paid = *self;
        proof {
            if spec_plain_mana(*old(self), p, source, index) {
                let pool = old(self).state.players@[p.slot()].mana_pool;
                assert(pool.can_pay(a.cost.mana));
                assert(pool.holds(pool.after_paying(a.cost.mana)));
                assert forall|c: ManaColor| #[trigger] self.state.players@[p.slot()].mana_pool.amount(c) == pool.amount(c) by {
                    match c {
                        ManaColor::White => {},
                        ManaColor::Blue => {},
                        ManaColor::Black => {},
                        ManaColor::Red => {},
                        ManaColor::Green => {},
                        ManaColor::Colorless => {},
                    }
                }
                assert forall|i: int| 0 <= i < self.state.objects@.len() implies !#[trigger] crate::flow::spec_dies(
                    self.state.objects@[i],
                ) by {
                    assert(!crate::flow::spec_dies(old(self).state.objects@[i]));
                    if i == source.0 as int {
                        assert(self.state.objects@[i].chars() == old(self).state.objects@[i].chars());
                    } else {
                        assert(self.state.objects@[i] == old(self).state.objects@[i]);
                    }
                }
                match a.effect {
                    Effect::AddPerPermanent(c, f) => {
                        assert forall|j: int| 0 <= j < old(self).state.objects@.len() implies crate::rules::counts_for(
                            #[trigger] old(self).state.objects@[j],
                            p,
                            f,
                            crate::rules::spec_no_object(),
                        ) == crate::rules::counts_for(self.state.objects@[j], p, f, crate::rules::spec_no_object()) by {
                            if j == source.0 as int {
                                assert(self.state.objects@[j].chars() == old(self).state.objects@[j].chars());
                            }
                        }
                        crate::rules::lemma_count_in_same_where_counting_agrees(
                            old(self).state,
                            self.state,
                            old(self).state.zones.battlefield@,
                            p,
                            f,
                            crate::rules::spec_no_object(),
                        );
                    },
                    _ => {},
                }
            }
        }
        self.priority = p;
        self.passes = 0;
        match a.kind {
            AbilityKind::Mana => {
                let simple = match a.effect {
                    Effect::AddMana(_, _) => true,
                    Effect::AddPerPermanent(_, _) => true,
                    _ => false,
                };
                if self.jobs.len() == 0 && simple && a.rider == ManaRider::Plain && a.cost.sacrifice.is_none()
                    && !a.cost.discard && a.cost.tap_other.is_none() {
                    // With no work in hand these would be the first jobs, run at once.
                    self.mana_effect(p, source, a);
                    proof {
                        if spec_plain_mana(*old(self), p, source, index) {
                            assert(self.spec_quiet());
                            assert(self.state.obj(source).tapped == (old(self).state.obj(source).tapped || a.cost.tap));
                            match a.effect {
                                Effect::AddMana(c, n) => {
                                    assert(crate::effects::spec_gained(old(self).state, self.state, p, c, n as int));
                                },
                                Effect::AddPerPermanent(c, f) => {
                                    assert(crate::effects::spec_gained(
                                        old(self).state,
                                        self.state,
                                        p,
                                        c,
                                        crate::mana::spec_min(
                                            crate::rules::spec_count_all_yours(old(self).state, p, f) as int,
                                            u32::MAX as int,
                                        ),
                                    ));
                                },
                                _ => {},
                            }
                        }
                    }
                } else {
                    self.push_chosen_costs(p, source, &a.cost);
                    self.jobs.push(Job::ManaEffect { player: p, source, ability: a });
                    self.jobs.push(Job::Rider { player: p, source, rider: a.rider });
                }
            },
            _ => {
                self.draft = Some(
                    crate::engine::StackItem {
                        source,
                        controller: p,
                        ability: a,
                        targets: Vec::new(),
                        target_players: Vec::new(),
                    },
                );
                match a.target {
                    TargetSpec::NoTarget => {},
                    _ => self.jobs.push(Job::Targets),
                }
                self.push_chosen_costs(p, source, &a.cost);
                self.jobs.push(Job::PushDraft);
            },
        }
        self.settle();
        Ok(())
    }

    /// Queues the parts of `cost` that `p` pays by choosing an object: a
    /// permanent to sacrifice, a card to discard, a permanent to tap.
    pub fn push_chosen_costs(&mut self, p: PlayerId, source: ObjectId, cost: &Cost)
        requires
            old(self).wf(),
        ensures
            final(self).wf(),
            final(self).state == old(self).state,
            final(self).pending == old(self).pending,
    {
        match cost.sacrifice {
            Some(f) => self.jobs.push(Job::SacrificeCost { player: p, filter: f }),
            None => {},
        }
        if cost.discard {
            self.jobs.push(Job::DiscardCost { player: p, source });
        }
        match cost.tap_other {
            Some(f) => self.jobs.push(Job::TapCost { player: p, filter: f, source }),
            None => {},
        }
    }

    /// Whether the engine waits for `p` to act with priority.
    pub fn waits_for_priority_of_exec(&self, p: PlayerId) -> (b: bool)
        ensures
            b == self.waits_for_priority_of(p),
    {
        match &self.pending {
            Pending::Priority { player, .. } => player.0 == p.0,
            _ => false,
        }
    }

    /// Player `p` taps `source` for the mana its basic land types give
    /// (CR 305.6); with more than one type they choose the colour.
    pub fn activate_intrinsic(&mut self, p: PlayerId, source: ObjectId) -> (r: Result<(), EngineError>)
        requires
            old(self).wf(),
        ensures
            final(self).wf(),
            final(self).state.turn == old(self).state.turn,
            r.is_err() ==> *final(self) == *old(self),
            r.is_ok() ==> old(self).pending.decider() == p,
            r.is_ok() ==> old(self).waits_for_priority_of(p),
            r.is_ok() ==> old(self).state.is_permanent_of(source, p),
            r.is_ok() ==> !old(self).state.obj(source).tapped,
            r.is_ok() <==> old(self).waits_for_priority_of(p) && old(self).state.is_permanent_of(source, p)
                && !old(self).state.obj(source).tapped && !crate::query::spec_is_sick(
                old(self).state.obj(source),
                old(self).state.turn.number,
            ) && crate::query::spec_intrinsic_colors(old(self).state.obj(source).chars()) & 0x1f != 0,
            r.is_ok() && old(self).spec_quiet() && crate::query::spec_colors_in(
                crate::query::spec_intrinsic_colors(old(self).state.obj(source).chars()),
            ).len() == 1 ==> spec_tapped_for_one(
                *old(self),
                *final(self),
                p,
                source,
                crate::query::spec_colors_in(crate::query::spec_intrinsic_colors(old(self).state.obj(source).chars()))[0],
            ),
    {
        if !self.waits_for_priority_of_exec(p) {
            return Err(EngineError::NotYourDecision);
        }
        if !self.state.contains(source) {
            return Err(EngineError::IllegalAction);
        }
        let o = self.state.get(source);
        if o.zone != Zone::Battlefield || o.controller.index() != p.index() || o.tapped || is_sick(
            &o,
            self.state.turn.number,
        ) {
            return Err(EngineError::IllegalAction);
        }
        let m = intrinsic_colors(&o.characteristics());
        let colors = colors_in(m);
        if colors.len() == 0 {
            return Err(EngineError::IllegalAction);
        }
        let ghost before = *self;
        self.set_object(GameObject { tapped: true, ..o });
        proof {
            if old(self).spec_quiet() {
                assert forall|i: int| 0 <= i < self.state.objects@.len() implies !#[trigger] crate::flow::spec_dies(
                    self.state.objects@[i],
                ) by {
                    assert(!crate::flow::spec_dies(before.state.objects@[i]));
                    if i == source.0 as int {
                        assert(self.state.objects@[i].chars() == before.state.objects@[i].chars());
                    }
                }
            }
        }
        self.priority = p;
        self.passes = 0;
        if colors.len() == 1 {
            let c = colors[0];
            self.add_mana(p, c, 1, None);
        } else {
            self.jobs.push(Job::ManaChoice { player: p, colors: m, amount: 1, times: 1, restriction: None });
        }
        self.settle();
        Ok(())
    }

    /// Player `p` plays the land card `card` from their hand. A modal
    /// double-faced card asks which face is played first.
    pub fn play_land(&mut self, p: PlayerId, card: ObjectId) -> (r: Result<(), EngineError>)
        requires
            old(self).wf(),
        ensures
            final(self).wf(),
            r.is_err() ==> *final(self) == *old(self),
            r.is_ok() ==> old(self).pending.decider() == p,
            r.is_ok() ==> final(self).state.turn == (TurnState { lands_played: 1, ..old(self).state.turn }),
            r.is_ok() ==> old(self).waits_for_priority_of(p),
            r.is_ok() ==> old(self).state.obj(card).zone == Zone::Hand,
            r.is_ok() ==> old(self).state.turn.lands_played == 0,
            r.is_ok() ==> crate::query::spec_is_land_card(old(self).state.obj(card).card),
            r.is_ok() <==> old(self).waits_for_priority_of(p) && old(self).spec_may_play_land(p, card)
                && old(self).jobs@.len() == 0,
            r.is_ok() && plain_entry(*old(self), old(self).state.obj(card).card) ==> spec_land_arrived(
                *old(self),
                *final(self),
                p,
                card,
            ),
    {
        if !self.waits_for_priority_of_exec(p) {
            return Err(EngineError::NotYourDecision);
        }
        if !self.can_play_land(p, card) {
            return Err(EngineError::IllegalAction);
        }
        self.state.turn.lands_played = 1;
        self.priority = p;
        self.passes = 0;
        let c = self.state.get(card).card;
        let back = card_entry(c).back;
        match back {
            Some(b) => {
                if crate::query::is_land_card(b) {
                    self.jobs.push(Job::PlayFace { player: p, card });
                    self.settle();
                    return Ok(());
                }
            },
            None => {},
        }
        self.finish_play_land(p, card, 0);
        Ok(())
    }

    /// The land `card` is put onto the battlefield under `p`'s control with
    /// face `face` up, makes the choices it is entered with, and sets off
    /// the triggers of playing it.
    pub fn finish_play_land(&mut self, p: PlayerId, card: ObjectId, face: u8)
        requires
            old(self).wf(),
        ensures
            final(self).wf(),
            final(self).state.turn == old(self).state.turn,
            face == 0 && old(self).state.has(card) && plain_entry(*old(self), old(self).state.obj(card).card)
                ==> final(self).state.obj(card).zone == Zone::Battlefield && final(self).state.obj(card).controller
                == p && final(self).state.obj(card).tapped == crate::rules::spec_enters_tapped(
                old(self).state,
                p,
                crate::catalog::spec_card_entry(old(self).state.obj(card).card).rule,
                card,
            ) && final(self).state.zones.battlefield@.contains(card),
    {
        if !self.state.contains(card) {
            self.settle();
            return;
        }
        let c = self.state.get(card).card;
        let face_card = if face == 1 {
            match card_entry(c).back {
                Some(b) => b,
                None => c,
            }
        } else {
            c
        };
        let face_index: u8 = if face == 1 {
            1
        } else {
            0
        };
        let ghost before = self.state;
        self.state.put_onto_battlefield(card, p, face_index, face_card);
        proof {
            if face == 0 && plain_entry(*old(self), c) {
                assert forall|i: int| 0 <= i < self.state.objects@.len() implies !#[trigger] crate::flow::spec_dies(
                    self.state.objects@[i],
                ) by {
                    if i != card.0 as int {
                        assert(self.state.objects@[i] == before.objects@[i]);
                    } else {
                        assert(self.state.objects@[i] == self.state.obj(card));
                    }
                }
            }
        }
        match card_entry(face_card).choice {
            EntryChoice::Nothing => {},
            EntryChoice::Color => self.jobs.push(Job::EntryColor { object: card, except: 0 }),
            EntryChoice::ColorOtherThan(c) => self.jobs.push(
                Job::EntryColor { object: card, except: crate::sets::color_bit(c) },
            ),
            EntryChoice::LorwynTribe => self.jobs.push(Job::EntrySubtype { object: card }),
        }
        self.land_played_triggers(p, card);
        self.settle();
    }

    /// Player `p` casts the card `card` from their hand (CR 601.2): the card
    /// moves to the stack, its cost is paid (restricted mana that may be
    /// spent on it first), and the spell goes on the stack once its target
    /// is chosen.
    pub fn cast_spell(&mut self, p: PlayerId, card: ObjectId) -> (r: Result<(), EngineError>)
        requires
            old(self).wf(),
        ensures
            final(self).wf(),
            final(self).state.turn == old(self).state.turn,
            r.is_err() ==> *final(self) == *old(self),
            r.is_ok() ==> old(self).pending.decider() == p,
            r.is_ok() ==> old(self).waits_for_priority_of(p),
            r.is_ok() ==> old(self).spec_may_cast(p, card),
            r.is_ok() <==> old(self).waits_for_priority_of(p) && old(self).spec_may_cast(p, card)
                && old(self).jobs@.len() == 0 && (Engine::spec_spell_ability(old(self).state.obj(card).card).unwrap().target is NoTarget
                || crate::legal::spec_has_target(
                old(self).state,
                p,
                Engine::spec_spell_ability(old(self).state.obj(card).card).unwrap().target,
            )),
    {
        if !self.waits_for_priority_of_exec(p) {
            return Err(EngineError::NotYourDecision);
        }
        let (cost, a) = match self.can_cast(p, card) {
            Some(x) => x,
            None => {
                return Err(EngineError::IllegalAction);
            },
        };
        let c = self.state.get(card).card;
        let ch = card_chars(c);
        self.move_to(card, Zone::Stack, false);
        let _ = self.state.players[p.index()].mana_pool.pay_spell(cost, &ch);
        self.priority = p;
        self.passes = 0;
        let item = crate::engine::StackItem {
            source: card,
            controller: p,
            ability: a,
            targets: Vec::new(),
            target_players: Vec::new(),
        };
        match a.target {
            TargetSpec::NoTarget => self.stack.push(item),
            _ => {
                self.draft = Some(item);
                self.jobs.push(Job::Targets);
                self.jobs.push(Job::PushDraft);
            },
        }
        self.settle();
        Ok(())
    }

    /// Player `p` passes priority. When both have passed in succession the
    /// top of the stack resolves, or, with an empty stack, the game moves
    /// to the next step.
    pub fn pass_priority(&mut self, p: PlayerId) -> (r: Result<(), EngineError>)
        requires
            old(self).wf(),
        ensures
            final(self).wf(),
            r.is_err() ==> *final(self) == *old(self),
            r.is_ok() ==> old(self).pending.decider() == p,
            r.is_ok() <==> old(self).waits_for_priority_of(p),
            old(self).waits_for_priority_of(p) && old(self).spec_quiet() && old(self).passes == 0
                ==> final(self).state == old(self).state && final(self).stack == old(self).stack
                && final(self).passes == 1 && final(self).priority == p.spec_opponent()
                && final(self).waits_for_priority_of(p.spec_opponent()),
            old(self).waits_for_priority_of(p) && old(self).passes >= 1 && old(self).stack@.len() == 0 && !(
            old(self).jobs@.len() > 0 && old(self).jobs@[0] is PayWindow) && !Engine::spec_blockers_next(*old(self))
                && !Engine::spec_damage_next(*old(self)) ==> crate::flow::spec_step_passed(
                old(self).state.turn,
                final(self).state.turn,
            ),
    {
        if !self.waits_for_priority_of_exec(p) {
            return Err(EngineError::NotYourDecision);
        }
        if self.jobs.len() > 0 {
            match self.jobs[0] {
                Job::PayWindow { player, source, cost } => {
                    self.jobs.remove(0);
                    if !self.state.players[player.index()].mana_pool.pay(cost) {
                        self.move_to(source, Zone::Graveyard, false);
                    }
                    self.settle();
                    return Ok(());
                },
                _ => {},
            }
        }
        if self.passes >= 1 {
            self.passes = 0;
            if self.stack.len() > 0 {
                self.resolve_top();
            } else {
                self.step_ends();
            }
        } else {
            self.passes = 1;
            self.priority = p.opponent();
        }
        self.settle();
        Ok(())
    }

    /// Player `p` keeps their opening hand; once both have, the first turn
    /// begins.
    pub fn keep_hand(&mut self, p: PlayerId) -> (r: Result<(), EngineError>)
        requires
            old(self).wf(),
        ensures
            final(self).wf(),
            r.is_err() ==> *final(self) == *old(self),
            r.is_ok() ==> old(self).pending.decider() == p,
            r.is_ok() <==> (old(self).pending matches Pending::Mulligan { player } && player.0 == p.0),
            r.is_ok() && p.0 == 0 ==> final(self).pending == (Pending::Mulligan { player: PlayerId(1) }),
            r.is_ok() && p.0 != 0 ==> final(self).state.turn.number == 1 && final(self).state.turn.active
                == PlayerId(0) && final(self).state.turn.phase == crate::ids::Phase::Upkeep,
    {
        match &self.pending {
            Pending::Mulligan { player } => {
                if player.0 != p.0 {
                    return Err(EngineError::NotYourDecision);
                }
            },
            _ => {
                return Err(EngineError::WrongKindOfAction);
            },
        }
        if p.0 == 0 {
            self.pending = Pending::Mulligan { player: PlayerId(1) };
        } else {
            self.begin_game();
            self.settle();
        }
        Ok(())
    }
}

} // verus!
