//! What abilities do: the effects of an ability as it resolves, the mana a
//! mana ability makes, and the jobs that wait for a player's choice.

use vstd::prelude::*;
use crate::cards::{Ability, AbilityKind, Animation, Effect, Filter, ManaRider, Trigger, UnlessCost};
use crate::catalog::{card_chars, clue_token};
use crate::engine::{CastMode, CastModeKind, ChoicePrompt, Engine, Job, Pending, StackItem, YesNoPrompt};
use crate::ids::{ObjectId, PlayerId};
use crate::legal::any_permanent;
use crate::mana::{spec_min, ManaColor, RestrictedMana, SpendRestriction};
use crate::query::{colors_in, intrinsic_colors};
use crate::sets::{keyword_bit, type_bit, CounterKind, KeywordSet, Subtype, TypeSet};
use crate::state::{to_i32, GameObject, TokenKind, Zone, ZoneLocation};

verus! {

/// The five colours, white, blue, black, red and green, as a mask.
pub const ALL_COLORS: u8 = 0x1f;

/// The eight creature types the Lorwyn tribes name.
pub fn lorwyn_tribes() -> (v: Vec<Subtype>)
    ensures
        v@.len() == 8,
{
    let mut v: Vec<Subtype> = Vec::new();
    v.push(Subtype::Elemental);
    v.push(Subtype::Elf);
    v.push(Subtype::Faerie);
    v.push(Subtype::Giant);
    v.push(Subtype::Goblin);
    v.push(Subtype::Kithkin);
    v.push(Subtype::Merfolk);
    v.push(Subtype::Treefolk);
    v
}

/// A count held within `u32`.
pub fn clamp_u32(n: u64) -> (r: u32)
    ensures
        r == spec_min(n as int, u32::MAX as int),
{
    if n > u32::MAX as u64 {
        u32::MAX
    } else {
        n as u32
    }
}

/// Whether `p`'s pool in `after` holds `k` more mana of `c` than in
/// `before` (held within `u32`), and the same of every other colour.
pub open spec fn spec_gained(
    before: crate::state::GameState,
    after: crate::state::GameState,
    p: PlayerId,
    c: ManaColor,
    k: int,
) -> bool {
    &&& after.players@[p.slot()].mana_pool.amount(c) == spec_min(
        before.players@[p.slot()].mana_pool.amount(c) + k,
        u32::MAX as int,
    )
    &&& forall|d: ManaColor| d != c ==> #[trigger] after.players@[p.slot()].mana_pool.amount(d)
        == before.players@[p.slot()].mana_pool.amount(d)
}

/// Whether `p`'s pool in `after` holds one more mana of each of the two
/// different colours `c` and `d` than in `before` (held within `u32`), and
/// the same of every other colour.
pub open spec fn spec_gained_pair(
    before: crate::state::GameState,
    after: crate::state::GameState,
    p: PlayerId,
    c: ManaColor,
    d: ManaColor,
) -> bool {
    let was = before.players@[p.slot()].mana_pool;
    let now = after.players@[p.slot()].mana_pool;
    &&& now.amount(c) == spec_min(was.amount(c) + 1, u32::MAX as int)
    &&& now.amount(d) == spec_min(was.amount(d) + 1, u32::MAX as int)
    &&& forall|e: ManaColor| e != c && e != d ==> #[trigger] now.amount(e) == was.amount(e)
}

/// A count, held within `u32`.
pub fn count_u32(n: usize) -> (r: u32)
    ensures
        r == if n > u32::MAX { u32::MAX as int } else { n as int },
{
    if n > u32::MAX as usize {
        u32::MAX
    } else {
        n as u32
    }
}

/// The top `n` cards of a library list (its top last), the top card first.
pub fn top_cards(lib: &Vec<ObjectId>, n: u32) -> (r: Vec<ObjectId>)
    ensures
        r@.len() <= n,
        r@.len() <= lib@.len(),
        forall|k: int| 0 <= k < r@.len() ==> #[trigger] r@[k] == lib@[lib@.len() - 1 - k],
{
    let mut r: Vec<ObjectId> = Vec::new();
    let len = lib.len();
    let mut k: usize = 0;
    while k < len && (k as u64) < (n as u64)
        invariant
            len == lib@.len(),
            k <= len,
            k <= n,
            r@.len() == k,
            forall|j: int| 0 <= j < r@.len() ==> #[trigger] r@[j] == lib@[lib@.len() - 1 - j],
        decreases len - k,
    {
        r.push(lib[len - 1 - k]);
        k = k + 1;
    }
    r
}

impl Engine {
    /// Adds `n` mana of colour `c` to the pool of `p`, restricted by `r` when
    /// there is one.
    pub fn add_mana(&mut self, p: PlayerId, c: ManaColor, n: u32, r: Option<SpendRestriction>)
        requires
            old(self).wf(),
        ensures
            final(self).wf(),
            final(self).state.turn == old(self).state.turn,
            Engine::same_but_state(*old(self), *final(self)),
            final(self).state.objects == old(self).state.objects,
            final(self).state.zones == old(self).state.zones,
            final(self).state.monarch == old(self).state.monarch,
            final(self).state.players@.len() == 2,
            final(self).state.players@[1 - p.slot()] == old(self).state.players@[1 - p.slot()],
            final(self).state.players@[p.slot()].life == old(self).state.players@[p.slot()].life,
            r.is_none() ==> final(self).state.players@[p.slot()].mana_pool.amount(c) == spec_min(
                old(self).state.players@[p.slot()].mana_pool.amount(c) + n,
                u32::MAX as int,
            ),
            r.is_none() ==> forall|d: ManaColor|
                d != c ==> #[trigger] final(self).state.players@[p.slot()].mana_pool.amount(d) == old(
                    self,
                ).state.players@[p.slot()].mana_pool.amount(d),
            r.is_none() ==> final(self).state.players@[p.slot()].mana_pool.restricted_mana@ == old(
                self,
            ).state.players@[p.slot()].mana_pool.restricted_mana@,
            r.is_some() ==> final(self).state.players@[p.slot()].mana_pool.restricted_mana@ == old(
                self,
            ).state.players@[p.slot()].mana_pool.restricted_mana@.push(
                RestrictedMana { color: c, amount: spec_min(n as int, 0xffff) as u16, restriction: r.unwrap() },
            ),
            r.is_some() ==> forall|d: ManaColor|
                #[trigger] final(self).state.players@[p.slot()].mana_pool.amount(d) == old(
                    self,
                ).state.players@[p.slot()].mana_pool.amount(d),
    {
        let i = p.index();
        match r {
            Some(res) => {
                let amount: u16 = if n > 0xffff {
                    0xffff
                } else {
                    n as u16
                };
                self.state.players[i].mana_pool.add_restricted(c, amount, res);
            },
            None => {
                self.state.players[i].mana_pool.add(c, n);
            },
        }
    }

    /// Rewrites the object `id`, if there is one, with `f` applied.
    pub fn set_object(&mut self, o: GameObject)
        requires
            old(self).wf(),
        ensures
            final(self).wf(),
            final(self).state.turn == old(self).state.turn,
            Engine::same_but_state(*old(self), *final(self)),
            final(self).state.objects@ == if old(self).state.has(o.id) {
                old(self).state.objects@.update(o.id.0 as int, o)
            } else {
                old(self).state.objects@
            },
            final(self).state.players == old(self).state.players,
            final(self).state.zones == old(self).state.zones,
            final(self).state.monarch == old(self).state.monarch,
    {
        if self.state.contains(o.id) {
            self.state.put_object(o);
        }
    }

    /// The colours of mana that the other lands `p` controls could make:
    /// those of their basic land types and of their printed mana abilities
    /// that make mana of one named colour.
    pub fn colors_lands_could_make(&self, p: PlayerId, except: ObjectId) -> (m: u8)
        requires
            self.wf(),
    {
        let lands = Filter { types: type_bit(TypeSet::LAND), ..any_permanent() };
        let mine = self.state.permanents_matching(p, &lands);
        let mut m: u8 = 0;
        let mut i: usize = 0;
        while i < mine.len()
            invariant
                self.wf(),
                forall|k: int| 0 <= k < mine@.len() ==> self.state.has(#[trigger] mine@[k]),
            decreases mine@.len() - i,
        {
            let id = mine[i];
            if id.0 != except.0 {
                assert(self.state.has(mine@[i as int]));
                let o = self.state.get(id);
                m = m | intrinsic_colors(&o.characteristics());
                let count = crate::catalog::ability_count(o.face);
                let mut a: u32 = 0;
                while a < count
                    decreases count - a,
                {
                    match crate::catalog::ability_at(o.face, a) {
                        Some(ab) => match ab.effect {
                            Effect::AddMana(c, _) => {
                                m = m | crate::sets::color_bit(c);
                            },
                            Effect::AddRestricted(c, _, _) => {
                                m = m | crate::sets::color_bit(c);
                            },
                            Effect::AddPair(c, d) => {
                                m = m | crate::sets::color_bit(c) | crate::sets::color_bit(d);
                            },
                            Effect::AddEither(c, d, _) => {
                                m = m | crate::sets::color_bit(c) | crate::sets::color_bit(d);
                            },
                            Effect::AddChoice { colors, .. } => {
                                m = m | colors;
                            },
                            Effect::AddChosenColor => match o.chosen_color {
                                Some(c) => {
                                    m = m | crate::sets::color_bit(c);
                                },
                                None => {},
                            },
                            _ => {},
                        },
                        None => {},
                    }
                    a = a + 1;
                }
            }
            i = i + 1;
        }
        m & ALL_COLORS
    }

    /// Carries out the effect of a mana ability of `source` for `p`. Mana of
    /// a colour to be chosen waits for the choice, at the head of the work.
    pub fn mana_effect(&mut self, p: PlayerId, source: ObjectId, a: Ability)
        requires
            old(self).wf(),
        ensures
            final(self).wf(),
            final(self).state.turn == old(self).state.turn,
            a.effect matches Effect::AddMana(c, n) ==> final(self).state.players@[p.slot()].mana_pool.amount(c)
                == spec_min(old(self).state.players@[p.slot()].mana_pool.amount(c) + n, u32::MAX as int),
            a.effect matches Effect::AddMana(c, n) ==> forall|d: ManaColor|
                d != c ==> #[trigger] final(self).state.players@[p.slot()].mana_pool.amount(d) == old(
                    self,
                ).state.players@[p.slot()].mana_pool.amount(d),
            a.effect matches Effect::AddRestricted(c, n, r) ==> final(self).state.players@[p.slot()].mana_pool.restricted_mana@
                == old(self).state.players@[p.slot()].mana_pool.restricted_mana@.push(
                RestrictedMana { color: c, amount: spec_min(n as int, 0xffff) as u16, restriction: r },
            ),
            a.effect is AddMana || a.effect is AddRestricted || a.effect is AddPair || a.effect is AddPerPermanent
                || a.effect is AddPerPermanentOnBattlefield || a.effect is AddPerGraveyardCard
                ==> final(self).state.players@[1 - p.slot()] == old(self).state.players@[1 - p.slot()]
                && final(self).state.objects == old(self).state.objects && Engine::same_but_state(
                *old(self),
                *final(self),
            ),
            a.effect matches Effect::AddPair(c, d) ==> (if c == d {
                spec_gained(old(self).state, final(self).state, p, c, 2)
            } else {
                spec_gained_pair(old(self).state, final(self).state, p, c, d)
            }),
            a.effect matches Effect::AddPerPermanent(c, f) ==> spec_gained(
                old(self).state,
                final(self).state,
                p,
                c,
                spec_min(crate::rules::spec_count_all_yours(old(self).state, p, f) as int, u32::MAX as int),
            ),
            a.effect matches Effect::AddPerPermanentOnBattlefield(c, f) ==> spec_gained(
                old(self).state,
                final(self).state,
                p,
                c,
                spec_min(
                    (crate::rules::spec_count_all_yours(old(self).state, PlayerId(0), f)
                        + crate::rules::spec_count_all_yours(old(self).state, PlayerId(1), f)) as int,
                    u32::MAX as int,
                ),
            ),
            a.effect matches Effect::AddPerGraveyardCard(c, f) ==> spec_gained(
                old(self).state,
                final(self).state,
                p,
                c,
                spec_min(
                    crate::rules::count_printed(
                        old(self).state,
                        old(self).state.zones.spec_list(ZoneLocation::Graveyard(p)),
                        f,
                    ) as int,
                    u32::MAX as int,
                ),
            ),
            a.effect matches Effect::AddChoice { colors, amount, times, restriction } ==> final(self).state
                == old(self).state && final(self).jobs@ == (if times > 0 && colors & ALL_COLORS != 0 {
                old(self).jobs@.insert(0, Job::ManaChoice { player: p, colors, amount, times, restriction })
            } else {
                old(self).jobs@
            }),
    {
        match a.effect {
            Effect::AddMana(c, n) => self.add_mana(p, c, n, None),
            Effect::AddPair(c, d) => {
                self.add_mana(p, c, 1, None);
                self.add_mana(p, d, 1, None);
            },
            Effect::AddChoice { colors, amount, times, restriction } => {
                if times > 0 && colors & ALL_COLORS != 0 {
                    self.jobs.insert(0, Job::ManaChoice { player: p, colors, amount, times, restriction });
                }
            },
            Effect::AddRestricted(c, n, r) => self.add_mana(p, c, n, Some(r)),
            Effect::AddPerPermanent(c, f) => {
                let n = crate::rules::count_yours(&self.state, p, &f, ObjectId(u32::MAX));
                self.add_mana(p, c, clamp_u32(n), None);
            },
            Effect::AddPerPermanentOnBattlefield(c, f) => {
                let mine = crate::rules::count_yours(&self.state, PlayerId(0), &f, ObjectId(u32::MAX));
                let theirs = crate::rules::count_yours(&self.state, PlayerId(1), &f, ObjectId(u32::MAX));
                let n = if mine > u32::MAX as u64 || theirs > u32::MAX as u64 {
                    u32::MAX
                } else {
                    clamp_u32(mine + theirs)
                };
                self.add_mana(p, c, n, None);
            },
            Effect::AddPerGraveyardCard(c, f) => {
                let n = crate::rules::count_printed_in(&self.state, ZoneLocation::Graveyard(p), &f);
                self.add_mana(p, c, clamp_u32(n), None);
            },
            Effect::AddPrintedOrChosen(c) => {
                let chosen = if self.state.contains(source) {
                    self.state.get(source).chosen_color
                } else {
                    None
                };
                match chosen {
                    Some(d) => {
                        if d == c {
                            self.add_mana(p, c, 1, None);
                        } else {
                            self.jobs.insert(0, Job::ManaEither { player: p, first: c, second: d, times: 1 });
                        }
                    },
                    None => self.add_mana(p, c, 1, None),
                }
            },
            Effect::AddCommanderColor => {
                let m = self.state.players[p.index()].commander_colors & ALL_COLORS;
                let cs = colors_in(m);
                if cs.len() == 1 {
                    self.add_mana(p, cs[0], 1, None);
                } else if cs.len() > 1 {
                    self.jobs.insert(
                        0,
                        Job::ManaChoice { player: p, colors: m, amount: 1, times: 1, restriction: None },
                    );
                }
            },
            Effect::AddChosenColor => {
                if self.state.contains(source) {
                    match self.state.get(source).chosen_color {
                        Some(c) => self.add_mana(p, c, 1, None),
                        None => {},
                    }
                }
            },
            Effect::AddOneColorPerOther(f) => {
                let v = self.state.permanents_matching(p, &f);
                let mut n: u32 = 0;
                let mut i: usize = 0;
                while i < v.len()
                    decreases v@.len() - i,
                {
                    if v[i].0 != source.0 && n < u32::MAX {
                        n = n + 1;
                    }
                    i = i + 1;
                }
                if n > 0 {
                    self.jobs.insert(
                        0,
                        Job::ManaChoice { player: p, colors: ALL_COLORS, amount: n, times: 1, restriction: None },
                    );
                }
            },
            Effect::AddEither(c, d, times) => {
                if times > 0 {
                    self.jobs.insert(0, Job::ManaEither { player: p, first: c, second: d, times });
                }
            },
            Effect::AddWhatAnOpponentsLandCould => {
                let m = self.colors_lands_could_make(p.opponent(), source);
                let options = colors_in(m);
                if options.len() == 1 {
                    let c = options[0];
                    self.add_mana(p, c, 1, None);
                } else if options.len() > 1 {
                    self.jobs.insert(
                        0,
                        Job::ManaChoice { player: p, colors: m, amount: 1, times: 1, restriction: None },
                    );
                }
            },
            Effect::AddWhatALandCould => {
                let m = self.colors_lands_could_make(p, source);
                let options = colors_in(m);
                if options.len() == 1 {
                    let c = options[0];
                    self.add_mana(p, c, 1, None);
                } else if options.len() > 1 {
                    self.jobs.insert(
                        0,
                        Job::ManaChoice { player: p, colors: m, amount: 1, times: 1, restriction: None },
                    );
                }
            },
            _ => {},
        }
    }

    /// Pays the rider of a mana ability of `source`, controlled by `p`.
    pub fn mana_rider(&mut self, p: PlayerId, source: ObjectId, r: ManaRider)
        requires
            old(self).wf(),
        ensures
            final(self).wf(),
            final(self).state.turn == old(self).state.turn,
            Engine::same_but_state_and_triggers(*old(self), *final(self)),
    {
        if !self.state.contains(source) {
            return;
        }
        let o = self.state.get(source);
        match r {
            ManaRider::Plain => {},
            ManaRider::SkipNextUntap => self.set_object(GameObject { skip_untap: true, ..o }),
            ManaRider::TimeCounter => self.set_object(
                GameObject { counters: o.counters.added(CounterKind::Time, 1), ..o },
            ),
            ManaRider::SacrificeIfEmpty => {
                if o.zone == Zone::Battlefield && o.counters.count(CounterKind::Depletion) == 0
                    && o.counters.count(CounterKind::Mining) == 0 {
                    self.move_to(source, Zone::Graveyard, false);
                }
            },
            ManaRider::Pain => {
                self.state.change_life(p, -1);
            },
        }
    }

    /// Moves the object `id`, if there is one, to `zone` (for a library, on
    /// top, or at the bottom when `bottom`).
    pub fn move_to(&mut self, id: ObjectId, zone: Zone, bottom: bool)
        requires
            old(self).wf(),
        ensures
            final(self).wf(),
            final(self).state.turn == old(self).state.turn,
            final(self).state.players == old(self).state.players,
            final(self).state.objects@.len() == old(self).state.objects@.len(),
            Engine::same_but_state_and_triggers(*old(self), *final(self)),
            old(self).state.has(id) ==> final(self).state.obj(id) == crate::board::spec_moved(
                old(self).state.obj(id),
                zone,
                crate::catalog::spec_card_chars(old(self).state.obj(id).card),
            ),
            old(self).state.has(id) ==> forall|j: int|
                0 <= j < old(self).state.objects@.len() && j != id.0 ==> #[trigger] final(self).state.objects@[j]
                    == old(self).state.objects@[j],
            !old(self).state.has(id) ==> *final(self) == *old(self),
            old(self).state.has(id) ==> crate::board::spec_lists_after_move(
                old(self).state,
                final(self).state,
                id,
                zone,
                bottom,
            ),
    {
        if self.state.contains(id) {
            let o = self.state.get(id);
            self.state.move_object(id, zone, bottom, card_chars(o.card));
            if o.zone == Zone::Battlefield && zone == Zone::Graveyard {
                self.collect_triggers(id, o.controller, Trigger::PutIntoGraveyardFromBattlefield);
            }
        }
    }

    /// Moves every object of `ids` to `zone`.
    pub fn move_all(&mut self, ids: &Vec<ObjectId>, zone: Zone)
        requires
            old(self).wf(),
        ensures
            final(self).wf(),
            final(self).state.turn == old(self).state.turn,
            Engine::same_but_state_and_triggers(*old(self), *final(self)),
    {
        let mut i: usize = 0;
        while i < ids.len()
            invariant
                self.wf(),
                self.state.turn == old(self).state.turn,
                Engine::same_but_state_and_triggers(*old(self), *self),
            decreases ids@.len() - i,
        {
            self.move_to(ids[i], zone, false);
            i = i + 1;
        }
    }

    /// Whether `id` names a permanent on the battlefield.
    pub fn on_battlefield(&self, id: ObjectId) -> (b: bool)
        ensures
            b == (self.state.has(id) && self.state.obj(id).zone == Zone::Battlefield),
    {
        self.state.contains(id) && self.state.get(id).zone == Zone::Battlefield
    }

    /// Changes the permanent `id` (if it is one) as an effect until end of
    /// turn: power and toughness by `dp` and `dt`, keywords gained and lost.
    pub fn modify_until_eot(&mut self, id: ObjectId, dp: i32, dt: i32, gain: u32, lose: u32)
        requires
            old(self).wf(),
        ensures
            final(self).wf(),
            final(self).state.turn == old(self).state.turn,
            Engine::same_but_state(*old(self), *final(self)),
    {
        if !self.on_battlefield(id) {
            return;
        }
        let o = self.state.get(id);
        let p = to_i32(o.eot_power as i64 + dp as i64);
        let t = to_i32(o.eot_toughness as i64 + dt as i64);
        self.set_object(
            GameObject {
                eot_power: p,
                eot_toughness: t,
                eot_keywords: o.eot_keywords | gain,
                eot_lost_keywords: o.eot_lost_keywords | lose,
                ..o
            },
        );
    }

    /// Puts `n` counters of `kind` on the permanent `id`, if it is one.
    pub fn put_counters(&mut self, id: ObjectId, kind: CounterKind, n: u32)
        requires
            old(self).wf(),
        ensures
            final(self).wf(),
            final(self).state.turn == old(self).state.turn,
            Engine::same_but_state(*old(self), *final(self)),
    {
        if !self.on_battlefield(id) {
            return;
        }
        let o = self.state.get(id);
        let m = self.state.counters_put(o.controller, n);
        self.set_object(GameObject { counters: o.counters.added(kind, m), ..o });
    }

    /// The creatures `p` controls.
    pub fn creatures_of(&self, p: PlayerId) -> (v: Vec<ObjectId>)
        ensures
            forall|k: int| 0 <= k < v@.len() ==> self.state.is_permanent_of(#[trigger] v@[k], p),
            forall|k: int|
                0 <= k < v@.len() ==> self.state.obj(#[trigger] v@[k]).chars().types.0
                    & crate::sets::spec_type_bit(TypeSet::CREATURE) != 0,
    {
        let f = Filter { types: type_bit(TypeSet::CREATURE), ..any_permanent() };
        self.state.permanents_matching(p, &f)
    }

    /// Whether the first object target of `item` names an object in `zone`
    /// of `s`.
    pub open spec fn spec_object_target(s: crate::state::GameState, item: StackItem, zone: Zone) -> bool {
        &&& item.targets@.len() > 0
        &&& s.has(item.targets@[0])
        &&& s.obj(item.targets@[0]).zone == zone
    }

    /// The first object target of an item, if it names an object in the
    /// zone the ability's target lives in.
    pub fn object_target(&self, item: &StackItem, zone: Zone) -> (r: Option<ObjectId>)
        ensures
            r.is_some() ==> self.state.has(r.unwrap()),
            r.is_some() ==> self.state.obj(r.unwrap()).zone == zone,
            r.is_some() <==> Engine::spec_object_target(self.state, *item, zone),
            r.is_some() ==> r.unwrap() == item.targets@[0],
    {
        if item.targets.len() == 0 {
            return None;
        }
        let t = item.targets[0];
        if self.state.contains(t) && self.state.get(t).zone == zone {
            Some(t)
        } else {
            None
        }
    }

    /// The first player target of an item, if it has one.
    pub fn player_target(&self, item: &StackItem) -> (r: Option<PlayerId>)
        ensures
            r == (if item.target_players@.len() == 0 {
                None::<PlayerId>
            } else {
                Some(item.target_players@[0])
            }),
    {
        if item.target_players.len() == 0 {
            None
        } else {
            Some(item.target_players[0])
        }
    }

    /// Creates a token of `card` on the battlefield under `p`'s control.
    pub fn create_token(&mut self, p: PlayerId, card: crate::ids::CardIndex, kind: TokenKind)
        requires
            old(self).wf(),
        ensures
            final(self).wf(),
            final(self).state.turn == old(self).state.turn,
            Engine::same_but_state(*old(self), *final(self)),
    {
        if self.state.has_room() {
            let id = self.state.create_object(card, card_chars(card), p, Zone::Battlefield, kind);
            let _ = id;
        }
    }

    /// Carries out the effect of a resolving ability. Parts that wait for a
    /// player's choice are queued as jobs.
    pub fn do_effect(&mut self, item: &StackItem)
        requires
            old(self).wf(),
        ensures
            final(self).wf(),
            final(self).state.turn == old(self).state.turn,
            item.ability.effect matches Effect::GainLife(n) ==> final(self).state.life_of(item.controller)
                == crate::state::clamp_i32(old(self).state.life_of(item.controller) + n)
                && final(self).state.life_of(item.controller.spec_opponent()) == old(self).state.life_of(
                item.controller.spec_opponent(),
            ),
            item.ability.effect matches Effect::LoseLifeOpponents(n) ==> final(self).state.life_of(
                item.controller.spec_opponent(),
            ) == crate::state::clamp_i32(old(self).state.life_of(item.controller.spec_opponent()) - n)
                && final(self).state.life_of(item.controller) == old(self).state.life_of(item.controller),
            item.ability.effect matches Effect::DamageOpponents(n) ==> final(self).state.life_of(
                item.controller.spec_opponent(),
            ) == crate::state::clamp_i32(old(self).state.life_of(item.controller.spec_opponent()) - n)
                && final(self).state.life_of(item.controller) == old(self).state.life_of(item.controller),
            item.ability.effect is BecomeMonarch ==> final(self).state.monarch == Some(item.controller),
            item.ability.effect is DestroyTarget && Engine::spec_object_target(old(self).state, *item, Zone::Battlefield)
                ==> final(self).state.obj(item.targets@[0]).zone == Zone::Graveyard,
            item.ability.effect is ReturnTargetToHand && Engine::spec_object_target(old(self).state, *item, Zone::Battlefield)
                ==> final(self).state.obj(item.targets@[0]).zone == Zone::Hand,
            item.ability.effect is UntapTarget && Engine::spec_object_target(old(self).state, *item, Zone::Battlefield)
                ==> !final(self).state.obj(item.targets@[0]).tapped,
    {
        let me = item.controller;
        let opp = me.opponent();
        let active = self.state.turn.active;
        let other = active.opponent();
        match item.ability.effect {
            Effect::GainLife(n) => self.state.change_life(me, n as i64),
            Effect::GainLifePerPermanent(f) => {
                let n = self.state.all_permanents_matching(&f).len();
                self.state.change_life(me, count_u32(n) as i64);
            },
            Effect::GainLifePerYours(f) => {
                let n = self.state.permanents_matching(me, &f).len();
                self.state.change_life(me, count_u32(n) as i64);
            },
            Effect::LoseLifeOpponents(n) => self.state.change_life(opp, -(n as i64)),
            Effect::DamageOpponents(n) => self.state.change_life(opp, -(n as i64)),
            Effect::DamageTarget(n) => {
                match self.player_target(item) {
                    Some(p) => self.state.change_life(p, -(n as i64)),
                    None => match self.object_target(item, Zone::Battlefield) {
                        Some(t) => {
                            let o = self.state.get(t);
                            self.set_object(GameObject { damage: o.damage.saturating_add(n), ..o });
                        },
                        None => {},
                    },
                }
            },
            Effect::MillTarget(n) => match self.player_target(item) {
                Some(p) => self.state.mill(p, n),
                None => {},
            },
            Effect::MillTargetPerYours(f) => match self.player_target(item) {
                Some(p) => {
                    let n = self.state.permanents_matching(me, &f).len();
                    self.state.mill(p, count_u32(n));
                },
                None => {},
            },
            Effect::MillYou(n) => self.state.mill(me, n),
            Effect::Draw(d) => {
                let mut i: u32 = 0;
                while i < d
                    invariant
                        self.wf(),
                        self.state.turn == old(self).state.turn,
                    decreases d - i,
                {
                    self.state.draw_card(me);
                    i = i + 1;
                }
            },
            Effect::DrawThenDiscard(d, k) => {
                let mut i: u32 = 0;
                while i < d
                    invariant
                        self.wf(),
                        self.state.turn == old(self).state.turn,
                    decreases d - i,
                {
                    self.state.draw_card(me);
                    i = i + 1;
                }
                self.jobs.push(Job::Discard { player: me, n: k });
            },
            Effect::EachPlayerDrawsThenDiscards => {
                self.state.draw_card(active);
                self.state.draw_card(other);
                self.jobs.push(Job::Discard { player: active, n: 1 });
                self.jobs.push(Job::Discard { player: other, n: 1 });
            },
            Effect::EachPlayerDiscards => {
                self.jobs.push(Job::Discard { player: active, n: 1 });
                self.jobs.push(Job::Discard { player: other, n: 1 });
            },
            Effect::ExileAllGraveyards => {
                let g0 = crate::vecs::copy_ids(self.state.zones.list(ZoneLocation::Graveyard(PlayerId(0))));
                self.move_all(&g0, Zone::Exile);
                let g1 = crate::vecs::copy_ids(self.state.zones.list(ZoneLocation::Graveyard(PlayerId(1))));
                self.move_all(&g1, Zone::Exile);
            },
            Effect::ExileTargetPlayersGraveyard => match self.player_target(item) {
                Some(p) => {
                    let g = crate::vecs::copy_ids(self.state.zones.list(ZoneLocation::Graveyard(p)));
                    self.move_all(&g, Zone::Exile);
                },
                None => {},
            },
            Effect::ReturnSourceToHand => {
                if self.on_battlefield(item.source) {
                    self.move_to(item.source, Zone::Hand, false);
                }
            },
            Effect::SacrificeSource => {
                if self.on_battlefield(item.source) {
                    self.move_to(item.source, Zone::Graveyard, false);
                }
            },
            Effect::TargetCardToHand => match self.object_target(item, Zone::Graveyard) {
                Some(t) => self.move_to(t, Zone::Hand, false),
                None => {},
            },
            Effect::TargetCardToLibraryTop => match self.object_target(item, Zone::Graveyard) {
                Some(t) => self.move_to(t, Zone::Library, false),
                None => {},
            },
            Effect::AnimateSource(anim) => {
                if self.on_battlefield(item.source) {
                    let o = self.state.get(item.source);
                    self.set_object(GameObject { animated: Some(anim), ..o });
                }
            },
            Effect::PumpYourCreatures(p, t) => {
                let v = self.creatures_of(me);
                let mut i: usize = 0;
                while i < v.len()
                    invariant
                        self.wf(),
                        self.state.turn == old(self).state.turn,
                    decreases v@.len() - i,
                {
                    self.modify_until_eot(v[i], p, t, 0, 0);
                    i = i + 1;
                }
            },
            Effect::CountersOnYourCreatures(kind, n) => {
                let v = self.creatures_of(me);
                let mut i: usize = 0;
                while i < v.len()
                    invariant
                        self.wf(),
                        self.state.turn == old(self).state.turn,
                    decreases v@.len() - i,
                {
                    self.put_counters(v[i], kind, n);
                    i = i + 1;
                }
            },
            Effect::CountersOnTarget(kind, n) => match self.object_target(item, Zone::Battlefield) {
                Some(t) => self.put_counters(t, kind, n),
                None => {},
            },
            Effect::KeywordsToTarget(k) => match self.object_target(item, Zone::Battlefield) {
                Some(t) => self.modify_until_eot(t, 0, 0, k, 0),
                None => {},
            },
            Effect::KeywordsToYourCreatures(k) => {
                let v = self.creatures_of(me);
                let mut i: usize = 0;
                while i < v.len()
                    invariant
                        self.wf(),
                        self.state.turn == old(self).state.turn,
                    decreases v@.len() - i,
                {
                    self.modify_until_eot(v[i], 0, 0, k, 0);
                    i = i + 1;
                }
            },
            Effect::OpponentsCreaturesLoseHexproof => {
                let v = self.creatures_of(opp);
                let lose = keyword_bit(KeywordSet::HEXPROOF) | keyword_bit(KeywordSet::SHROUD);
                let mut i: usize = 0;
                while i < v.len()
                    invariant
                        self.wf(),
                        self.state.turn == old(self).state.turn,
                    decreases v@.len() - i,
                {
                    self.modify_until_eot(v[i], 0, 0, 0, lose);
                    i = i + 1;
                }
            },
            Effect::DestroyTarget => match self.object_target(item, Zone::Battlefield) {
                Some(t) => self.move_to(t, Zone::Graveyard, false),
                None => {},
            },
            Effect::DestroyTargetThenBasicSearch => match self.object_target(item, Zone::Battlefield) {
                Some(t) => {
                    let loser = self.state.get(t).controller;
                    self.move_to(t, Zone::Graveyard, false);
                    self.jobs.push(Job::BasicSearch { player: loser });
                    self.jobs.push(Job::BasicSearch { player: me });
                },
                None => {},
            },
            Effect::CountersOnSource(kind, n) => self.put_counters(item.source, kind, n),
            Effect::UntapTarget => match self.object_target(item, Zone::Battlefield) {
                Some(t) => {
                    let o = self.state.get(t);
                    self.set_object(GameObject { tapped: false, ..o });
                },
                None => {},
            },
            Effect::BecomeMonarch => {
                self.state.monarch = Some(me);
            },
            Effect::Investigate => self.create_token(me, clue_token(), TokenKind::Clue),
            Effect::CreateToken(card) => self.create_token(me, card, TokenKind::Other),
            Effect::ReturnTargetToHand => match self.object_target(item, Zone::Battlefield) {
                Some(t) => self.move_to(t, Zone::Hand, false),
                None => {},
            },
            Effect::ReturnALandYouControl => self.jobs.push(Job::ReturnLand { player: me }),
            Effect::SacrificeUnless(c) => self.jobs.push(Job::Unless { player: me, source: item.source, cost: c }),
            Effect::SearchLibrary(search) => self.jobs.push(Job::Search { player: me, search }),
            Effect::Scry(n) => self.jobs.push(Job::Scry { player: me, n }),
            Effect::Surveil(n) => self.jobs.push(Job::Surveil { player: me, n }),
            Effect::LookAndReorder(n) => self.jobs.push(Job::Reorder { player: me, n }),
            Effect::SacrificeLands(n) => self.jobs.push(Job::SacrificeLands { player: me, n }),
            Effect::TargetPlayerSacrificesCreature => match self.player_target(item) {
                Some(p) => self.jobs.push(Job::SacrificeCreature { player: p }),
                None => {},
            },
            Effect::Earthbend(n) => match self.object_target(item, Zone::Battlefield) {
                Some(t) => {
                    let o = self.state.get(t);
                    let anim = Animation {
                        power: 0,
                        toughness: 0,
                        types: type_bit(TypeSet::CREATURE),
                        keywords: keyword_bit(KeywordSet::HASTE),
                        until_end_of_turn: false,
                    };
                    self.set_object(GameObject { animated: Some(anim), ..o });
                    self.put_counters(t, CounterKind::P1P1, n);
                },
                None => {},
            },
            Effect::ShrinkTarget(p, t) => match self.object_target(item, Zone::Battlefield) {
                Some(x) => self.modify_until_eot(x, to_i32(-(p as i64)), to_i32(-(t as i64)), 0, 0),
                None => {},
            },
            _ => {},
        }
    }

    /// Begins the resolution of the top of the stack.
    pub fn resolve_top(&mut self)
        requires
            old(self).wf(),
        ensures
            final(self).wf(),
            final(self).state.turn == old(self).state.turn,
    {
        match self.stack.pop() {
            Some(item) => {
                if item.ability.kind == AbilityKind::Spell {
                    self.resolve_spell(&item);
                } else {
                    self.do_effect(&item);
                }
                self.resolving = Some(item);
            },
            None => {},
        }
    }

    /// A spell resolves (CR 608.3, 608.2n): a permanent spell enters the
    /// battlefield under its controller's control; an instant or sorcery
    /// does what it says and then goes to its owner's graveyard. A spell
    /// no longer on the stack does nothing.
    pub fn resolve_spell(&mut self, item: &StackItem)
        requires
            old(self).wf(),
        ensures
            final(self).wf(),
            final(self).state.turn == old(self).state.turn,
            !(old(self).state.has(item.source) && old(self).state.obj(item.source).zone == Zone::Stack)
                ==> *final(self) == *old(self),
            old(self).state.has(item.source) && old(self).state.obj(item.source).zone == Zone::Stack
                && crate::query::spec_is_permanent_card(old(self).state.obj(item.source).card)
                ==> final(self).state.obj(item.source).zone == Zone::Battlefield && final(self).state.obj(
                item.source,
            ).controller == item.controller && final(self).state.obj(item.source).card == old(
                self,
            ).state.obj(item.source).card,
    {
        let card = item.source;
        if !self.state.contains(card) || self.state.get(card).zone != Zone::Stack {
            return;
        }
        let c = self.state.get(card).card;
        if crate::query::is_permanent_card(c) {
            self.state.put_onto_battlefield(card, item.controller, 0, c);
            self.entry_triggers(card, item.controller);
        } else {
            self.do_effect(item);
            if self.state.contains(card) && self.state.get(card).zone == Zone::Stack {
                self.move_to(card, Zone::Graveyard, false);
            }
        }
    }

    /// Whether the work in hand begins with announcing how many counters of
    /// a kind to remove from a permanent still on the battlefield.
    pub open spec fn spec_announces(self) -> bool {
        &&& self.jobs@.len() > 0
        &&& self.jobs@[0] matches Job::AnnounceX { source, ability, .. }
        &&& ability.cost.remove_any is Some
        &&& self.state.has(source)
        &&& self.state.obj(source).zone == Zone::Battlefield
    }

    /// The question that announcement puts: a number from zero to the
    /// counters of that kind on the permanent.
    pub open spec fn spec_announcement(self) -> Pending {
        match self.jobs@[0] {
            Job::AnnounceX { player, source, ability } => Pending::ChooseNumber {
                player,
                min: 0,
                max: self.state.obj(source).counters.spec_count(ability.cost.remove_any.unwrap()),
            },
            _ => self.pending,
        }
    }

    /// Starts the job at the head of the work: it is done at once and
    /// leaves the queue (the answer is `true`), or it asks a player to decide
    /// and stays at the head until they do (the answer is `false`).
    pub fn start_job(&mut self) -> (done: bool)
        requires
            old(self).wf(),
            old(self).jobs@.len() > 0,
        ensures
            final(self).wf(),
            final(self).state.turn == old(self).state.turn,
            !done ==> final(self).jobs == old(self).jobs,
            !done && final(self).pending is Priority ==> final(self).pending.decider() == final(self).priority,
            old(self).spec_announces() ==> !done && final(self).state == old(self).state && final(self).stack
                == old(self).stack && final(self).pending == old(self).spec_announcement() && final(self).triggers
                == old(self).triggers && final(self).resolving == old(self).resolving && final(self).draft
                == old(self).draft,
            old(self).spec_only_targets_work() ==> final(self).state == old(self).state
                && final(self).spec_only_targets_work() && final(self).triggers == old(self).triggers,
            old(self).jobs@[0] is Targets && old(self).draft is Some && !done ==> spec_asks_targets_of(
                old(self).state,
                old(self).draft.unwrap(),
                final(self).pending,
            ),
    {
        let job = self.jobs[0];
        match job {
            Job::Targets => {
                let found = match &self.draft {
                    Some(x) => Some((x.controller, x.ability.target, x.ability.kind == AbilityKind::Spell, x.source)),
                    None => None,
                };
                match found {
                    Some((controller, target, is_spell, source)) => {
                        let (objs, players) = self.state.target_options(controller, &target);
                        if objs.len() == 0 && players.len() == 0 {
                            self.draft = None;
                            self.jobs.remove(0);
                            proof {
                                if old(self).spec_only_targets_work() {
                                    assert forall|k: int| 0 <= k < self.jobs@.len() implies (#[trigger] self.jobs@[k] is Targets
                                        || self.jobs@[k] is PushDraft) by {
                                        assert(self.jobs@[k] == old(self).jobs@[k + 1]);
                                    }
                                }
                            }
                            if is_spell {
                                self.move_to(source, Zone::Graveyard, false);
                            }
                            true
                        } else {
                            self.pending = Pending::ChooseTargets {
                                player: controller,
                                options: objs,
                                player_options: players,
                                min: 1,
                                max: 1,
                            };
                            false
                        }
                    },
                    None => {
                        self.jobs.remove(0);
                        proof {
                            if old(self).spec_only_targets_work() {
                                assert forall|k: int| 0 <= k < self.jobs@.len() implies (#[trigger] self.jobs@[k] is Targets
                                    || self.jobs@[k] is PushDraft) by {
                                    assert(self.jobs@[k] == old(self).jobs@[k + 1]);
                                }
                            }
                        }
                        true
                    },
                }
            },
            Job::PushDraft => {
                self.jobs.remove(0);
                proof {
                    if old(self).spec_only_targets_work() {
                        assert forall|k: int| 0 <= k < self.jobs@.len() implies (#[trigger] self.jobs@[k] is Targets
                            || self.jobs@[k] is PushDraft) by {
                            assert(self.jobs@[k] == old(self).jobs@[k + 1]);
                        }
                    }
                }
                match self.draft.clone() {
                    Some(d) => {
                        self.stack.push(d);
                        self.draft = None;
                    },
                    None => {},
                }
                true
            },
            Job::ManaEffect { player, source, ability } => {
                self.jobs.remove(0);
                self.mana_effect(player, source, ability);
                true
            },
            Job::ManaChoice { player, colors, .. } => {
                let options = colors_in(colors);
                if options.len() == 0 {
                    self.jobs.remove(0);
                    true
                } else {
                    self.pending = Pending::ChooseColor { player, options };
                    false
                }
            },
            Job::SacrificeCost { player, filter } => {
                let options = self.state.permanents_matching(player, &filter);
                self.ask_cards(player, options, 1, 1, ChoicePrompt::CostSacrifice)
            },
            Job::Discard { player, n } => {
                let hand = crate::vecs::copy_ids(self.state.zones.list(ZoneLocation::Hand(player)));
                let k: u8 = if hand.len() < 255 && (hand.len() as u64) < (n as u64) {
                    hand.len() as u8
                } else if n < 255 {
                    n as u8
                } else {
                    255
                };
                if k == 0 {
                    self.jobs.remove(0);
                    return true;
                }
                self.ask_cards(player, hand, k, k, ChoicePrompt::Generic)
            },
            Job::SacrificeLands { player, n } => {
                if n == 0 {
                    self.jobs.remove(0);
                    return true;
                }
                let f = Filter { types: type_bit(TypeSet::LAND), ..any_permanent() };
                let options = self.state.permanents_matching(player, &f);
                self.ask_cards(player, options, 1, 1, ChoicePrompt::Generic)
            },
            Job::SacrificeCreature { player } => {
                let options = self.creatures_of(player);
                self.ask_cards(player, options, 1, 1, ChoicePrompt::Generic)
            },
            Job::Scry { player, n } => {
                let m = if n > 255 { 255 } else { n };
                let top = top_cards(self.state.zones.list(ZoneLocation::Library(player)), m);
                let k = top.len() as u8;
                self.ask_cards(player, top, 0, k, ChoicePrompt::ScryBottom)
            },
            Job::Surveil { player, n } => {
                let m = if n > 255 { 255 } else { n };
                let top = top_cards(self.state.zones.list(ZoneLocation::Library(player)), m);
                let k = top.len() as u8;
                self.ask_cards(player, top, 0, k, ChoicePrompt::SurveilGraveyard)
            },
            Job::Reorder { player, n } => {
                let top = top_cards(self.state.zones.list(ZoneLocation::Library(player)), n);
                if top.len() <= 1 {
                    self.jobs.remove(0);
                    true
                } else {
                    self.pending = Pending::OrderObjects { player, objects: top };
                    false
                }
            },
            Job::BasicSearch { player } => {
                let land = Filter { types: type_bit(TypeSet::LAND), basic: true, ..any_permanent() };
                let options = self.state.cards_matching(ZoneLocation::Library(player), &land);
                self.ask_cards(player, options, 0, 1, ChoicePrompt::SearchLibrary)
            },
            Job::ManaEither { player, first, second, .. } => {
                let mut options: Vec<ManaColor> = Vec::new();
                options.push(first);
                options.push(second);
                self.pending = Pending::ChooseColor { player, options };
                false
            },
            Job::DiscardCost { player, source } => {
                let options = self.state.cards_in_hand_but(player, source);
                self.ask_cards(player, options, 1, 1, ChoicePrompt::CostDiscard)
            },
            Job::TapCost { player, filter, source } => {
                let options = self.state.untapped_matching(player, &filter, source);
                self.ask_cards(player, options, 1, 1, ChoicePrompt::CostTap)
            },
            Job::Unless { player, source, cost } => {
                if !self.on_battlefield(source) {
                    self.jobs.remove(0);
                    return true;
                }
                match cost {
                    UnlessCost::Return(f, untapped) => {
                        let options = if untapped {
                            self.state.untapped_matching(player, &f, source)
                        } else {
                            self.state.permanents_matching(player, &f)
                        };
                        if options.len() == 0 {
                            self.jobs.remove(0);
                            self.move_to(source, Zone::Graveyard, false);
                            true
                        } else {
                            self.pending = Pending::ChooseCards { player, options, min: 0, max: 1, prompt: ChoicePrompt::CostReturn };
                            false
                        }
                    },
                    UnlessCost::Tap(f) => {
                        let options = self.state.untapped_matching(player, &f, source);
                        if options.len() == 0 {
                            self.jobs.remove(0);
                            self.move_to(source, Zone::Graveyard, false);
                            true
                        } else {
                            self.pending = Pending::ChooseCards { player, options, min: 0, max: 1, prompt: ChoicePrompt::CostTap };
                            false
                        }
                    },
                    UnlessCost::Pay(m) => {
                        let total = m.total_u32();
                        self.pending = Pending::YesNo { player, source, prompt: YesNoPrompt::PayTax { mana: total } };
                        false
                    },
                }
            },
            Job::PayWindow { player, .. } => {
                if self.jobs.len() > 1 {
                    let j = self.jobs.remove(0);
                    self.jobs.push(j);
                    return true;
                }
                self.give_priority(player);
                false
            },
            Job::ReturnLand { player } => {
                let f = Filter { types: type_bit(TypeSet::LAND), ..any_permanent() };
                let options = self.state.permanents_matching(player, &f);
                self.ask_cards(player, options, 1, 1, ChoicePrompt::Generic)
            },
            Job::Search { player, search } => {
                let options = self.state.cards_matching(ZoneLocation::Library(player), &search.filter);
                let k: u8 = if options.len() < (search.count as usize) {
                    if options.len() < 255 {
                        options.len() as u8
                    } else {
                        255
                    }
                } else if search.count < 255 {
                    search.count as u8
                } else {
                    255
                };
                if k == 0 {
                    self.jobs.remove(0);
                    return true;
                }
                self.ask_cards(player, options, k, k, ChoicePrompt::SearchLibrary)
            },
            Job::AnnounceX { player, source, ability } => {
                match ability.cost.remove_any {
                    Some(kind) => {
                        if !self.on_battlefield(source) {
                            self.jobs.remove(0);
                            return true;
                        }
                        let max = self.state.get(source).counters.count(kind);
                        self.pending = Pending::ChooseNumber { player, min: 0, max };
                        false
                    },
                    None => {
                        self.jobs.remove(0);
                        true
                    },
                }
            },
            Job::LeaveTapped { player } => {
                let options = self.may_stay_tapped(player);
                let k: u8 = if options.len() < 255 {
                    options.len() as u8
                } else {
                    255
                };
                self.ask_cards(player, options, 0, k, ChoicePrompt::LeaveTapped)
            },
            Job::Rider { player, source, rider } => {
                self.jobs.remove(0);
                self.mana_rider(player, source, rider);
                true
            },
            Job::BeginUpkeep => {
                self.jobs.remove(0);
                self.upkeep_triggers();
                true
            },
            Job::EntryColor { object, except } => {
                if !self.state.contains(object) {
                    self.jobs.remove(0);
                    return true;
                }
                let player = self.state.get(object).controller;
                self.pending = Pending::ChooseColor { player, options: colors_in(ALL_COLORS & !except) };
                false
            },
            Job::EntrySubtype { object } => {
                if !self.state.contains(object) {
                    self.jobs.remove(0);
                    return true;
                }
                let player = self.state.get(object).controller;
                self.pending = Pending::ChooseSubtype { player, options: lorwyn_tribes() };
                false
            },
            Job::DeclareAttackers { player } => {
                let options = self.state.attack_options(player);
                if options.len() == 0 {
                    self.jobs.remove(0);
                    true
                } else {
                    self.pending = Pending::ChooseAttackers { player, options };
                    false
                }
            },
            Job::DeclareBlockers { player } => {
                let blockers = self.state.blocker_options(player);
                if blockers.len() == 0 {
                    self.jobs.remove(0);
                    true
                } else {
                    self.pending = Pending::ChooseBlockers { player, blockers };
                    false
                }
            },
            Job::PlayFace { player, card } => {
                let mut options: Vec<CastMode> = Vec::new();
                options.push(CastMode { kind: CastModeKind::PlayLandFace(0) });
                options.push(CastMode { kind: CastModeKind::PlayLandFace(1) });
                self.pending = Pending::ChooseCastMode { player, options };
                let _ = card;
                false
            },
        }
    }

    /// The tapped permanents `player` controls that may stay tapped through
    /// an untap step.
    pub fn may_stay_tapped(&self, player: PlayerId) -> (v: Vec<ObjectId>)
        requires
            self.wf(),
        ensures
            forall|k: int|
                0 <= k < v@.len() ==> self.state.is_permanent_of(#[trigger] v@[k], player)
                    && self.state.obj(v@[k]).tapped && crate::query::spec_prints_static(
                    self.state.obj(v@[k]).face,
                    Effect::MayStayTapped,
                    crate::catalog::spec_ability_count(self.state.obj(v@[k]).face),
                ),
    {
        let mine = self.state.permanents_matching(player, &any_permanent());
        let mut v: Vec<ObjectId> = Vec::new();
        let mut i: usize = 0;
        while i < mine.len()
            invariant
                forall|k: int| 0 <= k < mine@.len() ==> self.state.is_permanent_of(#[trigger] mine@[k], player),
                forall|k: int|
                    0 <= k < v@.len() ==> self.state.is_permanent_of(#[trigger] v@[k], player)
                        && self.state.obj(v@[k]).tapped && crate::query::spec_prints_static(
                        self.state.obj(v@[k]).face,
                        Effect::MayStayTapped,
                        crate::catalog::spec_ability_count(self.state.obj(v@[k]).face),
                    ),
            decreases mine@.len() - i,
        {
            let id = mine[i];
            if self.state.contains(id) {
                let o = self.state.get(id);
                if o.tapped && crate::query::has_static(o.face, Effect::MayStayTapped) {
                    v.push(id);
                }
            }
            i = i + 1;
        }
        v
    }

    /// Asks `player` to choose between `min` and `max` of `options`; with no
    /// options the job at the head is dropped instead.
    pub fn ask_cards(&mut self, player: PlayerId, options: Vec<ObjectId>, min: u8, max: u8, prompt: ChoicePrompt) -> (done: bool)
        requires
            old(self).wf(),
            old(self).jobs@.len() > 0,
        ensures
            final(self).wf(),
            final(self).state == old(self).state,
            done <==> options@.len() == 0,
            done ==> final(self).jobs@ == old(self).jobs@.remove(0),
            !done ==> final(self).jobs == old(self).jobs,
            !done ==> final(self).pending == (Pending::ChooseCards { player, options, min, max, prompt }),
    {
        if options.len() == 0 {
            self.jobs.remove(0);
            true
        } else {
            self.pending = Pending::ChooseCards { player, options, min, max, prompt };
            false
        }
    }
}

/// Whether `q` asks the controller of `d` to choose its targets among
/// legal ones found where the ability looks, with exactly the players its
/// target allows.
pub open spec fn spec_asks_targets_of(s: crate::state::GameState, d: StackItem, q: Pending) -> bool {
    &&& q matches Pending::ChooseTargets { player, options, player_options, .. }
    &&& q->ChooseTargets_player == d.controller
    &&& q->ChooseTargets_player_options@ == crate::legal::spec_target_players(d.controller, d.ability.target)
    &&& forall|k: int|
        0 <= k < q->ChooseTargets_options@.len() ==> crate::legal::spec_listed_target(
            s,
            d.controller,
            d.ability.target,
            #[trigger] q->ChooseTargets_options@[k],
        )
}

} // verus!
