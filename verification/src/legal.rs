//! What a player holding priority may do: which lands may be played and
//! which abilities may be activated, with their costs and targets.

use vstd::prelude::*;
use crate::cards::{spec_matches, Ability, AbilityKind, Cost, TargetSpec, Filter};
use crate::catalog::{ability_at, ability_count};
use crate::engine::{Engine, LegalActions};
use crate::ids::CardIndex;
use crate::mana::ManaCost;
use crate::ids::{is_main, ObjectId, PlayerId};
use crate::query::{intrinsic_colors, is_land_card, is_sick};
use crate::rules::condition_holds;
use crate::sets::{keyword_bit, type_bit, KeywordSet, TypeSet};
use crate::state::{GameObject, GameState, Zone, ZoneLocation};

verus! {

/// The filter that describes every permanent.
pub fn any_permanent() -> (f: Filter)
    ensures
        f == (Filter {
            types: 0,
            subtypes: 0,
            colors: 0,
            basic: false,
            nonbasic: false,
            legendary: false,
            colorless: false,
            nonhuman: false,
            excluded: 0,
        }),
{
    Filter {
        types: 0,
        subtypes: 0,
        colors: 0,
        basic: false,
        nonbasic: false,
        legendary: false,
        colorless: false,
        nonhuman: false,
        excluded: 0,
    }
}

/// The filter that describes every creature.
pub fn creature_filter() -> (f: Filter)
    ensures
        f == (Filter {
            types: crate::sets::spec_type_bit(TypeSet::CREATURE),
            subtypes: 0,
            colors: 0,
            basic: false,
            nonbasic: false,
            legendary: false,
            colorless: false,
            nonhuman: false,
            excluded: 0,
        }),
{
    Filter { types: type_bit(TypeSet::CREATURE), ..any_permanent() }
}

/// Whether `p` can target the object `o` with an ability (CR 702.11b,
/// 702.18a): it has neither shroud nor, if another player controls it,
/// hexproof.
pub open spec fn spec_targetable_by(o: GameObject, p: PlayerId) -> bool {
    &&& o.chars().keywords.0 & crate::sets::spec_keyword_bit(KeywordSet::SHROUD) == 0
    &&& (o.controller.slot() == p.slot() || o.chars().keywords.0 & crate::sets::spec_keyword_bit(
        KeywordSet::HEXPROOF,
    ) == 0)
}

/// Whether the object `id` of `s` is a legal target for an ability of `p`
/// with target `t` (CR 115.1): it is of the kind the ability names and `p`
/// can target it.
pub open spec fn spec_may_target(s: GameState, p: PlayerId, t: TargetSpec, id: ObjectId) -> bool {
    let o = s.obj(id);
    let on_battlefield = o.zone == Zone::Battlefield;
    let creature = o.chars().types.0 & crate::sets::spec_type_bit(TypeSet::CREATURE) != 0;
    let theirs = o.controller.slot() == p.spec_opponent().slot();
    s.has(id) && match t {
        TargetSpec::NoTarget => false,
        TargetSpec::AnyPlayer => false,
        TargetSpec::Opponent => false,
        TargetSpec::Permanent(f) => on_battlefield && spec_matches(f, o.chars()) && spec_targetable_by(o, p),
        TargetSpec::OpponentsPermanent(f) => on_battlefield && theirs && spec_matches(f, o.chars())
            && spec_targetable_by(o, p),
        TargetSpec::CardInYourGraveyard(f) => s.zones.spec_list(ZoneLocation::Graveyard(p)).contains(id)
            && spec_matches(f, o.printed),
        TargetSpec::AnyTarget => on_battlefield && creature && spec_targetable_by(o, p),
        TargetSpec::EitherPermanent(any, mine_not) => on_battlefield && spec_targetable_by(o, p) && (
        spec_matches(any, o.chars()) || (theirs && spec_matches(mine_not, o.chars()))),
        TargetSpec::AttackingWithout(k) => on_battlefield && creature && o.attacking && o.chars().keywords.0
            & k == 0 && spec_targetable_by(o, p),
    }
}

/// The players an ability of `p` with target `t` may target.
pub open spec fn spec_target_players(p: PlayerId, t: TargetSpec) -> Seq<PlayerId> {
    match t {
        TargetSpec::AnyPlayer => seq![PlayerId(0), PlayerId(1)],
        TargetSpec::AnyTarget => seq![PlayerId(0), PlayerId(1)],
        TargetSpec::Opponent => seq![p.spec_opponent()],
        _ => Seq::empty(),
    }
}

/// Whether `id` is a legal target for an ability of `p` with target `t`,
/// found where such an ability looks: on the battlefield, or, for a card
/// in a graveyard, in `p`'s graveyard.
pub open spec fn spec_listed_target(s: GameState, p: PlayerId, t: TargetSpec, id: ObjectId) -> bool {
    &&& spec_may_target(s, p, t, id)
    &&& (t is CardInYourGraveyard || s.zones.battlefield@.contains(id))
}

/// Whether an ability of `p` with target `t` has something to target.
pub open spec fn spec_has_target(s: GameState, p: PlayerId, t: TargetSpec) -> bool {
    ||| spec_target_players(p, t).len() > 0
    ||| exists|id: ObjectId| #[trigger] spec_listed_target(s, p, t, id)
}

/// Whether `id` is an untapped permanent `p` controls, on the
/// battlefield, that `f` describes, other than `except`.
pub open spec fn spec_untapped_match(s: GameState, p: PlayerId, f: Filter, except: ObjectId, id: ObjectId) -> bool {
    &&& s.zones.battlefield@.contains(id)
    &&& s.is_permanent_of(id, p)
    &&& spec_matches(f, s.obj(id).chars())
    &&& !s.obj(id).tapped
    &&& id != except
}

/// Whether `p` can pay `cost` for an ability of `source` as the board
/// stands: the tap where the source is untapped and not summoning sick,
/// the mana (either colour of a hybrid symbol), the life, the counters, and
/// a permanent to sacrifice, another to tap and a card to discard where
/// the cost names them.
pub open spec fn spec_can_pay_cost(s: GameState, p: PlayerId, source: GameObject, cost: Cost) -> bool {
    let pool = s.players@[p.slot()].mana_pool;
    &&& !(cost.tap && (source.tapped || crate::query::spec_is_sick(source, s.turn.number)))
    &&& match cost.hybrid {
        Some(h) => pool.can_pay(cost.mana.spec_with_one(h.first)) || pool.can_pay(cost.mana.spec_with_one(h.second)),
        None => pool.can_pay(cost.mana),
    }
    &&& cost.life <= s.players@[p.slot()].life
    &&& (cost.remove_counters matches Some(c) ==> source.counters.spec_count(c.kind) >= c.n)
    &&& (cost.sacrifice matches Some(f) ==> exists|id: ObjectId|
        s.zones.battlefield@.contains(id) && s.is_permanent_of(id, p) && #[trigger] spec_matches(f, s.obj(id).chars()))
    &&& (cost.tap_other matches Some(f) ==> exists|id: ObjectId| #[trigger] spec_untapped_match(s, p, f, source.id, id))
    &&& (cost.discard ==> exists|id: ObjectId|
        #[trigger] s.zones.spec_list(ZoneLocation::Hand(p)).contains(id) && id != source.id)
}

impl GameState {
    /// Whether an object `p` can target with an ability: it has neither
    /// shroud nor, if an opponent of `p` controls it, hexproof.
    pub fn targetable_by(&self, o: &GameObject, p: PlayerId) -> (b: bool)
        ensures
            b == spec_targetable_by(*o, p),
    {
        let kw = o.characteristics().keywords;
        if kw.0 & keyword_bit(KeywordSet::SHROUD) != 0 {
            return false;
        }
        if o.controller.index() != p.index() && kw.0 & keyword_bit(KeywordSet::HEXPROOF) != 0 {
            return false;
        }
        true
    }

    /// The objects and players that an ability of `p` with target `spec`
    /// may point at.
    pub fn target_options(&self, p: PlayerId, spec: &TargetSpec) -> (r: (Vec<ObjectId>, Vec<PlayerId>))
        ensures
            forall|k: int| 0 <= k < r.0@.len() ==> self.has(#[trigger] r.0@[k]),
            forall|k: int| 0 <= k < r.0@.len() ==> spec_may_target(*self, p, *spec, #[trigger] r.0@[k]),
            forall|k: int| 0 <= k < r.0@.len() ==> spec_listed_target(*self, p, *spec, #[trigger] r.0@[k]),
            r.1@ == spec_target_players(p, *spec),
            forall|id: ObjectId| spec_listed_target(*self, p, *spec, id) ==> #[trigger] r.0@.contains(id),
            (r.0@.len() > 0 || r.1@.len() > 0) <==> spec_has_target(*self, p, *spec),
    {
        let mut objects: Vec<ObjectId> = Vec::new();
        let mut players: Vec<PlayerId> = Vec::new();
        match spec {
            TargetSpec::NoTarget => {},
            TargetSpec::AnyPlayer => {
                players.push(PlayerId(0));
                players.push(PlayerId(1));
            },
            TargetSpec::Opponent => {
                players.push(p.opponent());
            },
            TargetSpec::AnyTarget => {
                let creatures = Filter { types: type_bit(TypeSet::CREATURE), ..any_permanent() };
                let all = self.all_permanents_matching(&creatures);
                objects = self.only_targetable(&all, p);
                assert forall|k: int| 0 <= k < objects@.len() implies spec_listed_target(*self, p, *spec, #[trigger] objects@[k]) by {
                    let j = choose|j: int| 0 <= j < all@.len() && all@[j] == objects@[k];
                    assert(spec_matches(creatures, self.obj(all@[j]).chars()));
                    assert(self.zones.battlefield@.contains(all@[j]));
                }
                assert forall|id: ObjectId| spec_listed_target(*self, p, *spec, id) implies #[trigger] objects@.contains(id) by {
                    let ch = self.obj(id).chars();
                    assert(ch.subtypes.0 & 0 == 0) by (bit_vector);
                    assert(spec_matches(creatures, ch));
                    assert(all@.contains(id));
                }
                players.push(PlayerId(0));
                players.push(PlayerId(1));
            },
            TargetSpec::Permanent(f) => {
                let all = self.all_permanents_matching(f);
                objects = self.only_targetable(&all, p);
                assert forall|k: int| 0 <= k < objects@.len() implies spec_listed_target(*self, p, *spec, #[trigger] objects@[k]) by {
                    let j = choose|j: int| 0 <= j < all@.len() && all@[j] == objects@[k];
                    assert(spec_matches(*f, self.obj(all@[j]).chars()));
                    assert(self.zones.battlefield@.contains(all@[j]));
                }
                assert forall|id: ObjectId| spec_listed_target(*self, p, *spec, id) implies #[trigger] objects@.contains(id) by {
                    assert(all@.contains(id));
                }
            },
            TargetSpec::OpponentsPermanent(f) => {
                let all = self.permanents_matching(p.opponent(), f);
                objects = self.only_targetable(&all, p);
                assert forall|k: int| 0 <= k < objects@.len() implies spec_listed_target(*self, p, *spec, #[trigger] objects@[k]) by {
                    let j = choose|j: int| 0 <= j < all@.len() && all@[j] == objects@[k];
                    assert(self.is_permanent_of(all@[j], p.spec_opponent()));
                    assert(spec_matches(*f, self.obj(all@[j]).chars()));
                    assert(self.zones.battlefield@.contains(all@[j]));
                }
                assert forall|id: ObjectId| spec_listed_target(*self, p, *spec, id) implies #[trigger] objects@.contains(id) by {
                    assert(self.is_permanent_of(id, p.spec_opponent()));
                    assert(all@.contains(id));
                }
            },
            TargetSpec::CardInYourGraveyard(f) => {
                objects = self.cards_matching(ZoneLocation::Graveyard(p), f);
                assert forall|id: ObjectId| spec_listed_target(*self, p, *spec, id) implies #[trigger] objects@.contains(id) by {
                    assert(self.zones.spec_list(ZoneLocation::Graveyard(p)).contains(id));
                }
            },
            TargetSpec::EitherPermanent(any, theirs) => {
                let all = self.all_permanents_matching(any);
                let mut v = self.only_targetable(&all, p);
                assert forall|k: int| 0 <= k < v@.len() implies spec_listed_target(*self, p, *spec, #[trigger] v@[k]) by {
                    let j = choose|j: int| 0 <= j < all@.len() && all@[j] == v@[k];
                    assert(spec_matches(*any, self.obj(all@[j]).chars()));
                    assert(self.zones.battlefield@.contains(all@[j]));
                }
                let opp = self.permanents_matching(p.opponent(), theirs);
                let more = self.only_targetable(&opp, p);
                assert forall|k: int| 0 <= k < more@.len() implies spec_listed_target(*self, p, *spec, #[trigger] more@[k]) by {
                    let j = choose|j: int| 0 <= j < opp@.len() && opp@[j] == more@[k];
                    assert(self.is_permanent_of(opp@[j], p.spec_opponent()));
                    assert(spec_matches(*theirs, self.obj(opp@[j]).chars()));
                    assert(self.zones.battlefield@.contains(opp@[j]));
                }
                let ghost v0 = v@;
                let mut i: usize = 0;
                while i < more.len()
                    invariant
                        i <= more@.len(),
                        forall|k: int| 0 <= k < more@.len() ==> self.has(#[trigger] more@[k]),
                        forall|k: int| 0 <= k < v@.len() ==> self.has(#[trigger] v@[k]),
                        forall|k: int| 0 <= k < more@.len() ==> spec_listed_target(*self, p, *spec, #[trigger] more@[k]),
                        forall|k: int| 0 <= k < v@.len() ==> spec_listed_target(*self, p, *spec, #[trigger] v@[k]),
                        forall|id: ObjectId| v0.contains(id) ==> #[trigger] v@.contains(id),
                        forall|j: int| 0 <= j < i ==> v@.contains(#[trigger] more@[j]),
                    decreases more@.len() - i,
                {
                    let ghost before = v@;
                    if !crate::vecs::has_id(&v, more[i]) {
                        v.push(more[i]);
                        assert(v@[v@.len() - 1] == more@[i as int]);
                    }
                    assert forall|id: ObjectId| before.contains(id) implies #[trigger] v@.contains(id) by {
                        let m = choose|m: int| 0 <= m < before.len() && before[m] == id;
                        assert(v@[m] == before[m]);
                    }
                    assert forall|j: int| 0 <= j <= i implies v@.contains(#[trigger] more@[j]) by {
                        if j < i {
                            assert(before.contains(more@[j]));
                        }
                    }
                    i = i + 1;
                }
                assert forall|id: ObjectId| spec_listed_target(*self, p, *spec, id) implies #[trigger] v@.contains(id) by {
                    if spec_matches(*any, self.obj(id).chars()) {
                        assert(all@.contains(id));
                        assert(v0.contains(id));
                    } else {
                        assert(self.is_permanent_of(id, p.spec_opponent()));
                        assert(opp@.contains(id));
                        assert(more@.contains(id));
                        let j = choose|j: int| 0 <= j < more@.len() && more@[j] == id;
                        assert(v@.contains(more@[j]));
                    }
                }
                objects = v;
            },
            TargetSpec::AttackingWithout(k) => {
                let creatures = Filter { types: type_bit(TypeSet::CREATURE), ..any_permanent() };
                let all = self.all_permanents_matching(&creatures);
                let mut v: Vec<ObjectId> = Vec::new();
                let mut i: usize = 0;
                while i < all.len()
                    invariant
                        i <= all@.len(),
                        creatures.types == crate::sets::spec_type_bit(TypeSet::CREATURE),
                        forall|j: int| 0 <= j < all@.len() ==> self.has(#[trigger] all@[j]),
                        forall|j: int| 0 <= j < all@.len() ==> self.obj(#[trigger] all@[j]).zone == Zone::Battlefield,
                        forall|j: int| 0 <= j < all@.len() ==> spec_matches(creatures, self.obj(#[trigger] all@[j]).chars()),
                        forall|j: int| 0 <= j < all@.len() ==> self.zones.battlefield@.contains(#[trigger] all@[j]),
                        forall|j: int| 0 <= j < v@.len() ==> self.has(#[trigger] v@[j]),
                        forall|j: int| 0 <= j < v@.len() ==> all@.contains(#[trigger] v@[j]),
                        forall|j: int|
                            0 <= j < v@.len() ==> self.obj(#[trigger] v@[j]).zone == Zone::Battlefield
                                && self.obj(v@[j]).attacking && self.obj(v@[j]).chars().keywords.0 & *k == 0
                                && self.obj(v@[j]).chars().types.0 & crate::sets::spec_type_bit(TypeSet::CREATURE) != 0,
                        forall|j: int|
                            0 <= j < i && self.obj(#[trigger] all@[j]).attacking && self.obj(all@[j]).chars().keywords.0
                                & *k == 0 ==> v@.contains(all@[j]),
                    decreases all@.len() - i,
                {
                    let ghost before = v@;
                    let o = self.get(all[i]);
                    if o.attacking && o.characteristics().keywords.0 & *k == 0 {
                        assert(spec_matches(creatures, self.obj(all@[i as int]).chars()));
                        assert(creatures.types == crate::sets::spec_type_bit(TypeSet::CREATURE));
                        assert(crate::sets::spec_type_bit(TypeSet::CREATURE) != 0);
                        v.push(all[i]);
                        assert(v@[v@.len() - 1] == all@[i as int]);
                    }
                    assert(all@.contains(all@[i as int]));
                    assert forall|j: int| 0 <= j < v@.len() implies all@.contains(#[trigger] v@[j]) by {
                        if j < before.len() {
                            assert(v@[j] == before[j]);
                        }
                    }
                    assert forall|j: int|
                        0 <= j <= i && self.obj(#[trigger] all@[j]).attacking && self.obj(all@[j]).chars().keywords.0
                            & *k == 0 implies v@.contains(all@[j]) by {
                        if j < i {
                            assert(before.contains(all@[j]));
                            let m = choose|m: int| 0 <= m < before.len() && before[m] == all@[j];
                            assert(v@[m] == before[m]);
                        }
                    }
                    i = i + 1;
                }
                objects = self.only_targetable(&v, p);
                assert forall|m: int| 0 <= m < objects@.len() implies spec_listed_target(*self, p, *spec, #[trigger] objects@[m]) by {
                    let j = choose|j: int| 0 <= j < v@.len() && v@[j] == objects@[m];
                    assert(self.obj(v@[j]).attacking);
                    assert(all@.contains(v@[j]));
                    let a = choose|a: int| 0 <= a < all@.len() && all@[a] == v@[j];
                    assert(self.zones.battlefield@.contains(all@[a]));
                }
                assert forall|id: ObjectId| spec_listed_target(*self, p, *spec, id) implies #[trigger] objects@.contains(id) by {
                    let ch = self.obj(id).chars();
                    assert(ch.subtypes.0 & 0 == 0) by (bit_vector);
                    assert(spec_matches(creatures, ch));
                    assert(all@.contains(id));
                    let a = choose|a: int| 0 <= a < all@.len() && all@[a] == id;
                    assert(self.obj(all@[a]).attacking);
                    assert(v@.contains(all@[a]));
                }
            },
        }
        proof {
            if spec_has_target(*self, p, *spec) && players@.len() == 0 {
                let id = choose|id: ObjectId| #[trigger] spec_listed_target(*self, p, *spec, id);
                assert(objects@.contains(id));
            }
            if objects@.len() > 0 {
                assert(spec_listed_target(*self, p, *spec, objects@[0]));
            }
        }
        (objects, players)
    }

    /// The objects of `v` that `p` can target.
    pub fn only_targetable(&self, v: &Vec<ObjectId>, p: PlayerId) -> (r: Vec<ObjectId>)
        requires
            forall|k: int| 0 <= k < v@.len() ==> self.has(#[trigger] v@[k]),
        ensures
            forall|k: int| 0 <= k < r@.len() ==> self.has(#[trigger] r@[k]),
            forall|k: int| 0 <= k < r@.len() ==> v@.contains(#[trigger] r@[k]),
            forall|k: int| 0 <= k < r@.len() ==> spec_targetable_by(self.obj(#[trigger] r@[k]), p),
            forall|id: ObjectId| v@.contains(id) && spec_targetable_by(self.obj(id), p) ==> #[trigger] r@.contains(id),
    {
        let mut r: Vec<ObjectId> = Vec::new();
        let mut i: usize = 0;
        while i < v.len()
            invariant
                i <= v@.len(),
                forall|k: int| 0 <= k < v@.len() ==> self.has(#[trigger] v@[k]),
                forall|k: int| 0 <= k < r@.len() ==> self.has(#[trigger] r@[k]),
                forall|k: int| 0 <= k < r@.len() ==> v@.contains(#[trigger] r@[k]),
                forall|k: int| 0 <= k < r@.len() ==> spec_targetable_by(self.obj(#[trigger] r@[k]), p),
                forall|j: int| 0 <= j < i && spec_targetable_by(self.obj(#[trigger] v@[j]), p) ==> r@.contains(v@[j]),
            decreases v@.len() - i,
        {
            let id = v[i];
            let ghost r0 = r@;
            assert(self.has(v@[i as int]));
            let o = self.get(id);
            if self.targetable_by(&o, p) {
                r.push(id);
                assert(v@[i as int] == id);
                assert(r@[r@.len() - 1] == id);
            }
            assert forall|j: int| 0 <= j <= i && spec_targetable_by(self.obj(#[trigger] v@[j]), p) implies r@.contains(v@[j]) by {
                if j < i {
                    assert(r0.contains(v@[j]));
                    let m = choose|m: int| 0 <= m < r0.len() && r0[m] == v@[j];
                    assert(r@[m] == r0[m]);
                }
            }
            i = i + 1;
        }
        assert forall|id: ObjectId| v@.contains(id) && spec_targetable_by(self.obj(id), p) implies #[trigger] r@.contains(id) by {
            let j = choose|j: int| 0 <= j < v@.len() && v@[j] == id;
            assert(spec_targetable_by(self.obj(v@[j]), p));
        }
        r
    }

    /// Whether `p` can pay `cost` for an ability of the permanent `source`.
    pub fn can_pay_cost(&self, p: PlayerId, source: &GameObject, cost: &Cost) -> (b: bool)
        requires
            self.wf(),
        ensures
            b == spec_can_pay_cost(*self, p, *source, *cost),
    {
        if cost.tap && (source.tapped || is_sick(source, self.turn.number)) {
            return false;
        }
        let pool = &self.players[p.index()].mana_pool;
        let payable = match cost.hybrid {
            Some(h) => pool.can_pay_now(&cost.mana.with_one(h.first)) || pool.can_pay_now(
                &cost.mana.with_one(h.second),
            ),
            None => pool.can_pay_now(&cost.mana),
        };
        if !payable {
            return false;
        }
        if (cost.life as i64) > (self.players[p.index()].life as i64) {
            return false;
        }
        match cost.remove_counters {
            Some(c) => {
                if source.counters.count(c.kind) < c.n {
                    return false;
                }
            },
            None => {},
        }
        match cost.sacrifice {
            Some(f) => {
                let v = self.permanents_matching(p, &f);
                if v.len() == 0 {
                    proof {
                        assert forall|id: ObjectId|
                            self.zones.battlefield@.contains(id) && self.is_permanent_of(id, p) implies !#[trigger] spec_matches(
                            f,
                            self.obj(id).chars(),
                        ) by {
                            if spec_matches(f, self.obj(id).chars()) {
                                assert(v@.contains(id));
                            }
                        }
                    }
                    return false;
                }
                assert(spec_matches(f, self.obj(v@[0]).chars()));
            },
            None => {},
        }
        match cost.tap_other {
            Some(f) => {
                let v = self.untapped_matching(p, &f, source.id);
                if v.len() == 0 {
                    proof {
                        assert forall|id: ObjectId| !#[trigger] spec_untapped_match(*self, p, f, source.id, id) by {
                            if spec_untapped_match(*self, p, f, source.id, id) {
                                assert(v@.contains(id));
                            }
                        }
                    }
                    return false;
                }
                assert(spec_untapped_match(*self, p, f, source.id, v@[0]));
            },
            None => {},
        }
        if cost.discard {
            let v = self.cards_in_hand_but(p, source.id);
            if v.len() == 0 {
                proof {
                    assert forall|id: ObjectId|
                        #[trigger] self.zones.spec_list(ZoneLocation::Hand(p)).contains(id) implies id == source.id by {
                        if id != source.id {
                            assert(v@.contains(id));
                        }
                    }
                }
                return false;
            }
            assert(self.zones.spec_list(ZoneLocation::Hand(p)).contains(v@[0]));
        }
        true
    }

    /// The cards in `p`'s hand other than `except`.
    pub fn cards_in_hand_but(&self, p: PlayerId, except: ObjectId) -> (r: Vec<ObjectId>)
        ensures
            forall|k: int| 0 <= k < r@.len() ==> self.zones.spec_list(ZoneLocation::Hand(p)).contains(#[trigger] r@[k]),
            forall|k: int| 0 <= k < r@.len() ==> #[trigger] r@[k] != except,
            forall|id: ObjectId|
                self.zones.spec_list(ZoneLocation::Hand(p)).contains(id) && id != except ==> #[trigger] r@.contains(id),
    {
        let hand = self.zones.list(ZoneLocation::Hand(p));
        let mut r: Vec<ObjectId> = Vec::new();
        let mut i: usize = 0;
        while i < hand.len()
            invariant
                i <= hand@.len(),
                hand@ == self.zones.spec_list(ZoneLocation::Hand(p)),
                forall|k: int| 0 <= k < r@.len() ==> self.zones.spec_list(ZoneLocation::Hand(p)).contains(#[trigger] r@[k]),
                forall|k: int| 0 <= k < r@.len() ==> #[trigger] r@[k] != except,
                forall|j: int| 0 <= j < i && #[trigger] hand@[j] != except ==> r@.contains(hand@[j]),
            decreases hand@.len() - i,
        {
            let ghost r0 = r@;
            if hand[i].0 != except.0 {
                r.push(hand[i]);
                assert(hand@.contains(hand@[i as int]));
                assert(r@[r@.len() - 1] == hand@[i as int]);
            }
            assert forall|j: int| 0 <= j <= i && #[trigger] hand@[j] != except implies r@.contains(hand@[j]) by {
                if j < i {
                    assert(r0.contains(hand@[j]));
                    let m = choose|m: int| 0 <= m < r0.len() && r0[m] == hand@[j];
                    assert(r@[m] == r0[m]);
                }
            }
            i = i + 1;
        }
        assert forall|id: ObjectId|
            self.zones.spec_list(ZoneLocation::Hand(p)).contains(id) && id != except implies #[trigger] r@.contains(id) by {
            let j = choose|j: int| 0 <= j < hand@.len() && hand@[j] == id;
            assert(hand@[j] != except);
        }
        r
    }

    /// The untapped permanents `p` controls that `f` describes, other than
    /// `except`.
    pub fn untapped_matching(&self, p: PlayerId, f: &Filter, except: ObjectId) -> (r: Vec<ObjectId>)
        requires
            self.wf(),
        ensures
            forall|k: int| 0 <= k < r@.len() ==> self.has(#[trigger] r@[k]),
            forall|k: int| 0 <= k < r@.len() ==> !self.obj(#[trigger] r@[k]).tapped,
            forall|k: int| 0 <= k < r@.len() ==> #[trigger] r@[k] != except,
            forall|k: int| 0 <= k < r@.len() ==> spec_untapped_match(*self, p, *f, except, #[trigger] r@[k]),
            forall|id: ObjectId|
                spec_untapped_match(*self, p, *f, except, id) ==> #[trigger] r@.contains(id),
    {
        let all = self.permanents_matching(p, f);
        let mut r: Vec<ObjectId> = Vec::new();
        let mut i: usize = 0;
        while i < all.len()
            invariant
                i <= all@.len(),
                forall|k: int| 0 <= k < r@.len() ==> self.has(#[trigger] r@[k]),
                forall|k: int| 0 <= k < r@.len() ==> !self.obj(#[trigger] r@[k]).tapped,
                forall|k: int| 0 <= k < r@.len() ==> #[trigger] r@[k] != except,
                forall|k: int| 0 <= k < r@.len() ==> spec_untapped_match(*self, p, *f, except, #[trigger] r@[k]),
                forall|j: int| 0 <= j < all@.len() ==> self.is_permanent_of(#[trigger] all@[j], p),
                forall|j: int| 0 <= j < all@.len() ==> spec_matches(*f, self.obj(#[trigger] all@[j]).chars()),
                forall|j: int| 0 <= j < all@.len() ==> self.zones.battlefield@.contains(#[trigger] all@[j]),
                forall|j: int|
                    0 <= j < i && #[trigger] all@[j] != except && self.has(all@[j]) && !self.obj(all@[j]).tapped
                        ==> r@.contains(all@[j]),
            decreases all@.len() - i,
        {
            let id = all[i];
            let ghost r0 = r@;
            if self.contains(id) && id.0 != except.0 {
                let o = self.get(id);
                if !o.tapped {
                    r.push(id);
                    assert(r@[r@.len() - 1] == id);
                }
            }
            assert forall|j: int|
                0 <= j <= i && #[trigger] all@[j] != except && self.has(all@[j]) && !self.obj(all@[j]).tapped
                    implies r@.contains(all@[j]) by {
                if j < i {
                    assert(r0.contains(all@[j]));
                    let m = choose|m: int| 0 <= m < r0.len() && r0[m] == all@[j];
                    assert(r@[m] == r0[m]);
                }
            }
            i = i + 1;
        }
        assert forall|id: ObjectId| spec_untapped_match(*self, p, *f, except, id) implies #[trigger] r@.contains(id) by {
            assert(all@.contains(id));
            let j = choose|j: int| 0 <= j < all@.len() && all@[j] == id;
            assert(all@[j] != except);
        }
        r
    }
}

impl Engine {
    /// Whether `p` may activate the ability `a` of the object `id` now: a
    /// mana or activated ability of a permanent, or a channel ability of a
    /// card in hand; at sorcery speed where it says so; its condition met;
    /// only a mana ability while a cost waits to be paid; its cost payable;
    /// and, where it targets, something to target.
    pub open spec fn spec_may_activate_with(self, p: PlayerId, id: ObjectId, a: Ability) -> bool {
        let o = self.state.obj(id);
        &&& (((a.kind == AbilityKind::Mana || a.kind == AbilityKind::Activated) && o.zone == Zone::Battlefield)
            || (a.kind == AbilityKind::Channel && o.zone == Zone::Hand))
        &&& (a.sorcery_speed ==> self.state.turn.active.slot() == p.slot() && (self.state.turn.phase
            == crate::ids::Phase::FirstMain || self.state.turn.phase == crate::ids::Phase::SecondMain)
            && self.stack@.len() == 0)
        &&& crate::rules::spec_condition_holds(self.state, p, a.condition, id)
        &&& !(self.jobs@.len() > 0 && self.jobs@[0] is PayWindow && a.kind != AbilityKind::Mana)
        &&& spec_can_pay_cost(self.state, p, o, a.cost)
        &&& (a.target is NoTarget || spec_has_target(self.state, p, a.target))
    }

    /// The ability `i` of the object `id` that `p` may activate now, if
    /// they may: `id` is theirs, prints that ability, and may use it.
    pub open spec fn spec_activation(self, p: PlayerId, id: ObjectId, i: u32) -> Option<Ability> {
        if self.state.has(id) && self.state.obj(id).controller.slot() == p.slot() {
            match crate::catalog::spec_ability(self.state.obj(id).face, i) {
                Some(a) => if self.spec_may_activate_with(p, id, a) {
                    Some(a)
                } else {
                    None
                },
                None => None,
            }
        } else {
            None
        }
    }

    /// Whether player `p` may activate ability `i` of the permanent `id` now.
    pub fn can_activate(&self, p: PlayerId, id: ObjectId, i: u32) -> (r: Option<Ability>)
        requires
            self.wf(),
        ensures
            r == self.spec_activation(p, id, i),
            r.is_some() ==> self.state.is_ability_source_of(id, p),
            r.is_some() ==> r.unwrap() == crate::catalog::spec_ability(self.state.obj(id).face, i).unwrap(),
            r.is_some() ==> crate::catalog::spec_ability(self.state.obj(id).face, i).is_some(),
            r.is_some() ==> crate::rules::spec_condition_holds(self.state, p, r.unwrap().condition, id),
    {
        if !self.state.contains(id) {
            return None;
        }
        let o = self.state.get(id);
        if o.controller.index() != p.index() {
            return None;
        }
        let a = match ability_at(o.face, i) {
            Some(a) => a,
            None => {
                return None;
            },
        };
        match a.kind {
            AbilityKind::Mana => {
                if o.zone != Zone::Battlefield {
                    return None;
                }
            },
            AbilityKind::Activated => {
                if o.zone != Zone::Battlefield {
                    return None;
                }
            },
            AbilityKind::Channel => {
                if o.zone != Zone::Hand {
                    return None;
                }
            },
            _ => {
                return None;
            },
        }
        if a.sorcery_speed && !(self.state.turn.active.index() == p.index() && is_main(
            self.state.turn.phase,
        ) && self.stack.len() == 0) {
            return None;
        }
        if !condition_holds(&self.state, p, &a.condition, id) {
            return None;
        }
        if self.in_payment_window() && a.kind != AbilityKind::Mana {
            return None;
        }
        if !self.state.can_pay_cost(p, &o, &a.cost) {
            return None;
        }
        let (objs, players) = self.state.target_options(p, &a.target);
        match a.target {
            TargetSpec::NoTarget => {},
            _ => {
                if objs.len() == 0 && players.len() == 0 {
                    return None;
                }
            },
        }
        Some(a)
    }

    /// Whether player `p` may play the land card `id` now (CR 305.2): a land
    /// card in their hand, in their own main phase with an empty stack, when
    /// they have not played a land this turn.
    pub open spec fn spec_may_play_land(self, p: PlayerId, id: ObjectId) -> bool {
        &&& self.state.has(id)
        &&& self.state.obj(id).zone == Zone::Hand
        &&& self.state.obj(id).owner.slot() == p.slot()
        &&& self.state.turn.active.slot() == p.slot()
        &&& (self.state.turn.phase == crate::ids::Phase::FirstMain || self.state.turn.phase
            == crate::ids::Phase::SecondMain)
        &&& self.stack@.len() == 0
        &&& self.state.turn.lands_played == 0
        &&& crate::query::spec_is_land_card(self.state.obj(id).card)
    }

    /// Whether player `p` may play the land card `id` now: it is in their
    /// hand, it is their main phase with an empty stack, and they have not
    /// played a land this turn.
    pub fn can_play_land(&self, p: PlayerId, id: ObjectId) -> (b: bool)
        requires
            self.wf(),
        ensures
            b ==> self.state.has(id),
            b ==> self.state.obj(id).zone == Zone::Hand,
            b ==> self.state.obj(id).owner.slot() == p.slot(),
            b ==> self.state.turn.lands_played == 0,
            b ==> crate::query::spec_is_land_card(self.state.obj(id).card),
            b ==> self.spec_may_play_land(p, id),
            b <==> self.spec_may_play_land(p, id) && self.jobs@.len() == 0,
    {
        if !self.state.contains(id) {
            return false;
        }
        let o = self.state.get(id);
        o.zone == Zone::Hand && o.owner.index() == p.index() && self.state.turn.active.index()
            == p.index() && is_main(self.state.turn.phase) && self.stack.len() == 0
            && self.state.turn.lands_played == 0 && is_land_card(o.card) && self.jobs.len() == 0
    }

    /// Whether a payment is being made: mana may be made, and nothing else
    /// done, until the player passes.
    pub fn in_payment_window(&self) -> (b: bool)
        ensures
            b == (self.jobs@.len() > 0 && self.jobs@[0] is PayWindow),
    {
        self.jobs.len() > 0 && match self.jobs[0] {
            crate::engine::Job::PayWindow { .. } => true,
            _ => false,
        }
    }

    /// Everything player `p` may do while holding priority.
    pub fn legal_actions(&self, p: PlayerId) -> (l: LegalActions)
        requires
            self.wf(),
        ensures
            forall|k: int| 0 <= k < l.abilities@.len() ==> self.state.is_ability_source_of(#[trigger] l.abilities@[k].0, p),
            forall|k: int| 0 <= k < l.mana_abilities@.len() ==> self.state.is_permanent_of(#[trigger] l.mana_abilities@[k], p),
            forall|k: int| 0 <= k < l.castable@.len() ==> self.spec_may_cast(p, #[trigger] l.castable@[k]),
            forall|k: int|
                0 <= k < l.play_lands@.len() ==> self.spec_may_play_land(p, #[trigger] l.play_lands@[k]),
    {
        let mut play_lands: Vec<ObjectId> = Vec::new();
        let hand = self.state.zones.list(ZoneLocation::Hand(p));
        let mut i: usize = 0;
        while i < hand.len()
            invariant
                self.wf(),
                i <= hand@.len(),
                forall|k: int|
                    0 <= k < play_lands@.len() ==> self.spec_may_play_land(p, #[trigger] play_lands@[k]),
            decreases hand@.len() - i,
        {
            if self.can_play_land(p, hand[i]) {
                play_lands.push(hand[i]);
            }
            i = i + 1;
        }
        let mut abilities: Vec<(ObjectId, u32)> = Vec::new();
        let mut mana_abilities: Vec<ObjectId> = Vec::new();
        let bf = &self.state.zones.battlefield;
        let mut j: usize = 0;
        while j < bf.len()
            invariant
                self.wf(),
                j <= bf@.len(),
                forall|k: int| 0 <= k < abilities@.len() ==> self.state.is_ability_source_of(#[trigger] abilities@[k].0, p),
                forall|k: int| 0 <= k < mana_abilities@.len() ==> self.state.is_permanent_of(#[trigger] mana_abilities@[k], p),
            decreases bf@.len() - j,
        {
            let id = bf[j];
            if self.state.contains(id) {
                let o = self.state.get(id);
                if o.zone == Zone::Battlefield && o.controller.index() == p.index() {
                    if !o.tapped && !is_sick(&o, self.state.turn.number) && intrinsic_colors(
                        &o.characteristics(),
                    ) != 0 {
                        mana_abilities.push(id);
                    }
                    let count = ability_count(o.face);
                    let mut a: u32 = 0;
                    while a < count
                        invariant
                            self.wf(),
                            self.state.is_permanent_of(id, p),
                            forall|k: int| 0 <= k < abilities@.len() ==> self.state.is_ability_source_of(#[trigger] abilities@[k].0, p),
                        decreases count - a,
                    {
                        if self.can_activate(p, id, a).is_some() {
                            abilities.push((id, a));
                        }
                        a = a + 1;
                    }
                }
            }
            j = j + 1;
        }
        let mut h: usize = 0;
        while h < hand.len()
            invariant
                self.wf(),
                h <= hand@.len(),
                forall|k: int| 0 <= k < abilities@.len() ==> self.state.is_ability_source_of(#[trigger] abilities@[k].0, p),
            decreases hand@.len() - h,
        {
            let id = hand[h];
            if self.state.contains(id) {
                let face = self.state.get(id).face;
                let count = ability_count(face);
                let mut a: u32 = 0;
                while a < count
                    invariant
                        self.wf(),
                        forall|k: int| 0 <= k < abilities@.len() ==> self.state.is_ability_source_of(#[trigger] abilities@[k].0, p),
                    decreases count - a,
                {
                    if self.can_activate(p, id, a).is_some() {
                        abilities.push((id, a));
                    }
                    a = a + 1;
                }
            }
            h = h + 1;
        }
        let mut castable: Vec<ObjectId> = Vec::new();
        let mut c: usize = 0;
        while c < hand.len()
            invariant
                self.wf(),
                c <= hand@.len(),
                forall|k: int| 0 <= k < castable@.len() ==> self.spec_may_cast(p, #[trigger] castable@[k]),
            decreases hand@.len() - c,
        {
            if self.can_cast(p, hand[c]).is_some() {
                castable.push(hand[c]);
            }
            c = c + 1;
        }
        LegalActions { play_lands, abilities, mana_abilities, castable }
    }

    /// Whether the timing rules let `p` cast the card `c` now: an instant or
    /// a card with flash whenever they hold priority, anything else only in
    /// their own main phase with an empty stack (CR 307.1, 702.8a).
    pub open spec fn spec_cast_timing(self, p: PlayerId, c: CardIndex) -> bool {
        let ch = crate::catalog::spec_card_chars(c);
        ||| ch.types.0 & crate::sets::spec_type_bit(TypeSet::INSTANT) != 0
        ||| ch.keywords.0 & crate::sets::spec_keyword_bit(KeywordSet::FLASH) != 0
        ||| (self.state.turn.active.slot() == p.slot() && (self.state.turn.phase
            == crate::ids::Phase::FirstMain || self.state.turn.phase == crate::ids::Phase::SecondMain)
            && self.stack@.len() == 0)
    }

    /// What a card does as a spell: the spell effect an instant or sorcery
    /// prints first, or, for a permanent card, nothing but enter the
    /// battlefield.
    pub open spec fn spec_spell_ability(c: CardIndex) -> Option<Ability> {
        if crate::query::spec_is_permanent_card(c) {
            Some(crate::cardkit::spell_effect(crate::cards::Effect::Nothing, TargetSpec::NoTarget))
        } else {
            match crate::catalog::spec_ability(c, 0) {
                Some(a) => if a.kind == AbilityKind::Spell {
                    Some(a)
                } else {
                    None
                },
                None => None,
            }
        }
    }

    /// Whether `p` may cast the card `id` now: it is a card in their hand
    /// that this engine casts, the timing rules allow it, the pool can pay
    /// its cost, and a spell that targets has something to target.
    pub open spec fn spec_may_cast(self, p: PlayerId, id: ObjectId) -> bool {
        &&& self.state.has(id)
        &&& self.state.obj(id).zone == Zone::Hand
        &&& self.state.obj(id).owner.slot() == p.slot()
        &&& crate::catalog::spec_spell_cost(self.state.obj(id).card).is_some()
        &&& Engine::spec_spell_ability(self.state.obj(id).card).is_some()
        &&& self.spec_cast_timing(p, self.state.obj(id).card)
        &&& self.state.players@[p.slot()].mana_pool.can_pay_spell(
            crate::catalog::spec_spell_cost(self.state.obj(id).card).unwrap(),
            crate::catalog::spec_card_chars(self.state.obj(id).card),
        )
    }

    /// What a card does as a spell.
    pub fn spell_ability(c: CardIndex) -> (r: Option<Ability>)
        ensures
            r == Engine::spec_spell_ability(c),
    {
        if crate::query::is_permanent_card(c) {
            Some(crate::cardkit::spell_effect(crate::cards::Effect::Nothing, TargetSpec::NoTarget))
        } else {
            match ability_at(c, 0) {
                Some(a) => if a.kind == AbilityKind::Spell {
                    Some(a)
                } else {
                    None
                },
                None => None,
            }
        }
    }

    /// Whether `p` may cast the card `id` now, and if so its cost and what
    /// it does as a spell. A spell that targets is cast only when it has
    /// something to target.
    pub fn can_cast(&self, p: PlayerId, id: ObjectId) -> (r: Option<(ManaCost, Ability)>)
        requires
            self.wf(),
        ensures
            r.is_some() <==> self.spec_may_cast(p, id) && self.jobs@.len() == 0 && (Engine::spec_spell_ability(
                self.state.obj(id).card,
            ).unwrap().target is NoTarget || spec_has_target(
                self.state,
                p,
                Engine::spec_spell_ability(self.state.obj(id).card).unwrap().target,
            )),
            r.is_some() ==> self.spec_may_cast(p, id),
            r.is_some() ==> r.unwrap().0 == crate::catalog::spec_spell_cost(self.state.obj(id).card).unwrap(),
            r.is_some() ==> r.unwrap().1 == Engine::spec_spell_ability(self.state.obj(id).card).unwrap(),
    {
        if !self.state.contains(id) {
            return None;
        }
        let o = self.state.get(id);
        if o.zone != Zone::Hand || o.owner.index() != p.index() {
            return None;
        }
        let cost = match crate::catalog::spell_cost(o.card) {
            Some(c) => c,
            None => {
                return None;
            },
        };
        let a = match Engine::spell_ability(o.card) {
            Some(a) => a,
            None => {
                return None;
            },
        };
        let ch = crate::catalog::card_chars(o.card);
        let timing = ch.types.0 & type_bit(TypeSet::INSTANT) != 0 || ch.keywords.0 & keyword_bit(
            KeywordSet::FLASH,
        ) != 0 || (self.state.turn.active.index() == p.index() && is_main(self.state.turn.phase)
            && self.stack.len() == 0);
        if !timing || self.jobs.len() > 0 {
            return None;
        }
        if !self.state.players[p.index()].mana_pool.can_pay_spell_now(cost, &ch) {
            return None;
        }
        match a.target {
            TargetSpec::NoTarget => {},
            _ => {
                let (objs, players) = self.state.target_options(p, &a.target);
                if objs.len() == 0 && players.len() == 0 {
                    return None;
                }
            },
        }
        Some((cost, a))
    }
}

} // verus!
