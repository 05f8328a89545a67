//! Rules that read the board: counting what a player controls, the
//! conditions and enters-tapped clauses built on those counts.

use vstd::prelude::*;
use crate::cards::{filter_matches, spec_matches, Condition, EntryRule, Filter};
use crate::ids::{ObjectId, PlayerId};
use crate::state::{GameObject, GameState, Zone};

verus! {

/// Whether object `o` is one of `p`'s permanents that `f` describes, other
/// than `except`.
pub open spec fn counts_for(o: GameObject, p: PlayerId, f: Filter, except: ObjectId) -> bool {
    &&& o.zone == Zone::Battlefield
    &&& o.controller.slot() == p.slot()
    &&& o.id != except
    &&& spec_matches(f, o.chars())
}

/// How many of the ids name objects of `s` that count for `p`, `f` and
/// `except`.
pub open spec fn count_in(s: GameState, ids: Seq<ObjectId>, p: PlayerId, f: Filter, except: ObjectId) -> nat
    decreases ids.len(),
{
    if ids.len() == 0 {
        0
    } else {
        let rest = count_in(s, ids.drop_last(), p, f, except);
        match s.spec_object(ids.last()) {
            Some(o) => if counts_for(o, p, f, except) {
                rest + 1
            } else {
                rest
            },
            None => rest,
        }
    }
}

/// How many permanents other than `except` player `p` controls that `f`
/// describes.
pub open spec fn spec_count_yours(s: GameState, p: PlayerId, f: Filter, except: ObjectId) -> nat {
    count_in(s, s.zones.battlefield@, p, f, except)
}

/// A count reads nothing of an object but what decides whether it counts:
/// two states whose objects count alike give the same count.
pub proof fn lemma_count_in_same_where_counting_agrees(
    a: GameState,
    b: GameState,
    ids: Seq<ObjectId>,
    p: PlayerId,
    f: Filter,
    except: ObjectId,
)
    requires
        a.objects@.len() == b.objects@.len(),
        forall|j: int| 0 <= j < a.objects@.len() ==> counts_for(#[trigger] a.objects@[j], p, f, except) == counts_for(
            b.objects@[j],
            p,
            f,
            except,
        ),
    ensures
        count_in(a, ids, p, f, except) == count_in(b, ids, p, f, except),
    decreases ids.len(),
{
    if ids.len() > 0 {
        lemma_count_in_same_where_counting_agrees(a, b, ids.drop_last(), p, f, except);
        let i = ids.last().0 as int;
        if i < a.objects@.len() {
            assert(counts_for(a.objects@[i], p, f, except) == counts_for(b.objects@[i], p, f, except));
        }
    }
}

/// A count never exceeds the number of ids it reads.
pub proof fn lemma_count_in_bounded(s: GameState, ids: Seq<ObjectId>, p: PlayerId, f: Filter, except: ObjectId)
    ensures
        count_in(s, ids, p, f, except) <= ids.len(),
    decreases ids.len(),
{
    if ids.len() > 0 {
        lemma_count_in_bounded(s, ids.drop_last(), p, f, except);
    }
}

/// How many permanents other than `except` player `p` controls that `f`
/// describes. Permanents of the other seat are never counted, nor is
/// `except`.
pub fn count_yours(s: &GameState, p: PlayerId, f: &Filter, except: ObjectId) -> (n: u64)
    ensures
        n == spec_count_yours(*s, p, *f, except),
{
    let bf = &s.zones.battlefield;
    let mut n: u64 = 0;
    let mut i: usize = 0;
    while i < bf.len()
        invariant
            bf@ == s.zones.battlefield@,
            i <= bf@.len(),
            n == count_in(*s, bf@.take(i as int), p, *f, except),
        decreases bf@.len() - i,
    {
        let id = bf[i];
        assert(bf@.take(i + 1).drop_last() == bf@.take(i as int));
        assert(bf@.take(i + 1).last() == id);
        proof {
            lemma_count_in_bounded(*s, bf@.take(i as int), p, *f, except);
        }
        match s.object(id) {
            Some(o) => {
                if o.zone == Zone::Battlefield && o.controller.index() == p.index() && o.id.0 != except.0
                    && filter_matches(f, &o.characteristics()) {
                    n = n + 1;
                }
            },
            None => {},
        }
        i = i + 1;
    }
    assert(bf@.take(i as int) == bf@);
    n
}

/// An id no object of a game holds: a game never has `u32::MAX` objects.
pub open spec fn spec_no_object() -> ObjectId {
    ObjectId(u32::MAX)
}

/// How many permanents player `p` controls that `f` describes.
pub open spec fn spec_count_all_yours(s: GameState, p: PlayerId, f: Filter) -> nat {
    spec_count_yours(s, p, f, spec_no_object())
}

/// How many of the ids name objects of `s` whose printed characteristics
/// `f` describes.
pub open spec fn count_printed(s: GameState, ids: Seq<ObjectId>, f: Filter) -> nat
    decreases ids.len(),
{
    if ids.len() == 0 {
        0
    } else {
        let rest = count_printed(s, ids.drop_last(), f);
        match s.spec_object(ids.last()) {
            Some(o) => if spec_matches(f, o.printed) {
                rest + 1
            } else {
                rest
            },
            None => rest,
        }
    }
}

/// How many cards in the zone list `loc` print what `f` describes.
pub fn count_printed_in(s: &GameState, loc: crate::state::ZoneLocation, f: &Filter) -> (n: u64)
    ensures
        n == count_printed(*s, s.zones.spec_list(loc), *f),
{
    let l = s.zones.list(loc);
    let mut n: u64 = 0;
    let mut i: usize = 0;
    while i < l.len()
        invariant
            l@ == s.zones.spec_list(loc),
            i <= l@.len(),
            n == count_printed(*s, l@.take(i as int), *f),
            n <= i,
        decreases l@.len() - i,
    {
        let id = l[i];
        assert(l@.take(i + 1).drop_last() == l@.take(i as int));
        assert(l@.take(i + 1).last() == id);
        match s.object(id) {
            Some(o) => {
                if filter_matches(f, &o.printed) {
                    n = n + 1;
                }
            },
            None => {},
        }
        i = i + 1;
    }
    assert(l@.take(i as int) == l@);
    n
}

/// Whether a condition holds for a permanent `source` of player `p`.
pub open spec fn spec_condition_holds(s: GameState, p: PlayerId, c: Condition, source: ObjectId) -> bool {
    match c {
        Condition::Always => true,
        Condition::YouControlAtLeast(f, n) => spec_count_yours(s, p, f, source) >= n,
        Condition::YouControlAtMost(f, n) => spec_count_yours(s, p, f, source) <= n,
        Condition::OpponentsControlAtLeast(f, n) => spec_count_yours(s, p.spec_opponent(), f, source) >= n,
        Condition::APlayerAtMostLife(n) => s.players@[0].life <= n || s.players@[1].life <= n,
        Condition::SourceTapped => s.has(source) && s.obj(source).tapped,
    }
}

/// Whether a condition holds for a permanent `source` of player `p`.
pub fn condition_holds(s: &GameState, p: PlayerId, c: &Condition, source: ObjectId) -> (b: bool)
    requires
        s.wf(),
    ensures
        b == spec_condition_holds(*s, p, *c, source),
{
    match c {
        Condition::Always => true,
        Condition::YouControlAtLeast(f, n) => count_yours(s, p, f, source) >= *n as u64,
        Condition::YouControlAtMost(f, n) => count_yours(s, p, f, source) <= *n as u64,
        Condition::OpponentsControlAtLeast(f, n) => count_yours(s, p.opponent(), f, source) >= *n as u64,
        Condition::APlayerAtMostLife(n) => s.players[0].life <= *n || s.players[1].life <= *n,
        Condition::SourceTapped => s.contains(source) && s.get(source).tapped,
    }
}

/// Whether a permanent `entering` of player `p` enters tapped under `rule`.
/// The count is taken before it arrives and never includes it.
pub open spec fn spec_enters_tapped(s: GameState, p: PlayerId, rule: EntryRule, entering: ObjectId) -> bool {
    match rule {
        EntryRule::Untapped => false,
        EntryRule::Tapped => true,
        EntryRule::TappedUnless(c) => !spec_condition_holds(s, p, c, entering),
    }
}

/// Whether a permanent `entering` of player `p` enters tapped under `rule`.
pub fn enters_tapped(s: &GameState, p: PlayerId, rule: &EntryRule, entering: ObjectId) -> (b: bool)
    requires
        s.wf(),
    ensures
        b == spec_enters_tapped(*s, p, *rule, entering),
{
    match rule {
        EntryRule::Untapped => false,
        EntryRule::Tapped => true,
        EntryRule::TappedUnless(c) => !condition_holds(s, p, c, entering),
    }
}

} // verus!
