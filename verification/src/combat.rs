//! Combat: which creatures may attack and block, the two declarations, and
//! combat damage.

use vstd::prelude::*;
use crate::ids::PlayerId;
use crate::ids::ObjectId;
use crate::engine::{BlockerOption, CombatStep, Defender, Engine, EngineError, Job, Pending};
use crate::ids::Phase;
use crate::query::{is_sick, spec_is_sick};
use crate::sets::{keyword_bit, spec_keyword_bit, spec_type_bit, type_bit, KeywordSet, TypeSet};
use crate::state::{GameObject, GameState, Zone};

verus! {

/// Whether `o` has the keyword `k` now.
pub open spec fn spec_has_keyword(o: GameObject, k: KeywordSet) -> bool {
    o.chars().keywords.0 & spec_keyword_bit(k) != 0
}

/// Whether `o` has the keyword `k` now.
pub fn has_keyword(o: &GameObject, k: KeywordSet) -> (b: bool)
    ensures
        b == spec_has_keyword(*o, k),
{
    o.characteristics().keywords.0 & keyword_bit(k) != 0
}

/// Whether `o` may attack for `p` on turn `turn` (CR 508.1a): an untapped
/// creature `p` controls on the battlefield that is not summoning sick and
/// has no defender.
pub open spec fn spec_can_attack(o: GameObject, p: PlayerId, turn: u32) -> bool {
    &&& o.zone == Zone::Battlefield
    &&& o.controller.slot() == p.slot()
    &&& o.chars().types.0 & spec_type_bit(TypeSet::CREATURE) != 0
    &&& !o.tapped
    &&& !spec_is_sick(o, turn)
    &&& !spec_has_keyword(o, KeywordSet::DEFENDER)
}

/// Whether `o` may attack for `p` on turn `turn`.
pub fn can_attack(o: &GameObject, p: PlayerId, turn: u32) -> (b: bool)
    ensures
        b == spec_can_attack(*o, p, turn),
{
    o.zone == Zone::Battlefield && o.controller.index() == p.index()
        && o.characteristics().types.0 & type_bit(TypeSet::CREATURE) != 0 && !o.tapped
        && !is_sick(o, turn) && !has_keyword(o, KeywordSet::DEFENDER)
}

/// Whether `b` may block `a` for the defending player `d` (CR 509.1a,
/// 702.9b, 702.17b): `b` is an untapped creature `d` controls on the
/// battlefield, `a` an attacking permanent that can be blocked, and an `a`
/// with flying is blocked only by a creature with flying or reach.
pub open spec fn spec_can_block(b: GameObject, a: GameObject, d: PlayerId) -> bool {
    &&& b.zone == Zone::Battlefield
    &&& b.controller.slot() == d.slot()
    &&& b.chars().types.0 & spec_type_bit(TypeSet::CREATURE) != 0
    &&& !b.tapped
    &&& a.zone == Zone::Battlefield
    &&& a.attacking
    &&& !spec_has_keyword(a, KeywordSet::UNBLOCKABLE)
    &&& (spec_has_keyword(a, KeywordSet::FLYING) ==> (spec_has_keyword(b, KeywordSet::FLYING)
        || spec_has_keyword(b, KeywordSet::REACH)))
}

/// Whether `b` may block `a` for the defending player `d`.
pub fn can_block(b: &GameObject, a: &GameObject, d: PlayerId) -> (r: bool)
    ensures
        r == spec_can_block(*b, *a, d),
{
    b.zone == Zone::Battlefield && b.controller.index() == d.index()
        && b.characteristics().types.0 & type_bit(TypeSet::CREATURE) != 0 && !b.tapped
        && a.zone == Zone::Battlefield && a.attacking && !has_keyword(a, KeywordSet::UNBLOCKABLE)
        && (!has_keyword(a, KeywordSet::FLYING) || has_keyword(b, KeywordSet::FLYING) || has_keyword(
        b,
        KeywordSet::REACH,
    ))
}

/// What declaring `o` as an attacker does to it: it attacks, and it taps
/// unless it has vigilance (CR 508.1f).
pub open spec fn spec_declared(o: GameObject) -> GameObject {
    GameObject { attacking: true, tapped: o.tapped || !spec_has_keyword(o, KeywordSet::VIGILANCE), ..o }
}

impl GameState {
    /// The creatures that may attack for `p` now, in the order of their
    /// ids: exactly those [`spec_can_attack`] admits.
    pub fn attack_options(&self, p: PlayerId) -> (v: Vec<ObjectId>)
        requires
            self.wf(),
        ensures
            forall|k: int| 0 <= k < v@.len() ==> self.has(#[trigger] v@[k]),
            forall|id: ObjectId|
                #![trigger v@.contains(id)]
                v@.contains(id) <==> (self.has(id) && spec_can_attack(
                    self.obj(id),
                    p,
                    self.turn.number,
                )),
    {
        let mut v: Vec<ObjectId> = Vec::new();
        let n = self.objects.len();
        let mut i: usize = 0;
        while i < n
            invariant
                self.wf(),
                n == self.objects@.len(),
                i <= n,
                forall|k: int| 0 <= k < v@.len() ==> (#[trigger] v@[k]).0 < i,
                forall|k: int|
                    0 <= k < v@.len() ==> spec_can_attack(
                        self.obj(#[trigger] v@[k]),
                        p,
                        self.turn.number,
                    ),
                forall|j: int|
                    0 <= j < i && spec_can_attack(#[trigger] self.objects@[j], p, self.turn.number)
                        ==> v@.contains(self.objects@[j].id),
            decreases n - i,
        {
            let o = self.objects[i];
            if can_attack(&o, p, self.turn.number) {
                let ghost before = v@;
                v.push(o.id);
                assert(v@[v@.len() - 1] == o.id);
                assert forall|j: int|
                    0 <= j < i && spec_can_attack(
                        #[trigger] self.objects@[j],
                        p,
                        self.turn.number,
                    ) implies v@.contains(self.objects@[j].id) by {
                    let w = choose|w: int| 0 <= w < before.len() && before[w] == self.objects@[j].id;
                    assert(v@[w] == before[w]);
                }
            }
            i = i + 1;
        }
        assert forall|id: ObjectId|
            #![trigger v@.contains(id)]
            v@.contains(id) <==> (self.has(id) && spec_can_attack(
                self.obj(id),
                p,
                self.turn.number,
            )) by {
            if v@.contains(id) {
                let w = choose|w: int| 0 <= w < v@.len() && v@[w] == id;
                assert(spec_can_attack(self.obj(v@[w]), p, self.turn.number));
            }
            if self.has(id) && spec_can_attack(self.obj(id), p, self.turn.number) {
                assert(self.objects@[id.0 as int].id == id);
            }
        }
        v
    }

    /// The attacking creatures that `b` may block for `d`, in the order of
    /// their ids: exactly those [`spec_can_block`] admits.
    pub fn blockable_by(&self, b: &GameObject, d: PlayerId) -> (v: Vec<ObjectId>)
        requires
            self.wf(),
        ensures
            forall|k: int| 0 <= k < v@.len() ==> self.has(#[trigger] v@[k]),
            forall|id: ObjectId|
                #![trigger v@.contains(id)]
                v@.contains(id) <==> (self.has(id) && spec_can_block(*b, self.obj(id), d)),
    {
        let mut v: Vec<ObjectId> = Vec::new();
        let n = self.objects.len();
        let mut i: usize = 0;
        while i < n
            invariant
                self.wf(),
                n == self.objects@.len(),
                i <= n,
                forall|k: int| 0 <= k < v@.len() ==> (#[trigger] v@[k]).0 < i,
                forall|k: int| 0 <= k < v@.len() ==> spec_can_block(*b, self.obj(#[trigger] v@[k]), d),
                forall|j: int|
                    0 <= j < i && spec_can_block(*b, #[trigger] self.objects@[j], d) ==> v@.contains(
                        self.objects@[j].id,
                    ),
            decreases n - i,
        {
            let o = self.objects[i];
            if can_block(b, &o, d) {
                let ghost before = v@;
                v.push(o.id);
                assert(v@[v@.len() - 1] == o.id);
                assert forall|j: int|
                    0 <= j < i && spec_can_block(*b, #[trigger] self.objects@[j], d) implies v@.contains(
                        self.objects@[j].id,
                    ) by {
                    let w = choose|w: int| 0 <= w < before.len() && before[w] == self.objects@[j].id;
                    assert(v@[w] == before[w]);
                }
            }
            i = i + 1;
        }
        assert forall|id: ObjectId|
            #![trigger v@.contains(id)]
            v@.contains(id) <==> (self.has(id) && spec_can_block(*b, self.obj(id), d)) by {
            if v@.contains(id) {
                let w = choose|w: int| 0 <= w < v@.len() && v@[w] == id;
                assert(spec_can_block(*b, self.obj(v@[w]), d));
            }
            if self.has(id) && spec_can_block(*b, self.obj(id), d) {
                assert(self.objects@[id.0 as int].id == id);
            }
        }
        v
    }

    /// The creatures that may block for `d` now, each with the attackers
    /// it may block; a creature that may block none is left out.
    pub fn blocker_options(&self, d: PlayerId) -> (v: Vec<BlockerOption>)
        requires
            self.wf(),
        ensures
            forall|k: int| 0 <= k < v@.len() ==> self.has(#[trigger] v@[k].blocker),
            forall|k: int| 0 <= k < v@.len() ==> (#[trigger] v@[k]).attackers@.len() > 0,
            forall|k: int, a: ObjectId|
                #![trigger v@[k].attackers@.contains(a)]
                0 <= k < v@.len() ==> (v@[k].attackers@.contains(a) <==> (self.has(a)
                    && spec_can_block(self.obj(v@[k].blocker), self.obj(a), d))),
            forall|b: ObjectId, a: ObjectId|
                self.has(b) && self.has(a) && #[trigger] spec_can_block(self.obj(b), self.obj(a), d)
                    ==> exists|k: int| 0 <= k < v@.len() && (#[trigger] v@[k]).blocker == b,
    {
        let mut v: Vec<BlockerOption> = Vec::new();
        let n = self.objects.len();
        let mut i: usize = 0;
        while i < n
            invariant
                self.wf(),
                n == self.objects@.len(),
                i <= n,
                forall|k: int| 0 <= k < v@.len() ==> self.has(#[trigger] v@[k].blocker),
                forall|k: int| 0 <= k < v@.len() ==> (#[trigger] v@[k]).attackers@.len() > 0,
                forall|k: int, a: ObjectId|
                    #![trigger v@[k].attackers@.contains(a)]
                    0 <= k < v@.len() ==> (v@[k].attackers@.contains(a) <==> (self.has(a)
                        && spec_can_block(self.obj(v@[k].blocker), self.obj(a), d))),
                forall|b: ObjectId, a: ObjectId|
                    self.has(b) && (b.0 as int) < i && self.has(a) && #[trigger] spec_can_block(
                        self.obj(b),
                        self.obj(a),
                        d,
                    ) ==> exists|k: int| 0 <= k < v@.len() && (#[trigger] v@[k]).blocker == b,
            decreases n - i,
        {
            let o = self.objects[i];
            let attackers = self.blockable_by(&o, d);
            if attackers.len() > 0 {
                let ghost before = v@;
                v.push(BlockerOption { blocker: o.id, attackers });
                assert(v@[v@.len() - 1].blocker == o.id);
                assert forall|k: int| 0 <= k < before.len() implies v@[k] == before[k] by {}
            }
            assert forall|b: ObjectId, a: ObjectId|
                self.has(b) && (b.0 as int) < i + 1 && self.has(a) && #[trigger] spec_can_block(
                    self.obj(b),
                    self.obj(a),
                    d,
                ) implies exists|k: int| 0 <= k < v@.len() && (#[trigger] v@[k]).blocker == b by {
                if b.0 as int == i {
                    assert(self.objects@[i as int].id.0 == i);
                    assert(self.objects@[i as int].id == b);
                    assert(attackers@.contains(a));
                    assert(v@[v@.len() - 1].blocker == b);
                }
            }
            i = i + 1;
        }
        v
    }

    /// Declares the creatures of `ids` attackers: each attacks, and taps
    /// unless it has vigilance. Nothing else changes.
    pub fn mark_attackers(&mut self, ids: &Vec<ObjectId>)
        requires
            old(self).wf(),
        ensures
            final(self).wf(),
            final(self).objects@.len() == old(self).objects@.len(),
            forall|j: int|
                0 <= j < old(self).objects@.len() ==> #[trigger] final(self).objects@[j] == if ids@.contains(
                    old(self).objects@[j].id,
                ) {
                    spec_declared(old(self).objects@[j])
                } else {
                    old(self).objects@[j]
                },
            crate::board::only_objects_changed(*old(self), *final(self)),
    {
        let n = self.objects.len();
        let mut i: usize = 0;
        while i < n
            invariant
                self.wf(),
                n == self.objects@.len(),
                n == old(self).objects@.len(),
                i <= n,
                forall|j: int|
                    0 <= j < i ==> #[trigger] self.objects@[j] == if ids@.contains(
                        old(self).objects@[j].id,
                    ) {
                        spec_declared(old(self).objects@[j])
                    } else {
                        old(self).objects@[j]
                    },
                forall|j: int| i <= j < n ==> #[trigger] self.objects@[j] == old(self).objects@[j],
                crate::board::only_objects_changed(*old(self), *self),
            decreases n - i,
        {
            let o = self.objects[i];
            if crate::vecs::has_id(ids, o.id) {
                let vigilant = has_keyword(&o, KeywordSet::VIGILANCE);
                self.objects.set(i, GameObject { attacking: true, tapped: o.tapped || !vigilant, ..o });
            }
            i = i + 1;
        }
    }

    /// The end of combat (CR 511.3): no creature attacks any more. Nothing
    /// else changes.
    pub fn end_combat(&mut self)
        requires
            old(self).wf(),
        ensures
            final(self).wf(),
            final(self).objects@.len() == old(self).objects@.len(),
            forall|j: int|
                0 <= j < old(self).objects@.len() ==> #[trigger] final(self).objects@[j] == (GameObject {
                    attacking: false,
                    ..old(self).objects@[j]
                }),
            crate::board::only_objects_changed(*old(self), *final(self)),
    {
        let n = self.objects.len();
        let mut i: usize = 0;
        while i < n
            invariant
                self.wf(),
                n == self.objects@.len(),
                n == old(self).objects@.len(),
                i <= n,
                forall|j: int|
                    0 <= j < i ==> #[trigger] self.objects@[j] == (GameObject {
                        attacking: false,
                        ..old(self).objects@[j]
                    }),
                forall|j: int| i <= j < n ==> #[trigger] self.objects@[j] == old(self).objects@[j],
                crate::board::only_objects_changed(*old(self), *self),
            decreases n - i,
        {
            let o = self.objects[i];
            self.objects.set(i, GameObject { attacking: false, ..o });
            i = i + 1;
        }
    }
}

/// Whether `id` names a permanent on the battlefield of `s`.
pub open spec fn spec_live(s: GameState, id: ObjectId) -> bool {
    s.has(id) && s.obj(id).zone == Zone::Battlefield
}

/// Whether `o` is an attacking permanent on the battlefield.
pub open spec fn spec_in_attack(o: GameObject) -> bool {
    o.attacking && o.zone == Zone::Battlefield
}

/// The combat damage `o` deals: its power, or none when that is not
/// positive (CR 510.1a).
pub open spec fn spec_combat_power(o: GameObject) -> int {
    if o.chars().power > 0 {
        o.chars().power as int
    } else {
        0
    }
}

/// The first blocker of `a` in `blocks` that is still on the battlefield
/// of `s`: the one a blocked attacker deals its damage to.
pub open spec fn spec_first_live_blocker(s: GameState, blocks: Seq<(ObjectId, ObjectId)>, a: ObjectId) -> Option<ObjectId>
    decreases blocks.len(),
{
    if blocks.len() == 0 {
        None
    } else if blocks[0].1 == a && spec_live(s, blocks[0].0) {
        Some(blocks[0].0)
    } else {
        spec_first_live_blocker(s, blocks.drop_first(), a)
    }
}

/// The attacker the first block of `blocks` that names `b` as the blocker
/// pairs it with.
pub open spec fn spec_blocked_by(blocks: Seq<(ObjectId, ObjectId)>, b: ObjectId) -> Option<ObjectId>
    decreases blocks.len(),
{
    if blocks.len() == 0 {
        None
    } else if blocks[0].0 == b {
        Some(blocks[0].1)
    } else {
        spec_blocked_by(blocks.drop_first(), b)
    }
}

/// The damage the blockers of `a` still on the battlefield of `s` deal it.
pub open spec fn spec_blockers_power(s: GameState, blocks: Seq<(ObjectId, ObjectId)>, a: ObjectId) -> int
    decreases blocks.len(),
{
    if blocks.len() == 0 {
        0
    } else {
        (if blocks[0].1 == a && spec_live(s, blocks[0].0) {
            spec_combat_power(s.obj(blocks[0].0))
        } else {
            0
        }) + spec_blockers_power(s, blocks.drop_first(), a)
    }
}

/// Whether some block of `blocks` names `a` as the attacker: a blocked
/// attacker stays blocked when its blockers are gone (CR 509.1h).
pub open spec fn spec_was_blocked(blocks: Seq<(ObjectId, ObjectId)>, a: ObjectId) -> bool {
    exists|k: int| 0 <= k < blocks.len() && (#[trigger] blocks[k]).1 == a
}

/// The combat damage the object `o` of `s` is dealt: as an attacker, what
/// its blockers deal it; as a blocker, the power of the attacker it blocks
/// when it is that attacker's first blocker still on the battlefield.
pub open spec fn spec_damage_to(s: GameState, blocks: Seq<(ObjectId, ObjectId)>, o: GameObject) -> int {
    (if spec_in_attack(o) {
        spec_blockers_power(s, blocks, o.id)
    } else {
        0
    }) + match spec_blocked_by(blocks, o.id) {
        Some(a) => if spec_live(s, o.id) && spec_live(s, a) && s.obj(a).attacking
            && spec_first_live_blocker(s, blocks, a) == Some(o.id) {
            spec_combat_power(s.obj(a))
        } else {
            0
        },
        None => 0,
    }
}

/// The combat damage the attackers among `objs` that were not blocked deal
/// the defending player.
pub open spec fn spec_unblocked_total(objs: Seq<GameObject>, blocks: Seq<(ObjectId, ObjectId)>) -> int
    decreases objs.len(),
{
    if objs.len() == 0 {
        0
    } else {
        spec_unblocked_total(objs.drop_last(), blocks) + (if spec_in_attack(objs.last())
            && !spec_was_blocked(blocks, objs.last().id) {
            spec_combat_power(objs.last())
        } else {
            0
        })
    }
}

/// A damage marking of `old` raised by `x`, held within `u32`.
pub open spec fn spec_marked(old: u32, x: int) -> u32 {
    if old + x > u32::MAX {
        u32::MAX
    } else {
        (old + x) as u32
    }
}

/// The combat damage `o` deals.
pub fn combat_power(o: &GameObject) -> (n: u128)
    ensures
        n == spec_combat_power(*o),
        n <= i32::MAX,
{
    let p = o.characteristics().power;
    if p > 0 {
        p as u128
    } else {
        0
    }
}

/// Whether some block of `blocks` names `a` as the attacker.
pub fn was_blocked(blocks: &Vec<(ObjectId, ObjectId)>, a: ObjectId) -> (r: bool)
    ensures
        r == spec_was_blocked(blocks@, a),
{
    let mut i: usize = 0;
    while i < blocks.len()
        invariant
            i <= blocks@.len(),
            forall|k: int| 0 <= k < i ==> (#[trigger] blocks@[k]).1 != a,
        decreases blocks@.len() - i,
    {
        if blocks[i].1.0 == a.0 {
            assert(blocks@[i as int].1 == a);
            return true;
        }
        i = i + 1;
    }
    false
}

/// The attacker the first block of `blocks` naming `b` pairs it with.
pub fn blocked_by(blocks: &Vec<(ObjectId, ObjectId)>, b: ObjectId) -> (r: Option<ObjectId>)
    ensures
        r == spec_blocked_by(blocks@, b),
{
    let mut i: usize = 0;
    assert(blocks@.skip(0) == blocks@);
    while i < blocks.len()
        invariant
            i <= blocks@.len(),
            spec_blocked_by(blocks@, b) == spec_blocked_by(blocks@.skip(i as int), b),
        decreases blocks@.len() - i,
    {
        assert(blocks@.skip(i as int).drop_first() == blocks@.skip(i + 1));
        assert(blocks@.skip(i as int)[0] == blocks@[i as int]);
        if blocks[i].0.0 == b.0 {
            assert(blocks@[i as int].0 == b);
            return Some(blocks[i].1);
        }
        i = i + 1;
    }
    None
}

impl GameState {
    /// Whether `id` names a permanent on the battlefield.
    pub fn live(&self, id: ObjectId) -> (b: bool)
        ensures
            b == spec_live(*self, id),
    {
        self.contains(id) && self.get(id).zone == Zone::Battlefield
    }

    /// The first blocker of `a` in `blocks` still on the battlefield.
    pub fn first_live_blocker(&self, blocks: &Vec<(ObjectId, ObjectId)>, a: ObjectId) -> (r: Option<ObjectId>)
        ensures
            r == spec_first_live_blocker(*self, blocks@, a),
    {
        let mut i: usize = 0;
        assert(blocks@.skip(0) == blocks@);
        while i < blocks.len()
            invariant
                i <= blocks@.len(),
                spec_first_live_blocker(*self, blocks@, a) == spec_first_live_blocker(
                    *self,
                    blocks@.skip(i as int),
                    a,
                ),
            decreases blocks@.len() - i,
        {
            assert(blocks@.skip(i as int).drop_first() == blocks@.skip(i + 1));
            assert(blocks@.skip(i as int)[0] == blocks@[i as int]);
            let (b, x) = blocks[i];
            if x.0 == a.0 && self.live(b) {
                assert(blocks@[i as int].1 == a);
                return Some(b);
            }
            i = i + 1;
        }
        None
    }

    /// The damage the blockers of `a` still on the battlefield deal it.
    pub fn blockers_power(&self, blocks: &Vec<(ObjectId, ObjectId)>, a: ObjectId) -> (n: u128)
        ensures
            n == spec_blockers_power(*self, blocks@, a),
            n <= blocks@.len() * 0x8000_0000,
    {
        let mut n: u128 = 0;
        let mut i: usize = 0;
        let len = blocks.len();
        assert(blocks@.skip(0) == blocks@);
        while i < len
            invariant
                i <= blocks@.len(),
                len == blocks@.len(),
                len <= usize::MAX,
                n <= i * 0x8000_0000,
                n + spec_blockers_power(*self, blocks@.skip(i as int), a) == spec_blockers_power(
                    *self,
                    blocks@,
                    a,
                ),
            decreases blocks@.len() - i,
        {
            assert(blocks@.skip(i as int).drop_first() == blocks@.skip(i + 1));
            assert(blocks@.skip(i as int)[0] == blocks@[i as int]);
            let (b, x) = blocks[i];
            if x.0 == a.0 && self.live(b) {
                assert(blocks@[i as int].1 == a);
                let o = self.get(b);
                n = n + combat_power(&o);
            }
            i = i + 1;
        }
        assert(blocks@.skip(i as int).len() == 0);
        n
    }

    /// The combat damage the object `o` is dealt.
    pub fn damage_to(&self, blocks: &Vec<(ObjectId, ObjectId)>, o: &GameObject) -> (n: u128)
        ensures
            n == spec_damage_to(*self, blocks@, *o),
    {
        let own: u128 = if o.attacking && o.zone == Zone::Battlefield {
            self.blockers_power(blocks, o.id)
        } else {
            0
        };
        let hit: u128 = match blocked_by(blocks, o.id) {
            Some(a) => {
                if self.live(o.id) && self.live(a) && self.get(a).attacking {
                    match self.first_live_blocker(blocks, a) {
                        Some(f) => if f.0 == o.id.0 {
                            combat_power(&self.get(a))
                        } else {
                            0
                        },
                        None => 0,
                    }
                } else {
                    0
                }
            },
            None => 0,
        };
        let len = blocks.len();
        assert(len <= usize::MAX);
        own + hit
    }

    /// The combat damage the unblocked attackers deal the defending
    /// player.
    pub fn unblocked_total(&self, blocks: &Vec<(ObjectId, ObjectId)>) -> (n: u128)
        ensures
            n == spec_unblocked_total(self.objects@, blocks@),
    {
        let mut n: u128 = 0;
        let mut i: usize = 0;
        let len = self.objects.len();
        while i < len
            invariant
                i <= self.objects@.len(),
                len == self.objects@.len(),
                len <= usize::MAX,
                n <= i * 0x8000_0000,
                n == spec_unblocked_total(self.objects@.take(i as int), blocks@),
            decreases self.objects@.len() - i,
        {
            assert(self.objects@.take(i + 1).drop_last() == self.objects@.take(i as int));
            assert(self.objects@.take(i + 1).last() == self.objects@[i as int]);
            let o = self.objects[i];
            if o.attacking && o.zone == Zone::Battlefield && !was_blocked(blocks, o.id) {
                n = n + combat_power(&o);
            }
            i = i + 1;
        }
        assert(self.objects@.take(i as int) == self.objects@);
        n
    }

    /// Combat damage (CR 510), all of it dealt at once: each object is
    /// dealt what [`spec_damage_to`] says, and the defending player `d`
    /// loses the life [`spec_unblocked_total`] says. Nothing else changes.
    pub fn deal_combat_damage(&mut self, blocks: &Vec<(ObjectId, ObjectId)>, d: PlayerId)
        requires
            old(self).wf(),
        ensures
            final(self).wf(),
            final(self).objects@.len() == old(self).objects@.len(),
            forall|j: int|
                0 <= j < old(self).objects@.len() ==> #[trigger] final(self).objects@[j] == (GameObject {
                    damage: spec_marked(
                        old(self).objects@[j].damage,
                        spec_damage_to(*old(self), blocks@, old(self).objects@[j]),
                    ),
                    ..old(self).objects@[j]
                }),
            final(self).life_of(d) == crate::state::clamp_i32(
                old(self).life_of(d) - spec_unblocked_total(old(self).objects@, blocks@),
            ),
            final(self).players@[d.slot()].mana_pool == old(self).players@[d.slot()].mana_pool,
            final(self).players@[1 - d.slot()] == old(self).players@[1 - d.slot()],
            final(self).zones == old(self).zones,
            final(self).turn == old(self).turn,
            final(self).monarch == old(self).monarch,
    {
        let total = self.unblocked_total(blocks);
        let n = self.objects.len();
        let mut amounts: Vec<u128> = Vec::new();
        let mut i: usize = 0;
        while i < n
            invariant
                n == self.objects@.len(),
                i <= n,
                amounts@.len() == i,
                forall|k: int|
                    0 <= k < i ==> #[trigger] amounts@[k] == spec_damage_to(
                        *self,
                        blocks@,
                        self.objects@[k],
                    ),
            decreases n - i,
        {
            let o = self.objects[i];
            let x = self.damage_to(blocks, &o);
            amounts.push(x);
            i = i + 1;
        }
        let ghost start = *self;
        let mut j: usize = 0;
        while j < n
            invariant
                self.wf(),
                start.wf(),
                n == self.objects@.len(),
                n == start.objects@.len(),
                amounts@.len() == n,
                j <= n,
                forall|k: int|
                    0 <= k < n ==> #[trigger] amounts@[k] == spec_damage_to(start, blocks@, start.objects@[k]),
                forall|k: int|
                    0 <= k < j ==> #[trigger] self.objects@[k] == (GameObject {
                        damage: spec_marked(start.objects@[k].damage, amounts@[k] as int),
                        ..start.objects@[k]
                    }),
                forall|k: int| j <= k < n ==> #[trigger] self.objects@[k] == start.objects@[k],
                crate::board::only_objects_changed(start, *self),
            decreases n - j,
        {
            let o = self.objects[j];
            let x = amounts[j];
            let marked: u32 = if x >= 0x1_0000_0000 {
                u32::MAX
            } else {
                let sum: u128 = o.damage as u128 + x;
                if sum > u32::MAX as u128 {
                    u32::MAX
                } else {
                    sum as u32
                }
            };
            self.objects.set(j, GameObject { damage: marked, ..o });
            j = j + 1;
        }
        let delta: i64 = if total > 0x1_0000_0000 {
            -0x1_0000_0000
        } else {
            -(total as i64)
        };
        self.change_life(d, delta);
    }
}

/// Whether every attacker of `attackers` is among `options`, named once,
/// and attacks `opponent`.
pub open spec fn spec_attack_ok(attackers: Seq<(ObjectId, Defender)>, options: Seq<ObjectId>, opponent: PlayerId) -> bool {
    &&& forall|k: int|
        0 <= k < attackers.len() ==> options.contains((#[trigger] attackers[k]).0) && attackers[k].1
            == Defender::Player(opponent)
    &&& forall|i: int, j: int| 0 <= i < j < attackers.len() ==> attackers[i].0 != attackers[j].0
}

/// Whether every block of `blocks` is one `options` offers, and no
/// creature blocks twice.
pub open spec fn spec_blocks_ok(blocks: Seq<(ObjectId, ObjectId)>, options: Seq<BlockerOption>) -> bool {
    &&& forall|k: int| 0 <= k < blocks.len() ==> offers_block(options, (#[trigger] blocks[k]).0, blocks[k].1)
    &&& forall|i: int, j: int| 0 <= i < j < blocks.len() ==> blocks[i].0 != blocks[j].0
}

/// Whether every attacker of `attackers` is among `options`, named once,
/// and attacks `opponent`.
pub fn attackers_chosen_from(attackers: &Vec<(ObjectId, Defender)>, options: &Vec<ObjectId>, opponent: PlayerId) -> (r: bool)
    ensures
        r ==> forall|k: int|
            0 <= k < attackers@.len() ==> options@.contains((#[trigger] attackers@[k]).0)
                && attackers@[k].1 == Defender::Player(opponent),
        r == spec_attack_ok(attackers@, options@, opponent),
{
    let mut i: usize = 0;
    while i < attackers.len()
        invariant
            i <= attackers@.len(),
            forall|k: int|
                0 <= k < i ==> options@.contains((#[trigger] attackers@[k]).0) && attackers@[k].1
                    == Defender::Player(opponent),
            forall|a: int, b: int| 0 <= a < b < i ==> attackers@[a].0 != attackers@[b].0,
        decreases attackers@.len() - i,
    {
        let (id, def) = attackers[i];
        match def {
            Defender::Player(q) => {
                if q.0 != opponent.0 {
                    assert(attackers@[i as int].1 != Defender::Player(opponent));
                    return false;
                }
            },
        }
        if !crate::vecs::has_id(options, id) {
            return false;
        }
        let mut j: usize = 0;
        while j < i
            invariant
                i < attackers@.len(),
                j <= i,
                id == attackers@[i as int].0,
                forall|a: int| 0 <= a < j ==> attackers@[a].0 != attackers@[i as int].0,
            decreases i - j,
        {
            if attackers[j].0.0 == id.0 {
                assert(attackers@[j as int].0 == attackers@[i as int].0);
                return false;
            }
            j = j + 1;
        }
        assert(Defender::Player(opponent) == attackers@[i as int].1);
        i = i + 1;
    }
    true
}

/// Whether `blockers` offers `b` as a blocker of `a`.
pub open spec fn offers_block(blockers: Seq<BlockerOption>, b: ObjectId, a: ObjectId) -> bool {
    exists|i: int| 0 <= i < blockers.len() && (#[trigger] blockers[i]).blocker == b && blockers[i].attackers@.contains(a)
}

/// Whether every block of `blocks` is one `options` offers, and no
/// creature blocks twice.
pub fn blocks_chosen_from(blocks: &Vec<(ObjectId, ObjectId)>, options: &Vec<BlockerOption>) -> (r: bool)
    ensures
        r ==> forall|k: int|
            0 <= k < blocks@.len() ==> offers_block(options@, (#[trigger] blocks@[k]).0, blocks@[k].1),
        r == spec_blocks_ok(blocks@, options@),
{
    let mut i: usize = 0;
    while i < blocks.len()
        invariant
            i <= blocks@.len(),
            forall|k: int|
                0 <= k < i ==> offers_block(options@, (#[trigger] blocks@[k]).0, blocks@[k].1),
            forall|x: int, y: int| 0 <= x < y < i ==> blocks@[x].0 != blocks@[y].0,
        decreases blocks@.len() - i,
    {
        let (b, a) = blocks[i];
        let mut found = false;
        let mut m: usize = 0;
        while m < options.len()
            invariant
                m <= options@.len(),
                found ==> offers_block(options@, b, a),
                !found ==> forall|w: int|
                    0 <= w < m ==> !((#[trigger] options@[w]).blocker == b && options@[w].attackers@.contains(a)),
            decreases options@.len() - m,
        {
            if options[m].blocker.0 == b.0 && crate::vecs::has_id(&options[m].attackers, a) {
                found = true;
                assert(options@[m as int].blocker == b);
            }
            m = m + 1;
        }
        if !found {
            assert(!offers_block(options@, blocks@[i as int].0, blocks@[i as int].1));
            return false;
        }
        let mut j: usize = 0;
        while j < i
            invariant
                i < blocks@.len(),
                j <= i,
                b == blocks@[i as int].0,
                forall|x: int| 0 <= x < j ==> blocks@[x].0 != blocks@[i as int].0,
            decreases i - j,
        {
            if blocks[j].0.0 == b.0 {
                assert(blocks@[j as int].0 == blocks@[i as int].0);
                return false;
            }
            j = j + 1;
        }
        i = i + 1;
    }
    true
}

impl Pending {
    /// Whether the engine asks for blockers and offers `b` as a blocker of
    /// `a`.
    pub open spec fn offers_block(self, b: ObjectId, a: ObjectId) -> bool {
        match self {
            Pending::ChooseBlockers { blockers, .. } => offers_block(blockers@, b, a),
            _ => false,
        }
    }
}

impl Engine {
    /// The active player `p` says which creatures attack, each with what it
    /// attacks. Every attacker must be one the engine offered, named once,
    /// attacking the other player; the attackers then attack, each tapping
    /// unless it has vigilance, and `p` receives priority.
    pub fn declare_attackers(&mut self, p: PlayerId, attackers: Vec<(ObjectId, Defender)>) -> (r: Result<(), EngineError>)
        requires
            old(self).wf(),
        ensures
            final(self).wf(),
            final(self).state.turn == old(self).state.turn,
            r.is_err() ==> *final(self) == *old(self),
            r.is_ok() ==> old(self).pending.decider() == p,
            r.is_ok() ==> old(self).pending is ChooseAttackers,
            r == old(self).spec_answer(
                p,
                old(self).pending is ChooseAttackers,
                old(self).pending matches Pending::ChooseAttackers { options, .. } && spec_attack_ok(
                    attackers@,
                    options@,
                    p.spec_opponent(),
                ),
            ),
            r.is_ok() ==> forall|k: int|
                0 <= k < attackers@.len() ==> old(self).pending.offered_objects().contains(
                    (#[trigger] attackers@[k]).0,
                ) && attackers@[k].1 == Defender::Player(p.spec_opponent()),
    {
        if self.jobs.len() == 0 {
            return Err(EngineError::WrongKindOfAction);
        }
        match &self.pending {
            Pending::ChooseAttackers { player, options } => {
                if player.0 != p.0 {
                    return Err(EngineError::NotYourDecision);
                }
                if !attackers_chosen_from(&attackers, options, p.opponent()) {
                    return Err(EngineError::InvalidChoice);
                }
            },
            _ => {
                return Err(EngineError::WrongKindOfAction);
            },
        }
        self.jobs.remove(0);
        let mut ids: Vec<ObjectId> = Vec::new();
        let mut i: usize = 0;
        while i < attackers.len()
            decreases attackers@.len() - i,
        {
            ids.push(attackers[i].0);
            i = i + 1;
        }
        self.state.mark_attackers(&ids);
        if ids.len() > 0 {
            self.combat = CombatStep::Attackers;
        }
        self.priority = p;
        self.passes = 0;
        self.settle();
        Ok(())
    }

    /// The defending player `p` says which creatures block which
    /// attackers. Every block must be one the engine offered, and no
    /// creature blocks twice; the blocks are recorded and the active player
    /// receives priority.
    pub fn declare_blockers(&mut self, p: PlayerId, blocks: Vec<(ObjectId, ObjectId)>) -> (r: Result<(), EngineError>)
        requires
            old(self).wf(),
        ensures
            final(self).wf(),
            final(self).state.turn == old(self).state.turn,
            r.is_err() ==> *final(self) == *old(self),
            r.is_ok() ==> old(self).pending.decider() == p,
            r.is_ok() ==> old(self).pending is ChooseBlockers,
            r == old(self).spec_answer(
                p,
                old(self).pending is ChooseBlockers,
                old(self).pending matches Pending::ChooseBlockers { blockers, .. } && spec_blocks_ok(
                    blocks@,
                    blockers@,
                ),
            ),
            r.is_ok() ==> forall|k: int|
                0 <= k < blocks@.len() ==> old(self).pending.offers_block(
                    (#[trigger] blocks@[k]).0,
                    blocks@[k].1,
                ),
    {
        if self.jobs.len() == 0 {
            return Err(EngineError::WrongKindOfAction);
        }
        match &self.pending {
            Pending::ChooseBlockers { player, blockers } => {
                if player.0 != p.0 {
                    return Err(EngineError::NotYourDecision);
                }
                if !blocks_chosen_from(&blocks, blockers) {
                    return Err(EngineError::InvalidChoice);
                }
            },
            _ => {
                return Err(EngineError::WrongKindOfAction);
            },
        }
        self.jobs.remove(0);
        self.blocks = blocks;
        self.priority = self.state.turn.active;
        self.passes = 0;
        self.settle();
        Ok(())
    }

    /// Whether, as both players pass with an empty stack, the defending
    /// player is asked for blockers next: attackers are declared and no
    /// blockers yet.
    pub open spec fn spec_blockers_next(self) -> bool {
        self.state.turn.phase == Phase::Combat && self.combat == CombatStep::Attackers
    }

    /// Whether, as both players pass with an empty stack, combat damage is
    /// dealt next: blockers are declared and no damage yet.
    pub open spec fn spec_damage_next(self) -> bool {
        self.state.turn.phase == Phase::Combat && self.combat == CombatStep::Blockers
    }

    /// Both players have passed with an empty stack. In a combat with
    /// attackers the defending player is asked for blockers, and after them
    /// combat damage is dealt, each followed by priority for the active
    /// player; otherwise the next step begins.
    pub fn step_ends(&mut self)
        requires
            old(self).wf(),
        ensures
            final(self).wf(),
            Engine::spec_blockers_next(*old(self)) ==> final(self).state == old(self).state
                && final(self).combat == CombatStep::Blockers && final(self).jobs@ == old(self).jobs@.push(
                Job::DeclareBlockers { player: old(self).state.turn.active.spec_opponent() },
            ),
            Engine::spec_damage_next(*old(self)) ==> final(self).combat == CombatStep::Damage
                && final(self).state.turn == old(self).state.turn && final(self).state.objects@.len()
                == old(self).state.objects@.len() && (forall|j: int|
                0 <= j < old(self).state.objects@.len() ==> #[trigger] final(self).state.objects@[j]
                    == (GameObject {
                    damage: spec_marked(
                        old(self).state.objects@[j].damage,
                        spec_damage_to(old(self).state, old(self).blocks@, old(self).state.objects@[j]),
                    ),
                    ..old(self).state.objects@[j]
                })) && final(self).state.life_of(old(self).state.turn.active.spec_opponent())
                == crate::state::clamp_i32(
                old(self).state.life_of(old(self).state.turn.active.spec_opponent())
                    - spec_unblocked_total(old(self).state.objects@, old(self).blocks@),
            ),
            Engine::spec_blockers_next(*old(self)) || Engine::spec_damage_next(*old(self))
                ==> final(self).priority == old(self).state.turn.active && final(self).passes == 0,
            !Engine::spec_blockers_next(*old(self)) && !Engine::spec_damage_next(*old(self))
                ==> crate::flow::spec_step_passed(old(self).state.turn, final(self).state.turn),
            !Engine::spec_blockers_next(*old(self)) && !Engine::spec_damage_next(*old(self))
                ==> final(self).state.turn.phase == crate::flow::spec_phase_after(
                old(self).state.turn.phase,
            ),
    {
        if self.state.turn.phase == Phase::Combat {
            match self.combat {
                CombatStep::Attackers => {
                    self.combat = CombatStep::Blockers;
                    let d = self.state.turn.active.opponent();
                    self.jobs.push(Job::DeclareBlockers { player: d });
                    self.priority = self.state.turn.active;
                    self.passes = 0;
                    return;
                },
                CombatStep::Blockers => {
                    self.combat_damage();
                    self.combat = CombatStep::Damage;
                    self.priority = self.state.turn.active;
                    self.passes = 0;
                    return;
                },
                _ => {},
            }
        }
        self.advance_step();
    }

    /// Combat damage (CR 510): an attacker no creature blocks deals damage
    /// equal to its power to the defending player; a blocked attacker deals
    /// it to the first of its blockers still on the battlefield, and each
    /// such blocker deals damage equal to its power to the attacker.
    pub fn combat_damage(&mut self)
        requires
            old(self).wf(),
        ensures
            final(self).wf(),
            final(self).state.turn == old(self).state.turn,
            final(self).state.objects@.len() == old(self).state.objects@.len(),
            forall|j: int|
                0 <= j < old(self).state.objects@.len() ==> #[trigger] final(self).state.objects@[j]
                    == (GameObject {
                    damage: spec_marked(
                        old(self).state.objects@[j].damage,
                        spec_damage_to(old(self).state, old(self).blocks@, old(self).state.objects@[j]),
                    ),
                    ..old(self).state.objects@[j]
                }),
            final(self).state.life_of(old(self).state.turn.active.spec_opponent()) == crate::state::clamp_i32(
                old(self).state.life_of(old(self).state.turn.active.spec_opponent())
                    - spec_unblocked_total(old(self).state.objects@, old(self).blocks@),
            ),
            final(self).blocks == old(self).blocks,
    {
        let d = self.state.turn.active.opponent();
        self.state.deal_combat_damage(&self.blocks, d);
    }
}

} // verus!
