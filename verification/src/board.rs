//! The primitive changes to a game state: rewriting an object, moving it
//! between zones, creating one, and changing a life total.

use vstd::prelude::*;
use crate::cards::Characteristics;
use crate::ids::{CardIndex, ObjectId, PlayerId};
use crate::sets::Counters;
use crate::state::{location, same_list, spec_location, GameObject, GameState, TokenKind, Zone, ZoneLocation};
use crate::vecs::remove_id;

verus! {

/// The largest number of objects a game may hold.
pub const MAX_OBJECTS: u32 = 1_000_000;

/// What an object looks like after it has moved to `zone`: a new object
/// for the rules (CR 400.7) with the same id, its front face up and nothing
/// of its time on the battlefield left on it.
pub open spec fn spec_moved(o: GameObject, zone: Zone, front: Characteristics) -> GameObject {
    GameObject {
        id: o.id,
        card: o.card,
        owner: o.owner,
        face: o.card,
        controller: o.owner,
        zone: zone,
        tapped: false,
        entered_tapped: false,
        face_index: 0,
        printed: front,
        counters: Counters { p1p1: 0, m1m1: 0, charge: 0, time: 0, storage: 0, depletion: 0, mining: 0 },
        skip_untap: false,
        token: o.token,
        damage: 0,
        chosen_color: None,
        chosen_subtype: None,
        entered_turn: o.entered_turn,
        animated: None,
        eot_power: 0,
        eot_toughness: 0,
        eot_keywords: 0,
        eot_lost_keywords: 0,
        attacking: false,
    }
}

/// The executable form of [`spec_moved`].
pub fn moved(o: &GameObject, zone: Zone, front: Characteristics) -> (r: GameObject)
    ensures
        r == spec_moved(*o, zone, front),
{
    GameObject {
        id: o.id,
        card: o.card,
        owner: o.owner,
        face: o.card,
        controller: o.owner,
        zone: zone,
        tapped: false,
        entered_tapped: false,
        face_index: 0,
        printed: front,
        counters: Counters::none(),
        skip_untap: false,
        token: o.token,
        damage: 0,
        chosen_color: None,
        chosen_subtype: None,
        entered_turn: o.entered_turn,
        animated: None,
        eot_power: 0,
        eot_toughness: 0,
        eot_keywords: 0,
        eot_lost_keywords: 0,
        attacking: false,
    }
}

/// Whether only the objects changed between two states (players, zones,
/// turn and monarch stay).
pub open spec fn only_objects_changed(a: GameState, b: GameState) -> bool {
    &&& b.players == a.players
    &&& b.zones == a.zones
    &&& b.turn == a.turn
    &&& b.monarch == a.monarch
}

/// Whether `b` differs from `a` at most in the object with id `i`.
pub open spec fn others_unchanged(a: GameState, b: GameState, i: int) -> bool {
    &&& b.objects@.len() == a.objects@.len()
    &&& forall|j: int| 0 <= j < a.objects@.len() && j != i ==> b.objects@[j] == a.objects@[j]
}

impl GameState {
    /// Whether `id` names an object of the state.
    pub open spec fn has(self, id: ObjectId) -> bool {
        (id.0 as int) < self.objects@.len()
    }

    /// The object `id` names; meaningful where [`GameState::has`] holds.
    pub open spec fn obj(self, id: ObjectId) -> GameObject {
        self.objects@[id.0 as int]
    }

    /// Whether `id` names an object of the state.
    pub fn contains(&self, id: ObjectId) -> (b: bool)
        ensures
            b == self.has(id),
    {
        (id.0 as usize) < self.objects.len()
    }

    /// A copy of the object `id` names.
    pub fn get(&self, id: ObjectId) -> (o: GameObject)
        requires
            self.has(id),
        ensures
            o == self.obj(id),
    {
        self.objects[id.0 as usize]
    }

    /// Writes `o` over the object with its id. Nothing else changes.
    pub fn put_object(&mut self, o: GameObject)
        requires
            old(self).wf(),
            old(self).has(o.id),
        ensures
            final(self).wf(),
            final(self).objects@ == old(self).objects@.update(o.id.0 as int, o),
            only_objects_changed(*old(self), *final(self)),
    {
        let i = o.id.0 as usize;
        self.objects.set(i, o);
    }

    /// Moves the object `id` to `zone` (for a library, on top unless
    /// `bottom`), as a new object with the same id: its front face, whose
    /// characteristics are `front`, up, untapped, with no counters and
    /// under its owner's control. No other object changes.
    pub fn move_object(&mut self, id: ObjectId, zone: Zone, bottom: bool, front: Characteristics)
        requires
            old(self).wf(),
            old(self).has(id),
        ensures
            final(self).wf(),
            final(self).obj(id) == spec_moved(old(self).obj(id), zone, front),
            others_unchanged(*old(self), *final(self), id.0 as int),
            final(self).players == old(self).players,
            final(self).turn == old(self).turn,
            final(self).monarch == old(self).monarch,
            final(self).zones.spec_list(spec_location(zone, old(self).obj(id).owner)).contains(id),
            spec_lists_after_move(*old(self), *final(self), id, zone, bottom),
    {
        let o = self.get(id);
        let from = location(o.zone, o.owner);
        let ghost z0 = self.zones;
        let _ = remove_id(self.zones.list_mut(from), id);
        let ghost z1 = self.zones;
        let to = location(zone, o.owner);
        let dest = self.zones.list_mut(to);
        if bottom {
            dest.insert(0, id);
            assert(dest@[0] == id);
        } else {
            dest.push(id);
            assert(dest@[dest@.len() - 1] == id);
        }
        let ghost z2 = self.zones;
        let n = moved(&o, zone, front);
        self.put_object(n);
        proof {
            if !same_list(from, to) {
                assert(!same_list(to, from));
                assert(z1.spec_list(to) == z0.spec_list(to));
                assert(z2.spec_list(from) == z1.spec_list(from));
                if bottom {
                    assert(z2.spec_list(to) =~= seq![id] + z0.spec_list(to));
                }
                assert(self.zones == z2);
            }
        }
    }

    /// Creates an object for `card` (face up, with characteristics `chars`)
    /// owned and controlled by `owner` in `zone`, at the end of that zone's
    /// list, and answers its id: the next free one.
    pub fn create_object(
        &mut self,
        card: CardIndex,
        chars: Characteristics,
        owner: PlayerId,
        zone: Zone,
        token: TokenKind,
    ) -> (id: ObjectId)
        requires
            old(self).wf(),
            old(self).objects@.len() < MAX_OBJECTS,
        ensures
            final(self).wf(),
            id.0 == old(self).objects@.len(),
            final(self).objects@.len() == old(self).objects@.len() + 1,
            forall|j: int| 0 <= j < old(self).objects@.len() ==> final(self).objects@[j] == old(self).objects@[j],
            final(self).obj(id).card == card,
            final(self).obj(id).owner == owner,
            final(self).obj(id).controller == owner,
            final(self).obj(id).zone == zone,
            final(self).obj(id).printed == chars,
            !final(self).obj(id).tapped,
            final(self).players == old(self).players,
            final(self).turn == old(self).turn,
            final(self).monarch == old(self).monarch,
            final(self).zones.spec_list(spec_location(zone, owner)).contains(id),
    {
        let id = ObjectId(self.objects.len() as u32);
        let o = GameObject {
            id,
            card,
            face: card,
            owner,
            controller: owner,
            zone,
            tapped: false,
            entered_tapped: false,
            face_index: 0,
            printed: chars,
            counters: Counters::none(),
            skip_untap: false,
            token,
            damage: 0,
            chosen_color: None,
            chosen_subtype: None,
            entered_turn: self.turn.number,
            animated: None,
            eot_power: 0,
            eot_toughness: 0,
            eot_keywords: 0,
            eot_lost_keywords: 0,
            attacking: false,
        };
        self.objects.push(o);
        let dest = self.zones.list_mut(location(zone, owner));
        dest.push(id);
        assert(dest@[dest@.len() - 1] == id);
        id
    }

    /// Puts the object `id` onto the battlefield under `controller`'s
    /// control with the face `face_card` (face number `face_index`) up. It
    /// enters tapped exactly when the face's entry rule says so, read
    /// against the board as it stood before it arrived (so that a count of
    /// "other" permanents never includes it), and with the counters the face
    /// says it enters with.
    pub fn put_onto_battlefield(
        &mut self,
        id: ObjectId,
        controller: PlayerId,
        face_index: u8,
        face_card: CardIndex,
    )
        requires
            old(self).wf(),
            old(self).has(id),
        ensures
            final(self).wf(),
            final(self).obj(id).zone == Zone::Battlefield,
            final(self).obj(id).tapped == crate::rules::spec_enters_tapped(
                *old(self),
                controller,
                crate::catalog::spec_card_entry(face_card).rule,
                id,
            ),
            final(self).obj(id).entered_tapped == final(self).obj(id).tapped,
            final(self).obj(id).controller == controller,
            final(self).obj(id).face == face_card,
            final(self).obj(id).face_index == face_index,
            final(self).obj(id).card == old(self).obj(id).card,
            final(self).obj(id).owner == old(self).obj(id).owner,
            final(self).obj(id).printed == crate::catalog::spec_card_chars(face_card),
            final(self).obj(id).entered_turn == old(self).turn.number,
            final(self).obj(id).animated.is_none(),
            others_unchanged(*old(self), *final(self), id.0 as int),
            final(self).players == old(self).players,
            final(self).turn == old(self).turn,
            final(self).monarch == old(self).monarch,
            final(self).zones.battlefield@.contains(id),
    {
        let e = crate::catalog::card_entry(face_card);
        let tapped = crate::rules::enters_tapped(self, controller, &e.rule, id);
        let chars = crate::catalog::card_chars(face_card);
        self.move_object(id, Zone::Battlefield, false, chars);
        let o = self.get(id);
        let counters = match e.counters {
            Some(c) => Counters::none().added(c.kind, self.counters_put(controller, c.n)),
            None => Counters::none(),
        };
        let n = GameObject {
            controller,
            face: face_card,
            face_index,
            printed: chars,
            tapped,
            entered_tapped: tapped,
            entered_turn: self.turn.number,
            counters,
            ..o
        };
        self.put_object(n);
    }

    /// How many counters an effect that puts `n` of them on a permanent `p`
    /// controls really puts: twice as many for each Doubling Season `p`
    /// controls, held within `u32`.
    pub fn counters_put(&self, p: PlayerId, n: u32) -> (m: u32)
        ensures
            m >= n,
    {
        let bf = &self.zones.battlefield;
        let season = crate::catalog::doubling_season();
        let mut m = n;
        let mut i: usize = 0;
        while i < bf.len()
            invariant
                m >= n,
            decreases bf@.len() - i,
        {
            match self.object(bf[i]) {
                Some(o) => {
                    if o.card == season && o.zone == Zone::Battlefield && o.controller.index() == p.index() {
                        m = m.saturating_add(m);
                    }
                },
                None => {},
            }
            i = i + 1;
        }
        m
    }

    /// The life total of player `p`.
    pub open spec fn life_of(self, p: PlayerId) -> i32 {
        self.players@[p.slot()].life
    }

    /// Adds `delta` to the life total of `p`, held within `i32`. Nothing but
    /// that life total changes.
    pub fn change_life(&mut self, p: PlayerId, delta: i64)
        requires
            old(self).wf(),
            -0x1_0000_0000 <= delta <= 0x1_0000_0000,
        ensures
            final(self).wf(),
            final(self).life_of(p) == crate::state::clamp_i32(old(self).life_of(p) + delta),
            final(self).players@[p.slot()].mana_pool == old(self).players@[p.slot()].mana_pool,
            final(self).players@[1 - p.slot()] == old(self).players@[1 - p.slot()],
            final(self).objects == old(self).objects,
            final(self).zones == old(self).zones,
            final(self).turn == old(self).turn,
            final(self).monarch == old(self).monarch,
    {
        let i = p.index();
        let life = crate::state::to_i32(self.players[i].life as i64 + delta);
        self.players[i].life = life;
    }
}

/// What a move of `id` to `zone` does to the zone lists, where it leaves
/// one list for another: the list it leaves is one shorter where it held
/// the object, and the list it joins holds it last (on top), or first with
/// `bottom`; every other list stays as it was.
pub open spec fn spec_lists_after_move(a: GameState, b: GameState, id: ObjectId, zone: Zone, bottom: bool) -> bool {
    let from = spec_location(a.obj(id).zone, a.obj(id).owner);
    let to = spec_location(zone, a.obj(id).owner);
    !same_list(from, to) ==> {
        &&& b.zones.spec_list(from).len() == a.zones.spec_list(from).len() - (if a.zones.spec_list(from).contains(id) {
            1int
        } else {
            0int
        })
        &&& !bottom ==> b.zones.spec_list(to) == a.zones.spec_list(to).push(id)
        &&& bottom ==> b.zones.spec_list(to) == seq![id] + a.zones.spec_list(to)
        &&& forall|other: ZoneLocation|
            !same_list(other, from) && !same_list(other, to) ==> #[trigger] b.zones.spec_list(other)
                == a.zones.spec_list(other)
    }
}

} // verus!
