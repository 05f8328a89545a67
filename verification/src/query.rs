//! Questions the engine asks of a game state: which objects are where, which
//! match a description, and what a card is.

use vstd::prelude::*;
use crate::cards::{filter_matches, spec_matches, Characteristics, Filter};
use crate::catalog::{card_chars, card_entry, spec_card_chars, spec_card_entry};
use crate::ids::{CardIndex, ObjectId, PlayerId};
use crate::mana::ManaColor;
use crate::sets::{spec_keyword_bit, spec_subtype_bit, spec_type_bit, keyword_bit, subtype_bit, type_bit, KeywordSet, Subtype, TypeSet};
use crate::state::{GameObject, GameState, Zone, ZoneLocation};

verus! {

/// Whether a card is a land card: its front face, or its back face, is a land.
pub open spec fn spec_is_land_card(c: CardIndex) -> bool {
    ||| spec_card_chars(c).types.0 & spec_type_bit(TypeSet::LAND) != 0
    ||| match spec_card_entry(c).back {
        Some(b) => spec_card_chars(b).types.0 & spec_type_bit(TypeSet::LAND) != 0,
        None => false,
    }
}

/// Whether a card is a permanent card: one that enters the battlefield
/// as it resolves (CR 110.4).
pub open spec fn spec_is_permanent_card(c: CardIndex) -> bool {
    spec_card_chars(c).types.0 & (spec_type_bit(TypeSet::LAND) | spec_type_bit(TypeSet::CREATURE)
        | spec_type_bit(TypeSet::ARTIFACT) | spec_type_bit(TypeSet::ENCHANTMENT) | spec_type_bit(
        TypeSet::PLANESWALKER,
    ) | spec_type_bit(TypeSet::BATTLE)) != 0
}

/// Whether a card is a permanent card.
pub fn is_permanent_card(c: CardIndex) -> (b: bool)
    ensures
        b == spec_is_permanent_card(c),
{
    card_chars(c).types.0 & (type_bit(TypeSet::LAND) | type_bit(TypeSet::CREATURE) | type_bit(
        TypeSet::ARTIFACT,
    ) | type_bit(TypeSet::ENCHANTMENT) | type_bit(TypeSet::PLANESWALKER) | type_bit(TypeSet::BATTLE))
        != 0
}

/// Whether a card is a land card.
pub fn is_land_card(c: CardIndex) -> (b: bool)
    ensures
        b == spec_is_land_card(c),
{
    let land = type_bit(TypeSet::LAND);
    if card_chars(c).types.0 & land != 0 {
        return true;
    }
    match card_entry(c).back {
        Some(b) => card_chars(b).types.0 & land != 0,
        None => false,
    }
}

/// The colours of mana the basic land types of `ch` give (CR 305.6), as a
/// colour mask: Plains white, Island blue, Swamp black, Mountain red and
/// Forest green.
pub open spec fn spec_intrinsic_colors(ch: Characteristics) -> u8 {
    let s = ch.subtypes.0;
    let w: u8 = if s & spec_subtype_bit(Subtype::Plains) != 0 { 0x1 } else { 0x0 };
    let u: u8 = if s & spec_subtype_bit(Subtype::Island) != 0 { 0x2 } else { 0x0 };
    let b: u8 = if s & spec_subtype_bit(Subtype::Swamp) != 0 { 0x4 } else { 0x0 };
    let r: u8 = if s & spec_subtype_bit(Subtype::Mountain) != 0 { 0x8 } else { 0x0 };
    let g: u8 = if s & spec_subtype_bit(Subtype::Forest) != 0 { 0x10 } else { 0x0 };
    if ch.types.0 & spec_type_bit(TypeSet::LAND) != 0 {
        (w | u | b | r | g) as u8
    } else {
        0
    }
}

/// The colours of mana the basic land types of `ch` give.
pub fn intrinsic_colors(ch: &Characteristics) -> (m: u8)
    ensures
        m == spec_intrinsic_colors(*ch),
{
    let s = ch.subtypes.0;
    let w: u8 = if s & subtype_bit(Subtype::Plains) != 0 { 0x1 } else { 0x0 };
    let u: u8 = if s & subtype_bit(Subtype::Island) != 0 { 0x2 } else { 0x0 };
    let b: u8 = if s & subtype_bit(Subtype::Swamp) != 0 { 0x4 } else { 0x0 };
    let r: u8 = if s & subtype_bit(Subtype::Mountain) != 0 { 0x8 } else { 0x0 };
    let g: u8 = if s & subtype_bit(Subtype::Forest) != 0 { 0x10 } else { 0x0 };
    if ch.types.0 & type_bit(TypeSet::LAND) != 0 {
        (w | u | b | r | g) as u8
    } else {
        0
    }
}

/// The colours of a colour mask, in the order white, blue, black, red and
/// green.
pub fn colors_in(m: u8) -> (v: Vec<ManaColor>)
    ensures
        v@.len() <= 5,
        forall|k: int| 0 <= k < v@.len() ==> v@[k] != ManaColor::Colorless,
        v@ == spec_colors_in(m),
        v@.len() == 0 <==> m & 0x1f == 0,
{
    proof {
        assert((m & 0x1f == 0) <==> (m & 0x1 == 0 && m & 0x2 == 0 && m & 0x4 == 0 && m & 0x8 == 0 && m
            & 0x10 == 0)) by (bit_vector);
    }
    let mut v: Vec<ManaColor> = Vec::new();
    if m & 0x1 != 0 {
        v.push(ManaColor::White);
    }
    if m & 0x2 != 0 {
        v.push(ManaColor::Blue);
    }
    if m & 0x4 != 0 {
        v.push(ManaColor::Black);
    }
    if m & 0x8 != 0 {
        v.push(ManaColor::Red);
    }
    if m & 0x10 != 0 {
        v.push(ManaColor::Green);
    }
    v
}

/// The colours of the mask `m`, in the order white, blue, black, red,
/// green.
pub open spec fn spec_colors_in(m: u8) -> Seq<ManaColor> {
    (if m & 0x1 != 0 { seq![ManaColor::White] } else { Seq::empty() }) + (if m & 0x2 != 0 {
        seq![ManaColor::Blue]
    } else {
        Seq::empty()
    }) + (if m & 0x4 != 0 { seq![ManaColor::Black] } else { Seq::empty() }) + (if m & 0x8 != 0 {
        seq![ManaColor::Red]
    } else {
        Seq::empty()
    }) + (if m & 0x10 != 0 { seq![ManaColor::Green] } else { Seq::empty() })
}

/// Whether a permanent is a creature that came under its controller's
/// control this turn and has no haste, so that it cannot pay a `{T}` cost
/// (CR 302.6).
pub open spec fn spec_is_sick(o: GameObject, turn: u32) -> bool {
    &&& o.chars().types.0 & spec_type_bit(TypeSet::CREATURE) != 0
    &&& o.entered_turn == turn
    &&& o.chars().keywords.0 & spec_keyword_bit(KeywordSet::HASTE) == 0
}

/// Whether a permanent cannot pay a `{T}` cost for summoning sickness.
pub fn is_sick(o: &GameObject, turn: u32) -> (b: bool)
    ensures
        b == spec_is_sick(*o, turn),
{
    let ch = o.characteristics();
    ch.types.0 & type_bit(TypeSet::CREATURE) != 0 && o.entered_turn == turn
        && ch.keywords.0 & keyword_bit(KeywordSet::HASTE) == 0
}

impl GameState {
    /// Whether `id` names a permanent `p` controls or a card in `p`'s hand:
    /// the objects whose abilities `p` may activate.
    pub open spec fn is_ability_source_of(self, id: ObjectId, p: PlayerId) -> bool {
        &&& self.has(id)
        &&& (self.obj(id).zone == Zone::Battlefield || self.obj(id).zone == Zone::Hand)
        &&& self.obj(id).controller.slot() == p.slot()
    }

    /// Whether `id` names a permanent `p` controls.
    pub open spec fn is_permanent_of(self, id: ObjectId, p: PlayerId) -> bool {
        &&& self.has(id)
        &&& self.obj(id).zone == Zone::Battlefield
        &&& self.obj(id).controller.slot() == p.slot()
    }

    /// The permanents `p` controls that `f` describes, in battlefield order.
    pub fn permanents_matching(&self, p: PlayerId, f: &Filter) -> (r: Vec<ObjectId>)
        ensures
            forall|k: int| 0 <= k < r@.len() ==> self.is_permanent_of(#[trigger] r@[k], p),
            forall|k: int| 0 <= k < r@.len() ==> spec_matches(*f, self.obj(#[trigger] r@[k]).chars()),
            forall|k: int| 0 <= k < r@.len() ==> self.zones.battlefield@.contains(#[trigger] r@[k]),
            forall|id: ObjectId|
                self.zones.battlefield@.contains(id) && self.is_permanent_of(id, p) && spec_matches(
                    *f,
                    self.obj(id).chars(),
                ) ==> #[trigger] r@.contains(id),
    {
        let bf = &self.zones.battlefield;
        let mut r: Vec<ObjectId> = Vec::new();
        let mut i: usize = 0;
        while i < bf.len()
            invariant
                i <= bf@.len(),
                bf@ == self.zones.battlefield@,
                forall|k: int| 0 <= k < r@.len() ==> self.is_permanent_of(#[trigger] r@[k], p),
                forall|k: int| 0 <= k < r@.len() ==> spec_matches(*f, self.obj(#[trigger] r@[k]).chars()),
                forall|k: int| 0 <= k < r@.len() ==> self.zones.battlefield@.contains(#[trigger] r@[k]),
                forall|j: int|
                    0 <= j < i && self.is_permanent_of(#[trigger] bf@[j], p) && spec_matches(
                        *f,
                        self.obj(bf@[j]).chars(),
                    ) ==> r@.contains(bf@[j]),
            decreases bf@.len() - i,
        {
            let id = bf[i];
            let ghost r0 = r@;
            if self.contains(id) {
                let o = self.get(id);
                if o.zone == Zone::Battlefield && o.controller.index() == p.index()
                    && filter_matches(f, &o.characteristics()) {
                    r.push(id);
                    assert(r@[r@.len() - 1] == id);
                }
            }
            assert(bf@.contains(bf@[i as int]));
            assert forall|j: int| 0 <= j <= i && self.is_permanent_of(#[trigger] bf@[j], p) && spec_matches(
                    *f,
                    self.obj(bf@[j]).chars(),
                ) implies r@.contains(bf@[j]) by {
                if j < i {
                    assert(r0.contains(bf@[j]));
                    let m = choose|m: int| 0 <= m < r0.len() && r0[m] == bf@[j];
                    assert(r@[m] == r0[m]);
                }
            }
            i = i + 1;
        }
        assert forall|id: ObjectId|
            self.zones.battlefield@.contains(id) && self.is_permanent_of(id, p) && spec_matches(
                *f,
                self.obj(id).chars(),
            ) implies #[trigger] r@.contains(id) by {
            let j = choose|j: int| 0 <= j < bf@.len() && bf@[j] == id;
            assert(self.is_permanent_of(bf@[j], p));
        }
        r
    }

    /// The permanents on the battlefield that `f` describes, whoever controls them.
    pub fn all_permanents_matching(&self, f: &Filter) -> (r: Vec<ObjectId>)
        ensures
            forall|k: int| 0 <= k < r@.len() ==> self.has(#[trigger] r@[k]),
            forall|k: int| 0 <= k < r@.len() ==> self.obj(#[trigger] r@[k]).zone == Zone::Battlefield,
            forall|k: int| 0 <= k < r@.len() ==> spec_matches(*f, self.obj(#[trigger] r@[k]).chars()),
            forall|k: int| 0 <= k < r@.len() ==> self.zones.battlefield@.contains(#[trigger] r@[k]),
            forall|id: ObjectId|
                self.zones.battlefield@.contains(id) && self.has(id) && self.obj(id).zone
                    == Zone::Battlefield && spec_matches(*f, self.obj(id).chars()) ==> #[trigger] r@.contains(
                    id,
                ),
    {
        let bf = &self.zones.battlefield;
        let mut r: Vec<ObjectId> = Vec::new();
        let mut i: usize = 0;
        while i < bf.len()
            invariant
                i <= bf@.len(),
                bf@ == self.zones.battlefield@,
                forall|k: int| 0 <= k < r@.len() ==> self.has(#[trigger] r@[k]),
                forall|k: int| 0 <= k < r@.len() ==> self.obj(#[trigger] r@[k]).zone == Zone::Battlefield,
                forall|k: int| 0 <= k < r@.len() ==> spec_matches(*f, self.obj(#[trigger] r@[k]).chars()),
                forall|k: int| 0 <= k < r@.len() ==> self.zones.battlefield@.contains(#[trigger] r@[k]),
                forall|j: int|
                    0 <= j < i && self.has(#[trigger] bf@[j]) && self.obj(bf@[j]).zone == Zone::Battlefield
                        && spec_matches(*f, self.obj(bf@[j]).chars()) ==> r@.contains(bf@[j]),
            decreases bf@.len() - i,
        {
            let id = bf[i];
            let ghost r0 = r@;
            if self.contains(id) {
                let o = self.get(id);
                if o.zone == Zone::Battlefield && filter_matches(f, &o.characteristics()) {
                    r.push(id);
                    assert(r@[r@.len() - 1] == id);
                }
            }
            assert(bf@.contains(bf@[i as int]));
            assert forall|j: int|
                0 <= j <= i && self.has(#[trigger] bf@[j]) && self.obj(bf@[j]).zone == Zone::Battlefield
                    && spec_matches(*f, self.obj(bf@[j]).chars()) implies r@.contains(bf@[j]) by {
                if j < i {
                    assert(r0.contains(bf@[j]));
                    let m = choose|m: int| 0 <= m < r0.len() && r0[m] == bf@[j];
                    assert(r@[m] == r0[m]);
                }
            }
            i = i + 1;
        }
        assert forall|id: ObjectId|
            self.zones.battlefield@.contains(id) && self.has(id) && self.obj(id).zone == Zone::Battlefield
                && spec_matches(*f, self.obj(id).chars()) implies #[trigger] r@.contains(id) by {
            let j = choose|j: int| 0 <= j < bf@.len() && bf@[j] == id;
            assert(self.has(bf@[j]));
        }
        r
    }

    /// The cards in a zone list that `f` describes, as printed, in the
    /// list's order.
    pub fn cards_matching(&self, loc: ZoneLocation, f: &Filter) -> (r: Vec<ObjectId>)
        ensures
            forall|k: int| 0 <= k < r@.len() ==> self.has(#[trigger] r@[k]),
            forall|k: int| 0 <= k < r@.len() ==> self.zones.spec_list(loc).contains(#[trigger] r@[k]),
            forall|k: int| 0 <= k < r@.len() ==> spec_matches(*f, self.obj(#[trigger] r@[k]).printed),
            forall|id: ObjectId|
                self.zones.spec_list(loc).contains(id) && self.has(id) && spec_matches(*f, self.obj(id).printed)
                    ==> #[trigger] r@.contains(id),
    {
        let l = self.zones.list(loc);
        let mut r: Vec<ObjectId> = Vec::new();
        let mut i: usize = 0;
        while i < l.len()
            invariant
                i <= l@.len(),
                l@ == self.zones.spec_list(loc),
                forall|k: int| 0 <= k < r@.len() ==> self.has(#[trigger] r@[k]),
                forall|k: int| 0 <= k < r@.len() ==> self.zones.spec_list(loc).contains(#[trigger] r@[k]),
                forall|k: int| 0 <= k < r@.len() ==> spec_matches(*f, self.obj(#[trigger] r@[k]).printed),
                forall|j: int|
                    0 <= j < i && self.has(#[trigger] l@[j]) && spec_matches(*f, self.obj(l@[j]).printed)
                        ==> r@.contains(l@[j]),
            decreases l@.len() - i,
        {
            let id = l[i];
            let ghost r0 = r@;
            if self.contains(id) {
                let o = self.get(id);
                if filter_matches(f, &o.printed) {
                    r.push(id);
                    assert(l@[i as int] == id);
                    assert(r@[r@.len() - 1] == id);
                }
            }
            assert forall|j: int|
                0 <= j <= i && self.has(#[trigger] l@[j]) && spec_matches(*f, self.obj(l@[j]).printed)
                    implies r@.contains(l@[j]) by {
                if j < i {
                    assert(r0.contains(l@[j]));
                    let m = choose|m: int| 0 <= m < r0.len() && r0[m] == l@[j];
                    assert(r@[m] == r0[m]);
                }
            }
            i = i + 1;
        }
        assert forall|id: ObjectId|
            self.zones.spec_list(loc).contains(id) && self.has(id) && spec_matches(*f, self.obj(id).printed)
                implies #[trigger] r@.contains(id) by {
            let j = choose|j: int| 0 <= j < l@.len() && l@[j] == id;
            assert(self.has(l@[j]));
        }
        r
    }
}

/// Whether the card `face` prints, among its first `n` abilities, a static
/// ability with effect `e`.
pub open spec fn spec_prints_static(face: CardIndex, e: crate::cards::Effect, n: u32) -> bool {
    exists|k: u32| k < n && is_static_with(#[trigger] crate::catalog::spec_ability(face, k), e)
}

/// Whether `a` is a static ability with effect `e`.
pub open spec fn is_static_with(a: Option<crate::cards::Ability>, e: crate::cards::Effect) -> bool {
    match a {
        Some(x) => x.kind == crate::cards::AbilityKind::Static && x.effect == e,
        None => false,
    }
}

/// Whether the card `face` prints a static ability with effect `e`.
pub fn has_static(face: CardIndex, e: crate::cards::Effect) -> (b: bool)
    ensures
        b == spec_prints_static(face, e, crate::catalog::spec_ability_count(face)),
{
    let n = crate::catalog::ability_count(face);
    let mut k: u32 = 0;
    while k < n
        invariant
            n == crate::catalog::spec_ability_count(face),
            k <= n,
            !spec_prints_static(face, e, k),
        decreases n - k,
    {
        match crate::catalog::ability_at(face, k) {
            Some(a) => {
                if a.kind == crate::cards::AbilityKind::Static && a.effect == e {
                    assert(is_static_with(crate::catalog::spec_ability(face, k), e));
                    return true;
                }
            },
            None => {},
        }
        assert forall|j: u32|
            j < k + 1 implies !is_static_with(#[trigger] crate::catalog::spec_ability(face, j), e) by {
            if j < k {
                assert(!spec_prints_static(face, e, k));
            }
        }
        k = k + 1;
    }
    false
}

} // verus!
