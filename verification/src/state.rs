//! The state of a game: objects, zones, players and the turn.

use vstd::prelude::*;
use crate::cards::{Animation, Characteristics};
use crate::ids::{CardIndex, ObjectId, Phase, PlayerId};
use crate::mana::{ManaColor, ManaPool};
use crate::sets::{Counters, Keywords, Subtype, Types, spec_type_bit, type_bit, TypeSet};

verus! {

/// The zone an object is in.
#[derive(Clone, Copy, Debug, PartialEq, Eq, Structural)]
pub enum Zone {
    Library,
    Hand,
    Battlefield,
    Graveyard,
    Exile,
    /// A spell waiting to resolve.
    Stack,
}

/// A zone together with the player it belongs to, where it belongs to one.
#[derive(Clone, Copy, Debug, PartialEq, Eq, Structural)]
pub enum ZoneLocation {
    Library(PlayerId),
    Hand(PlayerId),
    Battlefield,
    Graveyard(PlayerId),
    Exile(PlayerId),
    Stack,
}

/// What kind of token an object is, if it is one.
#[derive(Clone, Copy, Debug, PartialEq, Eq, Structural)]
pub enum TokenKind {
    Card,
    Clue,
    Zombie,
    /// A token some other effect made.
    Other,
}

/// One object: a card, wherever it is, or a token.
#[derive(Clone, Copy, Debug, PartialEq, Eq, Structural)]
pub struct GameObject {
    pub id: ObjectId,
    /// The card it is (for a token, the token's own entry).
    pub card: CardIndex,
    /// The face that is up: the card itself, or the back face of a modal
    /// double-faced card.
    pub face: CardIndex,
    pub owner: PlayerId,
    pub controller: PlayerId,
    pub zone: Zone,
    pub tapped: bool,
    /// Whether it was tapped as it entered the battlefield.
    pub entered_tapped: bool,
    /// Which face of a double-faced card is up.
    pub face_index: u8,
    /// The characteristics the face that is up prints.
    pub printed: Characteristics,
    pub counters: Counters,
    /// "Doesn't untap during your next untap step."
    pub skip_untap: bool,
    pub token: TokenKind,
    pub damage: u32,
    pub chosen_color: Option<ManaColor>,
    pub chosen_subtype: Option<Subtype>,
    /// The turn it last entered the battlefield.
    pub entered_turn: u32,
    pub animated: Option<Animation>,
    pub eot_power: i32,
    pub eot_toughness: i32,
    pub eot_keywords: u32,
    pub eot_lost_keywords: u32,
    /// Whether it is attacking in the combat under way.
    pub attacking: bool,
}

/// Clamps an integer into the range of `i32`.
pub open spec fn clamp_i32(x: int) -> i32 {
    if x < i32::MIN {
        i32::MIN
    } else if x > i32::MAX {
        i32::MAX
    } else {
        x as i32
    }
}

/// Clamps an `i64` into the range of `i32`.
pub fn to_i32(x: i64) -> (r: i32)
    ensures
        r == clamp_i32(x as int),
{
    if x < i32::MIN as i64 {
        i32::MIN
    } else if x > i32::MAX as i64 {
        i32::MAX
    } else {
        x as i32
    }
}

impl GameObject {
    /// The characteristics the object has now: what its face prints, an
    /// animation over it, its +1/+1 and -1/-1 counters, and what lasts until
    /// end of turn.
    pub open spec fn chars(self) -> Characteristics {
        let base = self.printed;
        let (types, p, t, kw) = match self.animated {
            Some(a) => (
                base.types.0 | a.types | spec_type_bit(TypeSet::CREATURE),
                a.power as int,
                a.toughness as int,
                base.keywords.0 | a.keywords,
            ),
            None => (base.types.0, base.power as int, base.toughness as int, base.keywords.0),
        };
        Characteristics {
            types: Types(types),
            subtypes: base.subtypes,
            colors: base.colors,
            basic: base.basic,
            legendary: base.legendary,
            power: clamp_i32(p + self.counters.p1p1 - self.counters.m1m1 + self.eot_power),
            toughness: clamp_i32(t + self.counters.p1p1 - self.counters.m1m1 + self.eot_toughness),
            keywords: Keywords((kw | self.eot_keywords) & !self.eot_lost_keywords),
        }
    }

    /// The characteristics the object has now.
    pub fn characteristics(&self) -> (ch: Characteristics)
        ensures
            ch == self.chars(),
    {
        let base = self.printed;
        let (types, p, t, kw) = match self.animated {
            Some(a) => (
                base.types.0 | a.types | type_bit(TypeSet::CREATURE),
                a.power as i64,
                a.toughness as i64,
                base.keywords.0 | a.keywords,
            ),
            None => (base.types.0, base.power as i64, base.toughness as i64, base.keywords.0),
        };
        Characteristics {
            types: Types(types),
            subtypes: base.subtypes,
            colors: base.colors,
            basic: base.basic,
            legendary: base.legendary,
            power: to_i32(p + self.counters.p1p1 as i64 - self.counters.m1m1 as i64
                + self.eot_power as i64),
            toughness: to_i32(t + self.counters.p1p1 as i64 - self.counters.m1m1 as i64
                + self.eot_toughness as i64),
            keywords: Keywords((kw | self.eot_keywords) & !self.eot_lost_keywords),
        }
    }

}

/// One player's life and mana.
#[derive(Clone, Debug, PartialEq, Eq)]
pub struct PlayerState {
    pub life: i32,
    pub mana_pool: ManaPool,
    /// The colours of the player's commander's colour identity, as a mask;
    /// none for a player without a commander.
    pub commander_colors: u8,
}

/// Whose turn it is and where in it the game stands.
#[derive(Clone, Copy, Debug, PartialEq, Eq, Structural)]
pub struct TurnState {
    pub number: u32,
    pub active: PlayerId,
    pub phase: Phase,
    /// Lands the active player has played this turn.
    pub lands_played: u32,
}

/// The ordered lists of objects in each zone. A library's top card is its
/// last entry.
#[derive(Clone, Debug, PartialEq, Eq)]
pub struct Zones {
    pub library0: Vec<ObjectId>,
    pub library1: Vec<ObjectId>,
    pub hand0: Vec<ObjectId>,
    pub hand1: Vec<ObjectId>,
    pub graveyard0: Vec<ObjectId>,
    pub graveyard1: Vec<ObjectId>,
    pub exile0: Vec<ObjectId>,
    pub exile1: Vec<ObjectId>,
    pub battlefield: Vec<ObjectId>,
    /// The spells on the stack, the last cast last.
    pub stack: Vec<ObjectId>,
}

impl Zones {
    /// No objects anywhere.
    pub fn new() -> (z: Zones)
        ensures
            forall|loc: ZoneLocation| #[trigger] z.spec_list(loc).len() == 0,
    {
        Zones {
            library0: Vec::new(),
            library1: Vec::new(),
            hand0: Vec::new(),
            hand1: Vec::new(),
            graveyard0: Vec::new(),
            graveyard1: Vec::new(),
            exile0: Vec::new(),
            exile1: Vec::new(),
            battlefield: Vec::new(),
            stack: Vec::new(),
        }
    }

    /// The list for a zone.
    pub open spec fn spec_list(self, loc: ZoneLocation) -> Seq<ObjectId> {
        match loc {
            ZoneLocation::Library(p) => if p.slot() == 0 {
                self.library0@
            } else {
                self.library1@
            },
            ZoneLocation::Hand(p) => if p.slot() == 0 {
                self.hand0@
            } else {
                self.hand1@
            },
            ZoneLocation::Graveyard(p) => if p.slot() == 0 {
                self.graveyard0@
            } else {
                self.graveyard1@
            },
            ZoneLocation::Exile(p) => if p.slot() == 0 {
                self.exile0@
            } else {
                self.exile1@
            },
            ZoneLocation::Battlefield => self.battlefield@,
            ZoneLocation::Stack => self.stack@,
        }
    }

    /// The objects in a zone, in order (a library's top card last).
    pub fn list(&self, loc: ZoneLocation) -> (l: &Vec<ObjectId>)
        ensures
            l@ == self.spec_list(loc),
    {
        match loc {
            ZoneLocation::Library(p) => if p.index() == 0 {
                &self.library0
            } else {
                &self.library1
            },
            ZoneLocation::Hand(p) => if p.index() == 0 {
                &self.hand0
            } else {
                &self.hand1
            },
            ZoneLocation::Graveyard(p) => if p.index() == 0 {
                &self.graveyard0
            } else {
                &self.graveyard1
            },
            ZoneLocation::Exile(p) => if p.index() == 0 {
                &self.exile0
            } else {
                &self.exile1
            },
            ZoneLocation::Battlefield => &self.battlefield,
            ZoneLocation::Stack => &self.stack,
        }
    }

    /// The list for a zone, to change.
    pub fn list_mut(&mut self, loc: ZoneLocation) -> (l: &mut Vec<ObjectId>)
        ensures
            l@ == old(self).spec_list(loc),
            final(self).spec_list(loc) == final(l)@,
            forall|other: ZoneLocation|
                !same_list(other, loc) ==> final(self).spec_list(other) == old(self).spec_list(
                    other,
                ),
    {
        match loc {
            ZoneLocation::Library(p) => if p.index() == 0 {
                &mut self.library0
            } else {
                &mut self.library1
            },
            ZoneLocation::Hand(p) => if p.index() == 0 {
                &mut self.hand0
            } else {
                &mut self.hand1
            },
            ZoneLocation::Graveyard(p) => if p.index() == 0 {
                &mut self.graveyard0
            } else {
                &mut self.graveyard1
            },
            ZoneLocation::Exile(p) => if p.index() == 0 {
                &mut self.exile0
            } else {
                &mut self.exile1
            },
            ZoneLocation::Battlefield => &mut self.battlefield,
            ZoneLocation::Stack => &mut self.stack,
        }
    }
}

/// Whether two locations name the same list.
pub open spec fn same_list(a: ZoneLocation, b: ZoneLocation) -> bool {
    match (a, b) {
        (ZoneLocation::Library(p), ZoneLocation::Library(q)) => p.slot() == q.slot(),
        (ZoneLocation::Hand(p), ZoneLocation::Hand(q)) => p.slot() == q.slot(),
        (ZoneLocation::Graveyard(p), ZoneLocation::Graveyard(q)) => p.slot() == q.slot(),
        (ZoneLocation::Exile(p), ZoneLocation::Exile(q)) => p.slot() == q.slot(),
        (ZoneLocation::Battlefield, ZoneLocation::Battlefield) => true,
        (ZoneLocation::Stack, ZoneLocation::Stack) => true,
        _ => false,
    }
}

/// The location of a zone, for an object owned by `owner`.
pub open spec fn spec_location(zone: Zone, owner: PlayerId) -> ZoneLocation {
    match zone {
        Zone::Library => ZoneLocation::Library(owner),
        Zone::Hand => ZoneLocation::Hand(owner),
        Zone::Battlefield => ZoneLocation::Battlefield,
        Zone::Graveyard => ZoneLocation::Graveyard(owner),
        Zone::Exile => ZoneLocation::Exile(owner),
        Zone::Stack => ZoneLocation::Stack,
    }
}

/// The location of a zone, for an object owned by `owner`.
pub fn location(zone: Zone, owner: PlayerId) -> (l: ZoneLocation)
    ensures
        l == spec_location(zone, owner),
{
    match zone {
        Zone::Library => ZoneLocation::Library(owner),
        Zone::Hand => ZoneLocation::Hand(owner),
        Zone::Battlefield => ZoneLocation::Battlefield,
        Zone::Graveyard => ZoneLocation::Graveyard(owner),
        Zone::Exile => ZoneLocation::Exile(owner),
        Zone::Stack => ZoneLocation::Stack,
    }
}

/// Everything about a game but what is pending and what is on the stack.
#[derive(Clone, Debug, PartialEq, Eq)]
pub struct GameState {
    pub players: Vec<PlayerState>,
    pub zones: Zones,
    pub turn: TurnState,
    pub monarch: Option<PlayerId>,
    pub objects: Vec<GameObject>,
}

impl GameState {
    /// The object with the given id, if there is one.
    pub open spec fn spec_object(self, id: ObjectId) -> Option<GameObject> {
        if (id.0 as int) < self.objects@.len() {
            Some(self.objects@[id.0 as int])
        } else {
            None
        }
    }

    /// The object with the given id, if there is one.
    pub fn object(&self, id: ObjectId) -> (o: Option<&GameObject>)
        ensures
            o.is_some() == self.spec_object(id).is_some(),
            o.is_some() ==> *o.unwrap() == self.spec_object(id).unwrap(),
    {
        let i = id.0 as usize;
        if i < self.objects.len() {
            Some(&self.objects[i])
        } else {
            None
        }
    }

    /// Whether the state has two players and each object sits at the index
    /// its id names.
    pub open spec fn wf(self) -> bool {
        &&& self.players@.len() == 2
        &&& forall|i: int| 0 <= i < self.objects@.len() ==> #[trigger] self.objects@[i].id.0 == i
    }
}

} // verus!
