//! Small sets over the game's vocabularies: card types, keywords, subtypes
//! and colours, each held as a bit mask, and the counters a permanent carries.

use vstd::prelude::*;
use crate::mana::ManaColor;

verus! {
/// A card type (CR 300.1). The names are the ones a type line prints.
#[allow(non_camel_case_types)]
#[derive(Clone, Copy, Debug, PartialEq, Eq, Hash, Structural)]
pub enum TypeSet {
    LAND,
    CREATURE,
    ARTIFACT,
    ENCHANTMENT,
    PLANESWALKER,
    INSTANT,
    SORCERY,
    BATTLE,
}

/// The bit that stands for `t` in a mask.
pub open spec fn spec_type_bit(t: TypeSet) -> u32 {
    match t {
        TypeSet::LAND => 0x1,
        TypeSet::CREATURE => 0x2,
        TypeSet::ARTIFACT => 0x4,
        TypeSet::ENCHANTMENT => 0x8,
        TypeSet::PLANESWALKER => 0x10,
        TypeSet::INSTANT => 0x20,
        TypeSet::SORCERY => 0x40,
        TypeSet::BATTLE => 0x80,
    }
}

/// The bit that stands for `t` in a mask.
pub fn type_bit(t: TypeSet) -> (b: u32)
    ensures
        b == spec_type_bit(t),
{
    match t {
        TypeSet::LAND => 0x1,
        TypeSet::CREATURE => 0x2,
        TypeSet::ARTIFACT => 0x4,
        TypeSet::ENCHANTMENT => 0x8,
        TypeSet::PLANESWALKER => 0x10,
        TypeSet::INSTANT => 0x20,
        TypeSet::SORCERY => 0x40,
        TypeSet::BATTLE => 0x80,
    }
}

/// A set of card types.
#[derive(Clone, Copy, Debug, PartialEq, Eq, Hash, Structural)]
pub struct Types(pub u32);

impl Types {
    /// Whether `t` is in the set.
    pub open spec fn has(self, t: TypeSet) -> bool {
        self.0 & spec_type_bit(t) != 0
    }

    /// Whether `t` is in the set.
    pub fn contains(&self, t: TypeSet) -> (r: bool)
        ensures
            r == self.has(t),
    {
        self.0 & type_bit(t) != 0
    }

    /// The empty set.
    pub fn none() -> (s: Types)
        ensures
            s.0 == 0,
    {
        Types(0)
    }

    /// The set with `t` added.
    pub fn with(&self, t: TypeSet) -> (s: Types)
        ensures
            s.0 == self.0 | spec_type_bit(t),
    {
        Types(self.0 | type_bit(t))
    }

    /// Every member of either set.
    pub fn union(&self, other: Types) -> (s: Types)
        ensures
            s.0 == self.0 | other.0,
    {
        Types(self.0 | other.0)
    }

    /// The members of `self` that are not in `other`.
    pub fn minus(&self, other: Types) -> (s: Types)
        ensures
            s.0 == self.0 & !other.0,
    {
        Types(self.0 & !other.0)
    }

    /// Whether the two sets share a member.
    pub fn meets(&self, other: Types) -> (r: bool)
        ensures
            r == (self.0 & other.0 != 0),
    {
        self.0 & other.0 != 0
    }
}

/// A keyword ability, or the evasion a card grants by name.
#[allow(non_camel_case_types)]
#[derive(Clone, Copy, Debug, PartialEq, Eq, Hash, Structural)]
pub enum KeywordSet {
    FLYING,
    TRAMPLE,
    HASTE,
    VIGILANCE,
    MENACE,
    HEXPROOF,
    DEATHTOUCH,
    LIFELINK,
    UNBLOCKABLE,
    REACH,
    FIRST_STRIKE,
    DEFENDER,
    SHROUD,
    FLASH,
}

/// The bit that stands for `t` in a mask.
pub open spec fn spec_keyword_bit(t: KeywordSet) -> u32 {
    match t {
        KeywordSet::FLYING => 0x1,
        KeywordSet::TRAMPLE => 0x2,
        KeywordSet::HASTE => 0x4,
        KeywordSet::VIGILANCE => 0x8,
        KeywordSet::MENACE => 0x10,
        KeywordSet::HEXPROOF => 0x20,
        KeywordSet::DEATHTOUCH => 0x40,
        KeywordSet::LIFELINK => 0x80,
        KeywordSet::UNBLOCKABLE => 0x100,
        KeywordSet::REACH => 0x200,
        KeywordSet::FIRST_STRIKE => 0x400,
        KeywordSet::DEFENDER => 0x800,
        KeywordSet::SHROUD => 0x1000,
        KeywordSet::FLASH => 0x2000,
    }
}

/// The bit that stands for `t` in a mask.
pub fn keyword_bit(t: KeywordSet) -> (b: u32)
    ensures
        b == spec_keyword_bit(t),
{
    match t {
        KeywordSet::FLYING => 0x1,
        KeywordSet::TRAMPLE => 0x2,
        KeywordSet::HASTE => 0x4,
        KeywordSet::VIGILANCE => 0x8,
        KeywordSet::MENACE => 0x10,
        KeywordSet::HEXPROOF => 0x20,
        KeywordSet::DEATHTOUCH => 0x40,
        KeywordSet::LIFELINK => 0x80,
        KeywordSet::UNBLOCKABLE => 0x100,
        KeywordSet::REACH => 0x200,
        KeywordSet::FIRST_STRIKE => 0x400,
        KeywordSet::DEFENDER => 0x800,
        KeywordSet::SHROUD => 0x1000,
        KeywordSet::FLASH => 0x2000,
    }
}

/// A set of keyword abilities.
#[derive(Clone, Copy, Debug, PartialEq, Eq, Hash, Structural)]
pub struct Keywords(pub u32);

impl Keywords {
    /// Whether `t` is in the set.
    pub open spec fn has(self, t: KeywordSet) -> bool {
        self.0 & spec_keyword_bit(t) != 0
    }

    /// Whether `t` is in the set.
    pub fn contains(&self, t: KeywordSet) -> (r: bool)
        ensures
            r == self.has(t),
    {
        self.0 & keyword_bit(t) != 0
    }

    /// The empty set.
    pub fn none() -> (s: Keywords)
        ensures
            s.0 == 0,
    {
        Keywords(0)
    }

    /// The set with `t` added.
    pub fn with(&self, t: KeywordSet) -> (s: Keywords)
        ensures
            s.0 == self.0 | spec_keyword_bit(t),
    {
        Keywords(self.0 | keyword_bit(t))
    }

    /// Every member of either set.
    pub fn union(&self, other: Keywords) -> (s: Keywords)
        ensures
            s.0 == self.0 | other.0,
    {
        Keywords(self.0 | other.0)
    }

    /// The members of `self` that are not in `other`.
    pub fn minus(&self, other: Keywords) -> (s: Keywords)
        ensures
            s.0 == self.0 & !other.0,
    {
        Keywords(self.0 & !other.0)
    }

    /// Whether the two sets share a member.
    pub fn meets(&self, other: Keywords) -> (r: bool)
        ensures
            r == (self.0 & other.0 != 0),
    {
        self.0 & other.0 != 0
    }
}

/// A subtype a card prints: a land type, a creature type, or one of the artifact types.
#[derive(Clone, Copy, Debug, PartialEq, Eq, Hash, Structural)]
pub enum Subtype {
    Forest,
    Island,
    Swamp,
    Mountain,
    Plains,
    Desert,
    Locus,
    Gate,
    Cave,
    Urzas,
    Mine,
    Tower,
    PowerPlant,
    Zombie,
    Elf,
    Human,
    Spirit,
    Ape,
    Golem,
    Elemental,
    Dragon,
    Giant,
    Goblin,
    Beholder,
    Horror,
    Nightmare,
    Llama,
    Dinosaur,
    Insect,
    Plant,
    Skeleton,
    Construct,
    Mount,
    Vehicle,
    Clue,
    Faerie,
    Merfolk,
    Kithkin,
    Treefolk,
    Vampire,
    Druid,
    Cleric,
    Phyrexian,
    Bird,
    Warrior,
    Shapeshifter,
    Equipment,
    Aura,
    Myr,
    Praetor,
    Ally,
    Avatar,
    Changeling,
    Robot,
    Spider,
    Angel,
    Dryad,
    Lair,
    Dwarf,
    Food,
    Kor,
    Eldrazi,
}

/// The bit that stands for `t` in a mask.
pub open spec fn spec_subtype_bit(t: Subtype) -> u64 {
    match t {
        Subtype::Forest => 0x1,
        Subtype::Island => 0x2,
        Subtype::Swamp => 0x4,
        Subtype::Mountain => 0x8,
        Subtype::Plains => 0x10,
        Subtype::Desert => 0x20,
        Subtype::Locus => 0x40,
        Subtype::Gate => 0x80,
        Subtype::Cave => 0x100,
        Subtype::Urzas => 0x200,
        Subtype::Mine => 0x400,
        Subtype::Tower => 0x800,
        Subtype::PowerPlant => 0x1000,
        Subtype::Zombie => 0x2000,
        Subtype::Elf => 0x4000,
        Subtype::Human => 0x8000,
        Subtype::Spirit => 0x10000,
        Subtype::Ape => 0x20000,
        Subtype::Golem => 0x40000,
        Subtype::Elemental => 0x80000,
        Subtype::Dragon => 0x100000,
        Subtype::Giant => 0x200000,
        Subtype::Goblin => 0x400000,
        Subtype::Beholder => 0x800000,
        Subtype::Horror => 0x1000000,
        Subtype::Nightmare => 0x2000000,
        Subtype::Llama => 0x4000000,
        Subtype::Dinosaur => 0x8000000,
        Subtype::Insect => 0x10000000,
        Subtype::Plant => 0x20000000,
        Subtype::Skeleton => 0x40000000,
        Subtype::Construct => 0x80000000,
        Subtype::Mount => 0x100000000,
        Subtype::Vehicle => 0x200000000,
        Subtype::Clue => 0x400000000,
        Subtype::Faerie => 0x800000000,
        Subtype::Merfolk => 0x1000000000,
        Subtype::Kithkin => 0x2000000000,
        Subtype::Treefolk => 0x4000000000,
        Subtype::Vampire => 0x8000000000,
        Subtype::Druid => 0x10000000000,
        Subtype::Cleric => 0x20000000000,
        Subtype::Phyrexian => 0x40000000000,
        Subtype::Bird => 0x80000000000,
        Subtype::Warrior => 0x100000000000,
        Subtype::Shapeshifter => 0x200000000000,
        Subtype::Equipment => 0x400000000000,
        Subtype::Aura => 0x800000000000,
        Subtype::Myr => 0x1000000000000,
        Subtype::Praetor => 0x2000000000000,
        Subtype::Ally => 0x4000000000000,
        Subtype::Avatar => 0x8000000000000,
        Subtype::Changeling => 0x10000000000000,
        Subtype::Robot => 0x20000000000000,
        Subtype::Spider => 0x40000000000000,
        Subtype::Angel => 0x80000000000000,
        Subtype::Dryad => 0x100000000000000,
        Subtype::Lair => 0x200000000000000,
        Subtype::Dwarf => 0x400000000000000,
        Subtype::Food => 0x800000000000000,
        Subtype::Kor => 0x1000000000000000,
        Subtype::Eldrazi => 0x2000000000000000,
    }
}

/// The bit that stands for `t` in a mask.
pub fn subtype_bit(t: Subtype) -> (b: u64)
    ensures
        b == spec_subtype_bit(t),
{
    match t {
        Subtype::Forest => 0x1,
        Subtype::Island => 0x2,
        Subtype::Swamp => 0x4,
        Subtype::Mountain => 0x8,
        Subtype::Plains => 0x10,
        Subtype::Desert => 0x20,
        Subtype::Locus => 0x40,
        Subtype::Gate => 0x80,
        Subtype::Cave => 0x100,
        Subtype::Urzas => 0x200,
        Subtype::Mine => 0x400,
        Subtype::Tower => 0x800,
        Subtype::PowerPlant => 0x1000,
        Subtype::Zombie => 0x2000,
        Subtype::Elf => 0x4000,
        Subtype::Human => 0x8000,
        Subtype::Spirit => 0x10000,
        Subtype::Ape => 0x20000,
        Subtype::Golem => 0x40000,
        Subtype::Elemental => 0x80000,
        Subtype::Dragon => 0x100000,
        Subtype::Giant => 0x200000,
        Subtype::Goblin => 0x400000,
        Subtype::Beholder => 0x800000,
        Subtype::Horror => 0x1000000,
        Subtype::Nightmare => 0x2000000,
        Subtype::Llama => 0x4000000,
        Subtype::Dinosaur => 0x8000000,
        Subtype::Insect => 0x10000000,
        Subtype::Plant => 0x20000000,
        Subtype::Skeleton => 0x40000000,
        Subtype::Construct => 0x80000000,
        Subtype::Mount => 0x100000000,
        Subtype::Vehicle => 0x200000000,
        Subtype::Clue => 0x400000000,
        Subtype::Faerie => 0x800000000,
        Subtype::Merfolk => 0x1000000000,
        Subtype::Kithkin => 0x2000000000,
        Subtype::Treefolk => 0x4000000000,
        Subtype::Vampire => 0x8000000000,
        Subtype::Druid => 0x10000000000,
        Subtype::Cleric => 0x20000000000,
        Subtype::Phyrexian => 0x40000000000,
        Subtype::Bird => 0x80000000000,
        Subtype::Warrior => 0x100000000000,
        Subtype::Shapeshifter => 0x200000000000,
        Subtype::Equipment => 0x400000000000,
        Subtype::Aura => 0x800000000000,
        Subtype::Myr => 0x1000000000000,
        Subtype::Praetor => 0x2000000000000,
        Subtype::Ally => 0x4000000000000,
        Subtype::Avatar => 0x8000000000000,
        Subtype::Changeling => 0x10000000000000,
        Subtype::Robot => 0x20000000000000,
        Subtype::Spider => 0x40000000000000,
        Subtype::Angel => 0x80000000000000,
        Subtype::Dryad => 0x100000000000000,
        Subtype::Lair => 0x200000000000000,
        Subtype::Dwarf => 0x400000000000000,
        Subtype::Food => 0x800000000000000,
        Subtype::Kor => 0x1000000000000000,
        Subtype::Eldrazi => 0x2000000000000000,
    }
}

/// A set of subtypes.
#[derive(Clone, Copy, Debug, PartialEq, Eq, Hash, Structural)]
pub struct Subtypes(pub u64);

impl Subtypes {
    /// Whether `t` is in the set.
    pub open spec fn has(self, t: Subtype) -> bool {
        self.0 & spec_subtype_bit(t) != 0
    }

    /// Whether `t` is in the set.
    pub fn contains(&self, t: Subtype) -> (r: bool)
        ensures
            r == self.has(t),
    {
        self.0 & subtype_bit(t) != 0
    }

    /// The empty set.
    pub fn none() -> (s: Subtypes)
        ensures
            s.0 == 0,
    {
        Subtypes(0)
    }

    /// The set with `t` added.
    pub fn with(&self, t: Subtype) -> (s: Subtypes)
        ensures
            s.0 == self.0 | spec_subtype_bit(t),
    {
        Subtypes(self.0 | subtype_bit(t))
    }

    /// Every member of either set.
    pub fn union(&self, other: Subtypes) -> (s: Subtypes)
        ensures
            s.0 == self.0 | other.0,
    {
        Subtypes(self.0 | other.0)
    }

    /// The members of `self` that are not in `other`.
    pub fn minus(&self, other: Subtypes) -> (s: Subtypes)
        ensures
            s.0 == self.0 & !other.0,
    {
        Subtypes(self.0 & !other.0)
    }

    /// Whether the two sets share a member.
    pub fn meets(&self, other: Subtypes) -> (r: bool)
        ensures
            r == (self.0 & other.0 != 0),
    {
        self.0 & other.0 != 0
    }
}

/// The bit that stands for a colour in a colour mask. Colourless has no bit:
/// a colourless object is one whose mask is empty.
pub open spec fn spec_color_bit(c: ManaColor) -> u8 {
    match c {
        ManaColor::White => 0x1,
        ManaColor::Blue => 0x2,
        ManaColor::Black => 0x4,
        ManaColor::Red => 0x8,
        ManaColor::Green => 0x10,
        ManaColor::Colorless => 0x0,
    }
}

/// The bit that stands for a colour in a colour mask.
pub fn color_bit(c: ManaColor) -> (b: u8)
    ensures
        b == spec_color_bit(c),
{
    match c {
        ManaColor::White => 0x1,
        ManaColor::Blue => 0x2,
        ManaColor::Black => 0x4,
        ManaColor::Red => 0x8,
        ManaColor::Green => 0x10,
        ManaColor::Colorless => 0x0,
    }
}

/// The colours of an object (CR 105.1), as a mask over the five colours.
#[derive(Clone, Copy, Debug, PartialEq, Eq, Hash, Structural)]
pub struct Colors(pub u8);

impl Colors {
    /// Whether `c` is one of the colours. Nothing is "colourless" in this
    /// sense; ask [`Colors::is_colorless`] for that.
    pub open spec fn has(self, c: ManaColor) -> bool {
        self.0 & spec_color_bit(c) != 0
    }

    /// Whether `c` is one of the colours.
    pub fn contains(&self, c: ManaColor) -> (r: bool)
        ensures
            r == self.has(c),
    {
        self.0 & color_bit(c) != 0
    }

    /// Whether the object has no colour at all.
    pub fn is_colorless(&self) -> (r: bool)
        ensures
            r == (self.0 & 0x1f == 0),
    {
        self.0 & 0x1f == 0
    }
}

/// A kind of counter.
#[derive(Clone, Copy, Debug, PartialEq, Eq, Hash, Structural)]
pub enum CounterKind {
    P1P1,
    M1M1,
    Charge,
    Time,
    Storage,
    Depletion,
    Mining,
}

/// The counters on one permanent.
#[derive(Clone, Copy, Debug, PartialEq, Eq, Structural)]
pub struct Counters {
    pub p1p1: u32,
    pub m1m1: u32,
    pub charge: u32,
    pub time: u32,
    pub storage: u32,
    pub depletion: u32,
    pub mining: u32,
}

impl Counters {
    /// No counters at all.
    pub fn none() -> (c: Counters)
        ensures
            c.total() == 0,
            c == (Counters { p1p1: 0, m1m1: 0, charge: 0, time: 0, storage: 0, depletion: 0, mining: 0 }),
    {
        Counters { p1p1: 0, m1m1: 0, charge: 0, time: 0, storage: 0, depletion: 0, mining: 0 }
    }

    /// How many counters of `kind` there are.
    pub open spec fn spec_count(self, kind: CounterKind) -> u32 {
        match kind {
            CounterKind::P1P1 => self.p1p1,
            CounterKind::M1M1 => self.m1m1,
            CounterKind::Charge => self.charge,
            CounterKind::Time => self.time,
            CounterKind::Storage => self.storage,
            CounterKind::Depletion => self.depletion,
            CounterKind::Mining => self.mining,
        }
    }

    /// All counters together.
    pub open spec fn total(self) -> int {
        self.p1p1 + self.m1m1 + self.charge + self.time + self.storage + self.depletion + self.mining
    }

    /// How many counters of `kind` there are.
    pub fn count(&self, kind: CounterKind) -> (n: u32)
        ensures
            n == self.spec_count(kind),
    {
        match kind {
            CounterKind::P1P1 => self.p1p1,
            CounterKind::M1M1 => self.m1m1,
            CounterKind::Charge => self.charge,
            CounterKind::Time => self.time,
            CounterKind::Storage => self.storage,
            CounterKind::Depletion => self.depletion,
            CounterKind::Mining => self.mining,
        }
    }

    /// The counters with `n` more of `kind` (held at `u32::MAX`); every other
    /// kind is unchanged.
    pub fn added(&self, kind: CounterKind, n: u32) -> (c: Counters)
        ensures
            c.spec_count(kind) == if self.spec_count(kind) + n > u32::MAX {
                u32::MAX as int
            } else {
                self.spec_count(kind) + n
            },
            forall|k: CounterKind| k != kind ==> c.spec_count(k) == self.spec_count(k),
    {
        let mut c = *self;
        match kind {
            CounterKind::P1P1 => c.p1p1 = self.p1p1.saturating_add(n),
            CounterKind::M1M1 => c.m1m1 = self.m1m1.saturating_add(n),
            CounterKind::Charge => c.charge = self.charge.saturating_add(n),
            CounterKind::Time => c.time = self.time.saturating_add(n),
            CounterKind::Storage => c.storage = self.storage.saturating_add(n),
            CounterKind::Depletion => c.depletion = self.depletion.saturating_add(n),
            CounterKind::Mining => c.mining = self.mining.saturating_add(n),
        }
        c
    }

    /// The counters with `n` fewer of `kind`, which must be there.
    pub fn removed(&self, kind: CounterKind, n: u32) -> (c: Counters)
        requires
            n <= self.spec_count(kind),
        ensures
            c.spec_count(kind) == self.spec_count(kind) - n,
            forall|k: CounterKind| k != kind ==> c.spec_count(k) == self.spec_count(k),
    {
        let mut c = *self;
        match kind {
            CounterKind::P1P1 => c.p1p1 = self.p1p1 - n,
            CounterKind::M1M1 => c.m1m1 = self.m1m1 - n,
            CounterKind::Charge => c.charge = self.charge - n,
            CounterKind::Time => c.time = self.time - n,
            CounterKind::Storage => c.storage = self.storage - n,
            CounterKind::Depletion => c.depletion = self.depletion - n,
            CounterKind::Mining => c.mining = self.mining - n,
        }
        c
    }
}

} // verus!
