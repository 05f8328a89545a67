//! Mana: the colours, a mana cost, and a player's mana pool with the rules
//! for adding to it and paying from it.

use vstd::prelude::*;
use crate::cards::Characteristics;
use crate::sets::{spec_subtype_bit, spec_type_bit, subtype_bit, type_bit, Subtype, TypeSet};

verus! {

/// One of the five colours of mana, or colourless.
#[derive(Clone, Copy, Debug, PartialEq, Eq, Hash, Structural)]
pub enum ManaColor {
    White,
    Blue,
    Black,
    Red,
    Green,
    Colorless,
}

/// What restricted mana may be spent on. Mana that carries one of these
/// never counts as ordinary mana of its colour.
#[derive(Clone, Copy, Debug, PartialEq, Eq, Hash, Structural)]
pub enum SpendRestriction {
    MulticoloredSpell,
    LegendarySpell,
    ColorlessEldrazi,
    ColorlessSpell,
    CreatureSpell,
    InstantOrSorcery,
    MountSpell,
    VillainSpell,
    VampireSpell,
    ElementalSpell,
    TimeLordOrAlienSpell,
    /// Spent on an instant or sorcery, the spell can't be countered.
    UncounterableRider,
}

/// An amount of one colour of mana that may only be spent as its
/// restriction says.
#[derive(Clone, Copy, Debug, PartialEq, Eq, Structural)]
pub struct RestrictedMana {
    pub color: ManaColor,
    pub amount: u16,
    pub restriction: SpendRestriction,
}

/// A mana cost: a generic part and an amount of each colour. `colorless`
/// counts the `{C}` symbols, which only colourless mana pays; a snow symbol
/// is read as one of them.
#[derive(Clone, Copy, Debug, PartialEq, Eq, Structural)]
pub struct ManaCost {
    pub generic: u32,
    pub white: u32,
    pub blue: u32,
    pub black: u32,
    pub red: u32,
    pub green: u32,
    pub colorless: u32,
}

/// One more than `x`, held at `u32::MAX`.
pub open spec fn spec_bump(x: u32) -> u32 {
    if x < u32::MAX {
        (x + 1) as u32
    } else {
        x
    }
}

impl ManaCost {
    /// The cost of nothing.
    pub fn zero() -> (c: ManaCost)
        ensures
            c.spec_total() == 0,
    {
        ManaCost { generic: 0, white: 0, blue: 0, black: 0, red: 0, green: 0, colorless: 0 }
    }

    /// How much mana the cost asks for in all.
    pub open spec fn spec_total(self) -> int {
        self.generic + self.white + self.blue + self.black + self.red + self.green
            + self.colorless
    }

    /// The cost with one more symbol of `c` (a `{C}` symbol for
    /// colourless), held within `u32`.
    pub open spec fn spec_with_one(self, c: ManaColor) -> ManaCost {
        match c {
            ManaColor::White => ManaCost { white: spec_bump(self.white), ..self },
            ManaColor::Blue => ManaCost { blue: spec_bump(self.blue), ..self },
            ManaColor::Black => ManaCost { black: spec_bump(self.black), ..self },
            ManaColor::Red => ManaCost { red: spec_bump(self.red), ..self },
            ManaColor::Green => ManaCost { green: spec_bump(self.green), ..self },
            ManaColor::Colorless => ManaCost { colorless: spec_bump(self.colorless), ..self },
        }
    }

    /// The cost with one more symbol of `c` (a `{C}` symbol for
    /// colourless), held within `u32`.
    pub fn with_one(&self, c: ManaColor) -> (r: ManaCost)
        ensures
            r == self.spec_with_one(c),
            r.spec_needs(c) == if self.spec_needs(c) < u32::MAX { self.spec_needs(c) + 1 } else { self.spec_needs(c) as int },
            forall|d: ManaColor| d != c ==> r.spec_needs(d) == self.spec_needs(d),
            r.generic == self.generic,
    {
        let mut r = *self;
        match c {
            ManaColor::White => r.white = self.white.saturating_add(1),
            ManaColor::Blue => r.blue = self.blue.saturating_add(1),
            ManaColor::Black => r.black = self.black.saturating_add(1),
            ManaColor::Red => r.red = self.red.saturating_add(1),
            ManaColor::Green => r.green = self.green.saturating_add(1),
            ManaColor::Colorless => r.colorless = self.colorless.saturating_add(1),
        }
        r
    }

    /// How much mana the cost asks for in all, held within `u32`.
    pub fn total_u32(&self) -> (n: u32)
        ensures
            n == spec_min(self.spec_total(), u32::MAX as int),
    {
        let t: u64 = self.generic as u64 + self.white as u64 + self.blue as u64 + self.black as u64
            + self.red as u64 + self.green as u64 + self.colorless as u64;
        if t > u32::MAX as u64 {
            u32::MAX
        } else {
            t as u32
        }
    }

    /// The cost of `n` mana of colour `c` (`{C}` symbols for colourless).
    pub open spec fn of_color(c: ManaColor, n: u32) -> ManaCost {
        ManaCost {
            generic: 0,
            white: if c == ManaColor::White { n } else { 0 },
            blue: if c == ManaColor::Blue { n } else { 0 },
            black: if c == ManaColor::Black { n } else { 0 },
            red: if c == ManaColor::Red { n } else { 0 },
            green: if c == ManaColor::Green { n } else { 0 },
            colorless: if c == ManaColor::Colorless { n } else { 0 },
        }
    }

    /// How much of `c` the coloured part of the cost asks for.
    pub open spec fn spec_needs(self, c: ManaColor) -> u32 {
        match c {
            ManaColor::White => self.white,
            ManaColor::Blue => self.blue,
            ManaColor::Black => self.black,
            ManaColor::Red => self.red,
            ManaColor::Green => self.green,
            ManaColor::Colorless => self.colorless,
        }
    }
}

/// A player's mana pool: ordinary mana of each colour, and restricted mana
/// kept apart from it.
#[derive(Clone, Debug, PartialEq, Eq)]
pub struct ManaPool {
    pub white: u32,
    pub blue: u32,
    pub black: u32,
    pub red: u32,
    pub green: u32,
    pub colorless: u32,
    pub restricted_mana: Vec<RestrictedMana>,
}

/// The sum of the amounts in a list of restricted mana.
pub open spec fn restricted_sum(s: Seq<RestrictedMana>) -> int
    decreases s.len(),
{
    if s.len() == 0 {
        0
    } else {
        restricted_sum(s.drop_last()) + s.last().amount
    }
}

/// The smaller of two integers.
pub open spec fn spec_min(a: int, b: int) -> int {
    if a <= b {
        a
    } else {
        b
    }
}

impl ManaPool {
    /// An empty pool.
    pub fn new() -> (p: ManaPool)
        ensures
            p.is_empty(),
    {
        ManaPool {
            white: 0,
            blue: 0,
            black: 0,
            red: 0,
            green: 0,
            colorless: 0,
            restricted_mana: Vec::new(),
        }
    }

    /// Whether nothing at all is in the pool.
    pub open spec fn is_empty(self) -> bool {
        &&& self.white == 0
        &&& self.blue == 0
        &&& self.black == 0
        &&& self.red == 0
        &&& self.green == 0
        &&& self.colorless == 0
        &&& self.restricted_mana@.len() == 0
    }

    /// The ordinary (unrestricted) mana of colour `c`.
    pub open spec fn amount(self, c: ManaColor) -> u32 {
        match c {
            ManaColor::White => self.white,
            ManaColor::Blue => self.blue,
            ManaColor::Black => self.black,
            ManaColor::Red => self.red,
            ManaColor::Green => self.green,
            ManaColor::Colorless => self.colorless,
        }
    }

    /// All ordinary mana together.
    pub open spec fn unrestricted_total(self) -> int {
        self.white + self.blue + self.black + self.red + self.green + self.colorless
    }

    /// All mana in the pool, restricted mana included.
    pub open spec fn spec_total(self) -> int {
        self.unrestricted_total() + restricted_sum(self.restricted_mana@)
    }

    /// The ordinary mana of colour `c` that is in the pool. Restricted mana
    /// of that colour is not part of it.
    pub fn available(&self, c: ManaColor) -> (n: u32)
        ensures
            n == self.amount(c),
    {
        match c {
            ManaColor::White => self.white,
            ManaColor::Blue => self.blue,
            ManaColor::Black => self.black,
            ManaColor::Red => self.red,
            ManaColor::Green => self.green,
            ManaColor::Colorless => self.colorless,
        }
    }

    /// The restricted mana in the pool, one entry for each time some was
    /// added.
    pub fn restricted(&self) -> (r: &Vec<RestrictedMana>)
        ensures
            r@ == self.restricted_mana@,
    {
        &self.restricted_mana
    }

    /// All mana in the pool, restricted mana included (held at `u64::MAX`).
    pub fn total(&self) -> (t: u64)
        ensures
            t == spec_min(self.spec_total(), u64::MAX as int),
    {
        let mut t: u64 = self.white as u64 + self.blue as u64 + self.black as u64
            + self.red as u64 + self.green as u64 + self.colorless as u64;
        let mut i: usize = 0;
        while i < self.restricted_mana.len()
            invariant
                i <= self.restricted_mana@.len(),
                t == spec_min(
                    self.unrestricted_total() + restricted_sum(self.restricted_mana@.take(i as int)),
                    u64::MAX as int,
                ),
            decreases self.restricted_mana@.len() - i,
        {
            assert(self.restricted_mana@.take(i + 1).drop_last() == self.restricted_mana@.take(
                i as int,
            ));
            proof {
                lemma_restricted_sum_nonneg(self.restricted_mana@.take(i as int));
            }
            let a = self.restricted_mana[i].amount;
            t = t.saturating_add(a as u64);
            i = i + 1;
        }
        assert(self.restricted_mana@.take(i as int) == self.restricted_mana@);
        t
    }

    /// Adds `n` ordinary mana of colour `c` (the amount is held at
    /// `u32::MAX`). Nothing else in the pool changes.
    pub fn add(&mut self, c: ManaColor, n: u32)
        ensures
            final(self).amount(c) == spec_min(old(self).amount(c) + n, u32::MAX as int),
            forall|d: ManaColor| d != c ==> final(self).amount(d) == old(self).amount(d),
            final(self).restricted_mana@ == old(self).restricted_mana@,
    {
        match c {
            ManaColor::White => self.white = self.white.saturating_add(n),
            ManaColor::Blue => self.blue = self.blue.saturating_add(n),
            ManaColor::Black => self.black = self.black.saturating_add(n),
            ManaColor::Red => self.red = self.red.saturating_add(n),
            ManaColor::Green => self.green = self.green.saturating_add(n),
            ManaColor::Colorless => self.colorless = self.colorless.saturating_add(n),
        }
    }

    /// Adds `n` mana of colour `c` that may only be spent as `r` says. It is
    /// kept as an entry of its own and never reaches the ordinary amounts.
    pub fn add_restricted(&mut self, c: ManaColor, n: u16, r: SpendRestriction)
        ensures
            final(self).restricted_mana@ == old(self).restricted_mana@.push(
                RestrictedMana { color: c, amount: n, restriction: r },
            ),
            forall|d: ManaColor| final(self).amount(d) == old(self).amount(d),
    {
        self.restricted_mana.push(RestrictedMana { color: c, amount: n, restriction: r });
    }

    /// Empties the pool (CR 500.4).
    pub fn empty(&mut self)
        ensures
            final(self).is_empty(),
    {
        self.white = 0;
        self.blue = 0;
        self.black = 0;
        self.red = 0;
        self.green = 0;
        self.colorless = 0;
        self.restricted_mana = Vec::new();
    }

    /// Whether the ordinary mana in the pool can pay `cost`: every coloured
    /// symbol by mana of its colour, and the generic part by what is left.
    pub open spec fn can_pay(self, cost: ManaCost) -> bool {
        &&& cost.white <= self.white
        &&& cost.blue <= self.blue
        &&& cost.black <= self.black
        &&& cost.red <= self.red
        &&& cost.green <= self.green
        &&& cost.colorless <= self.colorless
        &&& cost.generic <= self.unrestricted_total() - (cost.spec_total() - cost.generic)
    }

    /// Whether the ordinary mana in the pool can pay `cost`.
    pub fn can_pay_now(&self, cost: &ManaCost) -> (b: bool)
        ensures
            b == self.can_pay(*cost),
    {
        if cost.white > self.white || cost.blue > self.blue || cost.black > self.black
            || cost.red > self.red || cost.green > self.green || cost.colorless > self.colorless {
            return false;
        }
        let left: u64 = (self.white - cost.white) as u64 + (self.blue - cost.blue) as u64 + (
        self.black - cost.black) as u64 + (self.red - cost.red) as u64 + (self.green
            - cost.green) as u64 + (self.colorless - cost.colorless) as u64;
        (cost.generic as u64) <= left
    }

    /// The pool after paying `cost`: the coloured symbols from their
    /// colours, then the generic part from what is left, colourless first
    /// and then white, blue, black, red and green.
    pub open spec fn after_paying(self, cost: ManaCost) -> (u32, u32, u32, u32, u32, u32) {
        let c0 = self.colorless - cost.colorless;
        let w0 = self.white - cost.white;
        let u0 = self.blue - cost.blue;
        let b0 = self.black - cost.black;
        let r0 = self.red - cost.red;
        let g0 = self.green - cost.green;
        let g_c = spec_min(c0, cost.generic as int);
        let left1 = cost.generic - g_c;
        let g_w = spec_min(w0, left1);
        let left2 = left1 - g_w;
        let g_u = spec_min(u0, left2);
        let left3 = left2 - g_u;
        let g_b = spec_min(b0, left3);
        let left4 = left3 - g_b;
        let g_r = spec_min(r0, left4);
        let left5 = left4 - g_r;
        let g_g = spec_min(g0, left5);
        (
            (w0 - g_w) as u32,
            (u0 - g_u) as u32,
            (b0 - g_b) as u32,
            (r0 - g_r) as u32,
            (g0 - g_g) as u32,
            (c0 - g_c) as u32,
        )
    }

    /// Whether the pool holds exactly the six ordinary amounts of `t`
    /// (white, blue, black, red, green, colourless).
    pub open spec fn holds(self, t: (u32, u32, u32, u32, u32, u32)) -> bool {
        &&& self.white == t.0
        &&& self.blue == t.1
        &&& self.black == t.2
        &&& self.red == t.3
        &&& self.green == t.4
        &&& self.colorless == t.5
    }

    /// Pays `cost` from the ordinary mana if it can, and answers whether it
    /// did. A refused payment changes nothing; restricted mana is never
    /// spent on a cost.
    pub fn pay(&mut self, cost: ManaCost) -> (paid: bool)
        ensures
            paid == old(self).can_pay(cost),
            paid ==> final(self).holds(old(self).after_paying(cost)),
            paid ==> final(self).unrestricted_total() == old(self).unrestricted_total()
                - cost.spec_total(),
            !paid ==> *final(self) == *old(self),
            final(self).restricted_mana@ == old(self).restricted_mana@,
    {
        if cost.white > self.white || cost.blue > self.blue || cost.black > self.black
            || cost.red > self.red || cost.green > self.green || cost.colorless > self.colorless {
            return false;
        }
        let c0 = self.colorless - cost.colorless;
        let w0 = self.white - cost.white;
        let u0 = self.blue - cost.blue;
        let b0 = self.black - cost.black;
        let r0 = self.red - cost.red;
        let g0 = self.green - cost.green;
        let left_total: u64 = c0 as u64 + w0 as u64 + u0 as u64 + b0 as u64 + r0 as u64
            + g0 as u64;
        if (cost.generic as u64) > left_total {
            return false;
        }
        let g_c = if c0 <= cost.generic {
            c0
        } else {
            cost.generic
        };
        let left1 = cost.generic - g_c;
        let g_w = if w0 <= left1 {
            w0
        } else {
            left1
        };
        let left2 = left1 - g_w;
        let g_u = if u0 <= left2 {
            u0
        } else {
            left2
        };
        let left3 = left2 - g_u;
        let g_b = if b0 <= left3 {
            b0
        } else {
            left3
        };
        let left4 = left3 - g_b;
        let g_r = if r0 <= left4 {
            r0
        } else {
            left4
        };
        let left5 = left4 - g_r;
        let g_g = if g0 <= left5 {
            g0
        } else {
            left5
        };
        self.white = w0 - g_w;
        self.blue = u0 - g_u;
        self.black = b0 - g_b;
        self.red = r0 - g_r;
        self.green = g0 - g_g;
        self.colorless = c0 - g_c;
        true
    }
}

/// How many of the five colours the mask `m` holds.
pub open spec fn colour_count(m: u8) -> int {
    (if m & 1 != 0 { 1int } else { 0int }) + (if m & 2 != 0 { 1int } else { 0int }) + (if m & 4 != 0 {
        1int
    } else {
        0int
    }) + (if m & 8 != 0 { 1int } else { 0int }) + (if m & 16 != 0 { 1int } else { 0int })
}

/// How many of the five colours the mask `m` holds.
pub fn count_colours(m: u8) -> (n: u8)
    ensures
        n == colour_count(m),
{
    let mut n: u8 = 0;
    if m & 1 != 0 {
        n = n + 1;
    }
    if m & 2 != 0 {
        n = n + 1;
    }
    if m & 4 != 0 {
        n = n + 1;
    }
    if m & 8 != 0 {
        n = n + 1;
    }
    if m & 16 != 0 {
        n = n + 1;
    }
    n
}

/// Whether mana kept for `r` may be spent on a spell with the
/// characteristics `ch`. Villains, Time Lords and Aliens are not among the
/// spells this engine knows, so mana kept for them is never spent.
pub open spec fn spec_allows(r: SpendRestriction, ch: Characteristics) -> bool {
    let instant_or_sorcery = ch.types.0 & (spec_type_bit(TypeSet::INSTANT) | spec_type_bit(
        TypeSet::SORCERY,
    )) != 0;
    match r {
        SpendRestriction::MulticoloredSpell => colour_count(ch.colors.0) >= 2,
        SpendRestriction::LegendarySpell => ch.legendary,
        SpendRestriction::ColorlessEldrazi => colour_count(ch.colors.0) == 0 && ch.subtypes.0
            & spec_subtype_bit(Subtype::Eldrazi) != 0,
        SpendRestriction::ColorlessSpell => colour_count(ch.colors.0) == 0,
        SpendRestriction::CreatureSpell => ch.types.0 & spec_type_bit(TypeSet::CREATURE) != 0,
        SpendRestriction::InstantOrSorcery => instant_or_sorcery,
        SpendRestriction::MountSpell => ch.subtypes.0 & spec_subtype_bit(Subtype::Mount) != 0,
        SpendRestriction::VillainSpell => false,
        SpendRestriction::VampireSpell => ch.subtypes.0 & spec_subtype_bit(Subtype::Vampire) != 0,
        SpendRestriction::ElementalSpell => ch.subtypes.0 & spec_subtype_bit(Subtype::Elemental)
            != 0,
        SpendRestriction::TimeLordOrAlienSpell => false,
        SpendRestriction::UncounterableRider => instant_or_sorcery,
    }
}

/// Whether mana kept for `r` may be spent on a spell with the
/// characteristics `ch`.
pub fn allows(r: SpendRestriction, ch: &Characteristics) -> (b: bool)
    ensures
        b == spec_allows(r, *ch),
{
    let instant_or_sorcery = ch.types.0 & (type_bit(TypeSet::INSTANT) | type_bit(TypeSet::SORCERY))
        != 0;
    match r {
        SpendRestriction::MulticoloredSpell => count_colours(ch.colors.0) >= 2,
        SpendRestriction::LegendarySpell => ch.legendary,
        SpendRestriction::ColorlessEldrazi => count_colours(ch.colors.0) == 0 && ch.subtypes.0
            & subtype_bit(Subtype::Eldrazi) != 0,
        SpendRestriction::ColorlessSpell => count_colours(ch.colors.0) == 0,
        SpendRestriction::CreatureSpell => ch.types.0 & type_bit(TypeSet::CREATURE) != 0,
        SpendRestriction::InstantOrSorcery => instant_or_sorcery,
        SpendRestriction::MountSpell => ch.subtypes.0 & subtype_bit(Subtype::Mount) != 0,
        SpendRestriction::VillainSpell => false,
        SpendRestriction::VampireSpell => ch.subtypes.0 & subtype_bit(Subtype::Vampire) != 0,
        SpendRestriction::ElementalSpell => ch.subtypes.0 & subtype_bit(Subtype::Elemental) != 0,
        SpendRestriction::TimeLordOrAlienSpell => false,
        SpendRestriction::UncounterableRider => instant_or_sorcery,
    }
}

impl ManaCost {
    /// The cost with `n` symbols of `c` in place of those it has.
    pub open spec fn spec_set_need(self, c: ManaColor, n: u32) -> ManaCost {
        match c {
            ManaColor::White => ManaCost { white: n, ..self },
            ManaColor::Blue => ManaCost { blue: n, ..self },
            ManaColor::Black => ManaCost { black: n, ..self },
            ManaColor::Red => ManaCost { red: n, ..self },
            ManaColor::Green => ManaCost { green: n, ..self },
            ManaColor::Colorless => ManaCost { colorless: n, ..self },
        }
    }

    /// How much of `c` the coloured part of the cost asks for.
    pub fn needs(&self, c: ManaColor) -> (n: u32)
        ensures
            n == self.spec_needs(c),
    {
        match c {
            ManaColor::White => self.white,
            ManaColor::Blue => self.blue,
            ManaColor::Black => self.black,
            ManaColor::Red => self.red,
            ManaColor::Green => self.green,
            ManaColor::Colorless => self.colorless,
        }
    }

    /// The cost with `n` symbols of `c` in place of those it has.
    pub fn set_need(&self, c: ManaColor, n: u32) -> (r: ManaCost)
        ensures
            r == self.spec_set_need(c, n),
    {
        match c {
            ManaColor::White => ManaCost { white: n, ..*self },
            ManaColor::Blue => ManaCost { blue: n, ..*self },
            ManaColor::Black => ManaCost { black: n, ..*self },
            ManaColor::Red => ManaCost { red: n, ..*self },
            ManaColor::Green => ManaCost { green: n, ..*self },
            ManaColor::Colorless => ManaCost { colorless: n, ..*self },
        }
    }
}

/// What one entry of restricted mana pays of `cost` as a spell with the
/// characteristics `ch` is cast: nothing, if it may not be spent on it;
/// else the symbols of its colour, and then the generic part, as far as it
/// goes. The entry as it is left, and what remains of the cost.
pub open spec fn spec_spend_entry(e: RestrictedMana, ch: Characteristics, cost: ManaCost) -> (RestrictedMana, ManaCost) {
    if !spec_allows(e.restriction, ch) {
        (e, cost)
    } else {
        let t1 = spec_min(e.amount as int, cost.spec_needs(e.color) as int);
        let t2 = spec_min(e.amount - t1, cost.generic as int);
        (
            RestrictedMana { amount: (e.amount - t1 - t2) as u16, ..e },
            ManaCost { generic: (cost.generic - t2) as u32, ..cost.spec_set_need(e.color, (cost.spec_needs(e.color) - t1) as u32) },
        )
    }
}

/// What the restricted mana `rs` pays of `cost` as a spell with the
/// characteristics `ch` is cast, entry by entry from the first: the entries
/// as they are left, and what remains of the cost for ordinary mana.
pub open spec fn spec_spend_restricted(rs: Seq<RestrictedMana>, ch: Characteristics, cost: ManaCost) -> (Seq<RestrictedMana>, ManaCost)
    decreases rs.len(),
{
    if rs.len() == 0 {
        (rs, cost)
    } else {
        let (e, c) = spec_spend_entry(rs[0], ch, cost);
        let (rest, left) = spec_spend_restricted(rs.drop_first(), ch, c);
        (seq![e] + rest, left)
    }
}

/// What one entry of restricted mana pays of `cost` for a spell with the
/// characteristics `ch`.
pub fn spend_entry(e: RestrictedMana, ch: &Characteristics, cost: ManaCost) -> (r: (RestrictedMana, ManaCost))
    ensures
        r == spec_spend_entry(e, *ch, cost),
{
    if !allows(e.restriction, ch) {
        return (e, cost);
    }
    let need = cost.needs(e.color);
    let a = e.amount as u32;
    let t1: u32 = if a <= need {
        a
    } else {
        need
    };
    let t2: u32 = if a - t1 <= cost.generic {
        a - t1
    } else {
        cost.generic
    };
    let left = cost.set_need(e.color, need - t1);
    (RestrictedMana { amount: (a - t1 - t2) as u16, ..e }, ManaCost { generic: cost.generic - t2, ..left })
}

impl ManaPool {
    /// What the restricted mana of the pool pays of `cost` for a spell with
    /// the characteristics `ch`: the entries as they are left, and what
    /// remains of the cost.
    pub fn spend_plan(&self, cost: ManaCost, ch: &Characteristics) -> (r: (Vec<RestrictedMana>, ManaCost))
        ensures
            r.0@ == spec_spend_restricted(self.restricted_mana@, *ch, cost).0,
            r.1 == spec_spend_restricted(self.restricted_mana@, *ch, cost).1,
    {
        let rs = &self.restricted_mana;
        let mut built: Vec<RestrictedMana> = Vec::new();
        let mut cur = cost;
        let mut i: usize = 0;
        assert(rs@.skip(0) == rs@);
        while i < rs.len()
            invariant
                i <= rs@.len(),
                rs@ == self.restricted_mana@,
                built@ + spec_spend_restricted(rs@.skip(i as int), *ch, cur).0
                    == spec_spend_restricted(rs@, *ch, cost).0,
                spec_spend_restricted(rs@.skip(i as int), *ch, cur).1 == spec_spend_restricted(
                    rs@,
                    *ch,
                    cost,
                ).1,
            decreases rs@.len() - i,
        {
            let ghost tail = rs@.skip(i as int);
            assert(tail.drop_first() == rs@.skip(i + 1));
            assert(tail[0] == rs@[i as int]);
            let (e, c) = spend_entry(rs[i], ch, cur);
            let ghost rest = spec_spend_restricted(rs@.skip(i + 1), *ch, c).0;
            assert(built@.push(e) + rest == built@ + (seq![e] + rest));
            built.push(e);
            cur = c;
            i = i + 1;
        }
        assert(rs@.skip(i as int).len() == 0);
        assert(built@ + Seq::<RestrictedMana>::empty() == built@);
        (built, cur)
    }

    /// Whether the pool can pay `cost` for a spell with the characteristics
    /// `ch`: the restricted mana that may be spent on it first, as
    /// [`spec_spend_restricted`] says, and the rest from ordinary mana.
    pub open spec fn can_pay_spell(self, cost: ManaCost, ch: Characteristics) -> bool {
        self.can_pay(spec_spend_restricted(self.restricted_mana@, ch, cost).1)
    }

    /// Whether the pool can pay `cost` for a spell with the characteristics
    /// `ch`.
    pub fn can_pay_spell_now(&self, cost: ManaCost, ch: &Characteristics) -> (b: bool)
        ensures
            b == self.can_pay_spell(cost, *ch),
    {
        let (_, left) = self.spend_plan(cost, ch);
        self.can_pay_now(&left)
    }

    /// Pays `cost` for a spell with the characteristics `ch`, if the pool
    /// can: the restricted mana that may be spent on it first, as
    /// [`spec_spend_restricted`] says, then the rest from ordinary mana as
    /// [`ManaPool::pay`] does. A refused payment changes nothing.
    pub fn pay_spell(&mut self, cost: ManaCost, ch: &Characteristics) -> (paid: bool)
        ensures
            paid == old(self).can_pay_spell(cost, *ch),
            paid ==> final(self).restricted_mana@ == spec_spend_restricted(
                old(self).restricted_mana@,
                *ch,
                cost,
            ).0,
            paid ==> final(self).holds(
                old(self).after_paying(spec_spend_restricted(old(self).restricted_mana@, *ch, cost).1),
            ),
            paid ==> final(self).spec_total() == old(self).spec_total() - cost.spec_total(),
            !paid ==> *final(self) == *old(self),
    {
        let (entries, left) = self.spend_plan(cost, ch);
        proof {
            lemma_spending_keeps_the_sum(self.restricted_mana@, *ch, cost);
        }
        if !self.can_pay_now(&left) {
            return false;
        }
        let ok = self.pay(left);
        assert(ok);
        self.restricted_mana = entries;
        true
    }
}

/// The sum of a list with one more entry in front.
pub proof fn lemma_sum_in_front(e: RestrictedMana, s: Seq<RestrictedMana>)
    ensures
        restricted_sum(seq![e] + s) == e.amount + restricted_sum(s),
    decreases s.len(),
{
    let t = seq![e] + s;
    if s.len() == 0 {
        assert(t == seq![e]);
        assert(t.drop_last() == Seq::<RestrictedMana>::empty());
        assert(t.last() == e);
        assert(restricted_sum(t) == restricted_sum(t.drop_last()) + t.last().amount);
    } else {
        assert(t.drop_last() == seq![e] + s.drop_last());
        assert(t.last() == s.last());
        lemma_sum_in_front(e, s.drop_last());
        assert(restricted_sum(t) == restricted_sum(t.drop_last()) + t.last().amount);
        assert(restricted_sum(s) == restricted_sum(s.drop_last()) + s.last().amount);
    }
}

/// What restricted mana pays of a cost leaves the entries exactly that
/// much lighter: the entries after, with the whole cost, weigh what the
/// entries before weigh with the part of the cost left.
pub proof fn lemma_spending_keeps_the_sum(rs: Seq<RestrictedMana>, ch: Characteristics, cost: ManaCost)
    ensures
        restricted_sum(spec_spend_restricted(rs, ch, cost).0) + cost.spec_total() == restricted_sum(
            rs,
        ) + spec_spend_restricted(rs, ch, cost).1.spec_total(),
    decreases rs.len(),
{
    if rs.len() > 0 {
        let (e, c) = spec_spend_entry(rs[0], ch, cost);
        lemma_spending_keeps_the_sum(rs.drop_first(), ch, c);
        let rest = spec_spend_restricted(rs.drop_first(), ch, c).0;
        lemma_sum_in_front(e, rest);
        assert(rs == seq![rs[0]] + rs.drop_first());
        lemma_sum_in_front(rs[0], rs.drop_first());
    }
}

/// A restricted-mana list sums to zero or more.
pub proof fn lemma_restricted_sum_nonneg(s: Seq<RestrictedMana>)
    ensures
        restricted_sum(s) >= 0,
    decreases s.len(),
{
    if s.len() > 0 {
        lemma_restricted_sum_nonneg(s.drop_last());
    }
}

} // verus!
