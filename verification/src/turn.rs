//! The turn: its steps, what happens as each begins, and the untap step.

use vstd::prelude::*;
use crate::board::MAX_OBJECTS;
use crate::catalog::card_chars;
use crate::ids::PlayerId;
use crate::state::{GameObject, GameState, Zone, ZoneLocation};

verus! {

/// What the untap step does to one object when `p` is the active player:
/// a permanent `p` controls untaps, unless an effect said it doesn't
/// untap during its controller's next untap step; that effect is then used
/// up (CR 502.3).
pub open spec fn spec_untapped(o: GameObject, p: PlayerId) -> GameObject {
    if o.zone == Zone::Battlefield && o.controller.slot() == p.slot() {
        if o.skip_untap {
            GameObject { skip_untap: false, ..o }
        } else {
            GameObject { tapped: false, ..o }
        }
    } else {
        o
    }
}

/// What the cleanup step does to one object: damage is removed and the
/// effects that last until end of turn end (CR 514.2).
pub open spec fn spec_cleaned(o: GameObject) -> GameObject {
    GameObject {
        damage: 0,
        eot_power: 0,
        eot_toughness: 0,
        eot_keywords: 0,
        eot_lost_keywords: 0,
        animated: match o.animated {
            Some(a) => if a.until_end_of_turn {
                None
            } else {
                Some(a)
            },
            None => None,
        },
        ..o
    }
}

impl GameState {
    /// The untap step of player `p`'s turn: every permanent `p` controls
    /// untaps, except one marked to skip this untap step, which stays tapped
    /// and loses the mark. Nothing else changes.
    pub fn untap_permanents(&mut self, p: PlayerId)
        requires
            old(self).wf(),
        ensures
            final(self).wf(),
            final(self).objects@.len() == old(self).objects@.len(),
            forall|j: int|
                0 <= j < old(self).objects@.len() ==> #[trigger] final(self).objects@[j] == spec_untapped(
                    old(self).objects@[j],
                    p,
                ),
            crate::board::only_objects_changed(*old(self), *final(self)),
    {
        let n = self.objects.len();
        let mut i: usize = 0;
        while i < n
            invariant
                self.wf(),
                n == self.objects@.len(),
                n == old(self).objects@.len(),
                i <= n,
                forall|j: int| 0 <= j < i ==> #[trigger] self.objects@[j] == spec_untapped(old(self).objects@[j], p),
                forall|j: int| i <= j < n ==> #[trigger] self.objects@[j] == old(self).objects@[j],
                crate::board::only_objects_changed(*old(self), *self),
            decreases n - i,
        {
            let o = self.objects[i];
            if o.zone == Zone::Battlefield && o.controller.index() == p.index() {
                if o.skip_untap {
                    self.objects.set(i, GameObject { skip_untap: false, ..o });
                } else {
                    self.objects.set(i, GameObject { tapped: false, ..o });
                }
            }
            i = i + 1;
        }
    }

    /// The cleanup step: every object loses its damage and what lasted
    /// until end of turn. Nothing else changes.
    pub fn end_turn_effects(&mut self)
        requires
            old(self).wf(),
        ensures
            final(self).wf(),
            final(self).objects@.len() == old(self).objects@.len(),
            forall|j: int|
                0 <= j < old(self).objects@.len() ==> #[trigger] final(self).objects@[j] == spec_cleaned(
                    old(self).objects@[j],
                ),
            crate::board::only_objects_changed(*old(self), *final(self)),
    {
        let n = self.objects.len();
        let mut i: usize = 0;
        while i < n
            invariant
                self.wf(),
                n == self.objects@.len(),
                n == old(self).objects@.len(),
                i <= n,
                forall|j: int| 0 <= j < i ==> #[trigger] self.objects@[j] == spec_cleaned(old(self).objects@[j]),
                forall|j: int| i <= j < n ==> #[trigger] self.objects@[j] == old(self).objects@[j],
                crate::board::only_objects_changed(*old(self), *self),
            decreases n - i,
        {
            let o = self.objects[i];
            let animated = match o.animated {
                Some(a) => if a.until_end_of_turn {
                    None
                } else {
                    Some(a)
                },
                None => None,
            };
            self.objects.set(
                i,
                GameObject {
                    damage: 0,
                    eot_power: 0,
                    eot_toughness: 0,
                    eot_keywords: 0,
                    eot_lost_keywords: 0,
                    animated,
                    ..o
                },
            );
            i = i + 1;
        }
    }

    /// Empties both players' mana pools (CR 500.4). Nothing else changes.
    pub fn empty_pools(&mut self)
        requires
            old(self).wf(),
        ensures
            final(self).wf(),
            final(self).players@[0].mana_pool.is_empty(),
            final(self).players@[1].mana_pool.is_empty(),
            final(self).players@[0].life == old(self).players@[0].life,
            final(self).players@[1].life == old(self).players@[1].life,
            final(self).players@[0].commander_colors == old(self).players@[0].commander_colors,
            final(self).players@[1].commander_colors == old(self).players@[1].commander_colors,
            final(self).objects == old(self).objects,
            final(self).zones == old(self).zones,
            final(self).turn == old(self).turn,
            final(self).monarch == old(self).monarch,
    {
        self.players[0].mana_pool.empty();
        self.players[1].mana_pool.empty();
    }

    /// Player `p` draws a card: the top card of their library goes to their
    /// hand. With an empty library nothing happens.
    pub fn draw_card(&mut self, p: PlayerId)
        requires
            old(self).wf(),
        ensures
            final(self).wf(),
            final(self).players == old(self).players,
            final(self).turn == old(self).turn,
            final(self).objects@.len() == old(self).objects@.len(),
    {
        let lib = self.zones.list(ZoneLocation::Library(p));
        if lib.len() == 0 {
            return;
        }
        let top = lib[lib.len() - 1];
        if self.contains(top) {
            let card = self.get(top).card;
            self.move_object(top, Zone::Hand, false, card_chars(card));
        }
    }

    /// Player `p` mills `n` cards: the top `n` of their library (as many as
    /// there are) go to their graveyard.
    pub fn mill(&mut self, p: PlayerId, n: u32)
        requires
            old(self).wf(),
        ensures
            final(self).wf(),
            final(self).players == old(self).players,
            final(self).turn == old(self).turn,
            final(self).objects@.len() == old(self).objects@.len(),
    {
        let mut k: u32 = 0;
        while k < n
            invariant
                self.wf(),
                self.players == old(self).players,
                self.turn == old(self).turn,
                self.objects@.len() == old(self).objects@.len(),
            decreases n - k,
        {
            let lib = self.zones.list(ZoneLocation::Library(p));
            if lib.len() == 0 {
                return;
            }
            let top = lib[lib.len() - 1];
            if !self.contains(top) {
                return;
            }
            let card = self.get(top).card;
            self.move_object(top, Zone::Graveyard, false, card_chars(card));
            k = k + 1;
        }
    }

    /// Whether another object can be created.
    pub fn has_room(&self) -> (b: bool)
        ensures
            b == (self.objects@.len() < MAX_OBJECTS),
    {
        self.objects.len() < MAX_OBJECTS as usize
    }
}

} // verus!
