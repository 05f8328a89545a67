//! Identifiers: seats, objects and printed cards.

use vstd::prelude::*;

verus! {

/// A seat at the table. A duel has seats 0 and 1.
#[derive(Clone, Copy, Debug, PartialEq, Eq, Hash, Structural)]
pub struct PlayerId(pub u8);

impl PlayerId {
    /// The seat with the given number.
    pub fn new(seat: u8) -> (p: PlayerId)
        ensures
            p.0 == seat,
    {
        PlayerId(seat)
    }

    /// The seat as an index into a two-seat table: seat 0 is 0 and every
    /// other seat reads as 1.
    pub open spec fn slot(self) -> int {
        if self.0 == 0 {
            0
        } else {
            1
        }
    }

    /// The executable form of [`PlayerId::slot`].
    pub fn index(&self) -> (i: usize)
        ensures
            i == self.slot(),
            i < 2,
    {
        if self.0 == 0 {
            0
        } else {
            1
        }
    }

    /// The other seat of a duel.
    pub open spec fn spec_opponent(self) -> PlayerId {
        if self.0 == 0 {
            PlayerId(1)
        } else {
            PlayerId(0)
        }
    }

    /// The other seat of a duel.
    pub fn opponent(&self) -> (o: PlayerId)
        ensures
            o == self.spec_opponent(),
    {
        if self.0 == 0 {
            PlayerId(1)
        } else {
            PlayerId(0)
        }
    }
}

/// An object in the game: a card in some zone, a token, or an ability on the
/// stack. The id stays with the card as it moves between zones.
#[derive(Clone, Copy, Debug, PartialEq, Eq, Hash, Structural)]
pub struct ObjectId(pub u32);

/// A printed card in the registry.
#[derive(Clone, Copy, Debug, PartialEq, Eq, Hash, Structural)]
pub struct CardIndex(pub u32);

/// The steps of a turn that the engine walks through.
#[derive(Clone, Copy, Debug, PartialEq, Eq, Structural)]
pub enum Phase {
    Untap,
    Upkeep,
    Draw,
    FirstMain,
    Combat,
    SecondMain,
    End,
    Cleanup,
}

/// The step that follows `p`; after the cleanup step a new turn begins with
/// its untap step.
pub open spec fn spec_next_phase(p: Phase) -> Phase {
    match p {
        Phase::Untap => Phase::Upkeep,
        Phase::Upkeep => Phase::Draw,
        Phase::Draw => Phase::FirstMain,
        Phase::FirstMain => Phase::Combat,
        Phase::Combat => Phase::SecondMain,
        Phase::SecondMain => Phase::End,
        Phase::End => Phase::Cleanup,
        Phase::Cleanup => Phase::Untap,
    }
}

/// The step that follows `p`.
pub fn next_phase(p: Phase) -> (q: Phase)
    ensures
        q == spec_next_phase(p),
{
    match p {
        Phase::Untap => Phase::Upkeep,
        Phase::Upkeep => Phase::Draw,
        Phase::Draw => Phase::FirstMain,
        Phase::FirstMain => Phase::Combat,
        Phase::Combat => Phase::SecondMain,
        Phase::SecondMain => Phase::End,
        Phase::End => Phase::Cleanup,
        Phase::Cleanup => Phase::Untap,
    }
}

/// Whether the step is one of the two main phases.
pub fn is_main(p: Phase) -> (b: bool)
    ensures
        b == (p == Phase::FirstMain || p == Phase::SecondMain),
{
    match p {
        Phase::FirstMain => true,
        Phase::SecondMain => true,
        _ => false,
    }
}

} // verus!
