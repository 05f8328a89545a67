//! The engine's interface: what it waits for, what a player may answer, and
//! the engine itself.

use vstd::prelude::*;
use crate::cards::{Ability, Filter, ManaRider, Search, UnlessCost};
use crate::mana::ManaCost;
use crate::ids::{ObjectId, PlayerId};
use crate::mana::{ManaColor, SpendRestriction};
use crate::sets::Subtype;
use crate::state::GameState;

verus! {

/// What a choice of objects is for, as the player is told.
#[derive(Clone, Copy, Debug, PartialEq, Eq, Structural)]
pub enum ChoicePrompt {
    Generic,
    /// Permanents to sacrifice as part of a cost.
    CostSacrifice,
    /// A card to discard as part of a cost.
    CostDiscard,
    /// Cards looked at by a scry that go to the bottom of the library.
    ScryBottom,
    /// Cards looked at by a surveil that go to the graveyard.
    SurveilGraveyard,
    /// Cards found by a search of a library.
    SearchLibrary,
    /// Permanents to leave tapped through an untap step.
    LeaveTapped,
    /// A permanent to return to its owner's hand, as a payment.
    CostReturn,
    /// A permanent to tap, as a payment.
    CostTap,
}

/// What a yes-or-no question asks, as the player is told.
#[derive(Clone, Copy, Debug, PartialEq, Eq, Structural)]
pub enum YesNoPrompt {
    /// Whether to pay `mana` mana to keep a permanent.
    PayTax { mana: u32 },
}

/// One way of playing a card.
#[derive(Clone, Copy, Debug, PartialEq, Eq, Structural)]
pub enum CastModeKind {
    /// Play the land with the given face up.
    PlayLandFace(u8),
}

/// An option of a [`Pending::ChooseCastMode`].
#[derive(Clone, Copy, Debug, PartialEq, Eq, Structural)]
pub struct CastMode {
    pub kind: CastModeKind,
}

/// What an attacking creature attacks.
#[derive(Clone, Copy, Debug, PartialEq, Eq, Structural)]
pub enum Defender {
    Player(PlayerId),
}

/// A creature that may block, and the attackers it may block.
#[derive(Clone, Debug, PartialEq, Eq)]
pub struct BlockerOption {
    pub blocker: ObjectId,
    pub attackers: Vec<ObjectId>,
}

/// How far the combat of the turn has gone.
#[derive(Clone, Copy, Debug, PartialEq, Eq, Structural)]
pub enum CombatStep {
    /// No attackers are declared: the combat has not begun, or has none.
    Beginning,
    /// Attackers are declared and blockers are not yet.
    Attackers,
    /// Blockers are declared and no damage is dealt yet.
    Blockers,
    /// Combat damage has been dealt.
    Damage,
}

/// What a player holding priority may do.
#[derive(Clone, Debug, PartialEq, Eq)]
pub struct LegalActions {
    /// Land cards in hand that may be played.
    pub play_lands: Vec<ObjectId>,
    /// Printed abilities that may be activated: the source and the index of
    /// the ability on it.
    pub abilities: Vec<(ObjectId, u32)>,
    /// Sources of the mana ability a basic land type gives (CR 305.6).
    pub mana_abilities: Vec<ObjectId>,
    /// Cards in hand that may be cast as spells.
    pub castable: Vec<ObjectId>,
}

/// What the engine waits for.
#[derive(Clone, Debug, PartialEq, Eq)]
pub enum Pending {
    /// Whether to keep an opening hand.
    Mulligan { player: PlayerId },
    Priority { player: PlayerId, legal: LegalActions },
    ChooseColor { player: PlayerId, options: Vec<ManaColor> },
    ChooseTargets {
        player: PlayerId,
        options: Vec<ObjectId>,
        player_options: Vec<PlayerId>,
        min: u8,
        max: u8,
    },
    ChooseCards { player: PlayerId, options: Vec<ObjectId>, min: u8, max: u8, prompt: ChoicePrompt },
    ChooseCastMode { player: PlayerId, options: Vec<CastMode> },
    ChooseSubtype { player: PlayerId, options: Vec<Subtype> },
    /// Put these objects in order; the first named ends on top.
    OrderObjects { player: PlayerId, objects: Vec<ObjectId> },
    /// Whether to pay what `source` asks to be kept.
    YesNo { player: PlayerId, source: ObjectId, prompt: YesNoPrompt },
    /// A number from `min` to `max`, announced for a cost.
    ChooseNumber { player: PlayerId, min: u32, max: u32 },
    /// Which of these creatures attack, if any.
    ChooseAttackers { player: PlayerId, options: Vec<ObjectId> },
    /// Which creatures block which attackers, if any.
    ChooseBlockers { player: PlayerId, blockers: Vec<BlockerOption> },
}

impl Pending {
    /// The player the engine waits for.
    pub open spec fn decider(self) -> PlayerId {
        match self {
            Pending::Mulligan { player } => player,
            Pending::Priority { player, .. } => player,
            Pending::ChooseColor { player, .. } => player,
            Pending::ChooseTargets { player, .. } => player,
            Pending::ChooseCards { player, .. } => player,
            Pending::ChooseCastMode { player, .. } => player,
            Pending::ChooseSubtype { player, .. } => player,
            Pending::OrderObjects { player, .. } => player,
            Pending::YesNo { player, .. } => player,
            Pending::ChooseNumber { player, .. } => player,
            Pending::ChooseAttackers { player, .. } => player,
            Pending::ChooseBlockers { player, .. } => player,
        }
    }

    /// The objects offered to choose from: the options of a choice of
    /// targets or of cards, and nothing otherwise.
    pub open spec fn offered_objects(self) -> Seq<ObjectId> {
        match self {
            Pending::ChooseTargets { options, .. } => options@,
            Pending::ChooseCards { options, .. } => options@,
            Pending::ChooseAttackers { options, .. } => options@,
            _ => Seq::empty(),
        }
    }

    /// The players offered as targets.
    pub open spec fn offered_players(self) -> Seq<PlayerId> {
        match self {
            Pending::ChooseTargets { player_options, .. } => player_options@,
            _ => Seq::empty(),
        }
    }

    /// The subtypes offered to choose from.
    pub open spec fn offered_subtypes(self) -> Seq<Subtype> {
        match self {
            Pending::ChooseSubtype { options, .. } => options@,
            _ => Seq::empty(),
        }
    }

    /// Whether `objects` puts exactly the objects offered to be ordered in
    /// an order: each of them once.
    pub open spec fn orders_offered(self, objects: Seq<ObjectId>) -> bool {
        match self {
            Pending::OrderObjects { objects: offered, .. } => {
                &&& objects.len() == offered@.len()
                &&& forall|i: int| 0 <= i < objects.len() ==> offered@.contains(#[trigger] objects[i])
                &&& forall|i: int, j: int| 0 <= i < j < objects.len() ==> objects[i] != objects[j]
            },
            _ => false,
        }
    }

    /// The colours offered to choose from.
    pub open spec fn offered_colors(self) -> Seq<ManaColor> {
        match self {
            Pending::ChooseColor { options, .. } => options@,
            _ => Seq::empty(),
        }
    }
}

/// What a player does.
#[derive(Clone, Debug, PartialEq, Eq)]
pub enum PlayerAction {
    KeepHand,
    PassPriority,
    PlayLand { card: ObjectId },
    CastSpell { card: ObjectId },
    ActivateAbility { source: ObjectId, ability_index: u32 },
    ActivateManaAbility { source: ObjectId },
    ChooseColor(ManaColor),
    ChooseObjects { objects: Vec<ObjectId> },
    ChooseTargets { objects: Vec<ObjectId>, players: Vec<PlayerId> },
    ChooseMode(usize),
    ChooseSubtype(Subtype),
    OrderObjects { objects: Vec<ObjectId> },
    YesNo(bool),
    ChooseNumber(u32),
    /// The attacking creatures, each with what it attacks.
    DeclareAttackers { attackers: Vec<(ObjectId, Defender)> },
    /// The blocks: each blocking creature with the attacker it blocks.
    DeclareBlockers { blocks: Vec<(ObjectId, ObjectId)> },
}

/// Why an action was refused. A refused action changes nothing.
#[derive(Clone, Copy, Debug, PartialEq, Eq, Structural)]
pub enum EngineError {
    /// The engine is not waiting for this player.
    NotYourDecision,
    /// The action does not answer what the engine waits for.
    WrongKindOfAction,
    /// The action is of the right kind but not among the legal ones.
    IllegalAction,
    /// The choice names something that was not offered, or too few or too
    /// many things.
    InvalidChoice,
}

/// An ability on the stack, or being put there.
#[derive(Clone, Debug, PartialEq, Eq)]
pub struct StackItem {
    pub source: ObjectId,
    pub controller: PlayerId,
    pub ability: Ability,
    pub targets: Vec<ObjectId>,
    pub target_players: Vec<PlayerId>,
}

/// Work the engine has yet to do, in order. A job that needs a player's
/// choice waits at the head of the queue until the choice is made.
#[derive(Clone, Copy, Debug, PartialEq, Eq, Structural)]
pub enum Job {
    /// Choose what the ability being put on the stack targets.
    Targets,
    /// Put the ability being put on the stack onto it.
    PushDraft,
    /// Sacrifice a permanent that matches, to pay a cost.
    SacrificeCost { player: PlayerId, filter: Filter },
    /// Carry out the effect of a mana ability of `source` now.
    ManaEffect { player: PlayerId, source: ObjectId, ability: Ability },
    /// Add `amount` mana of a colour from the mask, `times` more times.
    ManaChoice { player: PlayerId, colors: u8, amount: u32, times: u32, restriction: Option<SpendRestriction> },
    Discard { player: PlayerId, n: u32 },
    SacrificeLands { player: PlayerId, n: u32 },
    SacrificeCreature { player: PlayerId },
    Scry { player: PlayerId, n: u32 },
    Surveil { player: PlayerId, n: u32 },
    Reorder { player: PlayerId, n: u32 },
    BasicSearch { player: PlayerId },
    /// The controller of `object` chooses a colour for it, other than
    /// those of the mask `except`.
    EntryColor { object: ObjectId, except: u8 },
    EntrySubtype { object: ObjectId },
    PlayFace { player: PlayerId, card: ObjectId },
    /// Discard a card other than `source`, to pay a cost.
    DiscardCost { player: PlayerId, source: ObjectId },
    /// Tap an untapped permanent that matches, other than `source`, to pay
    /// a cost.
    TapCost { player: PlayerId, filter: Filter, source: ObjectId },
    /// Ask what pays for keeping `source`; it is sacrificed if nothing does.
    Unless { player: PlayerId, source: ObjectId, cost: UnlessCost },
    /// Mana made while this job waits at the head is spent on `cost` when
    /// `player` passes; `source` is sacrificed if it cannot be paid.
    PayWindow { player: PlayerId, source: ObjectId, cost: ManaCost },
    /// Return a land `player` controls to its owner's hand.
    ReturnLand { player: PlayerId },
    /// Add one mana of one of the two colours, offered in this order,
    /// `times` more times.
    ManaEither { player: PlayerId, first: ManaColor, second: ManaColor, times: u32 },
    /// Search `player`'s library as `search` says.
    Search { player: PlayerId, search: Search },
    /// `player` announces how many counters the cost of `ability` of
    /// `source` removes; the ability is then paid for and carried out.
    AnnounceX { player: PlayerId, source: ObjectId, ability: Ability },
    /// `player` says which of the permanents that may stay tapped do.
    LeaveTapped { player: PlayerId },
    /// The upkeep begins: its triggers are collected.
    BeginUpkeep,
    /// What a mana ability of `source` does once its mana is made.
    Rider { player: PlayerId, source: ObjectId, rider: ManaRider },
    /// `player`, the active player, says which creatures attack.
    DeclareAttackers { player: PlayerId },
    /// `player`, the defending player, says which creatures block.
    DeclareBlockers { player: PlayerId },
}

/// A game in progress: its state, what it waits for, the stack and the
/// work in hand.
#[derive(Clone, Debug, PartialEq, Eq)]
pub struct Engine {
    pub state: GameState,
    pub pending: Pending,
    /// The stack, its top last.
    pub stack: Vec<StackItem>,
    pub jobs: Vec<Job>,
    /// The ability whose resolution is under way.
    pub resolving: Option<StackItem>,
    /// The ability being put on the stack.
    pub draft: Option<StackItem>,
    /// Triggered abilities waiting to be put on the stack.
    pub triggers: Vec<StackItem>,
    /// Who holds priority, or will once the work in hand is done.
    pub priority: PlayerId,
    /// How many players in a row have passed.
    pub passes: u32,
    /// How far the combat of the turn has gone.
    pub combat: CombatStep,
    /// The blocks declared this combat: each blocker with the attacker it
    /// blocks.
    pub blocks: Vec<(ObjectId, ObjectId)>,
}

impl Engine {
    /// The engine's own invariant.
    pub open spec fn wf(self) -> bool {
        self.state.wf()
    }

    /// Whether `b` differs from `a` in the game state alone: what it waits
    /// for, the stack and the work in hand are the same.
    pub open spec fn same_but_state(a: Engine, b: Engine) -> bool {
        &&& Engine::same_but_state_and_triggers(a, b)
        &&& b.triggers == a.triggers
    }

    /// Whether the only work in hand is choosing targets for what waits to
    /// go on the stack, and none of it is a spell: the jobs are target
    /// choices and pushes of the draft, the draft and the waiting triggers
    /// are abilities, and no resolution is being finished.
    pub open spec fn spec_only_targets_work(self) -> bool {
        &&& forall|k: int| 0 <= k < self.jobs@.len() ==> (#[trigger] self.jobs@[k] is Targets || self.jobs@[k] is PushDraft)
        &&& (self.draft matches Some(d) ==> !(d.ability.kind is Spell))
        &&& forall|k: int| 0 <= k < self.triggers@.len() ==> !(#[trigger] self.triggers@[k].ability.kind is Spell)
        &&& self.resolving.is_none()
    }

    /// Whether `b` differs from `a` in the game state and the waiting
    /// triggers alone.
    pub open spec fn same_but_state_and_triggers(a: Engine, b: Engine) -> bool {
        &&& b.pending == a.pending
        &&& b.stack == a.stack
        &&& b.jobs == a.jobs
        &&& b.resolving == a.resolving
        &&& b.draft == a.draft
        &&& b.priority == a.priority
        &&& b.passes == a.passes
        &&& b.combat == a.combat
        &&& b.blocks == a.blocks
    }

    /// What answering the pending question ends in: refused as the wrong
    /// kind of action when no question of this kind waits (`is_kind`), as
    /// not `player`'s decision when another player is asked, and as an
    /// invalid choice when the answer is not one offered (`valid`);
    /// otherwise accepted.
    pub open spec fn spec_answer(self, player: PlayerId, is_kind: bool, valid: bool) -> Result<(), EngineError> {
        if self.jobs@.len() == 0 || !is_kind {
            Err(EngineError::WrongKindOfAction)
        } else if self.pending.decider().0 != player.0 {
            Err(EngineError::NotYourDecision)
        } else if !valid {
            Err(EngineError::InvalidChoice)
        } else {
            Ok(())
        }
    }

    /// The state of the game.
    pub fn state(&self) -> (s: &GameState)
        ensures
            *s == self.state,
    {
        &self.state
    }

    /// What the engine waits for.
    pub fn pending(&self) -> (p: &Pending)
        ensures
            *p == self.pending,
    {
        &self.pending
    }

    /// Whether nothing is on the stack, being resolved or being put there.
    pub open spec fn spec_stack_is_empty(self) -> bool {
        &&& self.stack@.len() == 0
        &&& self.resolving.is_none()
        &&& self.draft.is_none()
        &&& self.jobs@.len() == 0
        &&& self.triggers@.len() == 0
    }

    /// Whether nothing is on the stack, being resolved or being put there.
    pub fn stack_is_empty(&self) -> (b: bool)
        ensures
            b == self.spec_stack_is_empty(),
    {
        self.stack.len() == 0 && self.resolving.is_none() && self.draft.is_none()
            && self.jobs.len() == 0 && self.triggers.len() == 0
    }
}

} // verus!
