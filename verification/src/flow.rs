//! How the game moves on: priority, passing, the steps of a turn, the state
//! checks, and the work the engine does between two decisions.

use vstd::prelude::*;
use crate::cards::{AbilityKind, Trigger, TargetSpec};
use crate::catalog::{ability_at, ability_count};
use crate::engine::{CombatStep, Engine, Job, Pending, StackItem};
use crate::ids::{next_phase, spec_next_phase, ObjectId, Phase, PlayerId};
use crate::sets::{type_bit, TypeSet};
use crate::state::{GameObject, GameState, TurnState, Zone};

verus! {

/// Whether the turn ends as the step `p` does: after the end step comes
/// the cleanup step, which has no priority, and then the next turn.
pub open spec fn spec_turn_ends(p: Phase) -> bool {
    p == Phase::End || p == Phase::Cleanup
}

/// The step the game reaches as the step `p` ends: the next one that has
/// priority, which after the end step is the next turn's upkeep.
pub open spec fn spec_phase_after(p: Phase) -> Phase {
    if spec_turn_ends(p) {
        Phase::Upkeep
    } else {
        crate::ids::spec_next_phase(p)
    }
}

/// The number of the turn after turn `n`, held at `u32::MAX`.
pub open spec fn spec_next_turn_number(n: u32) -> u32 {
    if n < u32::MAX {
        (n + 1) as u32
    } else {
        u32::MAX
    }
}

/// How many pieces of work the engine does at most between two decisions.
pub const WORK_BOUND: u32 = 256;

impl Engine {
    /// A game about to begin from `state`: the starting player is asked
    /// first whether to keep their hand.
    pub fn new(state: GameState) -> (e: Engine)
        requires
            state.wf(),
        ensures
            e.wf(),
            e.state == state,
            e.pending == (Pending::Mulligan { player: PlayerId(0) }),
            e.spec_stack_is_empty(),
    {
        Engine {
            state,
            pending: Pending::Mulligan { player: PlayerId(0) },
            stack: Vec::new(),
            jobs: Vec::new(),
            resolving: None,
            draft: None,
            triggers: Vec::new(),
            priority: PlayerId(0),
            passes: 0,
            combat: CombatStep::Beginning,
            blocks: Vec::new(),
        }
    }

    /// Gives priority to `p`, with what they may do.
    pub fn give_priority(&mut self, p: PlayerId)
        requires
            old(self).wf(),
        ensures
            final(self).wf(),
            final(self).state == old(self).state,
            final(self).pending is Priority,
            final(self).pending.decider() == p,
            final(self).priority == p,
            final(self).jobs == old(self).jobs,
            final(self).stack == old(self).stack,
            final(self).passes == old(self).passes,
    {
        self.priority = p;
        let legal = self.legal_actions(p);
        self.pending = Pending::Priority { player: p, legal };
    }

    /// Where a player holds priority, works out again what they may do, as
    /// the board now stands.
    pub fn refresh_offer(&mut self)
        requires
            old(self).wf(),
        ensures
            final(self).wf(),
            final(self).state == old(self).state,
    {
        let holder = match &self.pending {
            Pending::Priority { player, .. } => Some(*player),
            _ => None,
        };
        match holder {
            Some(p) => self.give_priority(p),
            None => {},
        }
    }

    /// Puts the triggered abilities of `source` that `trigger` sets off,
    /// with `controller` as their controller, among the waiting triggers.
    pub fn collect_triggers(&mut self, source: ObjectId, controller: PlayerId, trigger: Trigger)
        requires
            old(self).wf(),
        ensures
            final(self).wf(),
            final(self).state == old(self).state,
            Engine::same_but_state_and_triggers(*old(self), *final(self)),
            old(self).spec_only_targets_work() ==> final(self).spec_only_targets_work(),
    {
        if !self.state.contains(source) {
            return;
        }
        let face = self.state.get(source).face;
        let n = ability_count(face);
        let mut i: u32 = 0;
        while i < n
            invariant
                self.wf(),
                self.state == old(self).state,
                Engine::same_but_state_and_triggers(*old(self), *self),
                old(self).spec_only_targets_work() ==> self.spec_only_targets_work(),
            decreases n - i,
        {
            match ability_at(face, i) {
                Some(a) => {
                    match a.kind {
                        AbilityKind::Triggered(t) => {
                            if t == trigger {
                                self.triggers.push(
                                    StackItem {
                                        source,
                                        controller,
                                        ability: a,
                                        targets: Vec::new(),
                                        target_players: Vec::new(),
                                    },
                                );
                            }
                        },
                        _ => {},
                    }
                },
                None => {},
            }
            i = i + 1;
        }
    }

    /// The triggers of `id` as it enters the battlefield under `p`'s
    /// control: "when this enters", and "when this enters untapped" if it
    /// did.
    pub fn entry_triggers(&mut self, id: ObjectId, p: PlayerId)
        requires
            old(self).wf(),
        ensures
            final(self).wf(),
            final(self).state.turn == old(self).state.turn,
            final(self).state == old(self).state,
            Engine::same_but_state_and_triggers(*old(self), *final(self)),
            old(self).spec_only_targets_work() ==> final(self).spec_only_targets_work(),
    {
        self.collect_triggers(id, p, Trigger::EntersBattlefield);
        if self.state.contains(id) && !self.state.get(id).tapped {
            self.collect_triggers(id, p, Trigger::EntersUntapped);
        }
    }

    /// The "at the beginning of your upkeep" triggers of the permanents the
    /// active player controls whose condition holds as the upkeep begins.
    pub fn upkeep_triggers(&mut self)
        requires
            old(self).wf(),
        ensures
            final(self).wf(),
            final(self).state.turn == old(self).state.turn,
            final(self).state == old(self).state,
    {
        let p = self.state.turn.active;
        let mine = self.state.permanents_matching(p, &crate::legal::any_permanent());
        let mut i: usize = 0;
        while i < mine.len()
            invariant
                self.wf(),
                self.state.turn == old(self).state.turn,
                self.state == old(self).state,
            decreases mine@.len() - i,
        {
            let id = mine[i];
            if self.state.contains(id) {
                let face = self.state.get(id).face;
                let n = ability_count(face);
                let mut k: u32 = 0;
                while k < n
                    invariant
                        self.wf(),
                        self.state.turn == old(self).state.turn,
                        self.state == old(self).state,
                    decreases n - k,
                {
                    match ability_at(face, k) {
                        Some(a) => {
                            if a.kind == AbilityKind::Triggered(Trigger::YourUpkeep)
                                && crate::rules::condition_holds(&self.state, p, &a.condition, id) {
                                self.triggers.push(
                                    StackItem {
                                        source: id,
                                        controller: p,
                                        ability: a,
                                        targets: Vec::new(),
                                        target_players: Vec::new(),
                                    },
                                );
                            }
                        },
                        None => {},
                    }
                    k = k + 1;
                }
            }
            i = i + 1;
        }
        let tax = self.upkeep_tax();
        if tax > 0 {
            let f = crate::legal::creature_filter();
            let creatures = self.state.permanents_matching(p, &f);
            let price = crate::mana::ManaCost { generic: tax, ..crate::mana::ManaCost::zero() };
            let a = crate::cardkit::triggered(
                Trigger::YourUpkeep,
                crate::cards::Effect::SacrificeUnless(crate::cards::UnlessCost::Pay(price)),
                TargetSpec::NoTarget,
            );
            let mut j: usize = 0;
            while j < creatures.len()
                invariant
                    self.wf(),
                    self.state.turn == old(self).state.turn,
                    self.state == old(self).state,
                decreases creatures@.len() - j,
            {
                self.triggers.push(
                    StackItem {
                        source: creatures[j],
                        controller: p,
                        ability: a,
                        targets: Vec::new(),
                        target_players: Vec::new(),
                    },
                );
                j = j + 1;
            }
        }
    }

    /// Marks the tapped permanents `p` controls that may stay tapped to skip
    /// the untap step about to happen, so that `p` is asked about them
    /// after it; answers whether there were any.
    pub fn hold_for_the_untap_question(&mut self, p: PlayerId) -> (held: bool)
        requires
            old(self).wf(),
        ensures
            final(self).wf(),
            Engine::same_but_state(*old(self), *final(self)),
            final(self).state.turn == old(self).state.turn,
            final(self).state.players == old(self).state.players,
    {
        let v = self.may_stay_tapped(p);
        let mut i: usize = 0;
        while i < v.len()
            invariant
                self.wf(),
                Engine::same_but_state(*old(self), *self),
                self.state.turn == old(self).state.turn,
                self.state.players == old(self).state.players,
            decreases v@.len() - i,
        {
            if self.state.contains(v[i]) {
                let o = self.state.get(v[i]);
                self.state.put_object(crate::state::GameObject { skip_untap: true, ..o });
            }
            i = i + 1;
        }
        v.len() > 0
    }

    /// The generic mana each creature's upkeep asks under the static
    /// abilities on the battlefield that tax creatures, in all.
    pub fn upkeep_tax(&self) -> (n: u32)
        requires
            self.wf(),
    {
        let bf = &self.state.zones.battlefield;
        let mut n: u32 = 0;
        let mut i: usize = 0;
        while i < bf.len()
            invariant
                self.wf(),
            decreases bf@.len() - i,
        {
            match self.state.object(bf[i]) {
                Some(o) => {
                    if o.zone == Zone::Battlefield {
                        let count = ability_count(o.face);
                        let mut k: u32 = 0;
                        while k < count
                            decreases count - k,
                        {
                            match ability_at(o.face, k) {
                                Some(a) => match a.effect {
                                    crate::cards::Effect::CreaturesPayUpkeep(m) => {
                                        if a.kind == AbilityKind::Static {
                                            n = n.saturating_add(m);
                                        }
                                    },
                                    _ => {},
                                },
                                None => {},
                            }
                            k = k + 1;
                        }
                    }
                },
                None => {},
            }
            i = i + 1;
        }
        n
    }

    /// The triggers set off when player `p` plays the land `land`: those
    /// of the land as it enters, and "when you play another land" of the
    /// other permanents `p` controls.
    pub fn land_played_triggers(&mut self, p: PlayerId, land: ObjectId)
        requires
            old(self).wf(),
        ensures
            final(self).wf(),
            final(self).state.turn == old(self).state.turn,
            final(self).state == old(self).state,
            Engine::same_but_state_and_triggers(*old(self), *final(self)),
            old(self).spec_only_targets_work() ==> final(self).spec_only_targets_work(),
    {
        self.entry_triggers(land, p);
        let mine = self.state.permanents_matching(p, &crate::legal::any_permanent());
        let mut i: usize = 0;
        while i < mine.len()
            invariant
                self.wf(),
                self.state.turn == old(self).state.turn,
                self.state == old(self).state,
                Engine::same_but_state_and_triggers(*old(self), *self),
                old(self).spec_only_targets_work() ==> self.spec_only_targets_work(),
            decreases mine@.len() - i,
        {
            if mine[i].0 != land.0 {
                self.collect_triggers(mine[i], p, Trigger::YouPlayAnotherLand);
            }
            i = i + 1;
        }
    }

    /// The state-based actions this engine checks (CR 704.5f, 704.5g): a
    /// creature with toughness zero or less, or with damage at least its
    /// toughness, goes to its owner's graveyard.
    pub fn state_based_actions(&mut self)
        requires
            old(self).wf(),
        ensures
            final(self).wf(),
            final(self).state.players == old(self).state.players,
            final(self).state.turn == old(self).state.turn,
            spec_nothing_dies(old(self).state) ==> *final(self) == *old(self),
    {
        let n = self.state.objects.len();
        let mut i: usize = 0;
        while i < n
            invariant
                self.wf(),
                n == self.state.objects@.len(),
                self.state.players == old(self).state.players,
                self.state.turn == old(self).state.turn,
                spec_nothing_dies(old(self).state) ==> *self == *old(self),
            decreases n - i,
        {
            let o = self.state.objects[i];
            if o.zone == Zone::Battlefield {
                let ch = o.characteristics();
                if ch.types.0 & type_bit(TypeSet::CREATURE) != 0 && (ch.toughness <= 0 || (
                ch.toughness as i64) <= (o.damage as i64)) {
                    assert(spec_dies(self.state.objects@[i as int]));
                    self.move_to(o.id, Zone::Graveyard, false);
                }
            }
            i = i + 1;
        }
    }

    /// Begins putting a waiting trigger on the stack. A trigger whose
    /// target cannot be chosen is removed (CR 603.3d).
    pub fn begin_trigger(&mut self, t: StackItem)
        requires
            old(self).wf(),
        ensures
            final(self).wf(),
            final(self).state == old(self).state,
            final(self).triggers == old(self).triggers,
            final(self).resolving == old(self).resolving,
            old(self).spec_only_targets_work() && !(t.ability.kind is Spell) ==> final(self).spec_only_targets_work(),
    {
        match t.ability.target {
            TargetSpec::NoTarget => {
                self.stack.push(t);
            },
            _ => {
                let (objs, players) = self.state.target_options(t.controller, &t.ability.target);
                if objs.len() == 0 && players.len() == 0 {
                    return;
                }
                self.draft = Some(t);
                self.jobs.push(Job::Targets);
                self.jobs.push(Job::PushDraft);
            },
        }
    }

    /// Whether no work is in hand: no job, no resolution to finish, no
    /// waiting trigger, and no creature the state checks would put into a
    /// graveyard.
    pub open spec fn spec_quiet(self) -> bool {
        &&& self.jobs@.len() == 0
        &&& self.triggers@.len() == 0
        &&& self.resolving.is_none()
        &&& spec_nothing_dies(self.state)
    }

    /// Does the work in hand until a player must decide something: the
    /// jobs in order, the end of a resolution, the state checks, the
    /// waiting triggers, and then priority. With no work in hand, priority
    /// simply goes to the player due it, and nothing else changes.
    pub fn settle(&mut self)
        requires
            old(self).wf(),
        ensures
            final(self).wf(),
            final(self).state.turn == old(self).state.turn,
            final(self).pending is Priority || final(self).jobs@.len() > 0,
            final(self).pending is Priority ==> final(self).pending.decider() == final(self).priority,
            old(self).spec_quiet() ==> final(self).state == old(self).state && final(self).stack
                == old(self).stack && final(self).jobs == old(self).jobs && final(self).passes
                == old(self).passes && final(self).priority == old(self).priority
                && final(self).waits_for_priority_of(old(self).priority),
            old(self).spec_announces() ==> final(self).state == old(self).state && final(self).stack
                == old(self).stack && final(self).jobs == old(self).jobs && final(self).pending == old(
                self,
            ).spec_announcement() && final(self).triggers == old(self).triggers && final(self).resolving
                == old(self).resolving && final(self).draft == old(self).draft,
            old(self).spec_only_targets_work() && spec_nothing_dies(old(self).state) ==> final(self).state
                == old(self).state,
    {
        let mut fuel: u32 = WORK_BOUND;
        while fuel > 0
            invariant
                self.wf(),
                self.state.turn == old(self).state.turn,
                old(self).spec_only_targets_work() && spec_nothing_dies(old(self).state) ==> self.state
                    == old(self).state && self.spec_only_targets_work(),
                old(self).spec_quiet() ==> fuel == WORK_BOUND && *self == *old(self),
                old(self).spec_announces() ==> fuel == WORK_BOUND && *self == *old(self),
            decreases fuel,
        {
            fuel = fuel - 1;
            if self.jobs.len() > 0 {
                if self.start_job() {
                    continue ;
                } else {
                    return;
                }
            }
            if self.resolving.is_some() {
                self.resolving = None;
                self.priority = self.state.turn.active;
                self.passes = 0;
            }
            self.state_based_actions();
            if self.triggers.len() > 0 {
                let ghost before = self.triggers@;
                let t = self.triggers.remove(0);
                proof {
                    if old(self).spec_only_targets_work() && spec_nothing_dies(old(self).state) {
                        assert(t == before[0]);
                        assert(!(before[0].ability.kind is Spell));
                        assert forall|k: int| 0 <= k < self.triggers@.len() implies !(
                        #[trigger] self.triggers@[k].ability.kind is Spell) by {
                            assert(self.triggers@[k] == before[k + 1]);
                        }
                    }
                }
                self.begin_trigger(t);
                continue ;
            }
            let p = self.priority;
            self.give_priority(p);
            return;
        }
        let p = self.priority;
        self.give_priority(p);
    }

    /// The next turn begins (CR 500.1, 502): the other player becomes
    /// active, the turn number goes up by one (held at `u32::MAX`), no land
    /// has been played, their permanents untap (those they keep tapped are
    /// asked about first), and their upkeep begins.
    pub fn begin_turn(&mut self)
        requires
            old(self).wf(),
        ensures
            final(self).wf(),
            final(self).state.turn == (TurnState {
                number: spec_next_turn_number(old(self).state.turn.number),
                active: old(self).state.turn.active.spec_opponent(),
                phase: Phase::Upkeep,
                lands_played: 0,
            }),
            final(self).state.players == old(self).state.players,
    {
        let active = self.state.turn.active.opponent();
        let number = if self.state.turn.number < u32::MAX {
            self.state.turn.number + 1
        } else {
            u32::MAX
        };
        self.state.turn.active = active;
        self.state.turn.number = number;
        self.state.turn.lands_played = 0;
        self.state.turn.phase = Phase::Untap;
        let held = self.hold_for_the_untap_question(active);
        self.state.untap_permanents(active);
        self.state.turn.phase = Phase::Upkeep;
        if held {
            self.jobs.push(Job::LeaveTapped { player: active });
            self.jobs.push(Job::BeginUpkeep);
        } else {
            self.upkeep_triggers();
        }
    }

    /// The active player moves on to the next step of the turn that has
    /// priority, or, after the end step, the next turn begins. Mana empties
    /// from the pools as the step ends (CR 500.4), a combat that ends
    /// removes every creature from it (CR 511.3), the cleanup step clears
    /// damage and what lasted until end of turn, and the active player of
    /// the step reached receives priority.
    pub fn advance_step(&mut self)
        requires
            old(self).wf(),
        ensures
            final(self).wf(),
            final(self).state.turn.phase == spec_phase_after(old(self).state.turn.phase),
            spec_turn_ends(old(self).state.turn.phase) ==> final(self).state.turn == (TurnState {
                number: spec_next_turn_number(old(self).state.turn.number),
                active: old(self).state.turn.active.spec_opponent(),
                phase: Phase::Upkeep,
                lands_played: 0,
            }),
            !spec_turn_ends(old(self).state.turn.phase) ==> final(self).state.turn == (TurnState {
                phase: spec_next_phase(old(self).state.turn.phase),
                ..old(self).state.turn
            }),
            final(self).state.players@[0].mana_pool.is_empty(),
            final(self).state.players@[1].mana_pool.is_empty(),
            final(self).state.players@[0].life == old(self).state.players@[0].life,
            final(self).state.players@[1].life == old(self).state.players@[1].life,
            final(self).priority == final(self).state.turn.active,
            final(self).passes == 0,
    {
        self.state.empty_pools();
        let p0 = self.state.turn.phase;
        if p0 == Phase::Combat {
            self.state.end_combat();
            self.combat = CombatStep::Beginning;
            self.blocks = Vec::new();
        }
        if p0 == Phase::End || p0 == Phase::Cleanup {
            if p0 == Phase::End {
                self.state.turn.phase = Phase::Cleanup;
                self.state.end_turn_effects();
            }
            self.begin_turn();
        } else {
            let next = next_phase(p0);
            self.state.turn.phase = next;
            if next == Phase::Draw && self.state.turn.number > 1 {
                let active = self.state.turn.active;
                self.state.draw_card(active);
            }
            if next == Phase::Combat {
                let active = self.state.turn.active;
                self.jobs.push(Job::DeclareAttackers { player: active });
            }
        }
        self.priority = self.state.turn.active;
        self.passes = 0;
    }

    /// The game's first turn begins: the starting player's upkeep.
    pub fn begin_game(&mut self)
        requires
            old(self).wf(),
        ensures
            final(self).wf(),
            final(self).state.turn.number == 1,
            final(self).state.turn.active == PlayerId(0),
            final(self).state.turn.phase == Phase::Upkeep,
    {
        self.state.turn.number = 1;
        self.state.turn.active = PlayerId(0);
        self.state.turn.phase = Phase::Upkeep;
        self.state.turn.lands_played = 0;
        self.priority = PlayerId(0);
        self.passes = 0;
        self.upkeep_triggers();
    }
}

/// Whether the state checks would put `o` into its owner's graveyard: a
/// creature on the battlefield with toughness zero or less, or with damage
/// at least its toughness (CR 704.5f, 704.5g).
pub open spec fn spec_dies(o: GameObject) -> bool {
    &&& o.zone == Zone::Battlefield
    &&& o.chars().types.0 & crate::sets::spec_type_bit(TypeSet::CREATURE) != 0
    &&& (o.chars().toughness <= 0 || o.chars().toughness <= o.damage)
}

/// Whether the state checks would put nothing into a graveyard.
pub open spec fn spec_nothing_dies(s: GameState) -> bool {
    forall|i: int| 0 <= i < s.objects@.len() ==> !#[trigger] spec_dies(s.objects@[i])
}

/// Whether the turn `after` is where the game stands once the step of
/// `before` ends: the next step, or, after the end step, the other
/// player's next turn beginning with its upkeep and no land played.
pub open spec fn spec_step_passed(before: TurnState, after: TurnState) -> bool {
    &&& after.phase == spec_phase_after(before.phase)
    &&& spec_turn_ends(before.phase) ==> after == (TurnState {
        number: spec_next_turn_number(before.number),
        active: before.active.spec_opponent(),
        phase: Phase::Upkeep,
        lands_played: 0,
    })
}

} // verus!
