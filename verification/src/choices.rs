//! The answers to the engine's questions: targets, cards, colours, faces,
//! subtypes and orders, and the single entry point for every action.

use vstd::prelude::*;
use crate::cards::{Effect, SearchDest, UnlessCost};
use crate::engine::{CastModeKind, Engine, EngineError, Job, Pending, PlayerAction};
use crate::ids::{ObjectId, PlayerId};
use crate::mana::ManaColor;
use crate::sets::{CounterKind, Subtype};
use crate::state::{GameObject, TurnState, Zone};
use crate::vecs::{has_id, has_player, is_subset_without_repeats};
use crate::actions::{has_color, has_subtype};

verus! {

/// Whether every element of `chosen` is among `options`, each named once.
pub open spec fn spec_chosen_from<T>(chosen: Seq<T>, options: Seq<T>) -> bool {
    &&& forall|i: int| 0 <= i < chosen.len() ==> options.contains(#[trigger] chosen[i])
    &&& forall|i: int, j: int| 0 <= i < j < chosen.len() ==> chosen[i] != chosen[j]
}

/// Whether `objects` and `players` answer the question `q` with what it
/// offers: as many as it asks, each once, of what it names.
pub open spec fn spec_choice_valid(q: Pending, objects: Seq<ObjectId>, players: Seq<PlayerId>) -> bool {
    match q {
        Pending::ChooseTargets { options, player_options, min, max, .. } => {
            &&& objects.len() <= max
            &&& players.len() <= max
            &&& min <= objects.len() + players.len() <= max
            &&& spec_chosen_from(objects, options@)
            &&& spec_chosen_from(players, player_options@)
        },
        Pending::ChooseCards { options, min, max, .. } => {
            &&& players.len() == 0
            &&& min <= objects.len() <= max
            &&& spec_chosen_from(objects, options@)
        },
        _ => false,
    }
}

/// Whether every player of `chosen` is among `options`, each named once.
pub fn players_chosen_from(chosen: &Vec<PlayerId>, options: &Vec<PlayerId>) -> (r: bool)
    ensures
        r ==> forall|i: int| 0 <= i < chosen@.len() ==> options@.contains(#[trigger] chosen@[i]),
        r == spec_chosen_from(chosen@, options@),
{
    let mut i: usize = 0;
    while i < chosen.len()
        invariant
            i <= chosen@.len(),
            forall|k: int| 0 <= k < i ==> options@.contains(#[trigger] chosen@[k]),
            forall|a: int, b: int| 0 <= a < b < i ==> chosen@[a] != chosen@[b],
        decreases chosen@.len() - i,
    {
        if !has_player(options, chosen[i]) {
            return false;
        }
        let mut j: usize = 0;
        while j < i
            invariant
                i < chosen@.len(),
                j <= i,
                forall|a: int| 0 <= a < j ==> chosen@[a] != chosen@[i as int],
            decreases i - j,
        {
            if chosen[j].0 == chosen[i].0 {
                assert(chosen@[j as int] == chosen@[i as int]);
                return false;
            }
            j = j + 1;
        }
        i = i + 1;
    }
    true
}

impl Engine {
    /// Whether announcing `x` is a plain spending of counters: the
    /// announcement is the only work in hand, nothing waits and no creature
    /// is about to die, the permanent is on the battlefield with at least
    /// `x` counters of a kind other than the ones that change its size, and
    /// its cost asks no sacrifice and no fixed number of counters.
    pub open spec fn spec_plain_spend(self, x: u32) -> bool {
        &&& self.jobs@.len() == 1
        &&& self.jobs@[0] matches Job::AnnounceX { source, ability, .. }
        &&& self.spec_quiet_but_jobs()
        &&& ability.cost.remove_any matches Some(kind)
        &&& kind != CounterKind::P1P1 && kind != CounterKind::M1M1
        &&& !ability.cost.sacrifice_self
        &&& ability.cost.remove_counters.is_none()
        &&& !(ability.effect is AddEitherPerCounterRemoved)
        &&& self.state.has(source)
        &&& self.state.obj(source).zone == Zone::Battlefield
        &&& x <= self.state.obj(source).counters.spec_count(kind)
    }

    /// Whether nothing but the jobs is in hand: no waiting trigger, no
    /// resolution to finish, no creature about to die.
    pub open spec fn spec_quiet_but_jobs(self) -> bool {
        &&& self.triggers@.len() == 0
        &&& self.resolving.is_none()
        &&& crate::flow::spec_nothing_dies(self.state)
    }
}

/// Whether, announcing `x` from `before`, the permanent of the
/// announcement stands in `after` with `x` fewer counters of the kind, its
/// other counters as they were, tapped where the cost taps it.
pub open spec fn spec_counters_spent(before: Engine, after: Engine, x: u32) -> bool {
    match before.jobs@[0] {
        Job::AnnounceX { source, ability, .. } => {
            let kind = ability.cost.remove_any.unwrap();
            let was = before.state.obj(source);
            let now = after.state.obj(source);
            &&& now.counters.spec_count(kind) == was.counters.spec_count(kind) - x
            &&& forall|k: CounterKind| k != kind ==> #[trigger] now.counters.spec_count(k) == was.counters.spec_count(k)
            &&& now.tapped == (was.tapped || ability.cost.tap)
            &&& now.zone == Zone::Battlefield
        },
        _ => false,
    }
}

impl Engine {
    /// The one way to act on the engine: `player` does `action`. An action
    /// that does not answer what the engine waits for, or that the rules
    /// forbid, is refused and changes nothing.
    pub fn apply(&mut self, player: PlayerId, action: PlayerAction) -> (r: Result<(), EngineError>)
        requires
            old(self).wf(),
        ensures
            final(self).wf(),
            r.is_err() ==> *final(self) == *old(self),
            r.is_ok() ==> old(self).pending.decider() == player,
            !(action is KeepHand) && !(action is PassPriority) && !(action is PlayLand) ==> final(self).state.turn
                == old(self).state.turn,
            action is PlayLand && r.is_ok() ==> final(self).state.turn == (TurnState {
                lands_played: 1,
                ..old(self).state.turn
            }),
            action is PlayLand && r.is_ok() ==> old(self).state.turn.lands_played == 0,
            action matches PlayerAction::PlayLand { card } ==> (r.is_ok() <==> old(self).waits_for_priority_of(
                player,
            ) && old(self).spec_may_play_land(player, card) && old(self).jobs@.len() == 0),
            action matches PlayerAction::ActivateManaAbility { source } ==> (r.is_ok() <==> old(
                self,
            ).waits_for_priority_of(player) && old(self).state.is_permanent_of(source, player) && !old(
                self,
            ).state.obj(source).tapped && !crate::query::spec_is_sick(
                old(self).state.obj(source),
                old(self).state.turn.number,
            ) && crate::query::spec_intrinsic_colors(old(self).state.obj(source).chars()) & 0x1f != 0),
            action matches PlayerAction::ActivateManaAbility { source } ==> (r.is_ok() && old(self).spec_quiet()
                && crate::query::spec_colors_in(crate::query::spec_intrinsic_colors(old(self).state.obj(source).chars())).len()
                == 1 ==> crate::actions::spec_tapped_for_one(
                *old(self),
                *final(self),
                player,
                source,
                crate::query::spec_colors_in(crate::query::spec_intrinsic_colors(old(self).state.obj(source).chars()))[0],
            )),
            action matches PlayerAction::PlayLand { card } ==> (r.is_ok() && crate::actions::plain_entry(
                *old(self),
                old(self).state.obj(card).card,
            ) ==> crate::actions::spec_land_arrived(*old(self), *final(self), player, card)),
            r.is_ok() ==> match action {
                PlayerAction::CastSpell { card } => old(self).spec_may_cast(player, card),
                _ => true,
            },
            action matches PlayerAction::ActivateAbility { source, ability_index } ==> (r.is_ok() <==> old(
                self,
            ).waits_for_priority_of(player) && old(self).spec_activation(player, source, ability_index).is_some()),
            action matches PlayerAction::ActivateAbility { source, ability_index } ==> (r.is_ok()
                && crate::actions::spec_plain_mana(*old(self), player, source, ability_index)
                ==> crate::actions::spec_mana_made(
                *old(self),
                *final(self),
                player,
                source,
                old(self).spec_activation(player, source, ability_index).unwrap(),
            )),
            action matches PlayerAction::ActivateAbility { source, ability_index } ==> (r.is_ok() && old(
                self,
            ).jobs@.len() == 0 && old(self).spec_activation(player, source, ability_index).unwrap().cost.remove_any is Some
                && old(self).state.obj(source).zone == Zone::Battlefield ==> final(self).state == old(self).state
                && final(self).jobs@.len() == 1 && final(self).pending == (Pending::ChooseNumber {
                player,
                min: 0,
                max: old(self).state.obj(source).counters.spec_count(
                    old(self).spec_activation(player, source, ability_index).unwrap().cost.remove_any.unwrap(),
                ),
            }) && final(self).triggers == old(self).triggers && final(self).resolving == old(self).resolving
                && final(self).jobs@[0] == (Job::AnnounceX {
                player,
                source,
                ability: old(self).spec_activation(player, source, ability_index).unwrap(),
            })),
            action matches PlayerAction::CastSpell { card } ==> (r.is_ok() <==> old(self).waits_for_priority_of(
                player,
            ) && old(self).spec_may_cast(player, card) && old(self).jobs@.len() == 0 && (Engine::spec_spell_ability(
                old(self).state.obj(card).card,
            ).unwrap().target is NoTarget || crate::legal::spec_has_target(
                old(self).state,
                player,
                Engine::spec_spell_ability(old(self).state.obj(card).card).unwrap().target,
            ))),
            match action {
                PlayerAction::ChooseColor(c) => r == old(self).spec_answer(
                    player,
                    old(self).pending is ChooseColor,
                    old(self).pending.offered_colors().contains(c),
                ),
                PlayerAction::ChooseSubtype(s) => r == old(self).spec_answer(
                    player,
                    old(self).pending is ChooseSubtype,
                    old(self).pending.offered_subtypes().contains(s),
                ),
                PlayerAction::ChooseNumber(x) => (r.is_ok() && old(self).spec_plain_spend(x) ==> spec_counters_spent(
                    *old(self),
                    *final(self),
                    x,
                )) && r == old(self).spec_answer(
                    player,
                    old(self).pending is ChooseNumber,
                    old(self).pending matches Pending::ChooseNumber { min, max, .. } && min <= x <= max,
                ),
                PlayerAction::ChooseMode(k) => r == old(self).spec_answer(
                    player,
                    old(self).pending is ChooseCastMode,
                    old(self).pending matches Pending::ChooseCastMode { options, .. } && k < options@.len(),
                ),
                PlayerAction::OrderObjects { objects } => r == old(self).spec_answer(
                    player,
                    old(self).pending is OrderObjects,
                    old(self).pending.orders_offered(objects@),
                ),
                PlayerAction::YesNo(_) => r == old(self).spec_answer(player, old(self).pending is YesNo, true),
                PlayerAction::ChooseObjects { objects } => r == old(self).spec_answer(
                    player,
                    old(self).pending is ChooseTargets || old(self).pending is ChooseCards,
                    spec_choice_valid(old(self).pending, objects@, Seq::empty()),
                ),
                PlayerAction::ChooseTargets { objects, players } => r == old(self).spec_answer(
                    player,
                    old(self).pending is ChooseTargets || old(self).pending is ChooseCards,
                    spec_choice_valid(old(self).pending, objects@, players@),
                ),
                PlayerAction::DeclareAttackers { attackers } => r == old(self).spec_answer(
                    player,
                    old(self).pending is ChooseAttackers,
                    old(self).pending matches Pending::ChooseAttackers { options, .. }
                        && crate::combat::spec_attack_ok(attackers@, options@, player.spec_opponent()),
                ),
                PlayerAction::DeclareBlockers { blocks } => r == old(self).spec_answer(
                    player,
                    old(self).pending is ChooseBlockers,
                    old(self).pending matches Pending::ChooseBlockers { blockers, .. }
                        && crate::combat::spec_blocks_ok(blocks@, blockers@),
                ),
                PlayerAction::PassPriority => (r.is_ok() <==> old(self).waits_for_priority_of(player)) && (
                old(self).waits_for_priority_of(player) && old(self).spec_quiet() && old(self).passes == 0
                    ==> final(self).state == old(self).state && final(self).stack == old(self).stack
                    && final(self).passes == 1 && final(self).priority == player.spec_opponent()
                    && final(self).waits_for_priority_of(player.spec_opponent())) && (
                old(self).waits_for_priority_of(player) && old(self).passes >= 1 && old(self).stack@.len() == 0 && !(
                old(self).jobs@.len() > 0 && old(self).jobs@[0] is PayWindow) && !Engine::spec_blockers_next(*old(self))
                    && !Engine::spec_damage_next(*old(self)) ==> crate::flow::spec_step_passed(
                    old(self).state.turn,
                    final(self).state.turn,
                )),
                PlayerAction::KeepHand => r.is_ok() <==> (old(self).pending matches Pending::Mulligan {
                    player: q,
                } && q.0 == player.0),
                _ => true,
            },
            r.is_ok() ==> match action {
                PlayerAction::ChooseObjects { objects } => forall|k: int| 0 <= k < objects@.len()
                    ==> old(self).pending.offered_objects().contains(#[trigger] objects@[k]),
                PlayerAction::ChooseTargets { objects, players } => (forall|k: int| 0 <= k < objects@.len()
                    ==> old(self).pending.offered_objects().contains(#[trigger] objects@[k])) && (forall|k: int|
                    0 <= k < players@.len() ==> old(self).pending.offered_players().contains(#[trigger] players@[k])),
                PlayerAction::ChooseColor(c) => old(self).pending.offered_colors().contains(c),
                PlayerAction::ChooseSubtype(s) => old(self).pending.offered_subtypes().contains(s),
                PlayerAction::ChooseNumber(x) => (old(self).pending matches Pending::ChooseNumber { min, max, .. }
                    && min <= x <= max),
                PlayerAction::OrderObjects { objects } => old(self).pending.orders_offered(objects@),
                PlayerAction::DeclareAttackers { attackers } => forall|k: int|
                    0 <= k < attackers@.len() ==> old(self).pending.offered_objects().contains(
                        (#[trigger] attackers@[k]).0,
                    ),
                PlayerAction::DeclareBlockers { blocks } => forall|k: int|
                    0 <= k < blocks@.len() ==> old(self).pending.offers_block(
                        (#[trigger] blocks@[k]).0,
                        blocks@[k].1,
                    ),
                _ => true,
            },
    {
        match action {
            PlayerAction::KeepHand => self.keep_hand(player),
            PlayerAction::PassPriority => self.pass_priority(player),
            PlayerAction::PlayLand { card } => self.play_land(player, card),
            PlayerAction::CastSpell { card } => self.cast_spell(player, card),
            PlayerAction::ActivateAbility { source, ability_index } => self.activate_ability(
                player,
                source,
                ability_index,
            ),
            PlayerAction::ActivateManaAbility { source } => self.activate_intrinsic(player, source),
            PlayerAction::ChooseColor(c) => self.choose_color(player, c),
            PlayerAction::ChooseObjects { objects } => self.choose_objects(player, objects, Vec::new()),
            PlayerAction::ChooseTargets { objects, players } => self.choose_objects(
                player,
                objects,
                players,
            ),
            PlayerAction::ChooseMode(k) => self.choose_mode(player, k),
            PlayerAction::ChooseSubtype(s) => self.choose_subtype(player, s),
            PlayerAction::OrderObjects { objects } => self.order_objects(player, objects),
            PlayerAction::YesNo(yes) => self.answer_yes_no(player, yes),
            PlayerAction::ChooseNumber(x) => self.choose_number(player, x),
            PlayerAction::DeclareAttackers { attackers } => self.declare_attackers(player, attackers),
            PlayerAction::DeclareBlockers { blocks } => self.declare_blockers(player, blocks),
        }
    }

    /// `player` announces `x`, the number of counters a cost removes; the
    /// ability is then paid for and carried out.
    pub fn choose_number(&mut self, player: PlayerId, x: u32) -> (r: Result<(), EngineError>)
        requires
            old(self).wf(),
        ensures
            final(self).wf(),
            final(self).state.turn == old(self).state.turn,
            r.is_err() ==> *final(self) == *old(self),
            r.is_ok() ==> old(self).pending.decider() == player,
            r.is_ok() ==> (old(self).pending matches Pending::ChooseNumber { player: q, min, max } && q == player
                && min <= x <= max),
            r == old(self).spec_answer(
                player,
                old(self).pending is ChooseNumber,
                old(self).pending matches Pending::ChooseNumber { min, max, .. } && min <= x <= max,
            ),
            r.is_ok() && old(self).spec_plain_spend(x) ==> spec_counters_spent(*old(self), *final(self), x),
    {
        if self.jobs.len() == 0 {
            return Err(EngineError::WrongKindOfAction);
        }
        match &self.pending {
            Pending::ChooseNumber { player: q, min, max } => {
                if q.0 != player.0 {
                    return Err(EngineError::NotYourDecision);
                }
                if x < *min || x > *max {
                    return Err(EngineError::InvalidChoice);
                }
            },
            _ => {
                return Err(EngineError::WrongKindOfAction);
            },
        }
        let job = self.jobs[0];
        self.jobs.remove(0);
        let ghost start = *self;
        match job {
            Job::AnnounceX { player: who, source, ability } => {
                self.pay_cost(who, source, &ability.cost);
                let ghost paid = *self;
                match ability.cost.remove_any {
                    Some(kind) => {
                        if self.state.contains(source) {
                            let o = self.state.get(source);
                            if x <= o.counters.count(kind) {
                                self.set_object(GameObject { counters: o.counters.removed(kind, x), ..o });
                                proof {
                                    if old(self).spec_plain_spend(x) {
                                        assert forall|i: int| 0 <= i < self.state.objects@.len() implies !#[trigger] crate::flow::spec_dies(
                                            self.state.objects@[i],
                                        ) by {
                                            assert(!crate::flow::spec_dies(old(self).state.objects@[i]));
                                            if i == source.0 as int {
                                                let a = self.state.objects@[i].counters;
                                                let b = old(self).state.objects@[i].counters;
                                                assert(paid.state.objects@[i].counters == b);
                                                assert(a.spec_count(CounterKind::P1P1) == b.spec_count(CounterKind::P1P1));
                                                assert(a.spec_count(CounterKind::M1M1) == b.spec_count(CounterKind::M1M1));
                                                assert(self.state.objects@[i].chars() == old(self).state.objects@[i].chars());
                                            } else {
                                                assert(self.state.objects@[i] == old(self).state.objects@[i]);
                                            }
                                        }
                                    }
                                }
                            }
                        }
                    },
                    None => {},
                }
                match ability.effect {
                    Effect::AddPerCounterRemoved(c) => self.add_mana(who, c, x, None),
                    Effect::AddEitherPerCounterRemoved(c, d) => {
                        if x > 0 {
                            self.jobs.insert(0, Job::ManaEither { player: who, first: c, second: d, times: x });
                        }
                    },
                    _ => {},
                }
                proof {
                    if old(self).spec_plain_spend(x) {
                        assert(self.jobs@.len() == 0);
                        assert(self.spec_quiet());
                        assert(spec_counters_spent(*old(self), *self, x));
                    }
                }
            },
            _ => {},
        }
        self.settle();
        Ok(())
    }

    /// `player` says whether they will pay what keeps a permanent. A "yes"
    /// opens a window in which they make mana; the price is taken when they
    /// pass. A "no" sacrifices the permanent.
    pub fn answer_yes_no(&mut self, player: PlayerId, yes: bool) -> (r: Result<(), EngineError>)
        requires
            old(self).wf(),
        ensures
            final(self).wf(),
            final(self).state.turn == old(self).state.turn,
            r.is_err() ==> *final(self) == *old(self),
            r.is_ok() ==> old(self).pending.decider() == player,
            r.is_ok() ==> old(self).pending is YesNo,
            r == old(self).spec_answer(player, old(self).pending is YesNo, true),
    {
        if self.jobs.len() == 0 {
            return Err(EngineError::WrongKindOfAction);
        }
        match &self.pending {
            Pending::YesNo { player: q, .. } => {
                if q.0 != player.0 {
                    return Err(EngineError::NotYourDecision);
                }
            },
            _ => {
                return Err(EngineError::WrongKindOfAction);
            },
        }
        match self.jobs[0] {
            Job::Unless { player: who, source, cost: UnlessCost::Pay(m) } => {
                if yes {
                    self.jobs.set(0, Job::PayWindow { player: who, source, cost: m });
                } else {
                    self.jobs.remove(0);
                    self.move_to(source, Zone::Graveyard, false);
                }
            },
            _ => {
                self.jobs.remove(0);
            },
        }
        self.settle();
        Ok(())
    }

    /// Taps each of the objects.
    pub fn tap_all(&mut self, ids: &Vec<ObjectId>)
        requires
            old(self).wf(),
        ensures
            final(self).wf(),
            final(self).state.turn == old(self).state.turn,
            Engine::same_but_state(*old(self), *final(self)),
            final(self).state.players == old(self).state.players,
            final(self).state.zones == old(self).state.zones,
            final(self).state.objects@.len() == old(self).state.objects@.len(),
            forall|j: int|
                0 <= j < old(self).state.objects@.len() ==> #[trigger] final(self).state.objects@[j] == if ids@.contains(
                    old(self).state.objects@[j].id,
                ) {
                    GameObject { tapped: true, ..old(self).state.objects@[j] }
                } else {
                    old(self).state.objects@[j]
                },
    {
        let mut i: usize = 0;
        while i < ids.len()
            invariant
                self.wf(),
                old(self).wf(),
                i <= ids@.len(),
                self.state.turn == old(self).state.turn,
                Engine::same_but_state(*old(self), *self),
                self.state.players == old(self).state.players,
                self.state.zones == old(self).state.zones,
                self.state.objects@.len() == old(self).state.objects@.len(),
                forall|j: int|
                    0 <= j < old(self).state.objects@.len() ==> #[trigger] self.state.objects@[j] == if ids@.take(
                        i as int,
                    ).contains(old(self).state.objects@[j].id) {
                        GameObject { tapped: true, ..old(self).state.objects@[j] }
                    } else {
                        old(self).state.objects@[j]
                    },
            decreases ids@.len() - i,
        {
            let ghost before = self.state.objects@;
            assert(ids@.take(i + 1) == ids@.take(i as int).push(ids@[i as int]));
            if self.state.contains(ids[i]) {
                let o = self.state.get(ids[i]);
                self.set_object(GameObject { tapped: true, ..o });
            }
            assert forall|j: int| 0 <= j < old(self).state.objects@.len() implies #[trigger] self.state.objects@[j]
                == if ids@.take(i + 1).contains(old(self).state.objects@[j].id) {
                GameObject { tapped: true, ..old(self).state.objects@[j] }
            } else {
                old(self).state.objects@[j]
            } by {
                assert(old(self).state.objects@[j].id.0 == j);
                if ids@[i as int] == old(self).state.objects@[j].id {
                    assert(ids@.take(i + 1)[i as int] == ids@[i as int]);
                    assert(ids@.take(i + 1).contains(old(self).state.objects@[j].id));
                } else {
                    if ids@.take(i + 1).contains(old(self).state.objects@[j].id) {
                        let w = choose|w: int| 0 <= w < i + 1 && #[trigger] ids@.take(i + 1)[w] == old(self).state.objects@[j].id;
                        assert(ids@.take(i as int)[w] == old(self).state.objects@[j].id);
                    }
                    if ids@.take(i as int).contains(old(self).state.objects@[j].id) {
                        let w = choose|w: int| 0 <= w < i && #[trigger] ids@.take(i as int)[w] == old(self).state.objects@[j].id;
                        assert(ids@.take(i + 1)[w] == old(self).state.objects@[j].id);
                    }
                    assert(ids@[i as int].0 != j);
                }
            }
            i = i + 1;
        }
        assert(ids@.take(i as int) == ids@);
    }

    /// Puts each of the cards onto the battlefield under `who`'s control,
    /// front face up (and tapped, when `tapped`), with the triggers of its
    /// entering.
    pub fn put_all_onto_battlefield(&mut self, ids: &Vec<ObjectId>, who: PlayerId, tapped: bool)
        requires
            old(self).wf(),
        ensures
            final(self).wf(),
            final(self).state.turn == old(self).state.turn,
            final(self).state.objects@.len() == old(self).state.objects@.len(),
            forall|k: int|
                0 <= k < ids@.len() && old(self).state.has(#[trigger] ids@[k]) ==> final(self).state.obj(
                    ids@[k],
                ).zone == Zone::Battlefield && final(self).state.obj(ids@[k]).controller == who && (tapped
                    ==> final(self).state.obj(ids@[k]).tapped),
    {
        let mut i: usize = 0;
        while i < ids.len()
            invariant
                self.wf(),
                i <= ids@.len(),
                self.state.turn == old(self).state.turn,
                self.state.objects@.len() == old(self).state.objects@.len(),
                forall|k: int|
                    0 <= k < i && old(self).state.has(#[trigger] ids@[k]) ==> self.state.obj(ids@[k]).zone
                        == Zone::Battlefield && self.state.obj(ids@[k]).controller == who && (tapped
                        ==> self.state.obj(ids@[k]).tapped),
            decreases ids@.len() - i,
        {
            let id = ids[i];
            if self.state.contains(id) {
                let card = self.state.get(id).card;
                self.state.put_onto_battlefield(id, who, 0, card);
                if tapped {
                    let o = self.state.get(id);
                    self.set_object(GameObject { tapped: true, entered_tapped: true, ..o });
                }
                self.entry_triggers(id, who);
            }
            i = i + 1;
        }
    }

    /// `player` names targets, or cards, from what the engine offered.
    pub fn choose_objects(&mut self, player: PlayerId, objects: Vec<ObjectId>, players: Vec<PlayerId>) -> (r: Result<(), EngineError>)
        requires
            old(self).wf(),
        ensures
            final(self).wf(),
            final(self).state.turn == old(self).state.turn,
            r.is_err() ==> *final(self) == *old(self),
            r.is_ok() ==> old(self).pending.decider() == player,
            r.is_ok() ==> forall|k: int| 0 <= k < objects@.len() ==> old(self).pending.offered_objects().contains(#[trigger] objects@[k]),
            r.is_ok() ==> forall|k: int| 0 <= k < players@.len() ==> old(self).pending.offered_players().contains(#[trigger] players@[k]),
            r == old(self).spec_answer(
                player,
                old(self).pending is ChooseTargets || old(self).pending is ChooseCards,
                spec_choice_valid(old(self).pending, objects@, players@),
            ),
    {
        if self.jobs.len() == 0 {
            return Err(EngineError::WrongKindOfAction);
        }
        let is_targets = match &self.pending {
            Pending::ChooseTargets { player: q, options, player_options, min, max } => {
                if q.0 != player.0 {
                    return Err(EngineError::NotYourDecision);
                }
                if objects.len() as u64 > *max as u64 || players.len() as u64 > *max as u64 {
                    return Err(EngineError::InvalidChoice);
                }
                let total = objects.len() as u64 + players.len() as u64;
                if total < *min as u64 || total > *max as u64 {
                    return Err(EngineError::InvalidChoice);
                }
                if !is_subset_without_repeats(&objects, options) || !players_chosen_from(
                    &players,
                    player_options,
                ) {
                    return Err(EngineError::InvalidChoice);
                }
                true
            },
            Pending::ChooseCards { player: q, options, min, max, .. } => {
                if q.0 != player.0 {
                    return Err(EngineError::NotYourDecision);
                }
                if players.len() > 0 {
                    return Err(EngineError::InvalidChoice);
                }
                let total = objects.len() as u64;
                if total < *min as u64 || total > *max as u64 {
                    return Err(EngineError::InvalidChoice);
                }
                if !is_subset_without_repeats(&objects, options) {
                    return Err(EngineError::InvalidChoice);
                }
                false
            },
            _ => {
                return Err(EngineError::WrongKindOfAction);
            },
        };
        let job = self.jobs[0];
        if is_targets {
            self.jobs.remove(0);
            match self.draft.clone() {
                Some(d) => {
                    self.draft = Some(crate::engine::StackItem { targets: objects, target_players: players, ..d });
                },
                None => {},
            }
            self.settle();
            return Ok(());
        }
        match job {
            Job::SacrificeLands { player: who, n } => {
                self.move_all(&objects, Zone::Graveyard);
                if n > 1 {
                    self.jobs.set(0, Job::SacrificeLands { player: who, n: (n - 1) as u32 });
                } else {
                    self.jobs.remove(0);
                }
            },
            Job::Scry { .. } => {
                self.jobs.remove(0);
                let mut i: usize = 0;
                while i < objects.len()
                    invariant
                        self.wf(),
                        self.state.turn == old(self).state.turn,
                    decreases objects@.len() - i,
                {
                    self.move_to(objects[i], Zone::Library, true);
                    i = i + 1;
                }
            },
            Job::TapCost { .. } => {
                self.jobs.remove(0);
                self.tap_all(&objects);
            },
            Job::Unless { source, cost, .. } => {
                self.jobs.remove(0);
                if objects.len() == 0 {
                    self.move_to(source, Zone::Graveyard, false);
                } else {
                    match cost {
                        UnlessCost::Tap(_) => self.tap_all(&objects),
                        _ => self.move_all(&objects, Zone::Hand),
                    }
                }
            },
            Job::LeaveTapped { player: who } => {
                self.jobs.remove(0);
                let candidates = self.may_stay_tapped(who);
                let mut i: usize = 0;
                while i < candidates.len()
                    invariant
                        self.wf(),
                        self.state.turn == old(self).state.turn,
                    decreases candidates@.len() - i,
                {
                    let id = candidates[i];
                    if !has_id(&objects, id) && self.state.contains(id) {
                        let o = self.state.get(id);
                        self.set_object(GameObject { tapped: false, ..o });
                    }
                    i = i + 1;
                }
            },
            Job::ReturnLand { .. } => {
                self.jobs.remove(0);
                self.move_all(&objects, Zone::Hand);
            },
            Job::Search { player: who, search } => {
                self.jobs.remove(0);
                match search.dest {
                    SearchDest::Hand => self.move_all(&objects, Zone::Hand),
                    SearchDest::Battlefield => self.put_all_onto_battlefield(&objects, who, search.tapped),
                }
            },
            Job::BasicSearch { player: who } => {
                self.jobs.remove(0);
                self.put_all_onto_battlefield(&objects, who, false);
            },
            _ => {
                self.jobs.remove(0);
                self.move_all(&objects, Zone::Graveyard);
            },
        }
        self.settle();
        Ok(())
    }

    /// `player` names a colour from those offered.
    pub fn choose_color(&mut self, player: PlayerId, c: ManaColor) -> (r: Result<(), EngineError>)
        requires
            old(self).wf(),
        ensures
            final(self).wf(),
            final(self).state.turn == old(self).state.turn,
            r.is_err() ==> *final(self) == *old(self),
            r.is_ok() ==> old(self).pending.decider() == player,
            r.is_ok() ==> old(self).pending.offered_colors().contains(c),
            r == old(self).spec_answer(player, old(self).pending is ChooseColor, old(self).pending.offered_colors().contains(c)),
    {
        if self.jobs.len() == 0 {
            return Err(EngineError::WrongKindOfAction);
        }
        match &self.pending {
            Pending::ChooseColor { player: q, options } => {
                if q.0 != player.0 {
                    return Err(EngineError::NotYourDecision);
                }
                if !has_color(options, c) {
                    return Err(EngineError::InvalidChoice);
                }
            },
            _ => {
                return Err(EngineError::WrongKindOfAction);
            },
        }
        let job = self.jobs[0];
        match job {
            Job::ManaChoice { player: who, colors, amount, times, restriction } => {
                self.add_mana(who, c, amount, restriction);
                if times > 1 {
                    self.jobs.set(
                        0,
                        Job::ManaChoice { player: who, colors, amount, times: (times - 1) as u32, restriction },
                    );
                } else {
                    self.jobs.remove(0);
                }
            },
            Job::ManaEither { player: who, first, second, times } => {
                self.add_mana(who, c, 1, None);
                if times > 1 {
                    self.jobs.set(0, Job::ManaEither { player: who, first, second, times: (times - 1) as u32 });
                } else {
                    self.jobs.remove(0);
                }
            },
            Job::EntryColor { object, .. } => {
                self.jobs.remove(0);
                if self.state.contains(object) {
                    let o = self.state.get(object);
                    self.set_object(GameObject { chosen_color: Some(c), ..o });
                }
            },
            _ => {
                self.jobs.remove(0);
            },
        }
        self.settle();
        Ok(())
    }

    /// `player` names a subtype from those offered.
    pub fn choose_subtype(&mut self, player: PlayerId, s: Subtype) -> (r: Result<(), EngineError>)
        requires
            old(self).wf(),
        ensures
            final(self).wf(),
            final(self).state.turn == old(self).state.turn,
            r.is_err() ==> *final(self) == *old(self),
            r.is_ok() ==> old(self).pending.decider() == player,
            r.is_ok() ==> old(self).pending.offered_subtypes().contains(s),
            r == old(self).spec_answer(player, old(self).pending is ChooseSubtype, old(self).pending.offered_subtypes().contains(s)),
    {
        if self.jobs.len() == 0 {
            return Err(EngineError::WrongKindOfAction);
        }
        match &self.pending {
            Pending::ChooseSubtype { player: q, options } => {
                if q.0 != player.0 {
                    return Err(EngineError::NotYourDecision);
                }
                if !has_subtype(options, s) {
                    return Err(EngineError::InvalidChoice);
                }
            },
            _ => {
                return Err(EngineError::WrongKindOfAction);
            },
        }
        let job = self.jobs[0];
        self.jobs.remove(0);
        match job {
            Job::EntrySubtype { object } => {
                if self.state.contains(object) {
                    let o = self.state.get(object);
                    self.set_object(GameObject { chosen_subtype: Some(s), ..o });
                }
            },
            _ => {},
        }
        self.settle();
        Ok(())
    }

    /// `player` picks the way a card is played, by its place among those
    /// offered.
    pub fn choose_mode(&mut self, player: PlayerId, k: usize) -> (r: Result<(), EngineError>)
        requires
            old(self).wf(),
        ensures
            final(self).wf(),
            final(self).state.turn == old(self).state.turn,
            r.is_err() ==> *final(self) == *old(self),
            r.is_ok() ==> old(self).pending.decider() == player,
            r.is_ok() ==> (old(self).pending matches Pending::ChooseCastMode { options, .. } && k
                < options@.len()),
            r == old(self).spec_answer(
                player,
                old(self).pending is ChooseCastMode,
                old(self).pending matches Pending::ChooseCastMode { options, .. } && k < options@.len(),
            ),
    {
        if self.jobs.len() == 0 {
            return Err(EngineError::WrongKindOfAction);
        }
        let face = match &self.pending {
            Pending::ChooseCastMode { player: q, options } => {
                if q.0 != player.0 {
                    return Err(EngineError::NotYourDecision);
                }
                if k >= options.len() {
                    return Err(EngineError::InvalidChoice);
                }
                match options[k].kind {
                    CastModeKind::PlayLandFace(f) => f,
                }
            },
            _ => {
                return Err(EngineError::WrongKindOfAction);
            },
        };
        let job = self.jobs[0];
        self.jobs.remove(0);
        match job {
            Job::PlayFace { player: who, card } => {
                self.finish_play_land(who, card, face);
            },
            _ => {
                self.settle();
            },
        }
        Ok(())
    }

    /// `player` puts the offered objects in order, the first named ending on
    /// top of the library.
    pub fn order_objects(&mut self, player: PlayerId, objects: Vec<ObjectId>) -> (r: Result<(), EngineError>)
        requires
            old(self).wf(),
        ensures
            final(self).wf(),
            final(self).state.turn == old(self).state.turn,
            r.is_err() ==> *final(self) == *old(self),
            r.is_ok() ==> old(self).pending.decider() == player,
            r.is_ok() ==> old(self).pending.orders_offered(objects@),
            r == old(self).spec_answer(player, old(self).pending is OrderObjects, old(self).pending.orders_offered(objects@)),
    {
        if self.jobs.len() == 0 {
            return Err(EngineError::WrongKindOfAction);
        }
        match &self.pending {
            Pending::OrderObjects { player: q, objects: offered } => {
                if q.0 != player.0 {
                    return Err(EngineError::NotYourDecision);
                }
                if objects.len() != offered.len() || !is_subset_without_repeats(&objects, offered) {
                    return Err(EngineError::InvalidChoice);
                }
            },
            _ => {
                return Err(EngineError::WrongKindOfAction);
            },
        }
        self.jobs.remove(0);
        let mut i: usize = objects.len();
        while i > 0
            invariant
                self.wf(),
                self.state.turn == old(self).state.turn,
                i <= objects@.len(),
            decreases i,
        {
            i = i - 1;
            self.move_to(objects[i], Zone::Library, false);
        }
        self.settle();
        Ok(())
    }
}

} // verus!
