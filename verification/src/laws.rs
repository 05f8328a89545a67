//! What holds of the rules whatever the board: properties that relate the
//! conditions a card can print, the counts they are read from, and the mana
//! pool across a payment.

use vstd::prelude::*;
use crate::cards::{Condition, Filter};
use crate::ids::{ObjectId, PlayerId};
use crate::cards::Characteristics;
use crate::mana::{spec_allows, spec_spend_entry, spec_spend_restricted, ManaColor, ManaCost, ManaPool, RestrictedMana};
use crate::rules::{count_in, counts_for, spec_condition_holds, spec_count_yours};
use crate::state::GameState;

verus! {

/// "At least `n + 1`" and "at most `n`" divide every board between them: on
/// any board, for any permanent asking, exactly one of the two conditions
/// holds. So the board that lets a land whose clause is a lower bound enter
/// untapped is exactly the board that taps a land whose clause is the
/// matching upper bound.
pub proof fn law_a_lower_bound_and_the_upper_bound_below_it_divide_every_board(
    s: GameState,
    p: PlayerId,
    f: Filter,
    n: u32,
    asker: ObjectId,
)
    requires
        n < u32::MAX,
    ensures
        spec_condition_holds(s, p, Condition::YouControlAtLeast(f, (n + 1) as u32), asker)
            <==> !spec_condition_holds(s, p, Condition::YouControlAtMost(f, n), asker),
{
}

/// Two states that differ in one object only, where that object is the
/// permanent asking or is controlled by the other seat in both, count alike.
proof fn lemma_count_in_ignores(
    s1: GameState,
    s2: GameState,
    ids: Seq<ObjectId>,
    p: PlayerId,
    f: Filter,
    asker: ObjectId,
    i: int,
)
    requires
        s1.wf(),
        0 <= i < s1.objects@.len(),
        s2.objects@.len() == s1.objects@.len(),
        forall|j: int| 0 <= j < s1.objects@.len() && j != i ==> s2.objects@[j] == s1.objects@[j],
        s2.objects@[i].id == s1.objects@[i].id,
        i == asker.0 || (s1.objects@[i].controller.slot() != p.slot() && s2.objects@[i].controller.slot()
            != p.slot()),
    ensures
        count_in(s1, ids, p, f, asker) == count_in(s2, ids, p, f, asker),
    decreases ids.len(),
{
    if ids.len() > 0 {
        lemma_count_in_ignores(s1, s2, ids.drop_last(), p, f, asker, i);
        let id = ids.last();
        if id.0 as int == i {
            assert(s1.objects@[i].id.0 == i);
            if i == asker.0 {
                assert(s1.objects@[i].id == asker);
                assert(!counts_for(s1.objects@[i], p, f, asker));
                assert(!counts_for(s2.objects@[i], p, f, asker));
            }
        }
    }
}

/// A count of the permanents a player controls reads neither the permanent
/// that asks for it nor any permanent the other seat controls: change one
/// object that is either, and the count stays what it was. (So a land's
/// "other lands you control" never counts the land itself, nor an opponent's
/// land.)
pub proof fn law_a_count_reads_neither_the_asker_nor_the_other_seat(
    s1: GameState,
    s2: GameState,
    p: PlayerId,
    f: Filter,
    asker: ObjectId,
    i: int,
)
    requires
        s1.wf(),
        s2.zones == s1.zones,
        0 <= i < s1.objects@.len(),
        s2.objects@.len() == s1.objects@.len(),
        forall|j: int| 0 <= j < s1.objects@.len() && j != i ==> s2.objects@[j] == s1.objects@[j],
        s2.objects@[i].id == s1.objects@[i].id,
        i == asker.0 || (s1.objects@[i].controller.slot() != p.slot() && s2.objects@[i].controller.slot()
            != p.slot()),
    ensures
        spec_count_yours(s1, p, f, asker) == spec_count_yours(s2, p, f, asker),
{
    lemma_count_in_ignores(s1, s2, s1.zones.battlefield@, p, f, asker, i);
}

/// Mana just made pays, exactly, for a cost of that much of its colour, and
/// the payment leaves the ordinary mana as it was before the mana was made.
pub proof fn law_mana_just_made_pays_for_itself(before: ManaPool, after: ManaPool, c: ManaColor, n: u32)
    requires
        after.amount(c) == before.amount(c) + n,
        forall|d: ManaColor| d != c ==> after.amount(d) == before.amount(d),
    ensures
        after.can_pay(ManaCost::of_color(c, n)),
        before.holds(after.after_paying(ManaCost::of_color(c, n))),
{
    assert(after.amount(ManaColor::White) == after.white);
    assert(after.amount(ManaColor::Blue) == after.blue);
    assert(after.amount(ManaColor::Black) == after.black);
    assert(after.amount(ManaColor::Red) == after.red);
    assert(after.amount(ManaColor::Green) == after.green);
    assert(after.amount(ManaColor::Colorless) == after.colorless);
    assert(before.amount(ManaColor::White) == before.white);
    assert(before.amount(ManaColor::Blue) == before.blue);
    assert(before.amount(ManaColor::Black) == before.black);
    assert(before.amount(ManaColor::Red) == before.red);
    assert(before.amount(ManaColor::Green) == before.green);
    assert(before.amount(ManaColor::Colorless) == before.colorless);
}

/// Restricted mana pays a spell only where its restriction allows it:
/// paying for a spell leaves every entry of restricted mana in its place,
/// and an entry whose restriction does not allow the spell exactly as it
/// was.
pub proof fn law_restricted_mana_pays_only_the_spells_it_is_kept_for(
    rs: Seq<RestrictedMana>,
    ch: Characteristics,
    cost: ManaCost,
)
    ensures
        spec_spend_restricted(rs, ch, cost).0.len() == rs.len(),
        forall|k: int|
            0 <= k < rs.len() && !spec_allows(#[trigger] rs[k].restriction, ch) ==> spec_spend_restricted(
                rs,
                ch,
                cost,
            ).0[k] == rs[k],
    decreases rs.len(),
{
    if rs.len() > 0 {
        let (e, c) = spec_spend_entry(rs[0], ch, cost);
        law_restricted_mana_pays_only_the_spells_it_is_kept_for(rs.drop_first(), ch, c);
        let rest = spec_spend_restricted(rs.drop_first(), ch, c).0;
        assert forall|k: int|
            0 <= k < rs.len() && !spec_allows(#[trigger] rs[k].restriction, ch) implies spec_spend_restricted(
                rs,
                ch,
                cost,
            ).0[k] == rs[k] by {
            if k > 0 {
                assert(rs.drop_first()[k - 1] == rs[k]);
                assert((seq![e] + rest)[k] == rest[k - 1]);
            }
        }
    }
}

/// A land that has become a creature is a creature and is still a land:
/// an animated object keeps every type it prints and gains the creature
/// type.
pub proof fn law_an_animated_land_is_a_creature_and_still_a_land(o: crate::state::GameObject)
    requires
        o.animated.is_some(),
        o.printed.types.0 & crate::sets::spec_type_bit(crate::sets::TypeSet::LAND) != 0,
    ensures
        o.chars().types.0 & crate::sets::spec_type_bit(crate::sets::TypeSet::CREATURE) != 0,
        o.chars().types.0 & crate::sets::spec_type_bit(crate::sets::TypeSet::LAND) != 0,
{
    let base = o.printed.types.0;
    let a = o.animated.unwrap().types;
    let c = crate::sets::spec_type_bit(crate::sets::TypeSet::CREATURE);
    let l = crate::sets::spec_type_bit(crate::sets::TypeSet::LAND);
    assert(c != 0);
    assert((base | a | c) & c != 0) by (bit_vector)
        requires
            c != 0,
    ;
    assert((base | a | c) & l != 0) by (bit_vector)
        requires
            base & l != 0,
    ;
}

/// An ability that targets an opponent offers only the other player: never
/// the player whose ability it is.
pub proof fn law_a_target_opponent_is_never_its_controller(p: PlayerId)
    ensures
        crate::legal::spec_target_players(p, crate::cards::TargetSpec::Opponent) == seq![p.spec_opponent()],
        !crate::legal::spec_target_players(p, crate::cards::TargetSpec::Opponent).contains(p),
{
    let s = crate::legal::spec_target_players(p, crate::cards::TargetSpec::Opponent);
    assert(s[0] == p.spec_opponent());
    assert(p.spec_opponent() != p);
}

/// Hexproof keeps an opponent's abilities off a permanent (CR 702.11b): an
/// object with hexproof that another player controls is never a target
/// `p` may choose for an ability, of whatever kind its target is, but a card
/// in a graveyard, which is no permanent.
pub proof fn law_hexproof_keeps_an_opponents_abilities_off(
    s: GameState,
    p: PlayerId,
    t: crate::cards::TargetSpec,
    id: ObjectId,
)
    requires
        s.obj(id).chars().keywords.0 & crate::sets::spec_keyword_bit(crate::sets::KeywordSet::HEXPROOF) != 0,
        s.obj(id).controller.slot() != p.slot(),
        !(t is CardInYourGraveyard),
    ensures
        !crate::legal::spec_targetable_by(s.obj(id), p),
        !crate::legal::spec_may_target(s, p, t, id),
{
}

/// Shroud keeps every ability off a permanent (CR 702.18a), its own
/// controller's too.
pub proof fn law_shroud_keeps_every_ability_off(s: GameState, p: PlayerId, t: crate::cards::TargetSpec, id: ObjectId)
    requires
        s.obj(id).chars().keywords.0 & crate::sets::spec_keyword_bit(crate::sets::KeywordSet::SHROUD) != 0,
        !(t is CardInYourGraveyard),
    ensures
        !crate::legal::spec_targetable_by(s.obj(id), p),
        !crate::legal::spec_may_target(s, p, t, id),
{
}

/// Whether the colour mask `m` holds at most one of the five colours.
pub open spec fn at_most_one_colour(m: u8) -> bool {
    let c = m & 0x1f;
    c == 0 || c == 1 || c == 2 || c == 4 || c == 8 || c == 16
}

/// Mana kept for multicoloured spells is never spent on a spell of fewer
/// than two colours: every entry of restricted mana kept for them is left
/// as it was by a payment for such a spell, whatever the cost.
pub proof fn law_multicoloured_mana_is_not_spent_on_a_spell_of_one_colour(
    rs: Seq<RestrictedMana>,
    ch: Characteristics,
    cost: ManaCost,
)
    requires
        at_most_one_colour(ch.colors.0),
    ensures
        !spec_allows(crate::mana::SpendRestriction::MulticoloredSpell, ch),
        forall|k: int|
            0 <= k < rs.len() && #[trigger] rs[k].restriction == crate::mana::SpendRestriction::MulticoloredSpell
                ==> spec_spend_restricted(rs, ch, cost).0[k] == rs[k],
{
    let m = ch.colors.0;
    assert(at_most_one_colour(m) ==> !(m & 1 != 0 && m & 2 != 0) && !(m & 1 != 0 && m & 4 != 0) && !(m & 1 != 0
        && m & 8 != 0) && !(m & 1 != 0 && m & 16 != 0) && !(m & 2 != 0 && m & 4 != 0) && !(m & 2 != 0 && m & 8
        != 0) && !(m & 2 != 0 && m & 16 != 0) && !(m & 4 != 0 && m & 8 != 0) && !(m & 4 != 0 && m & 16 != 0)
        && !(m & 8 != 0 && m & 16 != 0)) by (bit_vector);
    assert(crate::mana::colour_count(m) < 2);
    law_restricted_mana_pays_only_the_spells_it_is_kept_for(rs, ch, cost);
}

/// A sorcery-speed ability is activated only by the active player, in a
/// main phase of their turn, with an empty stack (CR 602.5d): whatever the
/// board, an activation such an ability is offered for meets all three.
pub proof fn law_sorcery_speed_abilities_wait_for_their_controllers_main_phase(
    e: crate::engine::Engine,
    p: PlayerId,
    id: ObjectId,
    i: u32,
)
    requires
        e.spec_activation(p, id, i) matches Some(a) && a.sorcery_speed,
    ensures
        e.state.turn.active.slot() == p.slot(),
        e.state.turn.phase == crate::ids::Phase::FirstMain || e.state.turn.phase == crate::ids::Phase::SecondMain,
        e.stack@.len() == 0,
{
}

/// A card that is neither an instant nor has flash is cast only by the
/// active player, in a main phase of their turn, with an empty stack
/// (CR 307.1, 304.5): whatever the board, a cast that may happen meets all
/// three.
pub proof fn law_a_sorcery_waits_for_its_casters_main_phase(e: crate::engine::Engine, p: PlayerId, id: ObjectId)
    requires
        e.spec_may_cast(p, id),
        crate::catalog::spec_card_chars(e.state.obj(id).card).types.0 & crate::sets::spec_type_bit(
            crate::sets::TypeSet::INSTANT,
        ) == 0,
        crate::catalog::spec_card_chars(e.state.obj(id).card).keywords.0 & crate::sets::spec_keyword_bit(
            crate::sets::KeywordSet::FLASH,
        ) == 0,
    ensures
        e.state.turn.active.slot() == p.slot(),
        e.state.turn.phase == crate::ids::Phase::FirstMain || e.state.turn.phase == crate::ids::Phase::SecondMain,
        e.stack@.len() == 0,
{
}

/// Combat damage is power (CR 510.1a): an attacker no creature blocked
/// adds exactly its power to what the defending player is dealt, and an
/// attacker of no positive power adds nothing; one that was blocked, or an
/// object not attacking, adds nothing to it.
pub proof fn law_an_unblocked_attacker_deals_its_power(
    objs: Seq<crate::state::GameObject>,
    blocks: Seq<(ObjectId, ObjectId)>,
    o: crate::state::GameObject,
)
    ensures
        o.attacking && o.zone == crate::state::Zone::Battlefield && !crate::combat::spec_was_blocked(blocks, o.id)
            && o.chars().power > 0 ==> crate::combat::spec_unblocked_total(objs.push(o), blocks)
            == crate::combat::spec_unblocked_total(objs, blocks) + o.chars().power,
        !(o.attacking && o.zone == crate::state::Zone::Battlefield && !crate::combat::spec_was_blocked(blocks, o.id)
            && o.chars().power > 0) ==> crate::combat::spec_unblocked_total(objs.push(o), blocks)
            == crate::combat::spec_unblocked_total(objs, blocks),
{
    assert(objs.push(o).drop_last() == objs);
    assert(objs.push(o).last() == o);
}

/// Only shroud, or hexproof against another player, keeps an ability off
/// an object: one with neither, or with hexproof that `p` controls, is
/// targetable by `p`.
pub proof fn law_without_shroud_or_an_opponents_hexproof_a_permanent_may_be_targeted(
    o: crate::state::GameObject,
    p: PlayerId,
)
    requires
        o.chars().keywords.0 & crate::sets::spec_keyword_bit(crate::sets::KeywordSet::SHROUD) == 0,
        o.controller.slot() == p.slot() || o.chars().keywords.0 & crate::sets::spec_keyword_bit(
            crate::sets::KeywordSet::HEXPROOF,
        ) == 0,
    ensures
        crate::legal::spec_targetable_by(o, p),
{
}

/// Mana kept for multicoloured spells may be spent on a spell of two or
/// more colours.
pub proof fn law_multicoloured_mana_pays_for_a_spell_of_two_colours(ch: Characteristics, a: u8, b: u8)
    requires
        a < 5,
        b < 5,
        a != b,
        ch.colors.0 & (1u8 << a) != 0,
        ch.colors.0 & (1u8 << b) != 0,
    ensures
        spec_allows(crate::mana::SpendRestriction::MulticoloredSpell, ch),
{
    let m = ch.colors.0;
    assert(a < 5 && b < 5 && a != b && m & (1u8 << a) != 0 && m & (1u8 << b) != 0 ==> ((m & 1 != 0 && m & 2 != 0)
        || (m & 1 != 0 && m & 4 != 0) || (m & 1 != 0 && m & 8 != 0) || (m & 1 != 0 && m & 16 != 0) || (m & 2 != 0
        && m & 4 != 0) || (m & 2 != 0 && m & 8 != 0) || (m & 2 != 0 && m & 16 != 0) || (m & 4 != 0 && m & 8 != 0)
        || (m & 4 != 0 && m & 16 != 0) || (m & 8 != 0 && m & 16 != 0))) by (bit_vector);
    assert(crate::mana::colour_count(m) >= 2);
}

/// Whatever the card, the timing rules let the active player cast it in a
/// main phase of their turn with an empty stack.
pub proof fn law_the_active_player_may_cast_in_their_main_phase(
    e: crate::engine::Engine,
    p: PlayerId,
    c: crate::ids::CardIndex,
)
    requires
        e.state.turn.active.slot() == p.slot(),
        e.state.turn.phase == crate::ids::Phase::FirstMain || e.state.turn.phase == crate::ids::Phase::SecondMain,
        e.stack@.len() == 0,
    ensures
        e.spec_cast_timing(p, c),
{
}

} // verus!
