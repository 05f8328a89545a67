//! The card model: what a printed card says, as data the engine reads.

use vstd::prelude::*;
use crate::ids::CardIndex;
use crate::mana::{ManaColor, ManaCost, SpendRestriction};
use crate::sets::{CounterKind, Subtype, Types, Subtypes, Colors, Keywords};

verus! {

/// A description of permanents or cards: each part that is set must hold.
/// A zero mask, or a `false` flag, asks nothing.
#[derive(Clone, Copy, Debug, PartialEq, Eq, Structural)]
pub struct Filter {
    /// One of these card types.
    pub types: u32,
    /// One of these subtypes.
    pub subtypes: u64,
    /// One of these colours.
    pub colors: u8,
    /// A basic card.
    pub basic: bool,
    /// A card that is not basic.
    pub nonbasic: bool,
    /// A legendary card.
    pub legendary: bool,
    /// A colourless card.
    pub colorless: bool,
    /// Not a Human.
    pub nonhuman: bool,
    /// None of these subtypes.
    pub excluded: u64,
}

/// The printed characteristics of an object, and those it has now.
#[derive(Clone, Copy, Debug, PartialEq, Eq, Structural)]
pub struct Characteristics {
    pub types: Types,
    pub subtypes: Subtypes,
    pub colors: Colors,
    pub basic: bool,
    pub legendary: bool,
    pub power: i32,
    pub toughness: i32,
    pub keywords: Keywords,
}

/// The bit of the Human subtype.
pub open spec fn human_bit() -> u64 {
    crate::sets::spec_subtype_bit(Subtype::Human)
}

/// Whether an object with characteristics `ch` is what `f` describes.
pub open spec fn spec_matches(f: Filter, ch: Characteristics) -> bool {
    &&& (f.types == 0 || ch.types.0 & f.types != 0)
    &&& (f.subtypes == 0 || ch.subtypes.0 & f.subtypes != 0)
    &&& (f.colors == 0 || ch.colors.0 & f.colors != 0)
    &&& (!f.basic || ch.basic)
    &&& (!f.nonbasic || !ch.basic)
    &&& (!f.legendary || ch.legendary)
    &&& (!f.colorless || ch.colors.0 & 0x1f == 0)
    &&& (!f.nonhuman || ch.subtypes.0 & human_bit() == 0)
    &&& ch.subtypes.0 & f.excluded == 0
}

/// Whether an object with characteristics `ch` is what `f` describes.
pub fn filter_matches(f: &Filter, ch: &Characteristics) -> (r: bool)
    ensures
        r == spec_matches(*f, *ch),
{
    let human = crate::sets::subtype_bit(Subtype::Human);
    (f.types == 0 || ch.types.0 & f.types != 0) && (f.subtypes == 0 || ch.subtypes.0 & f.subtypes
        != 0) && (f.colors == 0 || ch.colors.0 & f.colors != 0) && (!f.basic || ch.basic) && (
    !f.nonbasic || !ch.basic) && (!f.legendary || ch.legendary) && (!f.colorless || ch.colors.0
        & 0x1f == 0) && (!f.nonhuman || ch.subtypes.0 & human == 0) && ch.subtypes.0 & f.excluded == 0
}

/// A requirement on the board, read from the side of the permanent that
/// asks it: it counts the *other* permanents its controller controls.
#[derive(Clone, Copy, Debug, PartialEq, Eq, Structural)]
pub enum Condition {
    Always,
    /// At least `n` other permanents you control match the filter.
    YouControlAtLeast(Filter, u32),
    /// At most `n` other permanents you control match the filter.
    YouControlAtMost(Filter, u32),
    /// Your opponent controls at least `n` permanents that match the filter.
    OpponentsControlAtLeast(Filter, u32),
    /// Some player, you included, has at most this much life.
    APlayerAtMostLife(i32),
    /// The permanent that asks is tapped.
    SourceTapped,
}

/// How a permanent enters the battlefield.
#[derive(Clone, Copy, Debug, PartialEq, Eq, Structural)]
pub enum EntryRule {
    Untapped,
    Tapped,
    /// Tapped unless the condition holds as it enters.
    TappedUnless(Condition),
}

/// A choice made as the permanent enters.
#[derive(Clone, Copy, Debug, PartialEq, Eq, Structural)]
pub enum EntryChoice {
    Nothing,
    /// "As this land enters, choose a color."
    Color,
    /// "As it enters, choose a color other than" this one.
    ColorOtherThan(ManaColor),
    /// A creature type, from the eight the Lorwyn tribes name.
    LorwynTribe,
}

/// A number of counters of one kind.
#[derive(Clone, Copy, Debug, PartialEq, Eq, Structural)]
pub struct CounterAmount {
    pub kind: CounterKind,
    pub n: u32,
}

/// What an activation costs beyond its mana.
#[derive(Clone, Copy, Debug, PartialEq, Eq, Structural)]
pub struct Cost {
    pub tap: bool,
    pub mana: ManaCost,
    pub life: u32,
    pub sacrifice_self: bool,
    /// Sacrifice a permanent you control that matches, chosen as the cost is paid.
    pub sacrifice: Option<Filter>,
    /// Remove this many counters of the kind from the source.
    pub remove_counters: Option<CounterAmount>,
    /// Tap an untapped permanent you control that matches, other than the
    /// source, chosen as the cost is paid.
    pub tap_other: Option<Filter>,
    /// One mana of either of two colours (a hybrid symbol), paid with the
    /// first where the pool holds it.
    pub hybrid: Option<ColorPair>,
    /// Remove any number of counters of the kind from the source: a number
    /// its controller announces as the ability is activated.
    pub remove_any: Option<CounterKind>,
    /// Discard a card, chosen as the cost is paid.
    pub discard: bool,
}

/// Two colours, in the order a card names them.
#[derive(Clone, Copy, Debug, PartialEq, Eq, Structural)]
pub struct ColorPair {
    pub first: ManaColor,
    pub second: ManaColor,
}

/// Where the cards a search finds go.
#[derive(Clone, Copy, Debug, PartialEq, Eq, Structural)]
pub enum SearchDest {
    Battlefield,
    Hand,
}

/// A search of its controller's library: for `count` cards that match the
/// filter, put where `dest` says (onto the battlefield tapped when
/// `tapped`).
#[derive(Clone, Copy, Debug, PartialEq, Eq, Structural)]
pub struct Search {
    pub filter: Filter,
    pub count: u32,
    pub dest: SearchDest,
    pub tapped: bool,
}

/// One card a search finds, and what becomes of it.
#[derive(Clone, Copy, Debug, PartialEq, Eq, Structural)]
pub struct Find {
    pub dest: SearchDest,
    pub tapped: bool,
}

/// What a player may pay to keep a permanent that asks "sacrifice it
/// unless you ...".
#[derive(Clone, Copy, Debug, PartialEq, Eq, Structural)]
pub enum UnlessCost {
    /// Return a permanent you control that matches, and that is untapped
    /// when `untapped`, to its owner's hand.
    Return(Filter, bool),
    /// Tap an untapped permanent you control that matches.
    Tap(Filter),
    /// Pay this mana, made while the question is open.
    Pay(ManaCost),
}

/// What sets a triggered ability off.
#[derive(Clone, Copy, Debug, PartialEq, Eq, Structural)]
pub enum Trigger {
    /// "When this permanent enters."
    EntersBattlefield,
    /// "When you play another land."
    YouPlayAnotherLand,
    /// "When this permanent enters untapped."
    EntersUntapped,
    /// "At the beginning of your upkeep", if the ability's condition holds
    /// then.
    YourUpkeep,
    /// "When this permanent is put into a graveyard from the battlefield."
    PutIntoGraveyardFromBattlefield,
}

/// The kind of an ability.
#[derive(Clone, Copy, Debug, PartialEq, Eq, Structural)]
pub enum AbilityKind {
    /// An activated mana ability: it makes mana and does not use the stack.
    Mana,
    Activated,
    /// An activated ability of a card in its owner's hand (channel): its
    /// cost discards the card, and it uses the stack.
    Channel,
    Triggered(Trigger),
    Static,
    /// What an instant or sorcery does as it resolves, or, with no effect,
    /// a permanent spell.
    Spell,
}

/// What an ability may be pointed at.
#[derive(Clone, Copy, Debug, PartialEq, Eq, Structural)]
pub enum TargetSpec {
    NoTarget,
    /// Any player, its controller included.
    AnyPlayer,
    /// An opponent of its controller.
    Opponent,
    /// A permanent that matches.
    Permanent(Filter),
    /// A permanent that matches and that an opponent controls.
    OpponentsPermanent(Filter),
    /// A card in its controller's graveyard that matches.
    CardInYourGraveyard(Filter),
    /// A creature or a player.
    AnyTarget,
    /// A permanent that matches the first filter, or one an opponent
    /// controls that matches the second.
    EitherPermanent(Filter, Filter),
    /// An attacking creature that has none of these keywords.
    AttackingWithout(u32),
}

/// How a creature-land or other animated permanent looks.
#[derive(Clone, Copy, Debug, PartialEq, Eq, Structural)]
pub struct Animation {
    pub power: i32,
    pub toughness: i32,
    /// Card types it gains (it keeps the ones it had).
    pub types: u32,
    pub keywords: u32,
    /// Whether it ends at the cleanup step; otherwise it lasts.
    pub until_end_of_turn: bool,
}

/// Something the ability does when the engine carries it out.
#[derive(Clone, Copy, Debug, PartialEq, Eq, Structural)]
pub enum Effect {
    Nothing,
    /// Add `amount` mana of one colour.
    AddMana(ManaColor, u32),
    /// Add one mana of each of the two colours.
    AddPair(ManaColor, ManaColor),
    /// Add `amount` mana of one colour chosen from the mask, asked `times`
    /// times, restricted when a restriction is given.
    AddChoice { colors: u8, amount: u32, times: u32, restriction: Option<SpendRestriction> },
    /// Add restricted mana of one colour.
    AddRestricted(ManaColor, u32, SpendRestriction),
    /// Add one mana of the colour for each permanent you control that matches.
    AddPerPermanent(ManaColor, Filter),
    /// Add one mana of the colour for each permanent on the battlefield that
    /// matches, whoever controls it.
    AddPerPermanentOnBattlefield(ManaColor, Filter),
    /// Add one mana of the colour for each card in your graveyard that matches.
    AddPerGraveyardCard(ManaColor, Filter),
    /// Add one mana of the colour chosen as the permanent entered.
    AddChosenColor,
    /// Add one mana of a colour some other land you control could produce.
    AddWhatALandCould,
    GainLife(u32),
    /// Gain one life for each permanent on the battlefield that matches.
    GainLifePerPermanent(Filter),
    /// Gain one life for each permanent you control that matches.
    GainLifePerYours(Filter),
    LoseLifeOpponents(u32),
    DamageOpponents(u32),
    DamageTarget(u32),
    MillTarget(u32),
    /// The target player mills one card for each permanent you control that matches.
    MillTargetPerYours(Filter),
    MillYou(u32),
    DrawThenDiscard(u32, u32),
    EachPlayerDrawsThenDiscards,
    EachPlayerDiscards,
    ExileAllGraveyards,
    ExileTargetPlayersGraveyard,
    ReturnSourceToHand,
    TargetCardToHand,
    TargetCardToLibraryTop,
    AnimateSource(Animation),
    PumpYourCreatures(i32, i32),
    CountersOnYourCreatures(CounterKind, u32),
    CountersOnTarget(CounterKind, u32),
    KeywordsToTarget(u32),
    KeywordsToYourCreatures(u32),
    OpponentsCreaturesLoseHexproof,
    DestroyTarget,
    DestroyTargetThenBasicSearch,
    BecomeMonarch,
    Investigate,
    Scry(u32),
    Surveil(u32),
    LookAndReorder(u32),
    SacrificeLands(u32),
    TargetPlayerSacrificesCreature,
    /// The target land becomes a 0/0 creature with haste and gets counters.
    Earthbend(u32),
    /// The target creature gets -X/-Y until end of turn.
    ShrinkTarget(i32, i32),
    /// Its controller sacrifices the source.
    SacrificeSource,
    /// Its controller draws cards.
    Draw(u32),
    /// Put counters on the source.
    CountersOnSource(CounterKind, u32),
    /// Untap the target permanent.
    UntapTarget,
    /// Add one mana of a colour to be chosen for each other permanent you
    /// control that matches, all of the one colour.
    AddOneColorPerOther(Filter),
    /// Add one mana of either colour, offered in this order, asked this
    /// many times.
    AddEither(ManaColor, ManaColor, u32),
    /// Add one mana of a colour a land an opponent controls could produce.
    AddWhatAnOpponentsLandCould,
    /// Return a land you control to its owner's hand.
    ReturnALandYouControl,
    /// Sacrifice the source unless its controller pays.
    SacrificeUnless(UnlessCost),
    /// Search your library for cards, as the search says.
    SearchLibrary(Search),
    /// Create a token of the card.
    CreateToken(CardIndex),
    /// Return the target permanent to its owner's hand.
    ReturnTargetToHand,
    /// (Static.) Every creature has "At the beginning of your upkeep,
    /// destroy this creature unless you pay this much generic mana."
    CreaturesPayUpkeep(u32),
    /// (Static.) "You may choose not to untap this permanent during your
    /// untap step."
    MayStayTapped,
    /// Add one mana of this colour or of the colour chosen as the permanent
    /// entered.
    AddPrintedOrChosen(ManaColor),
    /// Add one mana of a colour in its controller's commander's colour
    /// identity (none without one).
    AddCommanderColor,
    /// Add one mana of the colour for each counter the cost removed.
    AddPerCounterRemoved(ManaColor),
    /// Add one mana for each counter the cost removed, each of either
    /// colour.
    AddEitherPerCounterRemoved(ManaColor, ManaColor),
}

/// What a mana ability does besides making mana.
#[derive(Clone, Copy, Debug, PartialEq, Eq, Structural)]
pub enum ManaRider {
    Plain,
    /// "This land doesn't untap during your next untap step."
    SkipNextUntap,
    /// "Put a time counter on this land."
    TimeCounter,
    /// "If there are no [such] counters on it, sacrifice it", read after the
    /// counter the cost removes is gone.
    SacrificeIfEmpty,
    /// "This land deals 1 damage to you."
    Pain,
}

/// One ability of a card.
#[derive(Clone, Copy, Debug, PartialEq, Eq, Structural)]
pub struct Ability {
    pub kind: AbilityKind,
    pub cost: Cost,
    pub condition: Condition,
    pub sorcery_speed: bool,
    pub target: TargetSpec,
    pub effect: Effect,
    pub rider: ManaRider,
}

/// How a card enters the battlefield, and its other face.
#[derive(Clone, Copy, Debug, PartialEq, Eq, Structural)]
pub struct Entry {
    pub rule: EntryRule,
    pub counters: Option<CounterAmount>,
    pub choice: EntryChoice,
    /// The other face of a modal double-faced card.
    pub back: Option<CardIndex>,
}

} // verus!
