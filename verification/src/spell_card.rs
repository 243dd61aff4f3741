//! Spell cards: what is known of a card, and the ways in which a number can
//! fail to name one.

use vstd::prelude::*;
use vstd::string::StringExecFns;
use crate::game_id::GameId;
use crate::text::{decimal, digits};
use crate::types::{Difficulty, Stage};

verus! {

/// What is known of a spell card.
#[derive(Debug, Clone, Copy)]
pub struct SpellCardInfo {
    pub name: &'static str,
    pub difficulty: Difficulty,
    pub stage: Stage,
    pub is_midboss: bool,
}

/// Why a number names no spell card.
#[derive(Debug, Clone, Copy, PartialEq, Eq, Hash, Structural)]
pub enum InvalidCardId {
    /// The game has no card of this number: the game, the number, and the
    /// number of its last card. The first card has number one.
    InvalidCard(GameId, u32, u32),
    /// The number of the game stands for no known game.
    InvalidGameId(u8),
    /// The card belongs to another game: the game given, and the game
    /// expected.
    UnexpectedGameId(GameId, GameId),
}

impl InvalidCardId {
    /// What to tell of this error.
    pub open spec fn spec_message(self) -> Seq<char> {
        match self {
            InvalidCardId::InvalidCard(game, id, last) => "Invalid card ID "@ + digits(id as nat)
                + " for "@ + game.spec_abbreviation()@ + " (valid values are 1..="@ + digits(
                last as nat,
            ) + ")"@,
            InvalidCardId::InvalidGameId(value) => "Invalid game ID "@ + digits(value as nat),
            InvalidCardId::UnexpectedGameId(given, expected) => "Incorrect game ID "@
                + given.spec_abbreviation()@ + " (expected "@ + expected.spec_abbreviation()@
                + ")"@,
        }
    }

    /// What to tell of this error.
    pub fn message(&self) -> (r: String)
        ensures
            r@ == self.spec_message(),
    {
        match *self {
            InvalidCardId::InvalidCard(game, id, last) => {
                let mut r = String::from_str("Invalid card ID ");
                r.append(decimal(id).as_str());
                r.append(" for ");
                r.append(game.abbreviation());
                r.append(" (valid values are 1..=");
                r.append(decimal(last).as_str());
                r.append(")");
                r
            },
            InvalidCardId::InvalidGameId(value) => {
                let mut r = String::from_str("Invalid game ID ");
                r.append(decimal(value as u32).as_str());
                r
            },
            InvalidCardId::UnexpectedGameId(given, expected) => {
                let mut r = String::from_str("Incorrect game ID ");
                r.append(given.abbreviation());
                r.append(" (expected ");
                r.append(expected.abbreviation());
                r.append(")");
                r
            },
        }
    }
}

/// The number of a spell card of one game.
pub trait GameValue: Sized {
    /// The game that the card belongs to.
    spec fn spec_game_id(&self) -> GameId;

    /// The number of the card, counted from one.
    spec fn spec_raw_id(&self) -> u32;

    /// What is known of the card.
    spec fn spec_card_info(&self) -> SpellCardInfo;

    /// The card with number `id` of `game`, or why there is none.
    spec fn spec_from_raw(id: u32, game: GameId) -> Result<Self, InvalidCardId>;

    /// The game that the card belongs to.
    fn game_id(&self) -> (r: GameId)
        ensures
            r == self.spec_game_id(),
    ;

    /// The number of the card, counted from one.
    fn raw_id(&self) -> (r: u32)
        ensures
            r == self.spec_raw_id(),
    ;

    /// The card with number `id` of `game`.
    fn from_raw(id: u32, game: GameId) -> (r: Result<Self, InvalidCardId>)
        ensures
            r == Self::spec_from_raw(id, game),
    ;

    /// What is known of the card.
    fn card_info(&self) -> (r: SpellCardInfo)
        ensures
            r == self.spec_card_info(),
    ;

    /// The name of the card.
    fn name(&self) -> (r: &'static str)
        ensures
            r == self.spec_card_info().name,
    ;
}

/// A game, as far as its spell cards go.
pub trait Game {
    /// The numbers of the spell cards of the game.
    type SpellID: GameValue;
}

/// A spell card of the game `G`.
pub struct SpellCard<G: Game>(G::SpellID);

impl<G: Game> AsRef<G::SpellID> for SpellCard<G> {
    /// The number of the card, in the type of its game.
    fn as_ref(&self) -> (r: &G::SpellID)
        ensures
            *r == self.inner(),
    {
        &self.0
    }
}

impl<G: Game> core::ops::Deref for SpellCard<G> {
    type Target = G::SpellID;

    /// The number of the card, in the type of its game.
    fn deref(&self) -> (r: &G::SpellID)
        ensures
            *r == self.inner(),
    {
        &self.0
    }
}

impl<G: Game> SpellCard<G> {
    /// The number that this card wraps.
    pub closed spec fn inner(self) -> G::SpellID {
        self.0
    }

    /// The card with number `card_id`.
    pub fn new(card_id: G::SpellID) -> (r: Self)
        ensures
            r.inner() == card_id,
    {
        SpellCard(card_id)
    }

    /// The number of the card, in the type of its game.
    pub fn unwrap(self) -> (r: G::SpellID)
        ensures
            r == self.inner(),
    {
        self.0
    }

    /// The number of the card, counted from one.
    pub fn id(&self) -> (r: u32)
        ensures
            r == self.inner().spec_raw_id(),
    {
        self.0.raw_id()
    }

    /// What is known of the card.
    pub fn info(&self) -> (r: SpellCardInfo)
        ensures
            r == self.inner().spec_card_info(),
    {
        self.0.card_info()
    }

    /// The name of the card.
    pub fn name(&self) -> (r: &'static str)
        ensures
            r == self.inner().spec_card_info().name,
    {
        self.info().name
    }

    /// The difficulty on which the card appears.
    pub fn difficulty(&self) -> (r: Difficulty)
        ensures
            r == self.inner().spec_card_info().difficulty,
    {
        self.info().difficulty
    }

    /// The stage in which the card appears.
    pub fn stage(&self) -> (r: Stage)
        ensures
            r == self.inner().spec_card_info().stage,
    {
        self.info().stage
    }

    /// Whether the card belongs to the midboss of its stage.
    pub fn is_midboss(&self) -> (r: bool)
        ensures
            r == self.inner().spec_card_info().is_midboss,
    {
        self.info().is_midboss
    }

    /// The card in words: the short name of its game, its number and its
    /// name.
    pub open spec fn spec_text(self) -> Seq<char> {
        self.inner().spec_game_id().spec_abbreviation()@ + " #"@ + digits(
            self.inner().spec_raw_id() as nat,
        ) + ": "@ + self.inner().spec_card_info().name@
    }

    /// The card in words: the short name of its game, its number and its
    /// name.
    pub fn to_text(&self) -> (r: String)
        ensures
            r@ == self.spec_text(),
    {
        let mut r = String::from_str(self.0.game_id().abbreviation());
        r.append(" #");
        r.append(decimal(self.0.raw_id()).as_str());
        r.append(": ");
        r.append(self.name());
        r
    }
}

} // verus!
