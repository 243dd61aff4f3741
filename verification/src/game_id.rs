//! The games of the series by their numbers.

use vstd::prelude::*;
use vstd::std_specs::convert::{FromSpecImpl, TryFromSpecImpl};
use vstd::string::StringExecFns;
use crate::text::{decimal, digits};

verus! {

/// A number that stands for no known game.
#[derive(Debug, Clone, Copy, PartialEq, Eq, Hash, Structural)]
pub struct InvalidGameId(pub u8);

impl InvalidGameId {
    /// The number that was refused.
    pub fn value(&self) -> (r: u8)
        ensures
            r == self.0,
    {
        self.0
    }

    /// What to tell of this error.
    pub open spec fn spec_message(self) -> Seq<char> {
        "Invalid game ID "@ + digits(self.0 as nat)
    }

    /// What to tell of this error.
    pub fn message(&self) -> (r: String)
        ensures
            r@ == self.spec_message(),
    {
        let mut r = String::from_str("Invalid game ID ");
        r.append(decimal(self.0 as u32).as_str());
        r
    }
}

/// Why a sixteen-bit number stands for no known game.
#[derive(Debug, Clone, Copy, PartialEq, Eq, Hash, Structural)]
pub enum InvalidGameNumber {
    /// The number does not fit in the eight bits of a game number.
    TooLarge(u16),
    /// The number fits, and belongs to no known game.
    Unknown(InvalidGameId),
}

/// A game of the series.
#[derive(Debug, Clone, Copy, PartialEq, Eq, PartialOrd, Ord, Hash, Structural)]
pub enum GameId {
    PCB,
    IN,
    LoLK,
}

impl GameId {
    /// The number of the game in the series.
    pub open spec fn number(self) -> u8 {
        match self {
            GameId::PCB => 7,
            GameId::IN => 8,
            GameId::LoLK => 15,
        }
    }

    /// The game with number `value`, if it is known.
    pub open spec fn of(value: u8) -> Option<GameId> {
        match value {
            7 => Some(GameId::PCB),
            8 => Some(GameId::IN),
            15 => Some(GameId::LoLK),
            _ => None,
        }
    }

    /// The name of the game by its number.
    pub open spec fn spec_numbered_name(self) -> &'static str {
        match self {
            GameId::PCB => "Touhou 7",
            GameId::IN => "Touhou 8",
            GameId::LoLK => "Touhou 15",
        }
    }

    /// The short name of the game.
    pub open spec fn spec_abbreviation(self) -> &'static str {
        match self {
            GameId::PCB => "PCB",
            GameId::IN => "IN",
            GameId::LoLK => "LoLK",
        }
    }

    /// The title of the game.
    pub open spec fn spec_full_name(self) -> &'static str {
        match self {
            GameId::PCB => "Perfect Cherry Blossom",
            GameId::IN => "Imperishable Night",
            GameId::LoLK => "Legacy of Lunatic Kingdom",
        }
    }

    /// The name of the game by its number.
    pub fn numbered_name(&self) -> (r: &'static str)
        ensures
            r == self.spec_numbered_name(),
    {
        match *self {
            GameId::PCB => "Touhou 7",
            GameId::IN => "Touhou 8",
            GameId::LoLK => "Touhou 15",
        }
    }

    /// The short name of the game.
    pub fn abbreviation(&self) -> (r: &'static str)
        ensures
            r == self.spec_abbreviation(),
    {
        match *self {
            GameId::PCB => "PCB",
            GameId::IN => "IN",
            GameId::LoLK => "LoLK",
        }
    }

    /// The title of the game.
    pub fn full_name(&self) -> (r: &'static str)
        ensures
            r == self.spec_full_name(),
    {
        match *self {
            GameId::PCB => "Perfect Cherry Blossom",
            GameId::IN => "Imperishable Night",
            GameId::LoLK => "Legacy of Lunatic Kingdom",
        }
    }

    /// The game with the sixteen-bit number `value`.
    pub fn from_u16(value: u16) -> (r: Result<GameId, InvalidGameNumber>)
        ensures
            r == if value > 255 {
                Err::<GameId, InvalidGameNumber>(InvalidGameNumber::TooLarge(value))
            } else {
                match GameId::of(value as u8) {
                    Some(game) => Ok(game),
                    None => Err(InvalidGameNumber::Unknown(InvalidGameId(value as u8))),
                }
            },
    {
        if value > 255 {
            Err(InvalidGameNumber::TooLarge(value))
        } else {
            match GameId::try_from(value as u8) {
                Ok(game) => Ok(game),
                Err(e) => Err(InvalidGameNumber::Unknown(e)),
            }
        }
    }
}

/// Each game has its own number.
pub proof fn lemma_number_round_trip(game: GameId)
    ensures
        GameId::of(game.number()) == Some(game),
{
}

impl From<GameId> for u8 {
    fn from(value: GameId) -> (r: u8) {
        match value {
            GameId::PCB => 7,
            GameId::IN => 8,
            GameId::LoLK => 15,
        }
    }
}

impl FromSpecImpl<GameId> for u8 {
    open spec fn obeys_from_spec() -> bool {
        true
    }

    open spec fn from_spec(value: GameId) -> u8 {
        value.number()
    }
}

impl From<GameId> for u16 {
    fn from(value: GameId) -> (r: u16) {
        match value {
            GameId::PCB => 7,
            GameId::IN => 8,
            GameId::LoLK => 15,
        }
    }
}

impl FromSpecImpl<GameId> for u16 {
    open spec fn obeys_from_spec() -> bool {
        true
    }

    open spec fn from_spec(value: GameId) -> u16 {
        value.number() as u16
    }
}

impl TryFrom<u8> for GameId {
    type Error = InvalidGameId;

    fn try_from(value: u8) -> (r: Result<Self, InvalidGameId>) {
        match value {
            7 => Ok(GameId::PCB),
            8 => Ok(GameId::IN),
            15 => Ok(GameId::LoLK),
            v => Err(InvalidGameId(v)),
        }
    }
}

impl TryFromSpecImpl<u8> for GameId {
    open spec fn obeys_try_from_spec() -> bool {
        true
    }

    open spec fn try_from_spec(value: u8) -> Result<Self, InvalidGameId> {
        match GameId::of(value) {
            Some(game) => Ok(game),
            None => Err(InvalidGameId(value)),
        }
    }
}

} // verus!
