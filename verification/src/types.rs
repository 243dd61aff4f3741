//! The enumerations that the score file stores as single bytes, and the
//! position that each of them takes in the per-shot and per-difficulty tables.

use vstd::prelude::*;
use vstd::string::StringExecFns;
use crate::text::{decimal, digits};

verus! {

/// One of the byte-sized enumerated fields of a record.
#[derive(Debug, Clone, Copy, PartialEq, Eq, Hash, Structural)]
pub enum Field {
    ShotType,
    Difficulty,
    StageProgress,
    Stage,
}

impl Field {
    /// How many values the field can take: the valid bytes are `0..count`.
    pub open spec fn spec_count(self) -> u8 {
        match self {
            Field::ShotType => 6,
            Field::Difficulty => 6,
            Field::StageProgress => 9,
            Field::Stage => 8,
        }
    }

    /// The field in words.
    pub open spec fn spec_name(self) -> &'static str {
        match self {
            Field::ShotType => "shot type",
            Field::Difficulty => "difficulty",
            Field::StageProgress => "stage progress",
            Field::Stage => "stage",
        }
    }

    /// The field in words.
    pub fn name(self) -> (r: &'static str)
        ensures
            r == self.spec_name(),
    {
        match self {
            Field::ShotType => "shot type",
            Field::Difficulty => "difficulty",
            Field::StageProgress => "stage progress",
            Field::Stage => "stage",
        }
    }

    /// How many values the field can take: the valid bytes are `0..count`.
    pub fn count(self) -> (r: u8)
        ensures
            r == self.spec_count(),
    {
        match self {
            Field::ShotType => 6,
            Field::Difficulty => 6,
            Field::StageProgress => 9,
            Field::Stage => 8,
        }
    }
}

/// A byte that is outside the valid range of the field it was read for.
#[derive(Debug, Clone, Copy, PartialEq, Eq, Hash, Structural)]
pub struct InvalidDiscriminant {
    pub field: Field,
    pub value: u8,
}

impl InvalidDiscriminant {
    /// The largest byte that the field accepts; the smallest is zero.
    pub fn max_valid(&self) -> (r: u8)
        ensures
            r == self.field.spec_count() - 1,
    {
        self.field.count() - 1
    }

    /// What to tell of this error: the field, the byte and the valid range.
    pub open spec fn spec_message(self) -> Seq<char> {
        "Invalid "@ + self.field.spec_name()@ + " "@ + digits(self.value as nat)
            + " (valid values are 0..="@ + digits((self.field.spec_count() - 1) as nat) + ")"@
    }

    /// What to tell of this error: the field, the byte and the valid range.
    pub fn message(&self) -> (r: String)
        ensures
            r@ == self.spec_message(),
    {
        let mut r = String::from_str("Invalid ");
        r.append(self.field.name());
        r.append(" ");
        r.append(decimal(self.value as u32).as_str());
        r.append(" (valid values are 0..=");
        r.append(decimal(self.max_valid() as u32).as_str());
        r.append(")");
        r
    }
}

/// The character and shot variant that a run is played with.
#[derive(Debug, Clone, Copy, PartialEq, Eq, Hash, Structural)]
pub enum ShotType {
    ReimuA,
    ReimuB,
    MarisaA,
    MarisaB,
    SakuyaA,
    SakuyaB,
}

impl ShotType {
    /// The shot type stored as `raw`, if there is one.
    pub open spec fn of(raw: u8) -> Option<ShotType> {
        match raw {
            0 => Some(ShotType::ReimuA),
            1 => Some(ShotType::ReimuB),
            2 => Some(ShotType::MarisaA),
            3 => Some(ShotType::MarisaB),
            4 => Some(ShotType::SakuyaA),
            5 => Some(ShotType::SakuyaB),
            _ => None,
        }
    }

    /// The slot of this shot type in a per-shot table, which is also the byte
    /// that stores it.
    pub open spec fn spec_index(self) -> int {
        match self {
            ShotType::ReimuA => 0,
            ShotType::ReimuB => 1,
            ShotType::MarisaA => 2,
            ShotType::MarisaB => 3,
            ShotType::SakuyaA => 4,
            ShotType::SakuyaB => 5,
        }
    }

    /// The shot type of slot `index`; slots from six on have none and give
    /// `ReimuA`.
    pub open spec fn at(index: int) -> ShotType {
        if index == 1 {
            ShotType::ReimuB
        } else if index == 2 {
            ShotType::MarisaA
        } else if index == 3 {
            ShotType::MarisaB
        } else if index == 4 {
            ShotType::SakuyaA
        } else if index == 5 {
            ShotType::SakuyaB
        } else {
            ShotType::ReimuA
        }
    }

    /// Decodes a stored byte.
    pub fn from_raw(raw: u8) -> (r: Result<ShotType, InvalidDiscriminant>)
        ensures
            r == match ShotType::of(raw) {
                Some(v) => Ok::<ShotType, InvalidDiscriminant>(v),
                None => Err(InvalidDiscriminant { field: Field::ShotType, value: raw }),
            },
            r is Ok <==> raw < Field::ShotType.spec_count(),
    {
        match raw {
            0 => Ok(ShotType::ReimuA),
            1 => Ok(ShotType::ReimuB),
            2 => Ok(ShotType::MarisaA),
            3 => Ok(ShotType::MarisaB),
            4 => Ok(ShotType::SakuyaA),
            5 => Ok(ShotType::SakuyaB),
            _ => Err(InvalidDiscriminant { field: Field::ShotType, value: raw }),
        }
    }

    /// The slot of this shot type in a per-shot table.
    pub fn index(self) -> (r: usize)
        ensures
            r == self.spec_index(),
            r < 6,
    {
        match self {
            ShotType::ReimuA => 0,
            ShotType::ReimuB => 1,
            ShotType::MarisaA => 2,
            ShotType::MarisaB => 3,
            ShotType::SakuyaA => 4,
            ShotType::SakuyaB => 5,
        }
    }

    /// The byte that stores this shot type.
    pub fn raw(self) -> (r: u8)
        ensures
            r == self.spec_index(),
            ShotType::of(r) == Some(self),
    {
        match self {
            ShotType::ReimuA => 0,
            ShotType::ReimuB => 1,
            ShotType::MarisaA => 2,
            ShotType::MarisaB => 3,
            ShotType::SakuyaA => 4,
            ShotType::SakuyaB => 5,
        }
    }

    /// The shot type of a slot of a per-shot table.
    pub fn from_index(index: usize) -> (r: ShotType)
        requires
            index < 6,
        ensures
            r == ShotType::at(index as int),
            r.spec_index() == index,
    {
        if index == 1 {
            ShotType::ReimuB
        } else if index == 2 {
            ShotType::MarisaA
        } else if index == 3 {
            ShotType::MarisaB
        } else if index == 4 {
            ShotType::SakuyaA
        } else if index == 5 {
            ShotType::SakuyaB
        } else {
            ShotType::ReimuA
        }
    }
}

/// The difficulty level of a run or of a spell card.
#[derive(Debug, Clone, Copy, PartialEq, Eq, Hash, Structural)]
pub enum Difficulty {
    Easy,
    Normal,
    Hard,
    Lunatic,
    Extra,
    Phantasm,
}

impl Difficulty {
    /// The difficulty stored as `raw`, if there is one.
    pub open spec fn of(raw: u8) -> Option<Difficulty> {
        match raw {
            0 => Some(Difficulty::Easy),
            1 => Some(Difficulty::Normal),
            2 => Some(Difficulty::Hard),
            3 => Some(Difficulty::Lunatic),
            4 => Some(Difficulty::Extra),
            5 => Some(Difficulty::Phantasm),
            _ => None,
        }
    }

    /// The slot of this difficulty in a per-difficulty table, which is also
    /// the byte that stores it.
    pub open spec fn spec_index(self) -> int {
        match self {
            Difficulty::Easy => 0,
            Difficulty::Normal => 1,
            Difficulty::Hard => 2,
            Difficulty::Lunatic => 3,
            Difficulty::Extra => 4,
            Difficulty::Phantasm => 5,
        }
    }

    /// Decodes a stored byte.
    pub fn from_raw(raw: u8) -> (r: Result<Difficulty, InvalidDiscriminant>)
        ensures
            r == match Difficulty::of(raw) {
                Some(v) => Ok::<Difficulty, InvalidDiscriminant>(v),
                None => Err(InvalidDiscriminant { field: Field::Difficulty, value: raw }),
            },
            r is Ok <==> raw < Field::Difficulty.spec_count(),
    {
        match raw {
            0 => Ok(Difficulty::Easy),
            1 => Ok(Difficulty::Normal),
            2 => Ok(Difficulty::Hard),
            3 => Ok(Difficulty::Lunatic),
            4 => Ok(Difficulty::Extra),
            5 => Ok(Difficulty::Phantasm),
            _ => Err(InvalidDiscriminant { field: Field::Difficulty, value: raw }),
        }
    }

    /// The slot of this difficulty in a per-difficulty table.
    pub fn index(self) -> (r: usize)
        ensures
            r == self.spec_index(),
            r < 6,
    {
        match self {
            Difficulty::Easy => 0,
            Difficulty::Normal => 1,
            Difficulty::Hard => 2,
            Difficulty::Lunatic => 3,
            Difficulty::Extra => 4,
            Difficulty::Phantasm => 5,
        }
    }

    /// The byte that stores this difficulty.
    pub fn raw(self) -> (r: u8)
        ensures
            r == self.spec_index(),
            Difficulty::of(r) == Some(self),
    {
        match self {
            Difficulty::Easy => 0,
            Difficulty::Normal => 1,
            Difficulty::Hard => 2,
            Difficulty::Lunatic => 3,
            Difficulty::Extra => 4,
            Difficulty::Phantasm => 5,
        }
    }
}

/// A stage of the game.
#[derive(Debug, Clone, Copy, PartialEq, Eq, Hash, Structural)]
pub enum Stage {
    One,
    Two,
    Three,
    Four,
    Five,
    Six,
    Extra,
    Phantasm,
}

impl Stage {
    /// The stage stored as `raw`, if there is one.
    pub open spec fn of(raw: u8) -> Option<Stage> {
        match raw {
            0 => Some(Stage::One),
            1 => Some(Stage::Two),
            2 => Some(Stage::Three),
            3 => Some(Stage::Four),
            4 => Some(Stage::Five),
            5 => Some(Stage::Six),
            6 => Some(Stage::Extra),
            7 => Some(Stage::Phantasm),
            _ => None,
        }
    }

    /// The byte that stores this stage.
    pub open spec fn spec_raw(self) -> u8 {
        match self {
            Stage::One => 0,
            Stage::Two => 1,
            Stage::Three => 2,
            Stage::Four => 3,
            Stage::Five => 4,
            Stage::Six => 5,
            Stage::Extra => 6,
            Stage::Phantasm => 7,
        }
    }

    /// Decodes a stored byte.
    pub fn from_raw(raw: u8) -> (r: Result<Stage, InvalidDiscriminant>)
        ensures
            r == match Stage::of(raw) {
                Some(v) => Ok::<Stage, InvalidDiscriminant>(v),
                None => Err(InvalidDiscriminant { field: Field::Stage, value: raw }),
            },
            r is Ok <==> raw < Field::Stage.spec_count(),
    {
        match raw {
            0 => Ok(Stage::One),
            1 => Ok(Stage::Two),
            2 => Ok(Stage::Three),
            3 => Ok(Stage::Four),
            4 => Ok(Stage::Five),
            5 => Ok(Stage::Six),
            6 => Ok(Stage::Extra),
            7 => Ok(Stage::Phantasm),
            _ => Err(InvalidDiscriminant { field: Field::Stage, value: raw }),
        }
    }

    /// The byte that stores this stage.
    pub fn raw(self) -> (r: u8)
        ensures
            r == self.spec_raw(),
            Stage::of(r) == Some(self),
    {
        match self {
            Stage::One => 0,
            Stage::Two => 1,
            Stage::Three => 2,
            Stage::Four => 3,
            Stage::Five => 4,
            Stage::Six => 5,
            Stage::Extra => 6,
            Stage::Phantasm => 7,
        }
    }
}

/// How far the run behind a high score got.
#[derive(Debug, Clone, Copy, PartialEq, Eq, Hash, Structural)]
pub enum StageProgress {
    StageOne,
    StageTwo,
    StageThree,
    StageFour,
    StageFive,
    StageSix,
    Extra,
    Phantasm,
    AllClear,
}

impl StageProgress {
    /// The progress stored as `raw`, if there is one.
    pub open spec fn of(raw: u8) -> Option<StageProgress> {
        match raw {
            0 => Some(StageProgress::StageOne),
            1 => Some(StageProgress::StageTwo),
            2 => Some(StageProgress::StageThree),
            3 => Some(StageProgress::StageFour),
            4 => Some(StageProgress::StageFive),
            5 => Some(StageProgress::StageSix),
            6 => Some(StageProgress::Extra),
            7 => Some(StageProgress::Phantasm),
            8 => Some(StageProgress::AllClear),
            _ => None,
        }
    }

    /// The byte that stores this progress.
    pub open spec fn spec_raw(self) -> u8 {
        match self {
            StageProgress::StageOne => 0,
            StageProgress::StageTwo => 1,
            StageProgress::StageThree => 2,
            StageProgress::StageFour => 3,
            StageProgress::StageFive => 4,
            StageProgress::StageSix => 5,
            StageProgress::Extra => 6,
            StageProgress::Phantasm => 7,
            StageProgress::AllClear => 8,
        }
    }

    /// Decodes a stored byte.
    pub fn from_raw(raw: u8) -> (r: Result<StageProgress, InvalidDiscriminant>)
        ensures
            r == match StageProgress::of(raw) {
                Some(v) => Ok::<StageProgress, InvalidDiscriminant>(v),
                None => Err(InvalidDiscriminant { field: Field::StageProgress, value: raw }),
            },
            r is Ok <==> raw < Field::StageProgress.spec_count(),
    {
        match raw {
            0 => Ok(StageProgress::StageOne),
            1 => Ok(StageProgress::StageTwo),
            2 => Ok(StageProgress::StageThree),
            3 => Ok(StageProgress::StageFour),
            4 => Ok(StageProgress::StageFive),
            5 => Ok(StageProgress::StageSix),
            6 => Ok(StageProgress::Extra),
            7 => Ok(StageProgress::Phantasm),
            8 => Ok(StageProgress::AllClear),
            _ => Err(InvalidDiscriminant { field: Field::StageProgress, value: raw }),
        }
    }

    /// The byte that stores this progress.
    pub fn raw(self) -> (r: u8)
        ensures
            r == self.spec_raw(),
            StageProgress::of(r) == Some(self),
    {
        match self {
            StageProgress::StageOne => 0,
            StageProgress::StageTwo => 1,
            StageProgress::StageThree => 2,
            StageProgress::StageFour => 3,
            StageProgress::StageFive => 4,
            StageProgress::StageSix => 5,
            StageProgress::Extra => 6,
            StageProgress::Phantasm => 7,
            StageProgress::AllClear => 8,
        }
    }
}

} // verus!
