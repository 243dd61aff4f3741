//! The spell cards of Legacy of Lunatic Kingdom.

use vstd::prelude::*;
use vstd::std_specs::convert::{FromSpecImpl, TryFromSpecImpl};
use crate::game_id::GameId;
use crate::spell_card::{Game, GameValue, InvalidCardId, SpellCardInfo};
use crate::types::{Difficulty, Stage};

verus! {

/// The number of spell cards in the game.
pub const CARD_COUNT: u32 = 119;

/// The names of the cards, in the order of their numbers.
pub const NAMES: [&'static str; 119] = [
    "Assassin's Bullet \"Speed Strike\"",
    "Assassin's Bullet \"Speed Strike\"",
    "Bullet Sign \"Eagle Shooting\"",
    "Bullet Sign \"Eagle Shooting\"",
    "Bullet Sign \"Eagle Shooting\"",
    "Bullet Sign \"The Eagle Has Shot Its Target\"",
    "Gun Sign \"Lunatic Gun\"",
    "Gun Sign \"Lunatic Gun\"",
    "Gun Sign \"Lunatic Gun\"",
    "Gun Sign \"Lunatic Gun\"",
    "Rabbit Sign \"Strawberry Dango\"",
    "Rabbit Sign \"Strawberry Dango\"",
    "Rabbit Sign \"Berry Berry Dango\"",
    "Rabbit Sign \"Berry Berry Dango\"",
    "Rabbit Sign \"Dango Influence\"",
    "Rabbit Sign \"Dango Influence\"",
    "Rabbit Sign \"Dango Influence\"",
    "Rabbit Sign \"Dango Influence\"",
    "Moon-Viewing \"September Full Moon\"",
    "Moon-Viewing \"September Full Moon\"",
    "Moon-Viewing \"September Full Moon\"",
    "Moon-Viewing Saké \"Lunatic September\"",
    "Dream Sign \"Scarlet Nightmare\"",
    "Dream Sign \"Scarlet Nightmare\"",
    "Dream Sign \"Scarlet Oppressive Nightmare\"",
    "Dream Sign \"Scarlet Oppressive Nightmare\"",
    "Dream Sign \"Indigo Dream of Anxiety\"",
    "Dream Sign \"Indigo Dream of Anxiety\"",
    "Dream Sign \"Indigo Three-Layered Dream of Anxiety\"",
    "Dream Sign \"Eternally Anxious Dream\"",
    "Dream Sign \"Ochre Confusion\"",
    "Dream Sign \"Ochre Confusion\"",
    "Dream Sign \"Ochre Labyrinthine Confusion\"",
    "Dream Sign \"Ochre Labyrinthine Confusion\"",
    "Dream Sign \"Dream Catcher\"",
    "Dream Sign \"Dream Catcher\"",
    "Dream Sign \"Azure Dream Catcher\"",
    "Dream Sign \"Losing Oneself in a Dream\"",
    "Moon Sign \"Ultramarine Lunatic Dream\"",
    "Moon Sign \"Ultramarine Lunatic Dream\"",
    "Moon Sign \"Ultramarine Lunatic Dream\"",
    "Moon Sign \"Ultramarine Lunatic Dream\"",
    "Orb Sign \"Disorderly Flock's Curse\"",
    "Orb Sign \"Disorderly Flock's Curse\"",
    "Orb Sign \"Disorderly Flock's Reverse Curse\"",
    "Orb Sign \"Disorderly Flock's Duplex Curse\"",
    "Orb Sign \"Impure Body Detection Mines\"",
    "Orb Sign \"Impure Body Detection Mines\"",
    "Orb Sign \"Impure Body Detection Mines V2\"",
    "Orb Sign \"Impure Body Detection Mines V2\"",
    "Orb Sign \"Shotgun Coronation of the Gods\"",
    "Orb Sign \"Shotgun Coronation of the Gods\"",
    "Orb Sign \"Shining Shotgun Coronation of the Gods\"",
    "Orb Sign \"Shining Shotgun Coronation of the Gods\"",
    "\"One-Winged White Heron\"",
    "\"One-Winged White Heron\"",
    "\"One-Winged White Heron\"",
    "\"One-Winged White Heron\"",
    "Hell Sign \"Hell Eclipse\"",
    "Hell Sign \"Hell Eclipse\"",
    "Hell Sign \"Eclipse of Hell\"",
    "Hell Sign \"Eclipse of Hell\"",
    "Hell Sign \"Flash and Stripe\"",
    "Hell Sign \"Flash and Stripe\"",
    "Hell Sign \"Star and Stripe\"",
    "Hell Sign \"Star and Stripe\"",
    "Hellfire \"Graze Inferno\"",
    "Hellfire \"Graze Inferno\"",
    "Hellfire \"Graze Inferno\"",
    "Hellfire \"Infernal Essence of Grazing\"",
    "Inferno \"Striped Abyss\"",
    "Inferno \"Striped Abyss\"",
    "Inferno \"Striped Abyss\"",
    "Inferno \"Striped Abyss\"",
    "\"Fake Apollo\"",
    "\"Fake Apollo\"",
    "\"Apollo Hoax Theory\"",
    "\"Apollo Hoax Theory\"",
    "\"Pure Light of the Palm\"",
    "\"Pure Light of the Palm\"",
    "\"Pure Light of the Palm\"",
    "\"Pure Light of the Palm\"",
    "\"Murderous Lilies\"",
    "\"Murderous Lilies\"",
    "\"Murderous Lilies\"",
    "\"Murderous Lilies\"",
    "\"Primordial Divine Spirit World\"",
    "\"Primordial Divine Spirit World\"",
    "\"Modern Divine Spirit World\"",
    "\"Modern Divine Spirit World\"",
    "\"Trembling, Shivering Star\"",
    "\"Trembling, Shivering Star\"",
    "\"Trembling, Shivering Star\"",
    "\"Trembling, Shivering Star\"",
    "\"Pristine Lunacy\"",
    "\"Pristine Lunacy\"",
    "\"Pristine Lunacy\"",
    "\"Pristine Lunacy\"",
    "\"Overflowing Blemishes\"",
    "\"Overflowing Blemishes\"",
    "\"Overflowing Blemishes\"",
    "\"Refinement of Earthen Impurity\"",
    "Pure Sign \"Purely Bullet Hell\"",
    "Pure Sign \"Purely Bullet Hell\"",
    "Pure Sign \"A Pristine Danmaku Hell\"",
    "Pure Sign \"A Pristine Danmaku Hell\"",
    "Butterfly \"Butterfly Supplantation\"",
    "Super-Express \"Dream Express\"",
    "Crawling Dream \"Creeping Bullet\"",
    "Otherworld \"Oumagatoki\"",
    "Earth \"Impurity Within One's Body\"",
    "Moon \"Apollo Reflection Mirror\"",
    "\"Simple Danmaku for Cornering a Trapped Rat\"",
    "Otherworld \"Hell's Non-Ideal Danmaku\"",
    "Earth \"Rain Falling in Hell\"",
    "Moon \"Lunatic Impact\"",
    "\"Pristine Danmaku for Killing a Person\"",
    "\"Trinitarian Rhapsody\"",
    "\"First and Last Nameless Danmaku\"",
];

/// The difficulty of each card.
pub const DIFFICULTIES: [Difficulty; 119] = [
    Difficulty::Hard,
    Difficulty::Lunatic,
    Difficulty::Easy,
    Difficulty::Normal,
    Difficulty::Hard,
    Difficulty::Lunatic,
    Difficulty::Easy,
    Difficulty::Normal,
    Difficulty::Hard,
    Difficulty::Lunatic,
    Difficulty::Easy,
    Difficulty::Normal,
    Difficulty::Hard,
    Difficulty::Lunatic,
    Difficulty::Easy,
    Difficulty::Normal,
    Difficulty::Hard,
    Difficulty::Lunatic,
    Difficulty::Easy,
    Difficulty::Normal,
    Difficulty::Hard,
    Difficulty::Lunatic,
    Difficulty::Easy,
    Difficulty::Normal,
    Difficulty::Hard,
    Difficulty::Lunatic,
    Difficulty::Easy,
    Difficulty::Normal,
    Difficulty::Hard,
    Difficulty::Lunatic,
    Difficulty::Easy,
    Difficulty::Normal,
    Difficulty::Hard,
    Difficulty::Lunatic,
    Difficulty::Easy,
    Difficulty::Normal,
    Difficulty::Hard,
    Difficulty::Lunatic,
    Difficulty::Easy,
    Difficulty::Normal,
    Difficulty::Hard,
    Difficulty::Lunatic,
    Difficulty::Easy,
    Difficulty::Normal,
    Difficulty::Hard,
    Difficulty::Lunatic,
    Difficulty::Easy,
    Difficulty::Normal,
    Difficulty::Hard,
    Difficulty::Lunatic,
    Difficulty::Easy,
    Difficulty::Normal,
    Difficulty::Hard,
    Difficulty::Lunatic,
    Difficulty::Easy,
    Difficulty::Normal,
    Difficulty::Hard,
    Difficulty::Lunatic,
    Difficulty::Easy,
    Difficulty::Normal,
    Difficulty::Hard,
    Difficulty::Lunatic,
    Difficulty::Easy,
    Difficulty::Normal,
    Difficulty::Hard,
    Difficulty::Lunatic,
    Difficulty::Easy,
    Difficulty::Normal,
    Difficulty::Hard,
    Difficulty::Lunatic,
    Difficulty::Easy,
    Difficulty::Normal,
    Difficulty::Hard,
    Difficulty::Lunatic,
    Difficulty::Easy,
    Difficulty::Normal,
    Difficulty::Hard,
    Difficulty::Lunatic,
    Difficulty::Easy,
    Difficulty::Normal,
    Difficulty::Hard,
    Difficulty::Lunatic,
    Difficulty::Easy,
    Difficulty::Normal,
    Difficulty::Hard,
    Difficulty::Lunatic,
    Difficulty::Easy,
    Difficulty::Normal,
    Difficulty::Hard,
    Difficulty::Lunatic,
    Difficulty::Easy,
    Difficulty::Normal,
    Difficulty::Hard,
    Difficulty::Lunatic,
    Difficulty::Easy,
    Difficulty::Normal,
    Difficulty::Hard,
    Difficulty::Lunatic,
    Difficulty::Easy,
    Difficulty::Normal,
    Difficulty::Hard,
    Difficulty::Lunatic,
    Difficulty::Easy,
    Difficulty::Normal,
    Difficulty::Hard,
    Difficulty::Lunatic,
    Difficulty::Extra,
    Difficulty::Extra,
    Difficulty::Extra,
    Difficulty::Extra,
    Difficulty::Extra,
    Difficulty::Extra,
    Difficulty::Extra,
    Difficulty::Extra,
    Difficulty::Extra,
    Difficulty::Extra,
    Difficulty::Extra,
    Difficulty::Extra,
    Difficulty::Extra,
];

/// The stage of each card.
pub const STAGES: [Stage; 119] = [
    Stage::One,
    Stage::One,
    Stage::One,
    Stage::One,
    Stage::One,
    Stage::One,
    Stage::One,
    Stage::One,
    Stage::One,
    Stage::One,
    Stage::Two,
    Stage::Two,
    Stage::Two,
    Stage::Two,
    Stage::Two,
    Stage::Two,
    Stage::Two,
    Stage::Two,
    Stage::Two,
    Stage::Two,
    Stage::Two,
    Stage::Two,
    Stage::Three,
    Stage::Three,
    Stage::Three,
    Stage::Three,
    Stage::Three,
    Stage::Three,
    Stage::Three,
    Stage::Three,
    Stage::Three,
    Stage::Three,
    Stage::Three,
    Stage::Three,
    Stage::Three,
    Stage::Three,
    Stage::Three,
    Stage::Three,
    Stage::Three,
    Stage::Three,
    Stage::Three,
    Stage::Three,
    Stage::Four,
    Stage::Four,
    Stage::Four,
    Stage::Four,
    Stage::Four,
    Stage::Four,
    Stage::Four,
    Stage::Four,
    Stage::Four,
    Stage::Four,
    Stage::Four,
    Stage::Four,
    Stage::Four,
    Stage::Four,
    Stage::Four,
    Stage::Four,
    Stage::Five,
    Stage::Five,
    Stage::Five,
    Stage::Five,
    Stage::Five,
    Stage::Five,
    Stage::Five,
    Stage::Five,
    Stage::Five,
    Stage::Five,
    Stage::Five,
    Stage::Five,
    Stage::Five,
    Stage::Five,
    Stage::Five,
    Stage::Five,
    Stage::Five,
    Stage::Five,
    Stage::Five,
    Stage::Five,
    Stage::Six,
    Stage::Six,
    Stage::Six,
    Stage::Six,
    Stage::Six,
    Stage::Six,
    Stage::Six,
    Stage::Six,
    Stage::Six,
    Stage::Six,
    Stage::Six,
    Stage::Six,
    Stage::Six,
    Stage::Six,
    Stage::Six,
    Stage::Six,
    Stage::Six,
    Stage::Six,
    Stage::Six,
    Stage::Six,
    Stage::Six,
    Stage::Six,
    Stage::Six,
    Stage::Six,
    Stage::Six,
    Stage::Six,
    Stage::Six,
    Stage::Six,
    Stage::Extra,
    Stage::Extra,
    Stage::Extra,
    Stage::Extra,
    Stage::Extra,
    Stage::Extra,
    Stage::Extra,
    Stage::Extra,
    Stage::Extra,
    Stage::Extra,
    Stage::Extra,
    Stage::Extra,
    Stage::Extra,
];

/// Whether each card belongs to the midboss of its stage.
pub const MIDBOSS: [bool; 119] = [
    true,
    true,
    false,
    false,
    false,
    false,
    false,
    false,
    false,
    false,
    false,
    false,
    false,
    false,
    false,
    false,
    false,
    false,
    false,
    false,
    false,
    false,
    true,
    true,
    true,
    true,
    false,
    false,
    false,
    false,
    false,
    false,
    false,
    false,
    false,
    false,
    false,
    false,
    false,
    false,
    false,
    false,
    true,
    true,
    true,
    true,
    false,
    false,
    false,
    false,
    false,
    false,
    false,
    false,
    false,
    false,
    false,
    false,
    false,
    false,
    false,
    false,
    false,
    false,
    false,
    false,
    false,
    false,
    false,
    false,
    false,
    false,
    false,
    false,
    false,
    false,
    false,
    false,
    false,
    false,
    false,
    false,
    false,
    false,
    false,
    false,
    false,
    false,
    false,
    false,
    false,
    false,
    false,
    false,
    false,
    false,
    false,
    false,
    false,
    false,
    false,
    false,
    false,
    false,
    false,
    false,
    true,
    true,
    true,
    false,
    false,
    false,
    false,
    false,
    false,
    false,
    false,
    false,
    false,
];

/// What is known of the card with number `id`.
pub open spec fn card_info_of(id: int) -> SpellCardInfo
    recommends
        1 <= id <= CARD_COUNT,
{
    SpellCardInfo {
        name: NAMES[id - 1],
        difficulty: DIFFICULTIES[id - 1],
        stage: STAGES[id - 1],
        is_midboss: MIDBOSS[id - 1],
    }
}

/// The number of a spell card of the game, from 1 to 119.
#[derive(Debug, Clone, Copy, PartialEq, Eq, PartialOrd, Ord, Hash, Structural)]
pub struct SpellId(u16);

impl View for SpellId {
    type V = u32;

    closed spec fn view(&self) -> u32 {
        self.0 as u32
    }
}

impl SpellId {
    /// The number is one of the 119.
    #[verifier::type_invariant]
    pub closed spec fn in_range(&self) -> bool {
        1 <= self.0 <= CARD_COUNT
    }

    /// The card with number `id`, which is meaningful from 1 to 119.
    pub closed spec fn numbered(id: u32) -> SpellId {
        SpellId(id as u16)
    }

    /// The card with a number from 1 to 119 has that number, and no other
    /// card has it.
    pub proof fn lemma_numbered(id: u32)
        requires
            1 <= id <= CARD_COUNT,
        ensures
            Self::numbered(id)@ == id,
            forall|other: SpellId|
                other@ == id && 1 <= other@ <= CARD_COUNT ==> other == Self::numbered(id),
    {
        assert forall|other: SpellId| other@ == id && 1 <= other@ <= CARD_COUNT implies other
            == Self::numbered(id) by {
            assert(other.0 == id as u16);
        }
    }

    /// The card with number `value`, or why there is none.
    pub open spec fn checked(value: u32) -> Result<SpellId, InvalidCardId> {
        if 1 <= value <= CARD_COUNT {
            Ok(Self::numbered(value))
        } else {
            Err(InvalidCardId::InvalidCard(GameId::LoLK, value, CARD_COUNT))
        }
    }

    /// The card with number `value`.
    pub fn new(value: u32) -> (r: Result<SpellId, InvalidCardId>)
        ensures
            r == Self::checked(value),
            r is Ok <==> 1 <= value <= CARD_COUNT,
            r matches Ok(id) ==> id@ == value,
    {
        if 1 <= value && value <= CARD_COUNT {
            Ok(SpellId(value as u16))
        } else {
            Err(InvalidCardId::InvalidCard(GameId::LoLK, value, CARD_COUNT))
        }
    }

    /// What is known of the card.
    pub fn card_info(&self) -> (r: SpellCardInfo)
        ensures
            r == card_info_of(self@ as int),
            1 <= self@ <= CARD_COUNT,
    {
        proof {
            use_type_invariant(self);
        }
        let at = (self.0 - 1) as usize;
        SpellCardInfo {
            name: NAMES[at],
            difficulty: DIFFICULTIES[at],
            stage: STAGES[at],
            is_midboss: MIDBOSS[at],
        }
    }
}

impl From<SpellId> for u32 {
    fn from(value: SpellId) -> (r: u32) {
        value.0 as u32
    }
}

impl FromSpecImpl<SpellId> for u32 {
    open spec fn obeys_from_spec() -> bool {
        true
    }

    open spec fn from_spec(value: SpellId) -> u32 {
        value@
    }
}

impl TryFrom<u32> for SpellId {
    type Error = InvalidCardId;

    fn try_from(value: u32) -> (r: Result<Self, InvalidCardId>) {
        SpellId::new(value)
    }
}

impl TryFromSpecImpl<u32> for SpellId {
    open spec fn obeys_try_from_spec() -> bool {
        true
    }

    open spec fn try_from_spec(value: u32) -> Result<Self, InvalidCardId> {
        SpellId::checked(value)
    }
}

impl GameValue for SpellId {
    open spec fn spec_game_id(&self) -> GameId {
        GameId::LoLK
    }

    open spec fn spec_raw_id(&self) -> u32 {
        self@
    }

    open spec fn spec_card_info(&self) -> SpellCardInfo {
        card_info_of(self@ as int)
    }

    open spec fn spec_from_raw(id: u32, game: GameId) -> Result<Self, InvalidCardId> {
        if game == GameId::LoLK {
            SpellId::checked(id)
        } else {
            Err(InvalidCardId::UnexpectedGameId(game, GameId::LoLK))
        }
    }

    fn game_id(&self) -> (r: GameId) {
        GameId::LoLK
    }

    fn raw_id(&self) -> (r: u32) {
        self.0 as u32
    }

    fn from_raw(id: u32, game: GameId) -> (r: Result<Self, InvalidCardId>) {
        if game == GameId::LoLK {
            SpellId::new(id)
        } else {
            Err(InvalidCardId::UnexpectedGameId(game, GameId::LoLK))
        }
    }

    fn card_info(&self) -> (r: SpellCardInfo) {
        SpellId::card_info(self)
    }

    fn name(&self) -> (r: &'static str) {
        SpellId::card_info(self).name
    }
}

/// Legacy of Lunatic Kingdom.
pub struct Touhou15;

impl Game for Touhou15 {
    type SpellID = SpellId;
}

} // verus!
