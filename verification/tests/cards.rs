use touhou_tracker::game_id::{GameId, InvalidGameId, InvalidGameNumber};
use touhou_tracker::spell_card::{GameValue, InvalidCardId, SpellCard};
use touhou_tracker::text::decimal;
use touhou_tracker::th15::{SpellId, Touhou15, CARD_COUNT, DIFFICULTIES, MIDBOSS, NAMES, STAGES};
use touhou_tracker::types::{Difficulty, Stage};

#[test]
fn game_numbers() {
    assert_eq!(u8::from(GameId::PCB), 7);
    assert_eq!(u8::from(GameId::IN), 8);
    assert_eq!(u8::from(GameId::LoLK), 15);
    assert_eq!(u16::from(GameId::IN), 8);
    assert_eq!(GameId::try_from(7u8), Ok(GameId::PCB));
    assert_eq!(GameId::try_from(8u8), Ok(GameId::IN));
    assert_eq!(GameId::try_from(15u8), Ok(GameId::LoLK));
    assert_eq!(GameId::try_from(9u8), Err(InvalidGameId(9)));
    assert_eq!(InvalidGameId(9).value(), 9);
    for v in 0..=255u8 {
        match GameId::try_from(v) {
            Ok(game) => assert_eq!(u8::from(game), v),
            Err(e) => assert_eq!(e, InvalidGameId(v)),
        }
    }
    assert_eq!(GameId::from_u16(15), Ok(GameId::LoLK));
    assert_eq!(GameId::from_u16(6), Err(InvalidGameNumber::Unknown(InvalidGameId(6))));
    assert_eq!(GameId::from_u16(256 + 7), Err(InvalidGameNumber::TooLarge(263)));
}

#[test]
fn game_names() {
    assert_eq!(GameId::PCB.numbered_name(), "Touhou 7");
    assert_eq!(GameId::PCB.abbreviation(), "PCB");
    assert_eq!(GameId::PCB.full_name(), "Perfect Cherry Blossom");
    assert_eq!(GameId::IN.numbered_name(), "Touhou 8");
    assert_eq!(GameId::IN.abbreviation(), "IN");
    assert_eq!(GameId::IN.full_name(), "Imperishable Night");
    assert_eq!(GameId::LoLK.numbered_name(), "Touhou 15");
    assert_eq!(GameId::LoLK.abbreviation(), "LoLK");
    assert_eq!(GameId::LoLK.full_name(), "Legacy of Lunatic Kingdom");
}

#[test]
fn spell_id_range() {
    assert_eq!(CARD_COUNT, 119);
    assert_eq!(NAMES.len(), 119);
    assert_eq!(DIFFICULTIES.len(), 119);
    assert_eq!(STAGES.len(), 119);
    assert_eq!(MIDBOSS.len(), 119);
    assert_eq!(SpellId::new(0), Err(InvalidCardId::InvalidCard(GameId::LoLK, 0, 119)));
    assert_eq!(SpellId::new(120), Err(InvalidCardId::InvalidCard(GameId::LoLK, 120, 119)));
    assert_eq!(
        SpellId::try_from(70_000u32),
        Err(InvalidCardId::InvalidCard(GameId::LoLK, 70_000, 119))
    );
    assert_eq!(
        SpellId::try_from(65_537u32),
        Err(InvalidCardId::InvalidCard(GameId::LoLK, 65_537, 119))
    );
    for id in 1..=119u32 {
        let card = SpellId::new(id).unwrap();
        assert_eq!(u32::from(card), id);
        assert_eq!(card.raw_id(), id);
        assert_eq!(card.game_id(), GameId::LoLK);
        assert_eq!(SpellId::try_from(id), Ok(card));
        assert_eq!(SpellId::from_raw(id, GameId::LoLK), Ok(card));
    }
    assert!(SpellId::new(3).unwrap() < SpellId::new(4).unwrap());
}

#[test]
fn spell_id_of_another_game() {
    assert_eq!(
        SpellId::from_raw(5, GameId::PCB),
        Err(InvalidCardId::UnexpectedGameId(GameId::PCB, GameId::LoLK))
    );
    assert_eq!(
        SpellId::from_raw(0, GameId::IN),
        Err(InvalidCardId::UnexpectedGameId(GameId::IN, GameId::LoLK))
    );
    assert_eq!(
        SpellId::from_raw(0, GameId::LoLK),
        Err(InvalidCardId::InvalidCard(GameId::LoLK, 0, 119))
    );
}

#[test]
fn spell_card_table_entries() {
    let info = SpellId::new(1).unwrap().card_info();
    assert_eq!(info.name, "Assassin's Bullet \"Speed Strike\"");
    assert_eq!(info.difficulty, Difficulty::Hard);
    assert_eq!(info.stage, Stage::One);
    assert!(info.is_midboss);
    let info = SpellId::new(2).unwrap().card_info();
    assert_eq!(info.name, "Assassin's Bullet \"Speed Strike\"");
    assert_eq!(info.difficulty, Difficulty::Lunatic);
    let info = SpellId::new(6).unwrap().card_info();
    assert_eq!(info.name, "Bullet Sign \"The Eagle Has Shot Its Target\"");
    assert_eq!((info.difficulty, info.stage, info.is_midboss), (Difficulty::Lunatic, Stage::One, false));
    let info = SpellId::new(9).unwrap().card_info();
    assert_eq!(info.name, "Gun Sign \"Lunatic Gun\"");
    assert_eq!(info.difficulty, Difficulty::Hard);
    let info = SpellId::new(22).unwrap().card_info();
    assert_eq!(info.name, "Moon-Viewing Sak\u{e9} \"Lunatic September\"");
    assert_eq!((info.difficulty, info.stage), (Difficulty::Lunatic, Stage::Two));
    let info = SpellId::new(45).unwrap().card_info();
    assert_eq!(info.name, "Orb Sign \"Disorderly Flock's Reverse Curse\"");
    assert_eq!((info.difficulty, info.stage, info.is_midboss), (Difficulty::Hard, Stage::Four, true));
    let info = SpellId::new(78).unwrap().card_info();
    assert_eq!(info.name, "\"Apollo Hoax Theory\"");
    assert_eq!((info.difficulty, info.stage), (Difficulty::Lunatic, Stage::Five));
    let info = SpellId::new(106).unwrap().card_info();
    assert_eq!(info.name, "Pure Sign \"A Pristine Danmaku Hell\"");
    assert_eq!((info.difficulty, info.stage), (Difficulty::Lunatic, Stage::Six));
    let info = SpellId::new(107).unwrap().card_info();
    assert_eq!(info.name, "Butterfly \"Butterfly Supplantation\"");
    assert_eq!((info.difficulty, info.stage, info.is_midboss), (Difficulty::Extra, Stage::Extra, true));
    let info = SpellId::new(110).unwrap().card_info();
    assert_eq!(info.name, "Otherworld \"Oumagatoki\"");
    assert!(!info.is_midboss);
    let info = SpellId::new(119).unwrap().card_info();
    assert_eq!(info.name, "\"First and Last Nameless Danmaku\"");
    assert_eq!((info.difficulty, info.stage, info.is_midboss), (Difficulty::Extra, Stage::Extra, false));
}

#[test]
fn spell_card_table_shape() {
    let mut per_difficulty = [0usize; 5];
    let mut midboss = 0;
    for id in 1..=119u32 {
        let info = SpellId::new(id).unwrap().card_info();
        let slot = match info.difficulty {
            Difficulty::Easy => 0,
            Difficulty::Normal => 1,
            Difficulty::Hard => 2,
            Difficulty::Lunatic => 3,
            Difficulty::Extra => 4,
            Difficulty::Phantasm => panic!("card {} on Phantasm", id),
        };
        per_difficulty[slot] += 1;
        assert_eq!(info.stage == Stage::Extra, info.difficulty == Difficulty::Extra);
        assert!(info.stage != Stage::Phantasm);
        if info.is_midboss {
            midboss += 1;
        }
    }
    assert_eq!(per_difficulty, [26, 26, 27, 27, 13]);
    assert_eq!(midboss, 2 + 4 + 4 + 3);
}

#[test]
fn spell_card_wrapper() {
    let id = SpellId::new(30).unwrap();
    let card: SpellCard<Touhou15> = SpellCard::new(id);
    assert_eq!(card.id(), 30);
    assert_eq!(card.name(), "Dream Sign \"Eternally Anxious Dream\"");
    assert_eq!(card.difficulty(), Difficulty::Lunatic);
    assert_eq!(card.stage(), Stage::Three);
    assert!(!card.is_midboss());
    assert_eq!(card.info().name, id.name());
    assert_eq!(*card.as_ref(), id);
    assert_eq!(*card, id);
    assert_eq!(card.raw_id(), 30);
    assert_eq!(card.unwrap(), id);
}

#[test]
fn spell_card_in_words() {
    let card: SpellCard<Touhou15> = SpellCard::new(SpellId::new(7).unwrap());
    assert_eq!(card.to_text(), "LoLK #7: Gun Sign \"Lunatic Gun\"");
    let card: SpellCard<Touhou15> = SpellCard::new(SpellId::new(119).unwrap());
    assert_eq!(card.to_text(), "LoLK #119: \"First and Last Nameless Danmaku\"");
}

#[test]
fn card_and_game_error_messages() {
    assert_eq!(InvalidGameId(9).message(), "Invalid game ID 9");
    assert_eq!(InvalidGameId(0).message(), "Invalid game ID 0");
    assert_eq!(InvalidGameId(255).message(), "Invalid game ID 255");
    assert_eq!(
        InvalidCardId::InvalidCard(GameId::LoLK, 120, 119).message(),
        "Invalid card ID 120 for LoLK (valid values are 1..=119)"
    );
    assert_eq!(
        InvalidCardId::InvalidCard(GameId::PCB, 4_294_967_295, 141).message(),
        "Invalid card ID 4294967295 for PCB (valid values are 1..=141)"
    );
    assert_eq!(InvalidCardId::InvalidGameId(100).message(), "Invalid game ID 100");
    assert_eq!(
        InvalidCardId::UnexpectedGameId(GameId::IN, GameId::LoLK).message(),
        "Incorrect game ID IN (expected LoLK)"
    );
}

#[test]
fn decimal_text() {
    assert_eq!(decimal(0), "0");
    assert_eq!(decimal(9), "9");
    assert_eq!(decimal(10), "10");
    assert_eq!(decimal(1_234_567_890), "1234567890");
    assert_eq!(decimal(u32::MAX), "4294967295");
    for n in [1u32, 19, 100, 101, 999, 1000, 65_535, 70_000] {
        assert_eq!(decimal(n), n.to_string());
    }
}
