use touhou_tracker::bytes::ByteReader;
use touhou_tracker::game_id::GameId;
use touhou_tracker::records::SpellCardData;
use touhou_tracker::segment::Segment;
use touhou_tracker::snapshot::{CardSnapshot, Snapshot};
use touhou_tracker::spell_card::InvalidCardId;
use touhou_tracker::timestamp::Timestamp;
use touhou_tracker::types::{Difficulty, ShotType, Stage};
use touhou_tracker::update::{CardAttemptInfo, UpdateStream};

fn at(seconds: i128) -> Timestamp {
    Timestamp::from_unix_nanos(seconds * 1_000_000_000).unwrap()
}

fn empty(seconds: i128) -> Snapshot {
    Snapshot::new(at(seconds), ShotType::ReimuA, Difficulty::Normal, Stage::Three, None)
}

/// A snapshot with one entry per (card, shot, attempts, captures).
fn snapshot(seconds: i128, cards: &[(u32, ShotType, u32, u32)]) -> Snapshot {
    let mut s = empty(seconds);
    for (card, shot, attempts, captures) in cards {
        s = s.with_card(*card, *shot, Difficulty::Hard, *attempts, *captures);
    }
    s
}

fn card(attempts: u32, captures: u32) -> CardSnapshot {
    CardSnapshot {
        card_id: 1,
        shot_type: ShotType::ReimuA,
        difficulty: Difficulty::Easy,
        timestamp: at(0),
        attempts,
        captures,
    }
}

fn spell_card_data(stored_id: u16, attempts: [u16; 7], captures: [u16; 7]) -> SpellCardData {
    let mut b = vec![0u8; 4 + 28];
    b.extend_from_slice(&stored_id.to_le_bytes());
    b.extend_from_slice(&[0u8; 50]);
    for v in attempts.iter().chain(captures.iter()) {
        b.extend_from_slice(&v.to_le_bytes());
    }
    let mut src = ByteReader::new(&b);
    SpellCardData::read_from(&mut src).unwrap()
}

#[test]
fn delta_of_one_card() {
    let info = CardAttemptInfo::between(&card(10, 2), &card(12, 3)).unwrap();
    assert_eq!(info.delta_attempts(), 2);
    assert_eq!(info.delta_captures(), 1);
    assert!(info.is_capture());
}

#[test]
fn delta_without_capture_is_a_miss() {
    let info = CardAttemptInfo::between(&card(10, 2), &card(11, 2)).unwrap();
    assert_eq!((info.delta_attempts(), info.delta_captures(), info.is_capture()), (1, 0, false));
}

#[test]
fn delta_captures_are_clamped_to_attempts() {
    let info = CardAttemptInfo::between(&card(10, 2), &card(12, 9)).unwrap();
    assert_eq!((info.delta_attempts(), info.delta_captures(), info.is_capture()), (2, 2, true));
    let info = CardAttemptInfo::between(&card(0, 0), &card(u32::MAX, u32::MAX)).unwrap();
    assert_eq!((info.delta_attempts(), info.delta_captures()), (u32::MAX, u32::MAX));
}

#[test]
fn clamping_is_told() {
    assert!(CardAttemptInfo::clamped(&card(10, 2), &card(12, 9)));
    assert!(!CardAttemptInfo::clamped(&card(10, 2), &card(12, 4)));
    assert!(!CardAttemptInfo::clamped(&card(10, 2), &card(12, 3)));
    assert!(!CardAttemptInfo::clamped(&card(10, 2), &card(12, 0)));
    assert!(!CardAttemptInfo::clamped(&card(10, 2), &card(10, 9)));
    assert!(!CardAttemptInfo::clamped(&card(10, 2), &card(9, 9)));
}

#[test]
fn delta_captures_that_went_down_count_as_none() {
    let info = CardAttemptInfo::between(&card(10, 5), &card(13, 1)).unwrap();
    assert_eq!((info.delta_attempts(), info.delta_captures(), info.is_capture()), (3, 0, false));
}

#[test]
fn no_delta_without_more_attempts() {
    assert!(CardAttemptInfo::between(&card(10, 2), &card(10, 3)).is_none());
    assert!(CardAttemptInfo::between(&card(10, 2), &card(9, 3)).is_none());
    assert!(CardAttemptInfo::between(&card(0, 0), &card(0, 0)).is_none());
}

#[test]
fn snapshot_insert_and_lookup() {
    let s = snapshot(
        5,
        &[(1, ShotType::ReimuA, 3, 1), (2, ShotType::ReimuA, 4, 2), (1, ShotType::ReimuB, 5, 3)],
    );
    assert_eq!(s.cards().len(), 3);
    let c = s.get_card(ShotType::ReimuB, 1).unwrap();
    assert_eq!((c.card_id, c.shot_type, c.attempts, c.captures), (1, ShotType::ReimuB, 5, 3));
    assert_eq!(c.timestamp, at(5));
    assert_eq!(c.difficulty, Difficulty::Hard);
    assert_eq!(c.card_id(), 1);
    assert!(s.get_card(ShotType::ReimuB, 2).is_none());
    assert!(s.get_card(ShotType::SakuyaA, 1).is_none());
    assert_eq!(s.timestamp(), at(5));
    assert_eq!(s.shot_type(), ShotType::ReimuA);
    assert_eq!(s.difficulty(), Difficulty::Normal);
    assert_eq!(s.stage(), Stage::Three);
    assert_eq!(s.practice_no(), None);
}

#[test]
fn snapshot_insert_replaces_in_place() {
    let s = snapshot(
        5,
        &[
            (1, ShotType::ReimuA, 3, 1),
            (2, ShotType::ReimuA, 4, 2),
            (1, ShotType::ReimuA, 30, 10),
        ],
    );
    let keys: Vec<(u32, u32)> = s.cards().iter().map(|c| (c.card_id, c.attempts)).collect();
    assert_eq!(keys, vec![(1, 30), (2, 4)]);
}

#[test]
fn snapshot_duplicate_is_equal() {
    let s = snapshot(5, &[(1, ShotType::ReimuA, 3, 1), (2, ShotType::MarisaB, 4, 2)]);
    let d = s.duplicate();
    assert_eq!(d.cards(), s.cards());
    assert_eq!(d.timestamp(), s.timestamp());
    assert_eq!(d.stage(), s.stage());
}

#[test]
fn snapshot_card_name_lookup() {
    let names = ["one", "two"];
    let s = snapshot(
        0,
        &[(1, ShotType::ReimuA, 0, 0), (2, ShotType::ReimuA, 0, 0), (3, ShotType::ReimuA, 0, 0)],
    );
    assert_eq!(s.cards()[0].card_name(&names), Some("one"));
    assert_eq!(s.cards()[1].card_name(&names), Some("two"));
    assert_eq!(s.cards()[2].card_name(&names), None);
    let zero = CardSnapshot { card_id: 0, ..card(0, 0) };
    assert_eq!(zero.card_name(&names), None);
}

#[test]
fn snapshot_from_spell_card_record() {
    let data = spell_card_data(40, [1, 2, 3, 4, 5, 6, 21], [0, 1, 0, 2, 0, 3, 6]);
    let s = empty(9).with_spell_card(&data, Difficulty::Lunatic);
    assert_eq!(s.cards().len(), 6);
    let shots: Vec<ShotType> = s.cards().iter().map(|c| c.shot_type).collect();
    assert_eq!(
        shots,
        vec![
            ShotType::ReimuA,
            ShotType::ReimuB,
            ShotType::MarisaA,
            ShotType::MarisaB,
            ShotType::SakuyaA,
            ShotType::SakuyaB
        ]
    );
    let c = s.get_card(ShotType::MarisaB, 41).unwrap();
    assert_eq!((c.attempts, c.captures, c.difficulty), (4, 2, Difficulty::Lunatic));
    assert_eq!(c.timestamp, at(9));
}

#[test]
fn snapshot_from_segments() {
    let segments = vec![
        Segment::Header,
        Segment::SpellCard(spell_card_data(1, [1, 0, 0, 0, 0, 0, 1], [1, 0, 0, 0, 0, 0, 1])),
        Segment::LastName([0; 12]),
        Segment::SpellCard(spell_card_data(0, [7, 0, 0, 0, 0, 9, 16], [2, 0, 0, 0, 0, 0, 2])),
    ];
    let table = [Difficulty::Easy, Difficulty::Normal];
    let s = empty(1).with_segments(&segments, &table).unwrap();
    assert_eq!(s.cards().len(), 12);
    assert_eq!(s.cards()[0].card_id, 2);
    assert_eq!(s.cards()[0].difficulty, Difficulty::Normal);
    let c = s.get_card(ShotType::SakuyaB, 1).unwrap();
    assert_eq!((c.attempts, c.captures, c.difficulty), (9, 0, Difficulty::Easy));
    let short = [Difficulty::Easy];
    assert_eq!(
        empty(1).with_segments(&segments, &short).err(),
        Some(InvalidCardId::InvalidCard(GameId::PCB, 2, 1))
    );
    assert_eq!(empty(1).with_segments(&[], &short).unwrap().cards().len(), 0);
}

#[test]
fn update_reports_one_attempted_card() {
    let prev = snapshot(100, &[(5, ShotType::ReimuA, 10, 2), (6, ShotType::ReimuA, 1, 1)]);
    let new = snapshot(101, &[(5, ShotType::ReimuA, 12, 3), (6, ShotType::ReimuA, 1, 1)]);
    let mut stream = UpdateStream::new(prev);
    let update = stream.update(new).unwrap();
    assert_eq!(update.events().len(), 1);
    let event = &update.events()[0];
    assert_eq!(event.timestamp(), at(101));
    assert_eq!(event.shot_type(), ShotType::ReimuA);
    assert_eq!(event.stage(), Stage::Three);
    assert_eq!(event.difficulty(), Difficulty::Normal);
    assert_eq!(event.practice_no(), None);
    assert_eq!(event.attempted_cards().len(), 1);
    let (card_id, info) = &event.attempted_cards()[0];
    assert_eq!(*card_id, 5);
    assert_eq!(info.delta_attempts(), 2);
    assert_eq!(info.delta_captures(), 1);
    assert!(info.is_capture());
    let shown = update.cur_snapshot().get_card(event.shot_type(), *card_id).unwrap();
    assert_eq!((shown.attempts, shown.captures), (12, 3));
    assert_eq!(stream.cur_snapshot().unwrap().timestamp(), at(101));
    assert_eq!(stream.cur_snapshot().unwrap().cards(), update.cur_snapshot().cards());
}

#[test]
fn update_with_identical_snapshots_reports_nothing() {
    let cards = [
        (1, ShotType::ReimuA, 10, 2),
        (2, ShotType::ReimuA, 0, 0),
        (1, ShotType::SakuyaB, 7, 7),
    ];
    let mut stream = UpdateStream::new(snapshot(100, &cards));
    assert!(stream.update(snapshot(101, &cards)).is_none());
    assert_eq!(stream.cur_snapshot().unwrap().timestamp(), at(100));
    assert!(stream.update(snapshot(102, &cards)).is_none());
    assert_eq!(stream.cur_snapshot().unwrap().timestamp(), at(100));
}

#[test]
fn update_twice_with_the_same_snapshot() {
    let prev = snapshot(100, &[(5, ShotType::ReimuA, 10, 2)]);
    let cards = [(5, ShotType::ReimuA, 11, 2)];
    let mut stream = UpdateStream::new(prev);
    assert!(stream.update(snapshot(101, &cards)).is_some());
    assert_eq!(stream.cur_snapshot().unwrap().timestamp(), at(101));
    assert!(stream.update(snapshot(101, &cards)).is_none());
    assert_eq!(stream.cur_snapshot().unwrap().timestamp(), at(101));
    assert_eq!(stream.cur_snapshot().unwrap().cards()[0].attempts, 11);
}

#[test]
fn update_keeps_the_baseline_over_idle_polls() {
    let mut stream = UpdateStream::new(snapshot(100, &[(5, ShotType::ReimuA, 10, 2)]));
    // captures alone do not make an event, and do not move the baseline
    assert!(stream.update(snapshot(101, &[(5, ShotType::ReimuA, 10, 3)])).is_none());
    assert_eq!(stream.cur_snapshot().unwrap().cards()[0].captures, 2);
    let update = stream.update(snapshot(102, &[(5, ShotType::ReimuA, 11, 3)])).unwrap();
    let (_, info) = &update.events()[0].attempted_cards()[0];
    assert_eq!((info.delta_attempts(), info.delta_captures()), (1, 1));
}

#[test]
fn update_from_the_initial_state_holds_the_first_snapshot() {
    let mut stream = UpdateStream::initial();
    assert!(stream.cur_snapshot().is_none());
    assert!(stream.update(snapshot(100, &[(5, ShotType::ReimuA, 10, 2)])).is_none());
    assert_eq!(stream.cur_snapshot().unwrap().timestamp(), at(100));
    assert!(stream.update(snapshot(101, &[(5, ShotType::ReimuA, 10, 2)])).is_none());
    assert_eq!(stream.cur_snapshot().unwrap().timestamp(), at(100));
    assert!(stream.update(snapshot(102, &[(5, ShotType::ReimuA, 13, 2)])).is_some());
}

#[test]
fn update_ignores_cards_without_a_baseline() {
    let mut stream = UpdateStream::new(snapshot(100, &[(5, ShotType::ReimuA, 10, 2)]));
    let new = snapshot(101, &[(5, ShotType::ReimuA, 10, 2), (6, ShotType::ReimuA, 4, 1)]);
    assert!(stream.update(new).is_none());
    assert_eq!(stream.cur_snapshot().unwrap().cards().len(), 1);
}

#[test]
fn update_groups_cards_by_shot_type_in_order() {
    let prev = snapshot(
        100,
        &[
            (9, ShotType::SakuyaB, 1, 0),
            (3, ShotType::ReimuB, 1, 0),
            (2, ShotType::SakuyaB, 1, 0),
            (1, ShotType::ReimuB, 1, 0),
            (4, ShotType::MarisaA, 1, 0),
        ],
    );
    let new = Snapshot::new(at(200), ShotType::MarisaA, Difficulty::Extra, Stage::Extra, Some(3))
        .with_card(1, ShotType::ReimuB, Difficulty::Easy, 2, 5)
        .with_card(9, ShotType::SakuyaB, Difficulty::Easy, 4, 1)
        .with_card(4, ShotType::MarisaA, Difficulty::Easy, 1, 0)
        .with_card(3, ShotType::ReimuB, Difficulty::Easy, 3, 0)
        .with_card(2, ShotType::SakuyaB, Difficulty::Easy, 2, 0);
    let mut stream = UpdateStream::new(prev);
    let update = stream.update(new).unwrap();
    let shots: Vec<ShotType> = update.events().iter().map(|e| e.shot_type()).collect();
    assert_eq!(shots, vec![ShotType::ReimuB, ShotType::SakuyaB]);
    let first: Vec<(u32, u32, u32, bool)> = update.events()[0]
        .attempted_cards()
        .iter()
        .map(|(id, i)| (*id, i.delta_attempts(), i.delta_captures(), i.is_capture()))
        .collect();
    assert_eq!(first, vec![(1, 1, 1, true), (3, 2, 0, false)]);
    let second: Vec<(u32, u32, u32, bool)> = update.events()[1]
        .attempted_cards()
        .iter()
        .map(|(id, i)| (*id, i.delta_attempts(), i.delta_captures(), i.is_capture()))
        .collect();
    assert_eq!(second, vec![(9, 3, 1, true), (2, 1, 0, false)]);
    for event in update.events() {
        assert_eq!(event.timestamp(), at(200));
        assert_eq!(event.stage(), Stage::Extra);
        assert_eq!(event.difficulty(), Difficulty::Extra);
        assert_eq!(event.practice_no(), Some(3));
        for (_, info) in event.attempted_cards() {
            assert!(info.delta_captures() <= info.delta_attempts());
            assert!(info.delta_attempts() > 0);
        }
    }
}
