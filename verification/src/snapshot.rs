//! Snapshots of the attempt and capture counters of every spell card at one
//! moment.

use vstd::prelude::*;
use crate::game_id::GameId;
use crate::records::{SpellCardData, SpellCardDataView};
use crate::segment::{views, Segment, SegmentView};
use crate::spell_card::InvalidCardId;
use crate::timestamp::Timestamp;
use crate::types::{Difficulty, ShotType, Stage};

verus! {

/// The counters of one card played with one shot type, at one moment.
#[derive(Debug, Clone, Copy, PartialEq, Eq, Structural)]
pub struct CardSnapshot {
    /// The number of the card, counted from one.
    pub card_id: u32,
    pub shot_type: ShotType,
    /// The difficulty on which the card appears.
    pub difficulty: Difficulty,
    pub timestamp: Timestamp,
    pub attempts: u32,
    pub captures: u32,
}

impl CardSnapshot {
    /// Whether this is the entry of card `card_id` with shot type
    /// `shot_type`.
    pub open spec fn has_key(self, shot_type: ShotType, card_id: u32) -> bool {
        self.shot_type == shot_type && self.card_id == card_id
    }

    /// The number of the card, counted from one.
    pub fn card_id(&self) -> (r: u32)
        ensures
            r == self.card_id,
    {
        self.card_id
    }

    /// The name of the card in `names`, a table with one entry per card in
    /// the order of their numbers; `None` if the table has no such card.
    pub fn card_name(&self, names: &[&'static str]) -> (r: Option<&'static str>)
        ensures
            r == if 1 <= self.card_id <= names@.len() {
                Some(names@[self.card_id - 1])
            } else {
                None
            },
    {
        if self.card_id >= 1 && ((self.card_id - 1) as usize) < names.len() {
            Some(names[(self.card_id - 1) as usize])
        } else {
            None
        }
    }
}

/// The position of the first entry of `cards` at or behind `from` that has
/// the key (`shot_type`, `card_id`); the length of `cards` if there is none.
pub open spec fn index_of(cards: Seq<CardSnapshot>, shot_type: ShotType, card_id: u32, from: int) -> int
    decreases cards.len() - from,
{
    if from < 0 || from >= cards.len() {
        cards.len() as int
    } else if cards[from].has_key(shot_type, card_id) {
        from
    } else {
        index_of(cards, shot_type, card_id, from + 1)
    }
}

/// The entry of `cards` with the key (`shot_type`, `card_id`).
pub open spec fn find(cards: Seq<CardSnapshot>, shot_type: ShotType, card_id: u32) -> Option<
    CardSnapshot,
> {
    let at = index_of(cards, shot_type, card_id, 0);
    if at < cards.len() {
        Some(cards[at])
    } else {
        None
    }
}

/// No two entries of `cards` have the same key.
pub open spec fn distinct_keys(cards: Seq<CardSnapshot>) -> bool {
    forall|i: int, j: int|
        0 <= i < j < cards.len() ==> !(#[trigger] cards[i]).has_key(
            (#[trigger] cards[j]).shot_type,
            cards[j].card_id,
        )
}

/// `cards` with `card` in the place of the entry that has its key, or at
/// the end if there is no such entry.
pub open spec fn put(cards: Seq<CardSnapshot>, card: CardSnapshot) -> Seq<CardSnapshot> {
    let at = index_of(cards, card.shot_type, card.card_id, 0);
    if at < cards.len() {
        cards.update(at, card)
    } else {
        cards.push(card)
    }
}

/// What `index_of` finds is the first entry with the key.
pub proof fn lemma_index_of(cards: Seq<CardSnapshot>, shot_type: ShotType, card_id: u32, from: int)
    requires
        0 <= from <= cards.len(),
    ensures
        from <= index_of(cards, shot_type, card_id, from) <= cards.len(),
        index_of(cards, shot_type, card_id, from) < cards.len() ==> cards[index_of(
            cards,
            shot_type,
            card_id,
            from,
        )].has_key(shot_type, card_id),
        forall|j: int|
            from <= j < index_of(cards, shot_type, card_id, from) ==> !(#[trigger] cards[j]).has_key(
                shot_type,
                card_id,
            ),
    decreases cards.len() - from,
{
    if from < cards.len() && !cards[from].has_key(shot_type, card_id) {
        lemma_index_of(cards, shot_type, card_id, from + 1);
    }
}

/// Where keys are distinct, an entry is found under its own key.
pub proof fn lemma_find_own(cards: Seq<CardSnapshot>, i: int)
    requires
        distinct_keys(cards),
        0 <= i < cards.len(),
    ensures
        find(cards, cards[i].shot_type, cards[i].card_id) == Some(cards[i]),
{
    lemma_index_of(cards, cards[i].shot_type, cards[i].card_id, 0);
}

/// Putting an entry keeps the keys distinct, makes it the entry found under
/// its key, and leaves what is found under every other key as it was.
pub proof fn lemma_put(cards: Seq<CardSnapshot>, card: CardSnapshot)
    requires
        distinct_keys(cards),
    ensures
        distinct_keys(put(cards, card)),
        find(put(cards, card), card.shot_type, card.card_id) == Some(card),
        forall|shot_type: ShotType, card_id: u32|
            !card.has_key(shot_type, card_id) ==> #[trigger] find(
                put(cards, card),
                shot_type,
                card_id,
            ) == find(cards, shot_type, card_id),
{
    let after = put(cards, card);
    let at = index_of(cards, card.shot_type, card.card_id, 0);
    lemma_index_of(cards, card.shot_type, card.card_id, 0);
    assert forall|i: int, j: int| 0 <= i < j < after.len() implies !(#[trigger] after[i]).has_key(
        (#[trigger] after[j]).shot_type,
        after[j].card_id,
    ) by {
        if at < cards.len() {
            if i == at {
                assert(!cards[i].has_key(cards[j].shot_type, cards[j].card_id));
            } else if j == at {
                assert(!cards[i].has_key(cards[j].shot_type, cards[j].card_id));
            } else {
                assert(!cards[i].has_key(cards[j].shot_type, cards[j].card_id));
            }
        } else {
            if j < cards.len() {
                assert(!cards[i].has_key(cards[j].shot_type, cards[j].card_id));
            } else {
                assert(!cards[i].has_key(card.shot_type, card.card_id));
            }
        }
    }
    let placed = if at < cards.len() {
        at
    } else {
        cards.len() as int
    };
    assert(after[placed] == card);
    lemma_index_of(after, card.shot_type, card.card_id, 0);
    assert forall|shot_type: ShotType, card_id: u32|
        !card.has_key(shot_type, card_id) implies #[trigger] find(after, shot_type, card_id)
        == find(cards, shot_type, card_id) by {
        lemma_index_of(cards, shot_type, card_id, 0);
        lemma_index_of(after, shot_type, card_id, 0);
        let a = index_of(cards, shot_type, card_id, 0);
        let b = index_of(after, shot_type, card_id, 0);
        if a < cards.len() {
            assert(after[a] == cards[a]);
            assert(b <= a);
        }
        if b < after.len() {
            assert(b != placed);
            assert(after[b] == cards[b]);
            assert(a <= b);
        }
    }
}

/// After the first `n` shot types of a spell card record were put among
/// entries with distinct keys, the keys are still distinct, each of those
/// shot types finds the entry that the record gives for it, and the entries
/// of other cards are found as before.
pub proof fn lemma_put_shots(
    snapshot: SnapshotView,
    cards: Seq<CardSnapshot>,
    data: SpellCardDataView,
    difficulty: Difficulty,
    n: int,
)
    requires
        distinct_keys(cards),
        0 <= n <= 6,
    ensures
        distinct_keys(snapshot.put_shots(cards, data, difficulty, n)),
        forall|k: int|
            0 <= k < n ==> find(
                snapshot.put_shots(cards, data, difficulty, n),
                #[trigger] ShotType::at(k),
                data.card_id as u32,
            ) == Some(snapshot.entry_of(data, difficulty, k)),
        forall|shot_type: ShotType, card_id: u32|
            card_id != data.card_id as u32 ==> #[trigger] find(
                snapshot.put_shots(cards, data, difficulty, n),
                shot_type,
                card_id,
            ) == find(cards, shot_type, card_id),
    decreases n,
{
    if n > 0 {
        lemma_put_shots(snapshot, cards, data, difficulty, n - 1);
        let before = snapshot.put_shots(cards, data, difficulty, n - 1);
        let entry = snapshot.entry_of(data, difficulty, n - 1);
        lemma_put(before, entry);
        assert forall|k: int| 0 <= k < n implies find(
            put(before, entry),
            #[trigger] ShotType::at(k),
            data.card_id as u32,
        ) == Some(snapshot.entry_of(data, difficulty, k)) by {
            if k < n - 1 {
                assert(ShotType::at(k) != ShotType::at(n - 1));
                assert(!entry.has_key(ShotType::at(k), data.card_id as u32));
            }
        }
    }
}

/// An error met while going through segments is the outcome however many
/// more segments follow.
pub proof fn lemma_with_segments_error(
    start: SnapshotView,
    segments: Seq<SegmentView>,
    difficulties: Seq<Difficulty>,
    n: int,
    m: int,
)
    requires
        n <= m,
        start.with_segments(segments, difficulties, n) is Err,
    ensures
        start.with_segments(segments, difficulties, m) == start.with_segments(
            segments,
            difficulties,
            n,
        ),
    decreases m - n,
{
    if n < m {
        lemma_with_segments_error(start, segments, difficulties, n, m - 1);
    }
}

/// The counters of all cards at one moment, together with the run that was
/// being played then. No two entries are for the same card and shot type,
/// and every entry carries the moment of the snapshot.
#[derive(Debug)]
pub struct Snapshot {
    timestamp: Timestamp,
    shot_type: ShotType,
    difficulty: Difficulty,
    stage: Stage,
    practice_no: Option<u32>,
    cards: Vec<CardSnapshot>,
}

/// What a [`Snapshot`] holds.
pub struct SnapshotView {
    pub timestamp: Timestamp,
    /// The shot type of the run in progress.
    pub shot_type: ShotType,
    /// The difficulty of the run in progress.
    pub difficulty: Difficulty,
    /// The stage of the run in progress.
    pub stage: Stage,
    /// The number of the practice run in progress, if it is one.
    pub practice_no: Option<u32>,
    /// The entries, in the order in which their keys were first recorded.
    pub cards: Seq<CardSnapshot>,
}

impl SnapshotView {
    /// What holds of every snapshot: distinct keys, and one moment for all
    /// entries.
    pub open spec fn wf(self) -> bool {
        &&& distinct_keys(self.cards)
        &&& forall|i: int|
            0 <= i < self.cards.len() ==> (#[trigger] self.cards[i]).timestamp == self.timestamp
    }

    /// This snapshot with `cards` for its entries.
    pub open spec fn with_cards(self, cards: Seq<CardSnapshot>) -> SnapshotView {
        SnapshotView {
            timestamp: self.timestamp,
            shot_type: self.shot_type,
            difficulty: self.difficulty,
            stage: self.stage,
            practice_no: self.practice_no,
            cards,
        }
    }

    /// The entry that a spell card record gives for the shot type of slot
    /// `slot`, on a card of difficulty `difficulty`.
    pub open spec fn entry_of(self, data: SpellCardDataView, difficulty: Difficulty, slot: int) -> CardSnapshot {
        CardSnapshot {
            card_id: data.card_id as u32,
            shot_type: ShotType::at(slot),
            difficulty,
            timestamp: self.timestamp,
            attempts: data.attempts[slot] as u32,
            captures: data.captures[slot] as u32,
        }
    }

    /// The entries after the first `n` shot types of a spell card record were
    /// put among `cards`.
    pub open spec fn put_shots(
        self,
        cards: Seq<CardSnapshot>,
        data: SpellCardDataView,
        difficulty: Difficulty,
        n: int,
    ) -> Seq<CardSnapshot>
        decreases n,
    {
        if n <= 0 {
            cards
        } else {
            put(
                self.put_shots(cards, data, difficulty, n - 1),
                self.entry_of(data, difficulty, n - 1),
            )
        }
    }

    /// This snapshot after the first `n` of `segments` were gone through:
    /// every spell card record among them is recorded for its six shot
    /// types, with the difficulty that `difficulties` has for its card, and
    /// the other records are passed over. The first record of a card that
    /// `difficulties`, a table by card number, does not cover is an error.
    pub open spec fn with_segments(
        self,
        segments: Seq<SegmentView>,
        difficulties: Seq<Difficulty>,
        n: int,
    ) -> Result<SnapshotView, InvalidCardId>
        decreases n,
    {
        if n <= 0 {
            Ok(self)
        } else {
            match self.with_segments(segments, difficulties, n - 1) {
                Err(e) => Err(e),
                Ok(before) => match segments[n - 1] {
                    SegmentView::SpellCard(data) => if data.card_id <= difficulties.len() {
                        Ok(
                            before.with_cards(
                                before.put_shots(
                                    before.cards,
                                    data,
                                    difficulties[data.card_id - 1],
                                    6,
                                ),
                            ),
                        )
                    } else {
                        Err(
                            InvalidCardId::InvalidCard(
                                GameId::PCB,
                                data.card_id as u32,
                                difficulties.len() as u32,
                            ),
                        )
                    },
                    _ => Ok(before),
                },
            }
        }
    }
}

impl View for Snapshot {
    type V = SnapshotView;

    closed spec fn view(&self) -> SnapshotView {
        SnapshotView {
            timestamp: self.timestamp,
            shot_type: self.shot_type,
            difficulty: self.difficulty,
            stage: self.stage,
            practice_no: self.practice_no,
            cards: self.cards@,
        }
    }
}

impl Snapshot {
    /// Every snapshot is well-formed.
    #[verifier::type_invariant]
    pub closed spec fn valid(&self) -> bool {
        self@.wf()
    }

    /// A snapshot without entries, taken at `timestamp` during the run that
    /// the other arguments describe.
    pub fn new(
        timestamp: Timestamp,
        shot_type: ShotType,
        difficulty: Difficulty,
        stage: Stage,
        practice_no: Option<u32>,
    ) -> (r: Snapshot)
        ensures
            r@ == (SnapshotView {
                timestamp,
                shot_type,
                difficulty,
                stage,
                practice_no,
                cards: Seq::empty(),
            }),
            r@.wf(),
    {
        Snapshot { timestamp, shot_type, difficulty, stage, practice_no, cards: Vec::new() }
    }

    fn position(&self, shot_type: ShotType, card_id: u32) -> (r: usize)
        ensures
            r == index_of(self@.cards, shot_type, card_id, 0),
            r <= self@.cards.len(),
    {
        let mut i: usize = 0;
        while i < self.cards.len()
            invariant
                i <= self.cards@.len(),
                index_of(self.cards@, shot_type, card_id, 0) == index_of(
                    self.cards@,
                    shot_type,
                    card_id,
                    i as int,
                ),
            decreases self.cards@.len() - i,
        {
            if self.cards[i].shot_type == shot_type && self.cards[i].card_id == card_id {
                return i;
            }
            i += 1;
        }
        i
    }

    /// This snapshot with the counters of a card for a shot type recorded, in
    /// the place of the entry with that key if there is one and behind all
    /// entries if not.
    pub fn with_card(
        self,
        card_id: u32,
        shot_type: ShotType,
        difficulty: Difficulty,
        attempts: u32,
        captures: u32,
    ) -> (r: Snapshot)
        ensures
            r@ == self@.with_cards(
                put(
                    self@.cards,
                    CardSnapshot {
                        card_id,
                        shot_type,
                        difficulty,
                        timestamp: self@.timestamp,
                        attempts,
                        captures,
                    },
                ),
            ),
            r@.wf(),
    {
        proof {
            use_type_invariant(&self);
        }
        let at = self.position(shot_type, card_id);
        let Snapshot {
            timestamp,
            shot_type: run_shot,
            difficulty: run_difficulty,
            stage,
            practice_no,
            cards,
        } = self;
        let mut cards = cards;
        let card = CardSnapshot { card_id, shot_type, difficulty, timestamp, attempts, captures };
        proof {
            lemma_put(cards@, card);
        }
        if at < cards.len() {
            cards[at] = card;
        } else {
            cards.push(card);
        }
        Snapshot {
            timestamp,
            shot_type: run_shot,
            difficulty: run_difficulty,
            stage,
            practice_no,
            cards,
        }
    }

    /// This snapshot with what a spell card record holds for each of the six
    /// shot types recorded, for a card that appears on `difficulty`.
    pub fn with_spell_card(self, data: &SpellCardData, difficulty: Difficulty) -> (r: Snapshot)
        ensures
            r@ == self@.with_cards(self@.put_shots(self@.cards, data@, difficulty, 6)),
            r@.wf(),
    {
        proof {
            use_type_invariant(&self);
        }
        let ghost start = self@;
        let card_id = data.card_id() as u32;
        let mut out = self;
        let mut slot: usize = 0;
        assert(out@ == start.with_cards(start.cards));
        while slot < 6
            invariant
                slot <= 6,
                card_id == data@.card_id,
                out@.wf(),
                out@ == start.with_cards(
                    start.put_shots(start.cards, data@, difficulty, slot as int),
                ),
            decreases 6 - slot,
        {
            let shot_type = ShotType::from_index(slot);
            out = out.with_card(
                card_id,
                shot_type,
                difficulty,
                data.attempts(&shot_type) as u32,
                data.captures(&shot_type) as u32,
            );
            slot += 1;
        }
        out
    }

    /// This snapshot with the spell card records among `segments` recorded,
    /// each with the difficulty that `difficulties` has for its card.
    pub fn with_segments(self, segments: &[Segment], difficulties: &[Difficulty]) -> (r: Result<
        Snapshot,
        InvalidCardId,
    >)
        requires
            difficulties@.len() <= u32::MAX,
        ensures
            match r {
                Ok(snapshot) => self@.with_segments(
                    views(segments@),
                    difficulties@,
                    segments@.len() as int,
                ) == Ok::<SnapshotView, InvalidCardId>(snapshot@) && snapshot@.wf(),
                Err(e) => self@.with_segments(
                    views(segments@),
                    difficulties@,
                    segments@.len() as int,
                ) == Err::<SnapshotView, InvalidCardId>(e),
            },
    {
        proof {
            use_type_invariant(&self);
        }
        let ghost start = self@;
        let mut out = self;
        let mut i: usize = 0;
        while i < segments.len()
            invariant
                i <= segments@.len(),
                difficulties@.len() <= u32::MAX,
                start == self@,
                out@.wf(),
                start.with_segments(views(segments@), difficulties@, i as int) == Ok::<
                    SnapshotView,
                    InvalidCardId,
                >(out@),
            decreases segments@.len() - i,
        {
            match &segments[i] {
                Segment::SpellCard(data) => {
                    let card_id = data.card_id();
                    if card_id as usize <= difficulties.len() {
                        out = out.with_spell_card(data, difficulties[(card_id - 1) as usize]);
                    } else {
                        proof {
                            lemma_with_segments_error(
                                start,
                                views(segments@),
                                difficulties@,
                                i + 1,
                                segments@.len() as int,
                            );
                        }
                        return Err(
                            InvalidCardId::InvalidCard(
                                GameId::PCB,
                                card_id as u32,
                                difficulties.len() as u32,
                            ),
                        );
                    }
                },
                _ => {},
            }
            i += 1;
        }
        Ok(out)
    }

    /// The entry of a card for a shot type.
    pub fn get_card(&self, shot_type: ShotType, card_id: u32) -> (r: Option<&CardSnapshot>)
        ensures
            match r {
                Some(card) => find(self@.cards, shot_type, card_id) == Some(*card),
                None => find(self@.cards, shot_type, card_id) is None,
            },
    {
        let at = self.position(shot_type, card_id);
        if at < self.cards.len() {
            Some(&self.cards[at])
        } else {
            None
        }
    }

    /// All entries, in the order in which their keys were first recorded.
    pub fn cards(&self) -> (r: &[CardSnapshot])
        ensures
            r@ == self@.cards,
            self@.wf(),
    {
        proof {
            use_type_invariant(self);
        }
        self.cards.as_slice()
    }

    /// A snapshot with the same contents.
    pub fn duplicate(&self) -> (r: Snapshot)
        ensures
            r@ == self@,
    {
        proof {
            use_type_invariant(self);
        }
        let mut cards: Vec<CardSnapshot> = Vec::new();
        let mut i: usize = 0;
        while i < self.cards.len()
            invariant
                i <= self.cards@.len(),
                cards@ == self.cards@.take(i as int),
            decreases self.cards@.len() - i,
        {
            cards.push(self.cards[i]);
            assert(self.cards@.take(i + 1) =~= self.cards@.take(i as int).push(self.cards@[i as int]));
            i += 1;
        }
        assert(self.cards@.take(i as int) =~= self.cards@);
        Snapshot {
            timestamp: self.timestamp,
            shot_type: self.shot_type,
            difficulty: self.difficulty,
            stage: self.stage,
            practice_no: self.practice_no,
            cards,
        }
    }

    /// The moment of the snapshot.
    pub fn timestamp(&self) -> (r: Timestamp)
        ensures
            r == self@.timestamp,
    {
        self.timestamp
    }

    /// The shot type of the run in progress.
    pub fn shot_type(&self) -> (r: ShotType)
        ensures
            r == self@.shot_type,
    {
        self.shot_type
    }

    /// The difficulty of the run in progress.
    pub fn difficulty(&self) -> (r: Difficulty)
        ensures
            r == self@.difficulty,
    {
        self.difficulty
    }

    /// The stage of the run in progress.
    pub fn stage(&self) -> (r: Stage)
        ensures
            r == self@.stage,
    {
        self.stage
    }

    /// The number of the practice run in progress, if it is one.
    pub fn practice_no(&self) -> (r: Option<u32>)
        ensures
            r == self@.practice_no,
    {
        self.practice_no
    }
}

} // verus!
