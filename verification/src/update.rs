//! Telling what was attempted between two snapshots.
//!
//! A card counts as attempted when the previous snapshot has an entry for it
//! and the new one shows more attempts. The attempted cards are reported in
//! one event per shot type: the events in the order of the shot types, the
//! cards of an event in the order of the new snapshot.

use vstd::prelude::*;
use crate::snapshot::{find, lemma_find_own, CardSnapshot, Snapshot, SnapshotView};
use crate::timestamp::Timestamp;
use crate::types::{Difficulty, ShotType, Stage};

verus! {

/// What happened to one card between two snapshots.
#[derive(Debug, Clone, Copy)]
pub struct CardAttemptInfo {
    delta_attempts: u32,
    delta_captures: u32,
    is_capture: bool,
}

/// What a [`CardAttemptInfo`] holds.
pub struct CardAttemptInfoView {
    pub delta_attempts: u32,
    pub delta_captures: u32,
    pub is_capture: bool,
}

impl View for CardAttemptInfo {
    type V = CardAttemptInfoView;

    closed spec fn view(&self) -> CardAttemptInfoView {
        CardAttemptInfoView {
            delta_attempts: self.delta_attempts,
            delta_captures: self.delta_captures,
            is_capture: self.is_capture,
        }
    }
}

impl CardAttemptInfoView {
    /// What holds of every reported attempt: there was at least one, no
    /// more captures than attempts are counted, and any capture makes it a
    /// capture.
    pub open spec fn wf(self) -> bool {
        &&& self.delta_attempts > 0
        &&& self.delta_captures <= self.delta_attempts
        &&& self.is_capture == (self.delta_captures > 0)
    }
}

/// Whether `new` shows more attempts than `old`.
pub open spec fn attempted(old: CardSnapshot, new: CardSnapshot) -> bool {
    new.attempts > old.attempts
}

/// The attempts and captures that `new` shows beyond `old`. Captures that
/// went down count as none, and captures beyond the attempts are cut down to
/// the attempts.
pub open spec fn info_between(old: CardSnapshot, new: CardSnapshot) -> CardAttemptInfoView {
    let delta_attempts = if new.attempts > old.attempts {
        new.attempts - old.attempts
    } else {
        0
    };
    let gained = if new.captures > old.captures {
        new.captures - old.captures
    } else {
        0
    };
    let delta_captures = if gained < delta_attempts {
        gained
    } else {
        delta_attempts
    };
    CardAttemptInfoView {
        delta_attempts: delta_attempts as u32,
        delta_captures: delta_captures as u32,
        is_capture: delta_captures > 0,
    }
}

/// Whether `new` shows more captures beyond `old` than attempts beyond
/// `old`, so that the captures counted are cut down. This points to counters
/// that were read while the game was changing them.
pub open spec fn captures_exceed_attempts(old: CardSnapshot, new: CardSnapshot) -> bool {
    new.attempts > old.attempts && new.captures - old.captures > new.attempts - old.attempts
}

/// Whatever the two snapshots hold, the captures counted between them do
/// not exceed the attempts counted between them.
pub proof fn lemma_captures_clamped(old: CardSnapshot, new: CardSnapshot)
    ensures
        info_between(old, new).delta_captures <= info_between(old, new).delta_attempts,
        attempted(old, new) ==> info_between(old, new).wf(),
{
}

impl CardAttemptInfo {
    /// Every reported attempt is well-formed.
    #[verifier::type_invariant]
    pub closed spec fn valid(&self) -> bool {
        self@.wf()
    }

    /// What `new` shows beyond `old`, if it shows more attempts.
    pub fn between(old: &CardSnapshot, new: &CardSnapshot) -> (r: Option<CardAttemptInfo>)
        ensures
            r is Some <==> attempted(*old, *new),
            r matches Some(info) ==> info@ == info_between(*old, *new) && info@.wf(),
    {
        if new.attempts > old.attempts {
            let delta_attempts = new.attempts - old.attempts;
            let gained = if new.captures > old.captures {
                new.captures - old.captures
            } else {
                0
            };
            let delta_captures = if gained < delta_attempts {
                gained
            } else {
                delta_attempts
            };
            Some(CardAttemptInfo { delta_attempts, delta_captures, is_capture: delta_captures > 0 })
        } else {
            None
        }
    }

    /// Whether the captures that `new` shows beyond `old` had to be cut down
    /// to the attempts that it shows beyond `old`.
    pub fn clamped(old: &CardSnapshot, new: &CardSnapshot) -> (r: bool)
        ensures
            r == captures_exceed_attempts(*old, *new),
            r ==> info_between(*old, *new).delta_captures == info_between(
                *old,
                *new,
            ).delta_attempts,
    {
        new.attempts > old.attempts && new.captures > old.captures && new.captures
            - old.captures > new.attempts - old.attempts
    }

    /// How many attempts were made; at least one.
    pub fn delta_attempts(&self) -> (r: u32)
        ensures
            r == self@.delta_attempts,
            r > 0,
    {
        proof {
            use_type_invariant(self);
        }
        self.delta_attempts
    }

    /// How many of the attempts were captures; no more than the attempts.
    pub fn delta_captures(&self) -> (r: u32)
        ensures
            r == self@.delta_captures,
            r <= self@.delta_attempts,
    {
        proof {
            use_type_invariant(self);
        }
        self.delta_captures
    }

    /// Whether any of the attempts was a capture.
    pub fn is_capture(&self) -> (r: bool)
        ensures
            r == self@.is_capture,
            r == (self@.delta_captures > 0),
    {
        proof {
            use_type_invariant(self);
        }
        self.is_capture
    }
}

/// The cards attempted with one shot type between two snapshots.
#[derive(Debug)]
pub struct AttemptEvent {
    timestamp: Timestamp,
    shot_type: ShotType,
    stage: Stage,
    difficulty: Difficulty,
    practice_no: Option<u32>,
    attempted_cards: Vec<(u32, CardAttemptInfo)>,
}

/// What an [`AttemptEvent`] holds.
pub struct AttemptEventView {
    /// The moment of the new snapshot.
    pub timestamp: Timestamp,
    /// The shot type that the cards were attempted with.
    pub shot_type: ShotType,
    /// The stage of the run in progress at the new snapshot.
    pub stage: Stage,
    /// The difficulty of the run in progress at the new snapshot.
    pub difficulty: Difficulty,
    /// The number of the practice run in progress, if it was one.
    pub practice_no: Option<u32>,
    /// The attempted cards by their numbers, in the order of the new
    /// snapshot.
    pub attempted_cards: Seq<(u32, CardAttemptInfoView)>,
}

/// The numbers and the views of the entries of `cards`.
pub open spec fn entry_views(cards: Seq<(u32, CardAttemptInfo)>) -> Seq<(u32, CardAttemptInfoView)> {
    Seq::new(cards.len(), |i: int| (cards[i].0, cards[i].1@))
}

impl View for AttemptEvent {
    type V = AttemptEventView;

    closed spec fn view(&self) -> AttemptEventView {
        AttemptEventView {
            timestamp: self.timestamp,
            shot_type: self.shot_type,
            stage: self.stage,
            difficulty: self.difficulty,
            practice_no: self.practice_no,
            attempted_cards: entry_views(self.attempted_cards@),
        }
    }
}

impl AttemptEvent {
    /// The moment of the new snapshot.
    pub fn timestamp(&self) -> (r: Timestamp)
        ensures
            r == self@.timestamp,
    {
        self.timestamp
    }

    /// The shot type that the cards were attempted with.
    pub fn shot_type(&self) -> (r: ShotType)
        ensures
            r == self@.shot_type,
    {
        self.shot_type
    }

    /// The stage of the run in progress.
    pub fn stage(&self) -> (r: Stage)
        ensures
            r == self@.stage,
    {
        self.stage
    }

    /// The difficulty of the run in progress.
    pub fn difficulty(&self) -> (r: Difficulty)
        ensures
            r == self@.difficulty,
    {
        self.difficulty
    }

    /// The number of the practice run in progress, if it was one.
    pub fn practice_no(&self) -> (r: Option<u32>)
        ensures
            r == self@.practice_no,
    {
        self.practice_no
    }

    /// The attempted cards by their numbers, in the order of the new
    /// snapshot.
    pub fn attempted_cards(&self) -> (r: &[(u32, CardAttemptInfo)])
        ensures
            entry_views(r@) == self@.attempted_cards,
    {
        self.attempted_cards.as_slice()
    }
}

/// The cards among the first `n` entries of `cur` that were attempted with
/// `shot_type` since `prev`, in the order of `cur`.
pub open spec fn attempted_in(
    prev: Seq<CardSnapshot>,
    cur: Seq<CardSnapshot>,
    shot_type: ShotType,
    n: int,
) -> Seq<(u32, CardAttemptInfoView)>
    decreases n,
{
    if n <= 0 {
        Seq::empty()
    } else {
        let before = attempted_in(prev, cur, shot_type, n - 1);
        let new = cur[n - 1];
        match find(prev, new.shot_type, new.card_id) {
            Some(old) if new.shot_type == shot_type && attempted(old, new) => before.push(
                (new.card_id, info_between(old, new)),
            ),
            _ => before,
        }
    }
}

/// The event for `shot_type` between two snapshots; it may be without cards.
pub open spec fn event_for(prev: SnapshotView, cur: SnapshotView, shot_type: ShotType) -> AttemptEventView {
    AttemptEventView {
        timestamp: cur.timestamp,
        shot_type,
        stage: cur.stage,
        difficulty: cur.difficulty,
        practice_no: cur.practice_no,
        attempted_cards: attempted_in(prev.cards, cur.cards, shot_type, cur.cards.len() as int),
    }
}

/// The events of the first `n` shot types that have cards.
pub open spec fn events_in(prev: SnapshotView, cur: SnapshotView, n: int) -> Seq<AttemptEventView>
    decreases n,
{
    if n <= 0 {
        Seq::empty()
    } else {
        let before = events_in(prev, cur, n - 1);
        let event = event_for(prev, cur, ShotType::at(n - 1));
        if event.attempted_cards.len() > 0 {
            before.push(event)
        } else {
            before
        }
    }
}

/// The events between two snapshots: one for each shot type with attempted
/// cards.
pub open spec fn events_between(prev: SnapshotView, cur: SnapshotView) -> Seq<AttemptEventView> {
    events_in(prev, cur, 6)
}

/// A new snapshot together with what was attempted since the one before.
#[derive(Debug)]
pub struct Update {
    cur_snapshot: Snapshot,
    events: Vec<AttemptEvent>,
}

/// What an [`Update`] holds.
pub struct UpdateView {
    pub cur_snapshot: SnapshotView,
    pub events: Seq<AttemptEventView>,
}

/// The views of the events of `events`.
pub open spec fn event_views(events: Seq<AttemptEvent>) -> Seq<AttemptEventView> {
    Seq::new(events.len(), |i: int| events[i]@)
}

impl View for Update {
    type V = UpdateView;

    closed spec fn view(&self) -> UpdateView {
        UpdateView { cur_snapshot: self.cur_snapshot@, events: event_views(self.events@) }
    }
}

impl Update {
    /// The new snapshot.
    pub fn cur_snapshot(&self) -> (r: &Snapshot)
        ensures
            r@ == self@.cur_snapshot,
    {
        &self.cur_snapshot
    }

    /// The events, in the order of the shot types.
    pub fn events(&self) -> (r: &[AttemptEvent])
        ensures
            event_views(r@) == self@.events,
    {
        self.events.as_slice()
    }
}

/// The view of an update that may be missing.
pub open spec fn update_view(update: Option<Update>) -> Option<UpdateView> {
    match update {
        Some(u) => Some(u@),
        None => None,
    }
}

/// What one call of `update` does: the snapshot held afterwards, and the
/// update returned. Without a snapshot to compare with, the new one is held
/// and nothing is returned. Without an attempted card, the held snapshot
/// stays and nothing is returned. Else the new snapshot is held, and
/// returned with the events.
pub open spec fn step(held: Option<SnapshotView>, new: SnapshotView) -> (
    Option<SnapshotView>,
    Option<UpdateView>,
) {
    match held {
        None => (Some(new), None),
        Some(prev) => {
            let events = events_between(prev, new);
            if events.len() == 0 {
                (Some(prev), None)
            } else {
                (Some(new), Some(UpdateView { cur_snapshot: new, events }))
            }
        },
    }
}

/// The comparator: it holds the last snapshot that showed an attempt, or the
/// first one it was given.
#[derive(Debug)]
pub struct UpdateStream {
    previous: Option<Snapshot>,
}

impl View for UpdateStream {
    type V = Option<SnapshotView>;

    closed spec fn view(&self) -> Option<SnapshotView> {
        match self.previous {
            Some(s) => Some(s@),
            None => None,
        }
    }
}

fn attempted_with(prev: &Snapshot, cur: &Snapshot, shot_type: ShotType) -> (r: Vec<
    (u32, CardAttemptInfo),
>)
    ensures
        entry_views(r@) == attempted_in(
            prev@.cards,
            cur@.cards,
            shot_type,
            cur@.cards.len() as int,
        ),
{
    let cards = cur.cards();
    let mut out: Vec<(u32, CardAttemptInfo)> = Vec::new();
    let mut i: usize = 0;
    assert(entry_views(out@) =~= attempted_in(prev@.cards, cur@.cards, shot_type, 0));
    while i < cards.len()
        invariant
            i <= cards@.len(),
            cards@ == cur@.cards,
            entry_views(out@) == attempted_in(prev@.cards, cur@.cards, shot_type, i as int),
        decreases cards@.len() - i,
    {
        let new = &cards[i];
        let ghost before = entry_views(out@);
        if new.shot_type == shot_type {
            match prev.get_card(new.shot_type, new.card_id) {
                Some(old) => {
                    match CardAttemptInfo::between(old, new) {
                        Some(info) => {
                            out.push((new.card_id, info));
                            assert(entry_views(out@) =~= before.push((new.card_id, info@)));
                        },
                        None => {},
                    }
                },
                None => {},
            }
        }
        i += 1;
    }
    out
}

fn compare(prev: &Snapshot, cur: &Snapshot) -> (r: Vec<AttemptEvent>)
    ensures
        event_views(r@) == events_between(prev@, cur@),
{
    let mut out: Vec<AttemptEvent> = Vec::new();
    let mut slot: usize = 0;
    assert(event_views(out@) =~= events_in(prev@, cur@, 0));
    while slot < 6
        invariant
            slot <= 6,
            event_views(out@) == events_in(prev@, cur@, slot as int),
        decreases 6 - slot,
    {
        let shot_type = ShotType::from_index(slot);
        let attempted_cards = attempted_with(prev, cur, shot_type);
        let ghost before = event_views(out@);
        if attempted_cards.len() > 0 {
            let event = AttemptEvent {
                timestamp: cur.timestamp(),
                shot_type,
                stage: cur.stage(),
                difficulty: cur.difficulty(),
                practice_no: cur.practice_no(),
                attempted_cards,
            };
            assert(event@ == event_for(prev@, cur@, shot_type));
            out.push(event);
            assert(event_views(out@) =~= before.push(event_for(prev@, cur@, shot_type)));
        }
        slot += 1;
    }
    out
}

impl UpdateStream {
    /// A comparator that holds `previous`.
    pub fn new(previous: Snapshot) -> (r: UpdateStream)
        ensures
            r@ == Some(previous@),
    {
        UpdateStream { previous: Some(previous) }
    }

    /// A comparator that holds no snapshot yet.
    pub fn initial() -> (r: UpdateStream)
        ensures
            r@ is None,
    {
        UpdateStream { previous: None }
    }

    /// The snapshot held.
    pub fn cur_snapshot(&self) -> (r: Option<&Snapshot>)
        ensures
            match r {
                Some(s) => self@ == Some(s@),
                None => self@ is None,
            },
    {
        self.previous.as_ref()
    }

    /// Compares `new_snapshot` with the snapshot held and reports what was
    /// attempted since.
    pub fn update(&mut self, new_snapshot: Snapshot) -> (r: Option<Update>)
        ensures
            (final(self)@, update_view(r)) == step(old(self)@, new_snapshot@),
    {
        let events = match &self.previous {
            None => None,
            Some(prev) => Some(compare(prev, &new_snapshot)),
        };
        match events {
            None => {
                self.previous = Some(new_snapshot);
                None
            },
            Some(events) => {
                if events.len() == 0 {
                    None
                } else {
                    let cur_snapshot = new_snapshot.duplicate();
                    self.previous = Some(new_snapshot);
                    Some(Update { cur_snapshot, events })
                }
            },
        }
    }
}

/// Whether `entry` is what is reported for the card at position `i` of
/// `cur`: the card was attempted with `shot_type` since `prev`, and `entry`
/// holds its number and what it shows beyond its entry in `prev`.
pub open spec fn reports(
    prev: Seq<CardSnapshot>,
    cur: Seq<CardSnapshot>,
    shot_type: ShotType,
    i: int,
    entry: (u32, CardAttemptInfoView),
) -> bool {
    &&& 0 <= i < cur.len()
    &&& cur[i].shot_type == shot_type
    &&& find(prev, cur[i].shot_type, cur[i].card_id) matches Some(old) && attempted(old, cur[i])
        && entry == (cur[i].card_id, info_between(old, cur[i]))
}

/// Whether `entry` reports a card among the first `n` entries of `cur`.
pub open spec fn reports_one(
    prev: Seq<CardSnapshot>,
    cur: Seq<CardSnapshot>,
    shot_type: ShotType,
    n: int,
    entry: (u32, CardAttemptInfoView),
) -> bool {
    exists|i: int| i < n && #[trigger] reports(prev, cur, shot_type, i, entry)
}

/// Whether the card at position `i` of `cur` is reported among `entries`.
pub open spec fn reported(
    prev: Seq<CardSnapshot>,
    cur: Seq<CardSnapshot>,
    shot_type: ShotType,
    i: int,
    entries: Seq<(u32, CardAttemptInfoView)>,
) -> bool {
    exists|k: int|
        0 <= k < entries.len() && reports(prev, cur, shot_type, i, #[trigger] entries[k])
}

/// The cards reported for a shot type are the attempted cards of that shot
/// type and no others: every entry reports a card among the first `n`, and
/// every card among the first `n` that was attempted with the shot type is
/// reported.
pub proof fn lemma_attempted_in_exact(
    prev: Seq<CardSnapshot>,
    cur: Seq<CardSnapshot>,
    shot_type: ShotType,
    n: int,
)
    requires
        0 <= n <= cur.len(),
    ensures
        forall|k: int|
            0 <= k < attempted_in(prev, cur, shot_type, n).len() ==> reports_one(
                prev,
                cur,
                shot_type,
                n,
                #[trigger] attempted_in(prev, cur, shot_type, n)[k],
            ),
        forall|i: int|
            0 <= i < n && (#[trigger] cur[i]).shot_type == shot_type && (find(
                prev,
                cur[i].shot_type,
                cur[i].card_id,
            ) matches Some(old) && attempted(old, cur[i])) ==> reported(
                prev,
                cur,
                shot_type,
                i,
                attempted_in(prev, cur, shot_type, n),
            ),
    decreases n,
{
    if n > 0 {
        lemma_attempted_in_exact(prev, cur, shot_type, n - 1);
        let before = attempted_in(prev, cur, shot_type, n - 1);
        let all = attempted_in(prev, cur, shot_type, n);
        assert forall|k: int| 0 <= k < all.len() implies reports_one(
            prev,
            cur,
            shot_type,
            n,
            #[trigger] all[k],
        ) by {
            if k < before.len() {
                assert(all[k] == before[k]);
                assert(reports_one(prev, cur, shot_type, n - 1, before[k]));
                let i = choose|i: int|
                    i < n - 1 && #[trigger] reports(prev, cur, shot_type, i, before[k]);
                assert(i < n && reports(prev, cur, shot_type, i, all[k]));
            } else {
                assert(reports(prev, cur, shot_type, n - 1, all[k]));
            }
        }
        assert forall|i: int|
            0 <= i < n && (#[trigger] cur[i]).shot_type == shot_type && (find(
                prev,
                cur[i].shot_type,
                cur[i].card_id,
            ) matches Some(old) && attempted(old, cur[i])) implies reported(
            prev,
            cur,
            shot_type,
            i,
            all,
        ) by {
            if i < n - 1 {
                assert(reported(prev, cur, shot_type, i, before));
                let k = choose|k: int|
                    0 <= k < before.len() && reports(
                        prev,
                        cur,
                        shot_type,
                        i,
                        #[trigger] before[k],
                    );
                assert(all[k] == before[k]);
                assert(0 <= k < all.len() && reports(prev, cur, shot_type, i, all[k]));
            } else {
                let k = all.len() - 1;
                assert(0 <= k < all.len() && reports(prev, cur, shot_type, i, all[k]));
            }
        }
    }
}

/// No entry of `cur` shows more attempts than the entry of `prev` with the
/// same key.
pub open spec fn unchanged(prev: Seq<CardSnapshot>, cur: Seq<CardSnapshot>) -> bool {
    forall|i: int|
        0 <= i < cur.len() ==> match find(prev, (#[trigger] cur[i]).shot_type, cur[i].card_id) {
            Some(old) => !attempted(old, cur[i]),
            None => true,
        }
}

/// Entry by entry, `cur` has the keys and the counters of `prev`; the
/// moments may differ.
pub open spec fn same_counters(prev: Seq<CardSnapshot>, cur: Seq<CardSnapshot>) -> bool {
    &&& prev.len() == cur.len()
    &&& forall|i: int|
        0 <= i < cur.len() ==> (#[trigger] cur[i]).has_key(prev[i].shot_type, prev[i].card_id)
            && cur[i].attempts == prev[i].attempts && cur[i].captures == prev[i].captures
}

/// Every entry of every event has at least one attempt and no more captures
/// than attempts.
pub open spec fn all_clamped(events: Seq<AttemptEventView>) -> bool {
    forall|i: int, k: int|
        0 <= i < events.len() && 0 <= k < events[i].attempted_cards.len()
            ==> (#[trigger] events[i].attempted_cards[k]).1.wf()
}

proof fn lemma_attempted_in_clamped(
    prev: Seq<CardSnapshot>,
    cur: Seq<CardSnapshot>,
    shot_type: ShotType,
    n: int,
)
    ensures
        forall|k: int|
            0 <= k < attempted_in(prev, cur, shot_type, n).len() ==> (#[trigger] attempted_in(
                prev,
                cur,
                shot_type,
                n,
            )[k]).1.wf(),
    decreases n,
{
    if n > 0 {
        lemma_attempted_in_clamped(prev, cur, shot_type, n - 1);
        let before = attempted_in(prev, cur, shot_type, n - 1);
        let all = attempted_in(prev, cur, shot_type, n);
        let new = cur[n - 1];
        assert forall|k: int| 0 <= k < all.len() implies (#[trigger] all[k]).1.wf() by {
            if k < before.len() {
                assert(all[k] == before[k]);
            } else {
                let old = find(prev, new.shot_type, new.card_id)->Some_0;
                lemma_captures_clamped(old, new);
            }
        }
    }
}

proof fn lemma_events_in_clamped(prev: SnapshotView, cur: SnapshotView, n: int)
    ensures
        all_clamped(events_in(prev, cur, n)),
    decreases n,
{
    if n > 0 {
        lemma_events_in_clamped(prev, cur, n - 1);
        lemma_attempted_in_clamped(
            prev.cards,
            cur.cards,
            ShotType::at(n - 1),
            cur.cards.len() as int,
        );
    }
}

/// In every event between any two snapshots, every card has at least one
/// attempt and no more captures than attempts.
pub proof fn lemma_events_clamped(prev: SnapshotView, cur: SnapshotView)
    ensures
        all_clamped(events_between(prev, cur)),
        match step(Some(prev), cur).1 {
            Some(update) => all_clamped(update.events),
            None => true,
        },
{
    lemma_events_in_clamped(prev, cur, 6);
}

proof fn lemma_unchanged_attempted_in(
    prev: Seq<CardSnapshot>,
    cur: Seq<CardSnapshot>,
    shot_type: ShotType,
    n: int,
)
    requires
        unchanged(prev, cur),
        n <= cur.len(),
    ensures
        attempted_in(prev, cur, shot_type, n).len() == 0,
    decreases n,
{
    if n > 0 {
        lemma_unchanged_attempted_in(prev, cur, shot_type, n - 1);
    }
}

proof fn lemma_unchanged_events_in(prev: SnapshotView, cur: SnapshotView, n: int)
    requires
        unchanged(prev.cards, cur.cards),
    ensures
        events_in(prev, cur, n).len() == 0,
    decreases n,
{
    if n > 0 {
        lemma_unchanged_events_in(prev, cur, n - 1);
        lemma_unchanged_attempted_in(
            prev.cards,
            cur.cards,
            ShotType::at(n - 1),
            cur.cards.len() as int,
        );
    }
}

proof fn lemma_attempted_in_grows(
    prev: Seq<CardSnapshot>,
    cur: Seq<CardSnapshot>,
    shot_type: ShotType,
    n: int,
    m: int,
)
    requires
        n <= m,
    ensures
        attempted_in(prev, cur, shot_type, n).len() <= attempted_in(prev, cur, shot_type, m).len(),
    decreases m - n,
{
    if n < m {
        lemma_attempted_in_grows(prev, cur, shot_type, n, m - 1);
    }
}

proof fn lemma_events_in_grow(prev: SnapshotView, cur: SnapshotView, n: int, m: int)
    requires
        n <= m,
    ensures
        events_in(prev, cur, n).len() <= events_in(prev, cur, m).len(),
    decreases m - n,
{
    if n < m {
        lemma_events_in_grow(prev, cur, n, m - 1);
    }
}

/// A card that shows more attempts than its entry in the snapshot held
/// makes an event.
pub proof fn lemma_attempt_gives_event(prev: SnapshotView, new: SnapshotView, i: int)
    requires
        0 <= i < new.cards.len(),
        find(prev.cards, new.cards[i].shot_type, new.cards[i].card_id) matches Some(old)
            && attempted(old, new.cards[i]),
    ensures
        events_between(prev, new).len() > 0,
        step(Some(prev), new).1 is Some,
        step(Some(prev), new).0 == Some(new),
{
    let shot_type = new.cards[i].shot_type;
    let slot = shot_type.spec_index();
    assert(ShotType::at(slot) == shot_type);
    assert(attempted_in(prev.cards, new.cards, shot_type, i + 1).len() > 0);
    lemma_attempted_in_grows(prev.cards, new.cards, shot_type, i + 1, new.cards.len() as int);
    assert(events_in(prev, new, slot + 1).len() > 0);
    lemma_events_in_grow(prev, new, slot + 1, 6);
}

/// A snapshot in which no card shows more attempts than in the snapshot
/// held gives no update and leaves the held snapshot in its place.
pub proof fn lemma_unchanged_gives_nothing(prev: SnapshotView, new: SnapshotView)
    requires
        unchanged(prev.cards, new.cards),
    ensures
        events_between(prev, new).len() == 0,
        step(Some(prev), new) == (Some(prev), None::<UpdateView>),
{
    lemma_unchanged_events_in(prev, new, 6);
}

/// A snapshot with the counters of the snapshot held, card for card, gives
/// no update and leaves the held snapshot in its place.
pub proof fn lemma_same_counters_give_nothing(prev: SnapshotView, new: SnapshotView)
    requires
        prev.wf(),
        same_counters(prev.cards, new.cards),
    ensures
        unchanged(prev.cards, new.cards),
        step(Some(prev), new) == (Some(prev), None::<UpdateView>),
{
    assert forall|i: int| 0 <= i < new.cards.len() implies match find(
        prev.cards,
        (#[trigger] new.cards[i]).shot_type,
        new.cards[i].card_id,
    ) {
        Some(old) => !attempted(old, new.cards[i]),
        None => true,
    } by {
        lemma_find_own(prev.cards, i);
    }
    lemma_unchanged_gives_nothing(prev, new);
}

/// Giving the same snapshot a second time gives no update and does not
/// change the snapshot held, whatever was held before the first time.
pub proof fn lemma_update_twice(held: Option<SnapshotView>, new: SnapshotView)
    requires
        new.wf(),
    ensures
        step(step(held, new).0, new) == (step(held, new).0, None::<UpdateView>),
{
    assert(same_counters(new.cards, new.cards));
    lemma_same_counters_give_nothing(new, new);
    match held {
        None => {},
        Some(prev) => {},
    }
}

} // verus!
