//! What is shown beside the counters of a card: how its last attempt ended,
//! and how it went over the last twelve hours.

use vstd::prelude::*;
use crate::snapshot::CardSnapshot;
use crate::timestamp::{hours_before, Timestamp};
use crate::update::{attempted, info_between, CardAttemptInfo, CardAttemptInfoView};

verus! {

/// The hours that count as recent.
pub const RECENT_HOURS: u32 = 12;

/// How the attempts at a card since the last snapshot ended.
#[derive(Debug, Clone, Copy, PartialEq, Eq, Hash, Structural)]
pub enum AttemptOutcome {
    /// At least one attempt was a capture.
    Capture,
    /// There were attempts, and none was a capture.
    Miss,
    /// The card was not attempted.
    NotAttempted,
}

/// The outcome that the attempts `info` stand for.
pub open spec fn outcome_of(info: Option<CardAttemptInfoView>) -> AttemptOutcome {
    match info {
        Some(i) => if i.is_capture {
            AttemptOutcome::Capture
        } else {
            AttemptOutcome::Miss
        },
        None => AttemptOutcome::NotAttempted,
    }
}

/// How the attempts at a card ended, given what an event says of the card,
/// if it says anything.
pub fn outcome(attempt_info: Option<&CardAttemptInfo>) -> (r: AttemptOutcome)
    ensures
        r == outcome_of(
            match attempt_info {
                Some(i) => Some(i@),
                None => None,
            },
        ),
{
    match attempt_info {
        Some(info) => if info.is_capture() {
            AttemptOutcome::Capture
        } else {
            AttemptOutcome::Miss
        },
        None => AttemptOutcome::NotAttempted,
    }
}

/// The moment from which on a snapshot counts as recent for one taken at
/// `timestamp`: twelve hours earlier, or the first representable instant.
pub fn recent_cutoff(timestamp: Timestamp) -> (r: Timestamp)
    ensures
        r@ == hours_before(timestamp@, RECENT_HOURS as int),
        r@ <= timestamp@,
{
    timestamp.saturating_sub_hours(RECENT_HOURS)
}

/// The attempts and captures that `current` shows beyond `earliest`, the
/// first snapshot of the same card and shot type in the recent past. There
/// is nothing to report without such a snapshot or without an attempt since.
pub fn recent_performance(current: &CardSnapshot, earliest: Option<&CardSnapshot>) -> (r: Option<
    CardAttemptInfo,
>)
    ensures
        r is Some <==> (earliest matches Some(old) && attempted(*old, *current)),
        r matches Some(info) ==> info@ == info_between(*earliest->Some_0, *current)
            && info@.wf(),
{
    match earliest {
        Some(old) => CardAttemptInfo::between(old, current),
        None => None,
    }
}

} // verus!
