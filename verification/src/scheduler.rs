//! The decision made for one event: whether it is upcoming, whether it is
//! due for a notification, and whether the user has been told already.

use vstd::prelude::*;
use crate::event::{lead_seconds, time_to_event_secs, Event};
use crate::instant::Instant;
use crate::notified::NotifiedSet;

verus! {

/// An event is announced once its lead time has fallen to this many seconds.
pub const LEAD_THRESHOLD: i64 = 180;

/// What is done about one event in one polling cycle.
#[derive(Clone, Copy, Debug, PartialEq, Eq, Structural)]
pub enum Decision {
    /// The event has started: it is left out altogether.
    NotUpcoming,
    /// The event is further away than the threshold: it is mentioned in the
    /// log and nothing else happens.
    Far,
    /// The event is due and has not been announced: a notification is sent.
    Notify,
    /// The event is due and has been announced: nothing is sent.
    AlreadyNotified,
}

/// Whether an event that starts at `start` is still to come at `now`.
pub open spec fn is_upcoming(start: int, now: int) -> bool {
    start > now
}

/// Whether an upcoming event is within the threshold.
pub open spec fn is_due(start: int, now: int) -> bool {
    is_upcoming(start, now) && lead_seconds(start, now) <= LEAD_THRESHOLD
}

/// Whether an upcoming event is beyond the threshold.
pub open spec fn is_far(start: int, now: int) -> bool {
    is_upcoming(start, now) && lead_seconds(start, now) > LEAD_THRESHOLD
}

/// The decision for an event that starts at `start`, taken at `now`, where
/// `notified` says whether its title is in the set of announced titles.
pub open spec fn decision(start: int, now: int, notified: bool) -> Decision {
    if !is_upcoming(start, now) {
        Decision::NotUpcoming
    } else if lead_seconds(start, now) > LEAD_THRESHOLD {
        Decision::Far
    } else if notified {
        Decision::AlreadyNotified
    } else {
        Decision::Notify
    }
}

/// Decides what to do about `event` at `now`, given the titles announced so
/// far. The set is only read: a title enters it when the caller reports a
/// delivered notification.
pub fn decide(event: &Event, now: &Instant, notified: &NotifiedSet) -> (verdict: Decision)
    ensures
        verdict == decision(event@.start, now@, notified@.contains(event@.summary)),
{
    if !event.start_time.is_after(now) {
        Decision::NotUpcoming
    } else if time_to_event_secs(event, now) > LEAD_THRESHOLD {
        Decision::Far
    } else if notified.contains(event.summary.as_str()) {
        Decision::AlreadyNotified
    } else {
        Decision::Notify
    }
}

} // verus!
