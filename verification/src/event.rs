//! Calendar events and the time left until they start.

use vstd::prelude::*;
use crate::instant::{whole_seconds, Instant};

verus! {

/// An occurrence from a calendar feed.
#[derive(Debug, PartialEq, Eq)]
pub struct Event {
    /// The title. It is shown to the user, and two events with the same
    /// title count as the same event.
    pub summary: String,
    /// The instant at which the event begins.
    pub start_time: Instant,
}

/// What the contracts say of an event: its title as a sequence of characters
/// and its start in nanoseconds since the Unix epoch.
pub struct EventView {
    pub summary: Seq<char>,
    pub start: int,
}

impl View for Event {
    type V = EventView;

    open spec fn view(&self) -> EventView {
        EventView { summary: self.summary@, start: self.start_time@ }
    }
}

/// The views of a sequence of events, in the same order.
pub open spec fn event_views(events: Seq<Event>) -> Seq<EventView> {
    events.map_values(|e: Event| e@)
}

/// The lead time: whole seconds from `now` to `start`, both in nanoseconds
/// since the Unix epoch.
pub open spec fn lead_seconds(start: int, now: int) -> int {
    whole_seconds(start - now)
}

/// The whole seconds left at `now` until `event` starts; negative once it
/// has started.
pub fn time_to_event_secs(event: &Event, now: &Instant) -> (lead: i64)
    ensures
        lead == lead_seconds(event@.start, now@),
{
    event.start_time.whole_seconds_since(now)
}

impl Clone for Event {
    fn clone(&self) -> (copy: Event)
        ensures
            copy == *self,
    {
        Event { summary: self.summary.clone(), start_time: self.start_time }
    }
}

impl Event {
    /// An event titled `summary` that starts at `start_time`.
    pub fn new(summary: String, start_time: Instant) -> (event: Event)
        ensures
            event.summary == summary,
            event.start_time == start_time,
    {
        Event { summary, start_time }
    }
}

} // verus!
