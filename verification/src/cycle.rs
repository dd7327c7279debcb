//! One polling cycle over the events of a feed, as a state machine: the
//! cycle hands out one action at a time, the caller carries it out and
//! reports how a delivery ended.

use vstd::prelude::*;
use crate::event::{event_views, lead_seconds, time_to_event_secs, Event, EventView};
use crate::instant::Instant;
use crate::notice::{notice_for, notification_text, Notice};
use crate::notified::{after_delivery, NotifiedSet};
use crate::scheduler::{decide, decision, is_upcoming, Decision};
use crate::sort::{is_stable_sort_of, sort_events, sorted_by_start};

verus! {

/// The seconds between the start of one sweep over the feeds and the next.
pub const POLL_INTERVAL_SECS: u64 = 60;

/// A feed could not be had this time: the network, the response and the
/// content of the feed all fail in this one way.
#[derive(Clone, Copy, Debug, PartialEq, Eq, Structural)]
pub struct FetchError;

/// The events that a fetch contributes to its cycle: those that it brought,
/// or none where it failed.
pub open spec fn fetched_events(fetched: Result<Vec<Event>, FetchError>) -> Seq<Event> {
    match fetched {
        Ok(events) => events@,
        Err(_) => Seq::empty(),
    }
}

/// The next thing for the caller to do in a cycle. `index` is the place of
/// the event in the cycle's order, `lead` its lead time in seconds.
#[derive(Debug, PartialEq, Eq)]
pub enum Step {
    /// Every event has been dealt with.
    Done,
    /// The event is beyond the threshold: report it as far away.
    Far { index: usize, lead: i64 },
    /// The event is due and was announced before: report that, send nothing.
    AlreadyNotified { index: usize, lead: i64 },
    /// The event is due: show `notice`, then report how that ended.
    Notify { index: usize, lead: i64, notice: Notice },
}

/// The place of the event whose notification a cycle has handed out with
/// `step` and waits to hear of, if there is one.
pub open spec fn awaited_after(step: Step) -> Option<int> {
    match step {
        Step::Notify { index, .. } => Some(index as int),
        _ => None,
    }
}

/// The index of the first upcoming event of `events` at or behind `from`, or
/// the length of `events` where there is none.
pub open spec fn next_upcoming(events: Seq<EventView>, now: int, from: int) -> int
    decreases events.len() - from,
{
    if from < 0 || from >= events.len() {
        events.len() as int
    } else if is_upcoming(events[from].start, now) {
        from
    } else {
        next_upcoming(events, now, from + 1)
    }
}

/// Whether `step` is the action for the upcoming event `event`, which holds
/// place `index`, at `now`, where `notified` says whether its title has been
/// announced.
pub open spec fn step_for(
    step: Step,
    index: int,
    event: EventView,
    now: int,
    notified: bool,
) -> bool {
    let lead = lead_seconds(event.start, now);
    match decision(event.start, now, notified) {
        Decision::NotUpcoming => false,
        Decision::Far => {
            &&& step is Far
            &&& step->Far_index == index
            &&& step->Far_lead == lead
        },
        Decision::AlreadyNotified => {
            &&& step is AlreadyNotified
            &&& step->AlreadyNotified_index == index
            &&& step->AlreadyNotified_lead == lead
        },
        Decision::Notify => {
            &&& step is Notify
            &&& step->Notify_index == index
            &&& step->Notify_lead == lead
            &&& step->notice.text@ == notification_text(event.summary, lead)
            &&& step->notice.never_expires
        },
    }
}

/// A pass over the events of one feed at one instant.
#[derive(Debug)]
pub struct Cycle {
    events: Vec<Event>,
    now: Instant,
    cursor: usize,
    awaiting: Option<usize>,
}

impl Cycle {
    #[verifier::type_invariant]
    spec fn well_formed(self) -> bool {
        &&& self.cursor <= self.events.len()
        &&& sorted_by_start(event_views(self.events@))
        &&& self.awaiting matches Some(place) ==> place < self.cursor
    }

    /// The events of the cycle, in the order in which they are handled.
    pub closed spec fn events(&self) -> Seq<EventView> {
        event_views(self.events@)
    }

    /// The instant at which the cycle was begun, in nanoseconds since the
    /// Unix epoch. Every decision of the cycle is taken at this instant.
    pub closed spec fn now(&self) -> int {
        self.now@
    }

    /// How many events the cycle is past.
    pub closed spec fn position(&self) -> int {
        self.cursor as int
    }

    /// The place of the event whose notification has been handed out and
    /// not been settled, if there is one: the only place at which a report
    /// of a delivery is taken.
    pub closed spec fn awaited(&self) -> Option<int> {
        match self.awaiting {
            Some(place) => Some(place as int),
            None => None,
        }
    }

    /// Begins a cycle at `now` over `events`, which are put in ascending
    /// order of start first.
    pub fn begin(events: Vec<Event>, now: Instant) -> (cycle: Cycle)
        ensures
            is_stable_sort_of(cycle.events(), event_views(events@)),
            cycle.events().len() == events@.len(),
            cycle.now() == now@,
            cycle.position() == 0,
            cycle.awaited() is None,
    {
        Cycle { events: sort_events(events), now, cursor: 0, awaiting: None }
    }

    /// Begins a cycle at `now` over what a fetch has brought. A failed fetch
    /// gives a cycle without events: nothing is announced, and the next
    /// cycle tries again.
    pub fn begin_fetched(fetched: Result<Vec<Event>, FetchError>, now: Instant) -> (cycle: Cycle)
        ensures
            is_stable_sort_of(cycle.events(), event_views(fetched_events(fetched))),
            cycle.events().len() == fetched_events(fetched).len(),
            cycle.now() == now@,
            cycle.position() == 0,
            cycle.awaited() is None,
    {
        match fetched {
            Ok(events) => Cycle::begin(events, now),
            Err(_) => Cycle::begin(Vec::new(), now),
        }
    }

    /// The number of events in the cycle.
    pub fn len(&self) -> (count: usize)
        ensures
            count == self.events().len(),
    {
        self.events.len()
    }

    /// The event that holds place `index`.
    pub fn event(&self, index: usize) -> (event: Option<&Event>)
        ensures
            event.is_some() <==> index < self.events().len(),
            event matches Some(e) ==> e@ == self.events()[index as int],
    {
        if index < self.events.len() {
            Some(&self.events[index])
        } else {
            None
        }
    }

    /// Moves on to the next upcoming event and says what to do about it.
    /// Events that have started are passed over in silence. `notified` is
    /// only read. A notification that was handed out before and has not
    /// been settled is given up: from here on only the one that this step
    /// hands out, if it does, can be settled.
    pub fn next(&mut self, notified: &NotifiedSet) -> (step: Step)
        ensures
            final(self).events() == old(self).events(),
            final(self).now() == old(self).now(),
            final(self).awaited() == awaited_after(step),
            ({
                let events = old(self).events();
                let at = next_upcoming(events, old(self).now(), old(self).position());
                if at < events.len() {
                    &&& final(self).position() == at + 1
                    &&& step_for(
                        step,
                        at,
                        events[at],
                        old(self).now(),
                        notified@.contains(events[at].summary),
                    )
                } else {
                    &&& final(self).position() == events.len()
                    &&& step == Step::Done
                }
            }),
    {
        proof {
            use_type_invariant(&*self);
        }
        let ghost events = self.events();
        let ghost now = self.now();
        let ghost start = self.position();
        let mut at: usize = self.cursor;
        while at < self.events.len() && !self.events[at].start_time.is_after(&self.now)
            invariant
                start <= at <= self.events.len(),
                events == event_views(self.events@),
                now == self.now@,
                next_upcoming(events, now, start) == next_upcoming(events, now, at as int),
            decreases self.events.len() - at,
        {
            assert(events[at as int] == self.events@[at as int]@);
            at = at + 1;
        }
        if at >= self.events.len() {
            self.awaiting = None;
            self.cursor = at;
            return Step::Done;
        }
        assert(events[at as int] == self.events@[at as int]@);
        let event = &self.events[at];
        let lead = time_to_event_secs(event, &self.now);
        let (step, awaiting) = match decide(event, &self.now, notified) {
            Decision::Far => (Step::Far { index: at, lead }, None),
            Decision::AlreadyNotified => (Step::AlreadyNotified { index: at, lead }, None),
            _ => (
                Step::Notify { index: at, lead, notice: notice_for(event.summary.as_str(), lead) },
                Some(at),
            ),
        };
        self.cursor = at + 1;
        self.awaiting = awaiting;
        step
    }

    /// Takes note of how the delivery of the notification that the last step
    /// handed out ended. `index` is the place that the step gave. Where the
    /// notification was delivered, the event's title enters `notified`;
    /// where it failed, `notified` stays as it was and the event remains
    /// eligible. Either way the notification is settled then. A report for
    /// any other place, or a second one for the same notification, changes
    /// nothing: a title enters the set only by the delivered notification
    /// of a due event.
    pub fn settle(&mut self, notified: &mut NotifiedSet, index: usize, delivered: bool)
        ensures
            final(self).events() == old(self).events(),
            final(self).now() == old(self).now(),
            final(self).position() == old(self).position(),
            old(self).awaited() == Some(index as int) ==> {
                &&& index < old(self).events().len()
                &&& final(self).awaited() is None
                &&& final(notified)@ == after_delivery(
                    old(notified)@,
                    old(self).events()[index as int].summary,
                    delivered,
                )
            },
            old(self).awaited() != Some(index as int) ==> {
                &&& final(self).awaited() == old(self).awaited()
                &&& final(notified)@ == old(notified)@
            },
    {
        proof {
            use_type_invariant(&*self);
        }
        let awaited = match self.awaiting {
            Some(place) => place == index,
            None => false,
        };
        if awaited {
            notified.record(self.events[index].summary.as_str(), delivered);
            self.awaiting = None;
        }
    }
}

} // verus!
