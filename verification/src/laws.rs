//! What holds of every polling cycle, stated over a model of the whole
//! cycle and proved from the definitions that the scheduler's contracts use.

use vstd::prelude::*;
use crate::cycle::next_upcoming;
use crate::event::{lead_seconds, EventView};
use crate::notified::after_delivery;
use crate::scheduler::{decision, is_due, is_far, is_upcoming, Decision, LEAD_THRESHOLD};

verus! {

/// The set of announced titles once the events of `events` have been handled
/// in order at `now`, starting from `notified`. `delivered[i]` says whether
/// the notification for the event at place `i` is delivered if it is sent.
pub open spec fn notified_after(
    events: Seq<EventView>,
    now: int,
    notified: Set<Seq<char>>,
    delivered: Seq<bool>,
) -> Set<Seq<char>>
    decreases events.len(),
{
    if events.len() == 0 {
        notified
    } else {
        let before = notified_after(events.drop_last(), now, notified, delivered);
        let last = events.last();
        if decision(last.start, now, before.contains(last.summary)) == Decision::Notify {
            after_delivery(before, last.summary, delivered[events.len() - 1])
        } else {
            before
        }
    }
}

/// The decision for the event at place `i` in such a cycle.
pub open spec fn decision_at(
    events: Seq<EventView>,
    now: int,
    notified: Set<Seq<char>>,
    delivered: Seq<bool>,
    i: int,
) -> Decision {
    decision(
        events[i].start,
        now,
        notified_after(events.take(i), now, notified, delivered).contains(events[i].summary),
    )
}

/// How many notifications are sent for the title `summary` in such a cycle.
pub open spec fn notifications_for(
    events: Seq<EventView>,
    now: int,
    notified: Set<Seq<char>>,
    delivered: Seq<bool>,
    summary: Seq<char>,
) -> nat
    decreases events.len(),
{
    if events.len() == 0 {
        0
    } else {
        let earlier = notifications_for(events.drop_last(), now, notified, delivered, summary);
        let last = events.len() - 1;
        if events[last].summary == summary && decision_at(events, now, notified, delivered, last)
            == Decision::Notify {
            earlier + 1
        } else {
            earlier
        }
    }
}

/// Whether some event of `events` is titled `summary` and due at `now`.
pub open spec fn has_due(events: Seq<EventView>, now: int, summary: Seq<char>) -> bool {
    exists|i: int|
        0 <= i < events.len() && (#[trigger] events[i]).summary == summary && is_due(
            events[i].start,
            now,
        )
}

/// An event that has started is never upcoming, whatever has been announced:
/// it is neither far nor due, and the decision for it is to leave it out.
pub proof fn law_started_is_not_upcoming(start: int, now: int, notified: bool)
    requires
        start <= now,
    ensures
        !is_upcoming(start, now),
        !is_far(start, now),
        !is_due(start, now),
        decision(start, now, notified) == Decision::NotUpcoming,
{
}

/// A cycle never stops at an event that has started.
pub proof fn law_started_is_passed_over(events: Seq<EventView>, now: int, from: int, i: int)
    requires
        0 <= i < events.len(),
        events[i].start <= now,
    ensures
        next_upcoming(events, now, from) != i,
    decreases events.len() - from,
{
    if 0 <= from < events.len() && !is_upcoming(events[from].start, now) {
        law_started_is_passed_over(events, now, from + 1, i);
    }
}

/// An upcoming event beyond the threshold gets no notification, whatever
/// has been announced.
pub proof fn law_far_is_not_notified(start: int, now: int, notified: bool)
    requires
        is_upcoming(start, now),
        lead_seconds(start, now) > LEAD_THRESHOLD,
    ensures
        decision(start, now, notified) == Decision::Far,
{
}

/// Handling an event that is beyond the threshold leaves the set of
/// announced titles as it was.
pub proof fn law_far_leaves_the_set(
    events: Seq<EventView>,
    now: int,
    notified: Set<Seq<char>>,
    delivered: Seq<bool>,
    i: int,
)
    requires
        0 <= i < events.len(),
        is_upcoming(events[i].start, now),
        lead_seconds(events[i].start, now) > LEAD_THRESHOLD,
    ensures
        decision_at(events, now, notified, delivered, i) == Decision::Far,
        notified_after(events.take(i + 1), now, notified, delivered) == notified_after(
            events.take(i),
            now,
            notified,
            delivered,
        ),
{
    assert(events.take(i + 1).drop_last() =~= events.take(i));
}

/// An upcoming event within the threshold whose title has not been
/// announced gets a notification, and once that is delivered the title is
/// in the set.
pub proof fn law_due_is_notified(
    start: int,
    now: int,
    notified: Set<Seq<char>>,
    summary: Seq<char>,
)
    requires
        is_upcoming(start, now),
        lead_seconds(start, now) <= LEAD_THRESHOLD,
        !notified.contains(summary),
    ensures
        decision(start, now, notified.contains(summary)) == Decision::Notify,
        after_delivery(notified, summary, true).contains(summary),
        after_delivery(notified, summary, false) == notified,
{
}

/// The set of announced titles only grows in a cycle.
pub proof fn law_set_only_grows(
    events: Seq<EventView>,
    now: int,
    notified: Set<Seq<char>>,
    delivered: Seq<bool>,
)
    ensures
        notified.subset_of(notified_after(events, now, notified, delivered)),
    decreases events.len(),
{
    if events.len() > 0 {
        law_set_only_grows(events.drop_last(), now, notified, delivered);
    }
}

/// Where a title has not been announced, some event with that title is due,
/// and the notifications for that title are delivered, the cycle sends
/// exactly one notification for it and leaves the title in the set. Where
/// no event with that title is due, it sends none for it.
pub proof fn law_one_notification_per_cycle(
    events: Seq<EventView>,
    now: int,
    notified: Set<Seq<char>>,
    delivered: Seq<bool>,
    summary: Seq<char>,
)
    requires
        !notified.contains(summary),
        forall|i: int| 0 <= i < events.len() && events[i].summary == summary ==> delivered[i],
    ensures
        has_due(events, now, summary) ==> notifications_for(
            events,
            now,
            notified,
            delivered,
            summary,
        ) == 1 && notified_after(events, now, notified, delivered).contains(summary),
        !has_due(events, now, summary) ==> notifications_for(
            events,
            now,
            notified,
            delivered,
            summary,
        ) == 0 && !notified_after(events, now, notified, delivered).contains(summary),
    decreases events.len(),
{
    if events.len() > 0 {
        let earlier = events.drop_last();
        let place = events.len() - 1;
        let last = events[place];
        law_one_notification_per_cycle(earlier, now, notified, delivered, summary);
        assert(events.take(place) =~= earlier);
        if has_due(earlier, now, summary) {
            let i = choose|i: int|
                0 <= i < earlier.len() && (#[trigger] earlier[i]).summary == summary && is_due(
                    earlier[i].start,
                    now,
                );
            assert(events[i] == earlier[i]);
        } else if has_due(events, now, summary) {
            let i = choose|i: int|
                0 <= i < events.len() && (#[trigger] events[i]).summary == summary && is_due(
                    events[i].start,
                    now,
                );
            if i < place {
                assert(earlier[i] == events[i]);
            }
        } else {
            if last.summary == summary {
                assert(!is_due(events[place].start, now));
            }
        }
    }
}

/// A title that has been announced gets no further notification: a cycle
/// that starts from a set with the title in it sends none for it. This
/// holds of a second cycle run with the set that a first one left behind.
pub proof fn law_announced_is_not_repeated(
    events: Seq<EventView>,
    now: int,
    notified: Set<Seq<char>>,
    delivered: Seq<bool>,
    summary: Seq<char>,
)
    requires
        notified.contains(summary),
    ensures
        notifications_for(events, now, notified, delivered, summary) == 0,
    decreases events.len(),
{
    if events.len() > 0 {
        let earlier = events.drop_last();
        law_announced_is_not_repeated(earlier, now, notified, delivered, summary);
        law_set_only_grows(earlier, now, notified, delivered);
        assert(events.take(events.len() - 1) =~= earlier);
    }
}

/// Deciding again about an event whose notification was delivered, with the
/// set that the delivery left, sends nothing.
pub proof fn law_delivered_is_not_repeated(
    start: int,
    now: int,
    notified: Set<Seq<char>>,
    summary: Seq<char>,
)
    ensures
        decision(start, now, after_delivery(notified, summary, true).contains(summary))
            != Decision::Notify,
{
}

/// How far an event has come on its way from far away, through due and
/// announced, to started.
pub open spec fn stage(verdict: Decision) -> int {
    match verdict {
        Decision::Far => 0,
        Decision::Notify => 1,
        Decision::AlreadyNotified => 2,
        Decision::NotUpcoming => 3,
    }
}

/// As time passes, the lead of an event does not grow.
pub proof fn law_lead_shrinks_with_time(start: int, earlier: int, later: int)
    requires
        earlier <= later,
    ensures
        lead_seconds(start, later) <= lead_seconds(start, earlier),
{
}

/// An event only moves forward: while the clock does not go back, its start
/// stays where it is and no title leaves the set, a later decision never
/// falls behind an earlier one.
pub proof fn law_event_only_advances(
    start: int,
    earlier: int,
    later: int,
    notified_earlier: bool,
    notified_later: bool,
)
    requires
        earlier <= later,
        notified_earlier ==> notified_later,
    ensures
        stage(decision(start, earlier, notified_earlier)) <= stage(
            decision(start, later, notified_later),
        ),
{
    law_lead_shrinks_with_time(start, earlier, later);
}

/// The threshold is inclusive: with a lead of exactly 180 seconds an
/// upcoming event is due, with 181 seconds it is far.
pub proof fn law_threshold_is_inclusive(start: int, now: int)
    requires
        is_upcoming(start, now),
    ensures
        lead_seconds(start, now) == 180 ==> is_due(start, now) && !is_far(start, now),
        lead_seconds(start, now) == 181 ==> is_far(start, now) && !is_due(start, now),
{
}

} // verus!
