//! Ordering the events of a feed by their start.

use vstd::prelude::*;
use crate::event::{event_views, Event, EventView};

verus! {

/// Whether `events` is in ascending order of start.
pub open spec fn sorted_by_start(events: Seq<EventView>) -> bool {
    forall|i: int, j: int| 0 <= i <= j < events.len() ==> events[i].start <= events[j].start
}

/// The test that an event starts at `start`.
pub open spec fn starts_at(start: int) -> spec_fn(EventView) -> bool {
    |e: EventView| e.start == start
}

/// The events of `events` that start at `start`, in the order in which they
/// stand there.
pub open spec fn starting_at(events: Seq<EventView>, start: int) -> Seq<EventView> {
    events.filter(starts_at(start))
}

/// Whether `sorted` is `given` put in ascending order of start, with events
/// that start together left in the order that `given` has them in.
pub open spec fn is_stable_sort_of(sorted: Seq<EventView>, given: Seq<EventView>) -> bool {
    &&& sorted_by_start(sorted)
    &&& forall|start: int| #[trigger] starting_at(sorted, start) == starting_at(given, start)
}

/// Putting `x` into `s` behind events that all start at another time adds
/// `x` in front of those that start with it, and changes no other class.
proof fn lemma_insert_starting_at(s: Seq<EventView>, x: EventView, p: int, start: int)
    requires
        0 <= p <= s.len(),
        forall|j: int| 0 <= j < p ==> s[j].start != x.start,
    ensures
        starting_at(s.insert(p, x), start) == starting_at(seq![x], start) + starting_at(s, start),
{
    let test = starts_at(start);
    let head = s.take(p);
    let tail = s.skip(p);
    assert(s =~= head + tail);
    assert(s.insert(p, x) =~= (head + seq![x]) + tail);
    Seq::filter_distributes_over_add(head, tail, test);
    Seq::filter_distributes_over_add(head + seq![x], tail, test);
    Seq::filter_distributes_over_add(head, seq![x], test);
    if x.start == start {
        assert(head.all(|e: EventView| !test(e)));
        head.lemma_all_neg_filter_empty(test);
        assert(head.filter(test) =~= Seq::<EventView>::empty());
        assert(starting_at(s.insert(p, x), start) =~= starting_at(seq![x], start) + starting_at(
            s,
            start,
        ));
    } else {
        assert(seq![x].all(|e: EventView| !test(e)));
        seq![x].lemma_all_neg_filter_empty(test);
        assert(seq![x].filter(test) =~= Seq::<EventView>::empty());
        assert(starting_at(s.insert(p, x), start) =~= starting_at(seq![x], start) + starting_at(
            s,
            start,
        ));
    }
}

/// The class of `start` in `s`, told from the last event of `s`.
proof fn lemma_starting_at_unfolds(s: Seq<EventView>, start: int)
    ensures
        s.len() == 0 ==> starting_at(s, start) == Seq::<EventView>::empty(),
        s.len() > 0 ==> starting_at(s, start) == if s.last().start == start {
            starting_at(s.drop_last(), start).push(s.last())
        } else {
            starting_at(s.drop_last(), start)
        },
{
    reveal(Seq::filter);
}

/// A class that is not empty has a member in `s`.
proof fn lemma_class_has_member(s: Seq<EventView>, start: int)
    requires
        starting_at(s, start).len() > 0,
    ensures
        exists|i: int| 0 <= i < s.len() && (#[trigger] s[i]).start == start,
{
    let test = starts_at(start);
    if !(exists|i: int| 0 <= i < s.len() && (#[trigger] s[i]).start == start) {
        assert(s.all(|e: EventView| !test(e)));
        s.lemma_all_neg_filter_empty(test);
    }
}

/// The start of the last event of an ascending sequence is the greatest
/// start for which the sequence has a class.
proof fn lemma_last_class_is_greatest(s: Seq<EventView>, start: int)
    requires
        sorted_by_start(s),
        starting_at(s, start).len() > 0,
    ensures
        s.len() > 0,
        start <= s.last().start,
{
    lemma_class_has_member(s, start);
    let i = choose|i: int| 0 <= i < s.len() && (#[trigger] s[i]).start == start;
    assert(s[i].start <= s[s.len() - 1].start);
}

/// Two ascending sequences with the same class for every start are equal.
proof fn lemma_same_classes_same_order(a: Seq<EventView>, b: Seq<EventView>)
    requires
        sorted_by_start(a),
        sorted_by_start(b),
        forall|start: int| #[trigger] starting_at(a, start) == starting_at(b, start),
    ensures
        a == b,
    decreases a.len(),
{
    if a.len() == 0 {
        if b.len() > 0 {
            let m = b[0].start;
            b.lemma_filter_contains(starts_at(m), 0);
            lemma_starting_at_unfolds(a, m);
            assert(starting_at(a, m) == starting_at(b, m));
        }
        assert(a =~= b);
    } else {
        let x = a.last();
        let k = x.start;
        a.lemma_filter_contains(starts_at(k), a.len() - 1);
        assert(starting_at(a, k) == starting_at(b, k));
        lemma_last_class_is_greatest(b, k);
        let y = b.last();
        let m = y.start;
        b.lemma_filter_contains(starts_at(m), b.len() - 1);
        assert(starting_at(a, m) == starting_at(b, m));
        lemma_last_class_is_greatest(a, m);
        assert(k == m);
        let a0 = a.drop_last();
        let b0 = b.drop_last();
        lemma_starting_at_unfolds(a, k);
        lemma_starting_at_unfolds(b, k);
        let ca = starting_at(a0, k);
        let cb = starting_at(b0, k);
        assert(ca.push(x) == cb.push(y));
        assert(ca.push(x).last() == x);
        assert(cb.push(y).last() == y);
        assert(x == y);
        assert(ca =~= ca.push(x).drop_last());
        assert(cb =~= cb.push(y).drop_last());
        assert forall|start: int| #[trigger] starting_at(a0, start) == starting_at(b0, start) by {
            lemma_starting_at_unfolds(a, start);
            lemma_starting_at_unfolds(b, start);
            assert(starting_at(a, start) == starting_at(b, start));
        }
        assert(sorted_by_start(a0)) by {
            assert forall|i: int, j: int| 0 <= i <= j < a0.len() implies a0[i].start
                <= a0[j].start by {
                assert(a0[i] == a[i] && a0[j] == a[j]);
            }
        }
        assert(sorted_by_start(b0)) by {
            assert forall|i: int, j: int| 0 <= i <= j < b0.len() implies b0[i].start
                <= b0[j].start by {
                assert(b0[i] == b[i] && b0[j] == b[j]);
            }
        }
        lemma_same_classes_same_order(a0, b0);
        assert(a =~= a0.push(x));
        assert(b =~= b0.push(y));
    }
}

/// There is one way only to put events in ascending order of start while
/// those that start together keep their order: two such orderings of the
/// same events are equal.
pub proof fn law_stable_sort_is_unique(
    first: Seq<EventView>,
    second: Seq<EventView>,
    given: Seq<EventView>,
)
    requires
        is_stable_sort_of(first, given),
        is_stable_sort_of(second, given),
    ensures
        first == second,
{
    assert forall|start: int| #[trigger]
        starting_at(first, start) == starting_at(second, start) by {
        assert(starting_at(first, start) == starting_at(given, start));
        assert(starting_at(second, start) == starting_at(given, start));
    }
    lemma_same_classes_same_order(first, second);
}

/// Events that are in ascending order of start already are their own
/// ordering.
pub proof fn law_sorted_events_stay(given: Seq<EventView>)
    requires
        sorted_by_start(given),
    ensures
        is_stable_sort_of(given, given),
{
}

/// Puts the events in ascending order of start. Events that start at the
/// same instant keep the order in which they were given.
pub fn sort_events(events: Vec<Event>) -> (sorted: Vec<Event>)
    ensures
        is_stable_sort_of(event_views(sorted@), event_views(events@)),
        sorted@.len() == events@.len(),
{
    let mut rest = events;
    let mut sorted: Vec<Event> = Vec::new();
    assert(events@.skip(rest.len() as int) =~= Seq::<Event>::empty());
    assert(event_views(sorted@) =~= event_views(events@.skip(rest.len() as int)));
    while rest.len() > 0
        invariant
            rest.len() <= events.len(),
            rest@ == events@.take(rest.len() as int),
            sorted@.len() + rest@.len() == events@.len(),
            sorted_by_start(event_views(sorted@)),
            forall|start: int| #[trigger]
                starting_at(event_views(sorted@), start) == starting_at(
                    event_views(events@.skip(rest.len() as int)),
                    start,
                ),
        decreases rest.len(),
    {
        let ghost before = event_views(sorted@);
        let ghost done = event_views(events@.skip(rest.len() as int));
        let event = rest.pop().unwrap();
        let mut p: usize = 0;
        while p < sorted.len() && event.start_time.is_after(&sorted[p].start_time)
            invariant
                p <= sorted.len(),
                before == event_views(sorted@),
                forall|j: int| 0 <= j < p ==> before[j].start < event@.start,
            decreases sorted.len() - p,
        {
            assert(before[p as int] == sorted@[p as int]@);
            p = p + 1;
        }
        proof {
            if p < sorted.len() {
                assert(before[p as int] == sorted@[p as int]@);
            }
        }
        sorted.insert(p, event);
        proof {
            let after = event_views(sorted@);
            let x = event@;
            assert(after =~= before.insert(p as int, x));
            assert(event_views(events@.skip(rest.len() as int)) =~= seq![x] + done);
            assert(sorted_by_start(after)) by {
                assert forall|i: int, j: int| 0 <= i <= j < after.len() implies after[i].start
                    <= after[j].start by {
                    if i < p && j > p {
                        assert(after[i] == before[i]);
                        assert(after[j] == before[j - 1]);
                    } else if i > p {
                        assert(after[i] == before[i - 1]);
                        assert(after[j] == before[j - 1]);
                    } else if i == p && j > p {
                        assert(after[j] == before[j - 1]);
                        assert(before[p as int].start <= before[j - 1].start);
                    }
                }
            }
            assert forall|start: int| #[trigger]
                starting_at(after, start) == starting_at(seq![x] + done, start) by {
                lemma_insert_starting_at(before, x, p as int, start);
                Seq::filter_distributes_over_add(seq![x], done, starts_at(start));
            }
        }
    }
    assert(events@.skip(0) =~= events@);
    sorted
}

} // verus!
