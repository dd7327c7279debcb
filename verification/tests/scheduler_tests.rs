use ical_notifier::event::{time_to_event_secs, Event};
use ical_notifier::instant::Instant;
use ical_notifier::notified::NotifiedSet;
use ical_notifier::scheduler::{decide, Decision, LEAD_THRESHOLD};

const NOW: i64 = 1_700_000_000;

fn at(secs: i64) -> Instant {
    Instant::new(secs, 0).unwrap()
}

fn event(summary: &str, lead: i64) -> Event {
    Event::new(summary.to_string(), at(NOW + lead))
}

#[test]
fn threshold_is_three_minutes() {
    assert_eq!(LEAD_THRESHOLD, 180);
}

#[test]
fn started_event_is_not_upcoming_whatever_was_announced() {
    let mut notified = NotifiedSet::new();
    assert_eq!(decide(&event("Retro", -5), &at(NOW), &notified), Decision::NotUpcoming);
    assert_eq!(decide(&event("Retro", 0), &at(NOW), &notified), Decision::NotUpcoming);
    notified.insert("Retro");
    assert_eq!(decide(&event("Retro", -5), &at(NOW), &notified), Decision::NotUpcoming);
    assert_eq!(decide(&event("Retro", 0), &at(NOW), &notified), Decision::NotUpcoming);
}

#[test]
fn far_event_is_far_whatever_was_announced() {
    let mut notified = NotifiedSet::new();
    assert_eq!(decide(&event("Planning", 600), &at(NOW), &notified), Decision::Far);
    notified.insert("Planning");
    assert_eq!(decide(&event("Planning", 600), &at(NOW), &notified), Decision::Far);
}

#[test]
fn due_event_is_notified_unless_announced() {
    let mut notified = NotifiedSet::new();
    assert_eq!(decide(&event("Standup", 60), &at(NOW), &notified), Decision::Notify);
    notified.record("Standup", true);
    assert_eq!(decide(&event("Standup", 60), &at(NOW), &notified), Decision::AlreadyNotified);
}

#[test]
fn deciding_does_not_change_the_set() {
    let notified = NotifiedSet::new();
    assert_eq!(decide(&event("Standup", 60), &at(NOW), &notified), Decision::Notify);
    assert_eq!(decide(&event("Standup", 60), &at(NOW), &notified), Decision::Notify);
    assert!(notified.is_empty());
}

#[test]
fn decision_at_the_boundary() {
    let notified = NotifiedSet::new();
    assert_eq!(decide(&event("A", 180), &at(NOW), &notified), Decision::Notify);
    assert_eq!(decide(&event("A", 181), &at(NOW), &notified), Decision::Far);
    assert_eq!(decide(&event("A", 1), &at(NOW), &notified), Decision::Notify);
}

#[test]
fn fraction_of_a_second_does_not_count_towards_the_lead() {
    let notified = NotifiedSet::new();
    let now = Instant::new(NOW, 1).unwrap();
    // 180.999999999 seconds ahead: 180 whole seconds.
    assert_eq!(decide(&event("A", 181), &now, &notified), Decision::Notify);
    assert_eq!(time_to_event_secs(&event("A", 181), &now), 180);
    assert_eq!(decide(&event("A", 182), &now, &notified), Decision::Far);
}

#[test]
fn titles_are_compared_exactly() {
    let mut notified = NotifiedSet::new();
    notified.insert("Standup");
    assert_eq!(decide(&event("standup", 60), &at(NOW), &notified), Decision::Notify);
    assert_eq!(decide(&event("Standup ", 60), &at(NOW), &notified), Decision::Notify);
    assert_eq!(decide(&event("Standup", 60), &at(NOW), &notified), Decision::AlreadyNotified);
}

#[test]
fn time_to_event_in_seconds() {
    assert_eq!(time_to_event_secs(&event("A", 60), &at(NOW)), 60);
    assert_eq!(time_to_event_secs(&event("A", 0), &at(NOW)), 0);
    assert_eq!(time_to_event_secs(&event("A", -5), &at(NOW)), -5);
    assert_eq!(time_to_event_secs(&event("A", 86_400), &at(NOW)), 86_400);
}
