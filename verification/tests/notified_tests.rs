use ical_notifier::notified::NotifiedSet;

#[test]
fn new_set_is_empty() {
    let set = NotifiedSet::new();
    assert!(set.is_empty());
    assert_eq!(set.len(), 0);
    assert!(!set.contains("Standup"));
    assert!(!set.contains(""));
}

#[test]
fn insert_adds_a_title_once() {
    let mut set = NotifiedSet::new();
    assert!(set.insert("Standup"));
    assert!(!set.insert("Standup"));
    assert!(set.insert("Retro"));
    assert_eq!(set.len(), 2);
    assert!(set.contains("Standup"));
    assert!(set.contains("Retro"));
    assert!(!set.contains("Demo"));
    assert!(!set.is_empty());
}

#[test]
fn record_keeps_only_delivered_titles() {
    let mut set = NotifiedSet::new();
    set.record("Demo", false);
    assert!(!set.contains("Demo"));
    assert_eq!(set.len(), 0);
    set.record("Demo", true);
    assert!(set.contains("Demo"));
    assert_eq!(set.len(), 1);
    set.record("Demo", false);
    assert!(set.contains("Demo"));
    set.record("Demo", true);
    assert_eq!(set.len(), 1);
}

#[test]
fn clear_empties_the_set() {
    let mut set = NotifiedSet::new();
    set.insert("A");
    set.insert("B");
    set.clear();
    assert!(set.is_empty());
    assert!(!set.contains("A"));
    assert!(set.insert("A"));
}

#[test]
fn empty_title_is_a_title() {
    let mut set = NotifiedSet::new();
    assert!(set.insert(""));
    assert!(set.contains(""));
    assert_eq!(set.len(), 1);
}

#[test]
fn titles_outside_ascii_are_kept_apart() {
    let mut set = NotifiedSet::new();
    assert!(set.insert("Café"));
    assert!(!set.contains("Cafe"));
    assert!(set.contains("Café"));
}
