use ical_notifier::epoch::{EpochPolicy, FeedState};

#[test]
fn new_state_is_empty() {
    let state = FeedState::new();
    assert!(state.notified.is_empty());
    assert_eq!(state.sweeps, 0);
}

#[test]
fn persistent_set_is_never_emptied() {
    let mut state = FeedState::new();
    state.begin_sweep(EpochPolicy::Persistent);
    state.notified.insert("Standup");
    for _ in 0..1000 {
        state.begin_sweep(EpochPolicy::Persistent);
        assert!(state.notified.contains("Standup"));
    }
    assert_eq!(state.sweeps, 0);
}

#[test]
fn set_is_emptied_every_third_sweep() {
    let policy = EpochPolicy::ResetEvery { sweeps: 3 };
    let mut state = FeedState::new();
    state.begin_sweep(policy);
    assert_eq!(state.sweeps, 1);
    state.notified.insert("Standup");
    state.begin_sweep(policy);
    assert_eq!(state.sweeps, 2);
    assert!(state.notified.contains("Standup"));
    state.begin_sweep(policy);
    assert_eq!(state.sweeps, 3);
    assert!(state.notified.contains("Standup"));
    state.begin_sweep(policy);
    assert_eq!(state.sweeps, 1);
    assert!(state.notified.is_empty());
}

#[test]
fn set_is_emptied_every_sweep() {
    for sweeps in [0, 1] {
        let policy = EpochPolicy::ResetEvery { sweeps };
        let mut state = FeedState::new();
        state.begin_sweep(policy);
        assert_eq!(state.sweeps, 1);
        state.notified.insert("Standup");
        state.begin_sweep(policy);
        assert_eq!(state.sweeps, 1);
        assert!(state.notified.is_empty());
    }
}

#[test]
fn longest_epoch_does_not_overflow() {
    let policy = EpochPolicy::ResetEvery { sweeps: u32::MAX };
    let mut state = FeedState::new();
    state.sweeps = u32::MAX - 1;
    state.notified.insert("Standup");
    state.begin_sweep(policy);
    assert_eq!(state.sweeps, u32::MAX);
    assert!(state.notified.contains("Standup"));
    state.begin_sweep(policy);
    assert_eq!(state.sweeps, 1);
    assert!(state.notified.is_empty());
}
