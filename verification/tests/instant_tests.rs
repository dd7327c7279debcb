use chrono::{DateTime, TimeZone, Utc};
use ical_notifier::instant::{
    Instant, MAX_TIMESTAMP_SECS, MIN_TIMESTAMP_SECS, NANOS_PER_SECOND,
};

#[test]
fn instant_keeps_its_parts() {
    let t = Instant::new(1_700_000_000, 123_456_789).unwrap();
    assert_eq!(t.secs(), 1_700_000_000);
    assert_eq!(t.subsec_nanos(), 123_456_789);
    let early = Instant::new(-1, 999_999_999).unwrap();
    assert_eq!(early.secs(), -1);
    assert_eq!(early.subsec_nanos(), 999_999_999);
}

#[test]
fn full_second_of_nanoseconds_is_refused() {
    assert_eq!(NANOS_PER_SECOND, 1_000_000_000);
    assert!(Instant::new(0, 999_999_999).is_some());
    assert_eq!(Instant::new(0, 1_000_000_000), None);
    assert_eq!(Instant::new(59, 1_500_000_000), None);
    assert_eq!(Instant::new(0, u32::MAX), None);
}

#[test]
fn timestamps_out_of_range_are_refused() {
    assert_eq!(Instant::new(i64::MAX, 0), None);
    assert_eq!(Instant::new(i64::MIN, 0), None);
    assert!(Instant::new(0, 0).is_some());
    assert!(Instant::new(-62_167_219_200, 0).is_some());
}

#[test]
fn range_is_that_of_the_calendar_library() {
    let last = DateTime::<Utc>::MAX_UTC;
    let first = DateTime::<Utc>::MIN_UTC;
    assert!(Instant::new(last.timestamp(), 999_999_999).is_some());
    assert_eq!(Instant::new(last.timestamp() + 1, 0), None);
    assert!(Instant::new(first.timestamp(), 0).is_some());
    assert_eq!(Instant::new(first.timestamp() - 1, 0), None);
}

#[test]
fn later_instant_is_after() {
    let a = Instant::new(10, 5).unwrap();
    let b = Instant::new(10, 6).unwrap();
    let c = Instant::new(11, 0).unwrap();
    assert!(b.is_after(&a));
    assert!(!a.is_after(&b));
    assert!(!a.is_after(&a));
    assert!(c.is_after(&b));
    assert!(!b.is_after(&c));
    let before_epoch = Instant::new(-1, 999_999_999).unwrap();
    let epoch = Instant::new(0, 0).unwrap();
    assert!(epoch.is_after(&before_epoch));
    assert!(!before_epoch.is_after(&epoch));
}

#[test]
fn whole_seconds_round_towards_zero() {
    let base = Instant::new(100, 0).unwrap();
    let a = Instant::new(101, 500_000_000).unwrap();
    assert_eq!(a.whole_seconds_since(&base), 1);
    assert_eq!(base.whole_seconds_since(&a), -1);
    let b = Instant::new(100, 999_999_999).unwrap();
    assert_eq!(b.whole_seconds_since(&base), 0);
    assert_eq!(base.whole_seconds_since(&b), 0);
    let c = Instant::new(99, 1).unwrap();
    assert_eq!(base.whole_seconds_since(&c), 0);
    assert_eq!(c.whole_seconds_since(&base), 0);
    let d = Instant::new(98, 999_999_999).unwrap();
    assert_eq!(d.whole_seconds_since(&base), -1);
    assert_eq!(base.whole_seconds_since(&d), 1);
    assert_eq!(base.whole_seconds_since(&base), 0);
}

#[test]
fn whole_seconds_between_distant_instants() {
    let a = Instant::new(1_700_000_000, 250_000_000).unwrap();
    let b = Instant::new(1_700_000_600, 0).unwrap();
    assert_eq!(b.whole_seconds_since(&a), 599);
    assert_eq!(a.whole_seconds_since(&b), -599);
    let epoch = Instant::new(0, 0).unwrap();
    assert_eq!(a.whole_seconds_since(&epoch), 1_700_000_000);
    let first = Instant::new(DateTime::<Utc>::MIN_UTC.timestamp(), 0).unwrap();
    let last = Instant::new(DateTime::<Utc>::MAX_UTC.timestamp(), 999_999_999).unwrap();
    assert_eq!(
        last.whole_seconds_since(&first),
        DateTime::<Utc>::MAX_UTC.timestamp() - DateTime::<Utc>::MIN_UTC.timestamp()
    );
}

#[test]
fn whole_seconds_agree_with_the_calendar_library() {
    let stamps: [(i64, u32); 6] = [
        (0, 0),
        (1_700_000_000, 1),
        (1_700_000_000, 999_999_999),
        (1_700_000_181, 0),
        (-5, 400_000_000),
        (1_435_708_799, 999_999_999),
    ];
    for (s1, n1) in stamps {
        for (s0, n0) in stamps {
            let later = Instant::new(s1, n1).unwrap();
            let earlier = Instant::new(s0, n0).unwrap();
            let ours = later.whole_seconds_since(&earlier);
            let theirs = (Utc.timestamp_opt(s1, n1).unwrap() - Utc.timestamp_opt(s0, n0).unwrap())
                .num_seconds();
            assert_eq!(ours, theirs);
            let exact = (s1 as i128 - s0 as i128) * 1_000_000_000 + (n1 as i128 - n0 as i128);
            assert_eq!(ours as i128, exact / 1_000_000_000);
        }
    }
}

#[test]
fn range_runs_over_the_years_that_have_a_date() {
    assert_eq!(MIN_TIMESTAMP_SECS, -8_334_601_228_800);
    assert_eq!(MAX_TIMESTAMP_SECS, 8_210_266_876_799);
    assert_eq!(DateTime::<Utc>::MIN_UTC.timestamp(), MIN_TIMESTAMP_SECS);
    assert_eq!(DateTime::<Utc>::MAX_UTC.timestamp(), MAX_TIMESTAMP_SECS);
    assert!(Instant::new(MIN_TIMESTAMP_SECS, 0).is_some());
    assert!(Instant::new(MIN_TIMESTAMP_SECS, 999_999_999).is_some());
    assert_eq!(Instant::new(MIN_TIMESTAMP_SECS - 1, 0), None);
    assert_eq!(Instant::new(MIN_TIMESTAMP_SECS - 1, 999_999_999), None);
    assert!(Instant::new(MAX_TIMESTAMP_SECS, 0).is_some());
    assert!(Instant::new(MAX_TIMESTAMP_SECS, 999_999_999).is_some());
    assert_eq!(Instant::new(MAX_TIMESTAMP_SECS + 1, 0), None);
}

#[test]
fn calendar_library_has_a_date_for_every_instant() {
    let inside = [MIN_TIMESTAMP_SECS, MIN_TIMESTAMP_SECS + 1, -1, 0, 59, MAX_TIMESTAMP_SECS];
    for secs in inside {
        assert!(Instant::new(secs, 0).is_some());
        assert!(DateTime::from_timestamp(secs, 0).is_some());
        assert!(DateTime::from_timestamp(secs, 999_999_999).is_some());
    }
    let outside = [i64::MIN, MIN_TIMESTAMP_SECS - 1, MAX_TIMESTAMP_SECS + 1, i64::MAX];
    for secs in outside {
        assert_eq!(Instant::new(secs, 0), None);
        assert!(DateTime::from_timestamp(secs, 0).is_none());
        assert!(DateTime::from_timestamp(secs, 999_999_999).is_none());
    }
}
