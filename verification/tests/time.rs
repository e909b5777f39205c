use risc_bot::time::{Duration, Timestamp};

#[test]
fn duration_new_takes_nanos_below_a_second() {
    let d = Duration::new(3, 999_999_999).unwrap();
    assert_eq!(d.as_secs(), 3);
    assert_eq!(d.subsec_nanos(), 999_999_999);
}

#[test]
fn duration_new_refuses_a_full_second_of_nanos() {
    assert_eq!(Duration::new(3, 1_000_000_000), None);
    assert_eq!(Duration::new(0, u32::MAX), None);
}

#[test]
fn duration_from_secs_has_no_nanos() {
    let d = Duration::from_secs(299);
    assert_eq!(d.as_secs(), 299);
    assert_eq!(d.subsec_nanos(), 0);
    assert_eq!(Some(d), Duration::new(299, 0));
}

#[test]
fn duration_from_millis_splits_seconds() {
    let d = Duration::from_millis(2_950);
    assert_eq!(d.as_secs(), 2);
    assert_eq!(d.subsec_nanos(), 950_000_000);
    assert_eq!(Duration::from_millis(0), Duration::from_secs(0));
    let big = Duration::from_millis(u64::MAX);
    assert_eq!(big.as_secs(), u64::MAX / 1000);
    assert_eq!(big.subsec_nanos(), (u64::MAX % 1000) as u32 * 1_000_000);
}

#[test]
fn duration_is_shorter_than_orders_by_length() {
    let a = Duration::new(1, 500).unwrap();
    let b = Duration::new(1, 501).unwrap();
    let c = Duration::new(2, 0).unwrap();
    assert!(a.is_shorter_than(&b));
    assert!(b.is_shorter_than(&c));
    assert!(a.is_shorter_than(&c));
    assert!(!b.is_shorter_than(&a));
    assert!(!a.is_shorter_than(&a));
    assert!(!c.is_shorter_than(&b));
}

#[test]
fn duration_checked_sub_borrows_from_seconds() {
    let a = Duration::new(5, 100).unwrap();
    let b = Duration::new(2, 200).unwrap();
    assert_eq!(a.checked_sub(&b), Duration::new(2, 999_999_900));
    assert_eq!(b.checked_sub(&a), None);
    assert_eq!(a.checked_sub(&a), Some(Duration::from_secs(0)));
    let c = Duration::new(5, 50).unwrap();
    assert_eq!(a.checked_sub(&c), Duration::new(0, 50));
}

#[test]
fn timestamp_duration_since_is_none_backwards() {
    let early = Timestamp::from_epoch(Duration::from_millis(1_000));
    let late = Timestamp::from_epoch(Duration::from_millis(1_250));
    assert_eq!(late.duration_since(&early), Some(Duration::from_millis(250)));
    assert_eq!(early.duration_since(&late), None);
    assert_eq!(early.duration_since(&early), Some(Duration::from_secs(0)));
    assert_eq!(late.since_epoch(), Duration::from_millis(1_250));
}

#[test]
fn timestamp_from_reading_takes_the_epoch_for_no_reading() {
    let since = Duration::new(1_700_000_000, 5).unwrap();
    assert_eq!(Timestamp::from_reading(Some(since)), Timestamp::from_epoch(since));
    assert_eq!(Timestamp::from_reading(Some(since)).since_epoch(), since);
    assert_eq!(Timestamp::from_reading(None), Timestamp::from_epoch(Duration::from_secs(0)));
    assert_eq!(Timestamp::from_reading(None).since_epoch().as_secs(), 0);
    assert_eq!(Timestamp::from_reading(None).since_epoch().subsec_nanos(), 0);
}
