use ucx::clock::{Timestamp, FIRST_SECOND, LAST_SECOND};

#[test]
fn calendar_range_is_that_of_chrono() {
    assert_eq!(chrono::DateTime::<chrono::Utc>::MIN_UTC.timestamp(), FIRST_SECOND);
    assert_eq!(chrono::DateTime::<chrono::Utc>::MAX_UTC.timestamp(), LAST_SECOND);
    assert!(Timestamp::at(FIRST_SECOND, 0).is_some());
    assert!(Timestamp::at(FIRST_SECOND - 1, 999_999_999).is_none());
    assert!(Timestamp::at(LAST_SECOND, 999_999_999).is_some());
    assert!(Timestamp::at(LAST_SECOND + 1, 0).is_none());
    assert!(Timestamp::at(0, 1_000_000_000).is_none());
    assert!(Timestamp::at(i64::MIN, 0).is_none());
    assert!(Timestamp::at(i64::MAX, 0).is_none());
}

#[test]
fn seconds_and_nanoseconds_are_kept() {
    let t = Timestamp::at(-5, 7).unwrap();
    assert_eq!(t.seconds(), -5);
    assert_eq!(t.nanoseconds(), 7);
}

#[test]
fn adding_seconds() {
    let t = Timestamp::at(100, 5).unwrap();
    let later = t.plus(3600).unwrap();
    assert_eq!((later.seconds(), later.nanoseconds()), (3700, 5));
    assert!(Timestamp::at(LAST_SECOND, 0).unwrap().plus(1).is_none());
    assert!(Timestamp::at(LAST_SECOND, 999_999_999).unwrap().plus(0).is_some());
    let edge = Timestamp::at(LAST_SECOND - 3600, 999_999_999).unwrap().plus(3600).unwrap();
    assert_eq!((edge.seconds(), edge.nanoseconds()), (LAST_SECOND, 999_999_999));
    let far = Timestamp::at(FIRST_SECOND, 0).unwrap().plus(u32::MAX).unwrap();
    assert_eq!(far.seconds(), FIRST_SECOND + u32::MAX as i64);
}

#[test]
fn differences_are_cut_toward_zero() {
    let a = Timestamp::at(10, 500_000_000).unwrap();
    let b = Timestamp::at(12, 400_000_000).unwrap();
    assert_eq!(b.seconds_since(&a), 1);
    assert_eq!(a.seconds_since(&b), -1);
    assert_eq!(a.seconds_since(&a), 0);
    let first = Timestamp::at(FIRST_SECOND, 0).unwrap();
    let last = Timestamp::at(LAST_SECOND, 0).unwrap();
    assert_eq!(last.seconds_since(&first), LAST_SECOND - FIRST_SECOND);
    assert_eq!(first.seconds_since(&last), FIRST_SECOND - LAST_SECOND);
}

#[test]
fn order_of_points_in_time() {
    let a = Timestamp::at(10, 1).unwrap();
    let b = Timestamp::at(10, 2).unwrap();
    let c = Timestamp::at(11, 0).unwrap();
    assert!(b.is_after(&a) && c.is_after(&b) && c.is_after(&a));
    assert!(!a.is_after(&a) && !a.is_after(&b) && !b.is_after(&c));
}

#[test]
fn milliseconds() {
    assert_eq!(Timestamp::at(1, 999_999_999).unwrap().millis(), 1999);
    assert_eq!(Timestamp::at(-1, 0).unwrap().millis(), -1000);
    assert_eq!(Timestamp::at(-1, 1_000_000).unwrap().millis(), -999);
}

#[test]
fn rfc3339_form() {
    assert_eq!(Timestamp::at(0, 0).unwrap().rfc3339(), "1970-01-01T00:00:00+00:00");
    assert_eq!(
        Timestamp::at(1_700_000_000, 120_000_000).unwrap().rfc3339(),
        "2023-11-14T22:13:20.120+00:00"
    );
}

#[test]
fn clock_moves_on() {
    let t = Timestamp::now();
    assert!(t.seconds() > 1_500_000_000);
    assert!(!t.is_after(&Timestamp::now()));
}
