use blockchain::BlockError;
use blockchain::Timestamp;

#[test]
fn epoch_is_zero() {
    let t = Timestamp::epoch();
    assert_eq!(t.as_nanos(), 0);
    assert_eq!(t.as_secs(), 0);
    assert_eq!(t.subsec_nanos(), 0);
}

#[test]
fn from_unix_at_the_epoch_is_the_epoch() {
    assert_eq!(Timestamp::from_unix(0, 0), Ok(Timestamp::epoch()));
}

#[test]
fn from_unix_counts_nanoseconds() {
    let t = Timestamp::from_unix(5, 7).unwrap();
    assert_eq!(t.as_nanos(), 5_000_000_007);
    assert_eq!(t.as_secs(), 5);
    assert_eq!(t.subsec_nanos(), 7);
}

#[test]
fn from_unix_carries_whole_seconds_out_of_the_nanoseconds() {
    let t = Timestamp::from_unix(5, 2_500_000_000).unwrap();
    assert_eq!(t.as_nanos(), 7_500_000_000);
    assert_eq!(t.as_secs(), 7);
    assert_eq!(t.subsec_nanos(), 500_000_000);
    assert_eq!(t, Timestamp::from_unix(7, 500_000_000).unwrap());
}

#[test]
fn from_unix_of_largest_values() {
    let t = Timestamp::from_unix(i64::MAX, u32::MAX).unwrap();
    assert_eq!(
        t.as_nanos(),
        9_223_372_036_854_775_807u128 * 1_000_000_000 + 4_294_967_295
    );
    assert_eq!(t.as_secs(), 9_223_372_036_854_775_811);
    assert_eq!(t.subsec_nanos(), 294_967_295);
}

#[test]
fn from_unix_rejects_a_point_before_the_epoch() {
    assert_eq!(Timestamp::from_unix(-1, 0), Err(BlockError::InvalidTimestamp));
    assert_eq!(
        Timestamp::from_unix(-1, 999_999_999),
        Err(BlockError::InvalidTimestamp)
    );
    assert_eq!(
        Timestamp::from_unix(i64::MIN, u32::MAX),
        Err(BlockError::InvalidTimestamp)
    );
}

#[test]
fn from_unix_accepts_a_negative_second_that_the_nanoseconds_make_up_for() {
    assert_eq!(Timestamp::from_unix(-1, 1_000_000_000), Ok(Timestamp::epoch()));
    assert_eq!(
        Timestamp::from_unix(-2, 3_000_000_000).unwrap().as_nanos(),
        1_000_000_000
    );
}

#[test]
fn timestamps_are_equal_when_their_nanoseconds_are() {
    let a = Timestamp::from_unix(3, 4).unwrap();
    let b = Timestamp::from_unix(3, 4).unwrap();
    let c = Timestamp::from_unix(3, 5).unwrap();
    assert_eq!(a, b);
    assert_ne!(a, c);
    assert!(a < c);
    assert!(Timestamp::from_unix(2, 999_999_999).unwrap() < a);
}

#[test]
fn now_lies_after_the_year_2020() {
    let t = Timestamp::now().unwrap();
    assert!(t.as_secs() > 1_577_836_800);
    assert!(t.subsec_nanos() < 1_000_000_000);
}

#[test]
fn now_does_not_run_backwards_by_much() {
    let a = Timestamp::now().unwrap();
    let b = Timestamp::now().unwrap();
    assert!(b.as_secs() + 5 > a.as_secs());
}

#[test]
fn from_elapsed_takes_the_nanoseconds_as_they_are() {
    assert_eq!(Timestamp::from_elapsed(Some(0)), Ok(Timestamp::epoch()));
    let t = Timestamp::from_elapsed(Some(5_000_000_007)).unwrap();
    assert_eq!(t, Timestamp::from_unix(5, 7).unwrap());
    assert_eq!(t.as_nanos(), 5_000_000_007);
    assert_eq!(Timestamp::from_elapsed(Some(u128::MAX)).unwrap().as_nanos(), u128::MAX);
}

#[test]
fn from_elapsed_rejects_a_clock_before_the_epoch() {
    assert_eq!(Timestamp::from_elapsed(None), Err(BlockError::InvalidTimestamp));
}
