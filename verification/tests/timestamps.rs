use eigen_kernel::clock::{millis_to_timestamp, unix_ms};
use eigen_kernel::gateway::{ts_from_unix_ms, ts_now, Timestamp};

#[test]
fn milliseconds_split_into_seconds_and_nanoseconds() {
    assert_eq!(ts_from_unix_ms(0), Timestamp { seconds: 0, nanos: 0 });
    assert_eq!(ts_from_unix_ms(999), Timestamp { seconds: 0, nanos: 999_000_000 });
    assert_eq!(ts_from_unix_ms(1_000), Timestamp { seconds: 1, nanos: 0 });
    assert_eq!(ts_from_unix_ms(1_500), Timestamp { seconds: 1, nanos: 500_000_000 });
    assert_eq!(
        ts_from_unix_ms(1_700_000_000_123),
        Timestamp { seconds: 1_700_000_000, nanos: 123_000_000 }
    );
}

#[test]
fn times_before_the_epoch_round_toward_it() {
    assert_eq!(ts_from_unix_ms(-1), Timestamp { seconds: 0, nanos: -1_000_000 });
    assert_eq!(ts_from_unix_ms(-1_500), Timestamp { seconds: -1, nanos: -500_000_000 });
    assert_eq!(ts_from_unix_ms(-2_000), Timestamp { seconds: -2, nanos: 0 });
}

#[test]
fn the_extreme_times_split_without_overflow() {
    assert_eq!(
        ts_from_unix_ms(i64::MAX),
        Timestamp { seconds: 9_223_372_036_854_775, nanos: 807_000_000 }
    );
    assert_eq!(
        ts_from_unix_ms(i64::MIN),
        Timestamp { seconds: -9_223_372_036_854_775, nanos: -808_000_000 }
    );
}

#[test]
fn millisecond_counts_saturate() {
    assert_eq!(millis_to_timestamp(0), 0);
    assert_eq!(millis_to_timestamp(1_700_000_000_123), 1_700_000_000_123);
    assert_eq!(millis_to_timestamp(i64::MAX as u128), i64::MAX);
    assert_eq!(millis_to_timestamp(i64::MAX as u128 + 1), i64::MAX);
    assert_eq!(millis_to_timestamp(u128::MAX), i64::MAX);
}

#[test]
fn the_clock_reads_a_time_of_this_century() {
    let now = unix_ms();
    assert!(now > 1_600_000_000_000);
    assert!(now < 4_102_444_800_000);
    let later = unix_ms();
    assert!(later - now < 60_000);
}

#[test]
fn the_current_timestamp_matches_the_clock() {
    let before = unix_ms();
    let t = ts_now();
    let after = unix_ms();
    assert!(t.seconds >= before / 1_000);
    assert!(t.seconds <= after / 1_000 + 1);
    assert!(t.nanos >= 0 && t.nanos < 1_000_000_000);
    assert_eq!(t.nanos % 1_000_000, 0);
}
