use chrono::{DateTime, TimeZone, Utc};
use sonyflake::clock::split_nanos;
use sonyflake::{sleep_time, to_sonyflake_time, Error, Timestamp, Wait};

fn timestamp(instant: DateTime<Utc>) -> Timestamp {
    Timestamp { secs: instant.timestamp(), nanos: instant.timestamp_subsec_nanos() }
}

#[test]
fn ticks_are_hundredths_of_a_second() {
    assert_eq!(to_sonyflake_time(&Timestamp { secs: 0, nanos: 0 }).unwrap(), 0);
    assert_eq!(to_sonyflake_time(&Timestamp { secs: 0, nanos: 9_999_999 }).unwrap(), 0);
    assert_eq!(to_sonyflake_time(&Timestamp { secs: 0, nanos: 10_000_000 }).unwrap(), 1);
    assert_eq!(to_sonyflake_time(&Timestamp { secs: 1, nanos: 25_000_000 }).unwrap(), 102);
    assert_eq!(
        to_sonyflake_time(&Timestamp { secs: 1_409_529_600, nanos: 0 }).unwrap(),
        140_952_960_000
    );
}

#[test]
fn ticks_before_the_epoch_round_down() {
    assert_eq!(to_sonyflake_time(&Timestamp { secs: -1, nanos: 999_999_999 }).unwrap(), -1);
    assert_eq!(to_sonyflake_time(&Timestamp { secs: -1, nanos: 990_000_000 }).unwrap(), -1);
    assert_eq!(to_sonyflake_time(&Timestamp { secs: -1, nanos: 989_999_999 }).unwrap(), -2);
    assert_eq!(to_sonyflake_time(&Timestamp { secs: -1, nanos: 0 }).unwrap(), -100);
    assert_eq!(split_nanos(-1), (-1, 9_999_999));
    assert_eq!(split_nanos(-10_000_000), (-1, 0));
    assert_eq!(split_nanos(-10_000_001), (-2, 9_999_999));
    assert_eq!(split_nanos(i64::MIN), (-922_337_203_686, 5_224_192));
    assert_eq!(split_nanos(i64::MAX), (922_337_203_685, 4_775_807));
    assert_eq!(split_nanos(25_000_003), (2, 5_000_003));
}

#[test]
fn the_timestamp_ends_where_an_i64_of_nanoseconds_ends() {
    let last = Timestamp { secs: 9_223_372_036, nanos: 854_775_807 };
    assert_eq!(to_sonyflake_time(&last).unwrap(), 922_337_203_685);
    let beyond = Timestamp { secs: 9_223_372_036, nanos: 854_775_808 };
    assert!(matches!(to_sonyflake_time(&beyond), Err(Error::FailedToGetCurrentTime)));
    let first = Timestamp { secs: -9_223_372_037, nanos: 145_224_192 };
    assert_eq!(to_sonyflake_time(&first).unwrap(), -922_337_203_686);
    let before = Timestamp { secs: -9_223_372_037, nanos: 145_224_191 };
    assert!(matches!(to_sonyflake_time(&before), Err(Error::FailedToGetCurrentTime)));
}

#[test]
fn a_fraction_of_a_second_or_more_needs_a_leap_second() {
    let leap = Timestamp { secs: 59, nanos: 1_500_000_000 };
    assert_eq!(to_sonyflake_time(&leap).unwrap(), 6_050);
    let no_leap = Timestamp { secs: 58, nanos: 1_500_000_000 };
    assert!(matches!(to_sonyflake_time(&no_leap), Err(Error::FailedToGetCurrentTime)));
    let before_epoch = Timestamp { secs: -1, nanos: 1_000_000_000 };
    assert_eq!(to_sonyflake_time(&before_epoch).unwrap(), 0);
    let too_much = Timestamp { secs: 59, nanos: 2_000_000_000 };
    assert!(matches!(to_sonyflake_time(&too_much), Err(Error::FailedToGetCurrentTime)));
}

#[test]
fn instants_are_ordered_as_chrono_orders_them() {
    let a = Utc.with_ymd_and_hms(2015, 5, 15, 2, 0, 0).unwrap();
    let b = Utc.with_ymd_and_hms(2015, 5, 15, 3, 0, 0).unwrap();
    let c = b + chrono::Duration::nanoseconds(1);
    let d = Utc.with_ymd_and_hms(1969, 12, 31, 23, 59, 59).unwrap() + chrono::Duration::milliseconds(1);
    let all = [a, b, c, d];
    for x in all {
        for y in all {
            assert_eq!(timestamp(x).later_than(&timestamp(y)), x > y);
        }
    }
    assert!(!timestamp(a).later_than(&timestamp(a)));
    assert!(timestamp(c).later_than(&timestamp(b)));
}

#[test]
fn the_now_of_the_library_is_the_now_of_chrono() {
    let instant = Utc::now();
    let ticks = to_sonyflake_time(&timestamp(instant)).unwrap();
    assert_eq!(ticks, instant.timestamp_nanos_opt().unwrap() / 10_000_000);
}

#[test]
fn the_wait_ends_at_the_start_of_the_tick_ahead() {
    let now = Timestamp { secs: 1, nanos: 25_000_000 };
    assert_eq!(sleep_time(1, &now).unwrap(), Wait { secs: 0, nanos: 5_000_000 });
    assert_eq!(sleep_time(2, &now).unwrap(), Wait { secs: 0, nanos: 15_000_000 });
    assert_eq!(sleep_time(100, &now).unwrap(), Wait { secs: 0, nanos: 995_000_000 });
    assert_eq!(sleep_time(101, &now).unwrap(), Wait { secs: 1, nanos: 5_000_000 });
    let on_the_tick = Timestamp { secs: 1, nanos: 20_000_000 };
    assert_eq!(sleep_time(1, &on_the_tick).unwrap(), Wait { secs: 0, nanos: 10_000_000 });
    let late_in_the_tick = Timestamp { secs: 1, nanos: 29_999_999 };
    assert_eq!(sleep_time(1, &late_in_the_tick).unwrap(), Wait { secs: 0, nanos: 1 });
}

#[test]
fn a_wait_needs_a_timestamp() {
    let beyond = Timestamp { secs: 9_223_372_037, nanos: 0 };
    assert!(matches!(sleep_time(1, &beyond), Err(Error::FailedToGetCurrentTime)));
}

#[test]
fn the_clock_of_a_generator_is_the_clock_of_chrono() {
    let before = Utc::now();
    let start = timestamp(before);
    let mut generator = sonyflake::Sonyflake::builder()
        .start_time(start)
        .machine_id(|| Ok(1))
        .finalize()
        .unwrap();
    let issued = generator.next_id();
    let after = Utc::now();
    let elapsed = generator.internals().elapsed_time as i64;
    let span = (after.timestamp_nanos_opt().unwrap() / 10_000_000)
        - (before.timestamp_nanos_opt().unwrap() / 10_000_000);
    assert!(issued.result.is_ok());
    assert!(elapsed <= span);
}
