use chrono::{TimeZone, Utc};
use sonyflake::{Builder, Error, Interface, IpAddress, Sonyflake, Timestamp};

fn now() -> Timestamp {
    let instant = Utc::now();
    Timestamp { secs: instant.timestamp(), nanos: instant.timestamp_subsec_nanos() }
}

fn host() -> Vec<Interface> {
    vec![Interface { up: true, loopback: false, addrs: vec![IpAddress::V4([10, 1, 2, 3])] }]
}

#[test]
fn test_builder_errors() {
    let instant = Utc::now() + chrono::Duration::seconds(1);
    let start_time =
        Timestamp { secs: instant.timestamp(), nanos: instant.timestamp_subsec_nanos() };
    match Sonyflake::builder().start_time(start_time).finalize() {
        Err(Error::StartTimeAheadOfCurrentTime(_)) => {} // ok
        _ => panic!("Expected error on start time ahead of current time"),
    }

    match Sonyflake::builder().machine_id(&|| Err(String::from("some error"))).finalize() {
        Err(Error::MachineIdFailed(_)) => {} // ok
        _ => panic!("Expected error failing machine_id closure"),
    }

    match Sonyflake::builder().host_interfaces(host()).check_machine_id(&|_| false).finalize() {
        Err(Error::CheckMachineIdFailed) => {}
        _ => panic!("Expected error on check_machine_id closure returning false"),
    }
}

#[test]
fn a_start_time_ahead_is_named_in_the_error() {
    let start = Timestamp { secs: 2_000_000_000, nanos: 5 };
    let at = Timestamp { secs: 2_000_000_000, nanos: 4 };
    match Sonyflake::builder().start_time(start).machine_id(|| Ok(1)).finalize_at(&at) {
        Err(Error::StartTimeAheadOfCurrentTime(refused)) => assert_eq!(refused, start),
        _ => panic!("a start time ahead of the clock was accepted"),
    }
}

#[test]
fn a_start_time_equal_to_now_is_accepted() {
    let at = Timestamp { secs: 2_000_000_000, nanos: 4 };
    let built = Sonyflake::builder().start_time(at).machine_id(|| Ok(1)).finalize_at(&at);
    match built {
        Ok(generator) => assert_eq!(generator.start_time(), 200_000_000_000),
        Err(_) => panic!("a start time equal to the clock was refused"),
    }
}

#[test]
fn the_start_time_is_checked_before_the_machine_id_is_asked() {
    let start = Timestamp { secs: 10, nanos: 0 };
    let at = Timestamp { secs: 9, nanos: 0 };
    let built = Sonyflake::builder()
        .start_time(start)
        .machine_id(|| panic!("asked for the machine id"))
        .finalize_at(&at);
    assert!(matches!(built, Err(Error::StartTimeAheadOfCurrentTime(_))));
}

#[test]
fn a_start_time_without_a_timestamp_cannot_be_counted_from() {
    // The year 1600 lies before the first instant that has a nanosecond timestamp.
    let start = Timestamp { secs: -11_676_096_000, nanos: 0 };
    let built = Sonyflake::builder().start_time(start).machine_id(|| Ok(1)).finalize_at(&now());
    assert!(matches!(built, Err(Error::FailedToGetCurrentTime)));
}

#[test]
fn the_cause_of_a_failing_machine_id_function_is_kept() {
    let built = Sonyflake::builder().machine_id(|| Err(String::from("no lease"))).finalize();
    match built {
        Err(Error::MachineIdFailed(cause)) => assert_eq!(cause, "no lease"),
        _ => panic!("the failure of the machine id function was lost"),
    }
}

#[test]
fn the_check_sees_the_resolved_machine_id() {
    let accepted = Sonyflake::builder().machine_id(|| Ok(42)).check_machine_id(|id| id == 42).finalize();
    assert!(accepted.is_ok());
    let refused = Sonyflake::builder().machine_id(|| Ok(43)).check_machine_id(|id| id == 42).finalize();
    assert!(matches!(refused, Err(Error::CheckMachineIdFailed)));
}

#[test]
fn without_a_machine_id_source_building_fails() {
    assert!(matches!(Builder::new().finalize(), Err(Error::NoMachineIdFn)));
    assert!(matches!(Sonyflake::builder().finalize(), Err(Error::NoMachineIdFn)));
}

#[test]
fn the_host_interfaces_give_the_default_machine_id() {
    let built = Sonyflake::builder().host_interfaces(host()).finalize();
    match built {
        Ok(generator) => assert_eq!(generator.machine_id(), 0x0203),
        Err(_) => panic!("the host's private address was not used"),
    }
    let none: Vec<Interface> = Vec::new();
    assert!(matches!(Sonyflake::new(none), Err(Error::NoPrivateIPv4)));
}

#[test]
fn the_default_start_time_is_the_first_of_september_2014() {
    let epoch = Utc.with_ymd_and_hms(2014, 9, 1, 0, 0, 0).unwrap();
    assert_eq!(epoch.timestamp(), 1_409_529_600);
    let built = Sonyflake::builder().machine_id(|| Ok(1)).finalize();
    match built {
        Ok(generator) => {
            assert_eq!(generator.start_time(), epoch.timestamp_nanos_opt().unwrap() / 10_000_000)
        }
        Err(_) => panic!("the default configuration was refused"),
    }
}

#[test]
fn without_a_start_time_building_does_not_depend_on_the_clock() {
    let early = Timestamp { secs: 0, nanos: 0 };
    let built = Sonyflake::builder().machine_id(|| Ok(5)).finalize_at(&early);
    match built {
        Ok(generator) => assert_eq!(generator.start_time(), 140_952_960_000),
        Err(_) => panic!("the default start time was held against the clock"),
    }
}

#[test]
fn the_check_is_asked_only_about_the_resolved_machine_id() {
    let built = Sonyflake::builder()
        .machine_id(|| Ok(42))
        .check_machine_id(|id| {
            assert_eq!(id, 42);
            true
        })
        .finalize();
    assert!(built.is_ok());
    let failed = Sonyflake::builder()
        .machine_id(|| Err(String::from("none")))
        .check_machine_id(|_| panic!("asked about a machine id that was never resolved"))
        .finalize();
    assert!(matches!(failed, Err(Error::MachineIdFailed(_))));
}
