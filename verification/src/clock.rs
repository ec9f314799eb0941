//! Time as the generator sees it: instants of the wall clock, and the 10 ms
//! ticks that identifiers count in.
use crate::error::Error;
use chrono::{DateTime, Utc};
use vstd::arithmetic::div_mod::lemma_fundamental_div_mod_converse;
use vstd::prelude::*;

verus! {

/// Nanoseconds in one tick: 10 ms.
pub const SONYFLAKE_TIME_UNIT: i64 = 10_000_000;

/// Nanoseconds in one second.
pub const NANOS_PER_SEC: i64 = 1_000_000_000;

/// An instant of the UTC wall clock, as `chrono` counts it: whole seconds
/// since the Unix epoch, and nanoseconds since the last whole second.
///
/// During a leap second `nanos` runs on from 1 000 000 000 to 1 999 999 999
/// while `secs` stays on the 59th second of its minute.
#[derive(Clone, Copy, Debug, PartialEq, Eq, Structural)]
pub struct Timestamp {
    /// Seconds since 1970-01-01T00:00:00Z, leap seconds not counted.
    pub secs: i64,
    /// Nanoseconds since the last whole second.
    pub nanos: u32,
}

impl Timestamp {
    /// Whether `nanos` is a fraction that `secs` can carry: under one second,
    /// or under two within the last second of a minute.
    pub open spec fn valid_subsec(self) -> bool {
        self.nanos < NANOS_PER_SEC || (self.nanos < 2 * NANOS_PER_SEC && self.secs % 60 == 59)
    }

    /// Nanoseconds from the Unix epoch to this instant, on the whole number
    /// line.
    pub open spec fn total_nanos(self) -> int {
        self.secs * NANOS_PER_SEC + self.nanos
    }

    /// The nanosecond timestamp of this instant: `total_nanos` where the
    /// fraction is valid and the sum fits an `i64`, and nothing otherwise.
    pub open spec fn unix_nanos(self) -> Option<i64> {
        if self.valid_subsec() && i64::MIN <= self.total_nanos() <= i64::MAX {
            Some(self.total_nanos() as i64)
        } else {
            None
        }
    }

    /// Whether this instant comes after `other`: by seconds first, then by
    /// the nanoseconds within the second.
    pub open spec fn is_later(self, other: Timestamp) -> bool {
        self.secs > other.secs || (self.secs == other.secs && self.nanos > other.nanos)
    }

    /// The tick since the Unix epoch that holds this instant, where the
    /// instant has a nanosecond timestamp.
    pub open spec fn sonyflake_time(self) -> Option<i64> {
        match self.unix_nanos() {
            Some(nanos) => Some(ticks_of(nanos as int) as i64),
            None => None,
        }
    }

    /// Compares two instants as `chrono` orders them.
    pub fn later_than(&self, other: &Timestamp) -> (later: bool)
        ensures
            later == self.is_later(*other),
    {
        self.secs > other.secs || (self.secs == other.secs && self.nanos > other.nanos)
    }
}

/// Reads the system clock with `SystemTime::now`, has `chrono` turn the
/// reading into an instant of UTC with its `From<SystemTime>`, and takes the
/// instant apart with `timestamp` and `timestamp_subsec_nanos`.
///
/// A clock that stands before the Unix epoch comes back as a negative count
/// of seconds with the fraction counted upwards. The conversion panics only
/// on a reading outside the calendar of `chrono`, which ends some 262 000
/// years either side of the epoch. Nothing is claimed of the instant that
/// comes back.
#[verifier::external_body]
pub(crate) fn utc_now() -> Timestamp {
    let now = DateTime::<Utc>::from(std::time::SystemTime::now());
    Timestamp { secs: now.timestamp(), nanos: now.timestamp_subsec_nanos() }
}

/// Builds the instant with `DateTime::from_timestamp` and asks it for
/// `timestamp_nanos_opt`.
///
/// `from_timestamp` refuses a fraction that is not `valid_subsec`, and seconds
/// beyond the calendar, which lie far outside what an `i64` of nanoseconds
/// spans. `timestamp_nanos_opt` then returns the seconds times 10^9 plus the
/// fraction where that fits an `i64`, and nothing where it does not.
#[verifier::external_body]
pub(crate) fn nanos_of(t: &Timestamp) -> (nanos: Option<i64>)
    ensures
        nanos == t.unix_nanos(),
{
    match DateTime::from_timestamp(t.secs, t.nanos) {
        Some(instant) => instant.timestamp_nanos_opt(),
        None => None,
    }
}

/// The tick that holds the instant `nanos` nanoseconds after the Unix epoch:
/// the quotient by the tick length, rounded down.
pub open spec fn ticks_of(nanos: int) -> int {
    nanos / (SONYFLAKE_TIME_UNIT as int)
}

/// How far into its tick the instant `nanos` lies, in nanoseconds.
pub open spec fn subtick_of(nanos: int) -> int {
    nanos % (SONYFLAKE_TIME_UNIT as int)
}

/// The largest tick, in either direction, that a nanosecond timestamp can
/// fall into.
pub const MAX_TICKS: i64 = 922_337_203_686;

/// Splits a nanosecond timestamp into its tick and the nanoseconds into that
/// tick.
pub fn split_nanos(nanos: i64) -> (parts: (i64, u32))
    ensures
        parts.0 == ticks_of(nanos as int),
        parts.1 == subtick_of(nanos as int),
        0 <= parts.1 < SONYFLAKE_TIME_UNIT,
        -MAX_TICKS <= parts.0 <= MAX_TICKS,
{
    if nanos >= 0 {
        let q: i64 = nanos / SONYFLAKE_TIME_UNIT;
        let r: i64 = nanos % SONYFLAKE_TIME_UNIT;
        (q, r as u32)
    } else {
        // Round towards minus infinity: divide the distance below -1.
        let below: i64 = -(nanos + 1);
        let q: i64 = below / SONYFLAKE_TIME_UNIT;
        let r: i64 = below % SONYFLAKE_TIME_UNIT;
        proof {
            lemma_fundamental_div_mod_converse(
                nanos as int,
                SONYFLAKE_TIME_UNIT as int,
                -q - 1,
                SONYFLAKE_TIME_UNIT - 1 - r,
            );
        }
        (-q - 1, (SONYFLAKE_TIME_UNIT - 1 - r) as u32)
    }
}

/// Converts an instant to ticks since the Unix epoch.
///
/// Fails with `FailedToGetCurrentTime` exactly when the instant has no
/// nanosecond timestamp.
pub fn to_sonyflake_time(time: &Timestamp) -> (ticks: Result<i64, Error>)
    ensures
        match time.sonyflake_time() {
            Some(t) => ticks == Ok::<i64, Error>(t),
            None => ticks == Err::<i64, Error>(Error::FailedToGetCurrentTime),
        },
        ticks matches Ok(t) ==> -MAX_TICKS <= t <= MAX_TICKS,
{
    match nanos_of(time) {
        Some(nanos) => Ok(split_nanos(nanos).0),
        None => Err(Error::FailedToGetCurrentTime),
    }
}

} // verus!
