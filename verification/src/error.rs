use crate::clock::Timestamp;
use vstd::prelude::*;

verus! {

/// Everything that can go wrong while a generator is built or asked for an id.
#[derive(Debug)]
pub enum Error {
    /// The configured start time is later than the time at which the generator
    /// was built. Holds the start time that was refused.
    StartTimeAheadOfCurrentTime(Timestamp),
    /// The machine id function failed. Holds the cause it gave.
    MachineIdFailed(String),
    /// The machine id check turned the resolved machine id down.
    CheckMachineIdFailed,
    /// The ticks since the start time no longer fit the time field.
    OverTimeLimit,
    /// No network interface of the host has a private IPv4 address.
    NoPrivateIPv4,
    /// The lock around a shared generator was poisoned by a panic.
    MutexPoisoned,
    /// The clock gave a time that has no nanosecond timestamp.
    FailedToGetCurrentTime,
    /// Neither a machine id function nor the host's interfaces were given.
    NoMachineIdFn,
}

} // verus!
