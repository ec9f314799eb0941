//! A generator of compact, roughly time-ordered identifiers that are unique
//! across many processes without a central authority.
//!
//! An identifier packs three fields into the low 63 bits of a `u64`: the
//! number of 10 ms ticks since a configured start time, a counter within the
//! tick, and the id of the generating machine.
use vstd::prelude::*;

pub mod builder;
pub mod clock;
pub mod error;
pub mod machine;
pub mod run;
pub mod sonyflake;

pub use crate::builder::{
    Builder, CheckFn, HostAddresses, MachineIdCheck, MachineIdFn, MachineIdSource, NoCheck,
    NoMachineId,
};
pub use crate::clock::{to_sonyflake_time, Timestamp};
pub use crate::error::Error;
pub use crate::machine::{
    is_private_ipv4, lower_16_bit_private_ip, private_ipv4, Interface, IpAddress,
};
pub use crate::sonyflake::{
    decompose, sleep_time, DecomposedSonyflake, Id, Internals, Issued, Sonyflake, Wait,
    BIT_LEN_MACHINE_ID, BIT_LEN_SEQUENCE, BIT_LEN_TIME,
};

verus! {

/// A marker that holds nothing. The crate's longer usage examples are
/// attached to it as documentation.
///
/// ```text
/// let mut generator = Sonyflake::builder().machine_id(|| Ok(42)).finalize()?;
/// let issued = generator.next_id();
/// // let `issued.wait` pass, then go on:
/// let id = issued.result?;
/// assert_eq!(decompose(id).machine_id, 42);
/// ```
pub struct ReadmeDoctests;

} // verus!
