//! The identifier, its fields, and the generator that issues identifiers.
use crate::builder::{Builder, NoCheck, NoMachineId, DEFAULT_START_TICKS};
use crate::clock::{to_sonyflake_time, utc_now, Timestamp, SONYFLAKE_TIME_UNIT};
use crate::error::Error;
use crate::machine::{host_machine_id, Interface};
use vstd::prelude::*;

verus! {

/// Bits of an identifier that hold the ticks since the start time.
pub const BIT_LEN_TIME: u64 = 39;

/// Bits of an identifier that hold the counter within a tick.
pub const BIT_LEN_SEQUENCE: u64 = 8;

/// Bits of an identifier that hold the machine id.
pub const BIT_LEN_MACHINE_ID: u64 = 16;

/// The first tick count that the time field cannot hold: 2^39.
pub const TIME_LIMIT: u64 = 0x80_0000_0000;

/// The counter that a new generator starts from: half the counter's range.
pub const INITIAL_SEQUENCE: u8 = 128;

/// An identifier: 39 bits of ticks, 8 bits of counter and 16 bits of machine
/// id, from the most significant end down, under a top bit that is 0.
#[derive(Debug, Clone, Copy, PartialEq, Eq, PartialOrd, Ord, Hash, Structural)]
pub struct Id(pub u64);

impl Id {
    /// The identifier as a plain integer.
    pub fn to_u64(self) -> (value: u64)
        ensures
            value == self.0,
    {
        self.0
    }
}

impl std::ops::Deref for Id {
    type Target = u64;

    /// The identifier as a plain integer, by reference.
    fn deref(&self) -> (value: &u64)
        ensures
            *value == self.0,
    {
        &self.0
    }
}

/// The number that packs the three fields of an identifier.
pub open spec fn compose(elapsed_time: int, sequence: int, machine_id: int) -> int {
    elapsed_time * 0x100_0000 + sequence * 0x1_0000 + machine_id
}

/// The fields of an identifier, taken apart.
pub struct DecomposedSonyflake {
    /// The identifier itself.
    pub id: u64,
    /// The top bit, which no issued identifier has set.
    pub msb: u64,
    /// Ticks since the generator's start time.
    pub time: u64,
    /// The counter within the tick.
    pub sequence: u64,
    /// The id of the machine that issued the identifier.
    pub machine_id: u64,
}

impl DecomposedSonyflake {
    /// What taking `id` apart gives: the fields by their place values.
    pub open spec fn of(id: u64) -> DecomposedSonyflake {
        DecomposedSonyflake {
            id,
            msb: id / 0x8000_0000_0000_0000,
            time: id / 0x100_0000,
            sequence: (id / 0x1_0000) % 0x100,
            machine_id: id % 0x1_0000,
        }
    }

    /// The time field in nanoseconds since the generator's start time.
    ///
    /// The product has to fit an `i64`, as it does for every time field of
    /// 39 bits.
    pub fn nanos_time(&self) -> (nanos: i64)
        requires
            self.time * SONYFLAKE_TIME_UNIT <= i64::MAX,
        ensures
            nanos == self.time * SONYFLAKE_TIME_UNIT,
    {
        (self.time as i64) * SONYFLAKE_TIME_UNIT
    }
}

/// Takes an identifier apart. Any 64-bit value is accepted, whether a
/// generator issued it or not.
pub fn decompose(id: Id) -> (parts: DecomposedSonyflake)
    ensures
        parts == DecomposedSonyflake::of(id.0),
{
    let id: u64 = id.to_u64();
    assert(id >> 63 == id / 0x8000_0000_0000_0000) by (bit_vector);
    assert(id >> 24 == id / 0x100_0000) by (bit_vector);
    assert((id & 0xff_0000) >> 16 == (id / 0x1_0000) % 0x100) by (bit_vector);
    assert(id & 0xffff == id % 0x1_0000) by (bit_vector);
    DecomposedSonyflake {
        id,
        msb: id >> 63,
        time: id >> 24,
        sequence: (id & 0xff_0000) >> 16,
        machine_id: id & 0xffff,
    }
}

/// The part of a generator that changes from one identifier to the next. The
/// two fields belong together: an identifier is made of both.
#[derive(Debug, Clone, Copy, PartialEq, Eq, Structural)]
pub struct Internals {
    /// Ticks since the start time that the last identifier was issued for.
    pub elapsed_time: u64,
    /// The counter within that tick.
    pub sequence: u8,
}

impl Internals {
    /// The pair as one number, by which identifiers are ordered.
    pub open spec fn rank(self) -> int {
        self.elapsed_time * 0x100 + self.sequence
    }

    /// The state after one identifier is taken while the wall clock stands
    /// `current` ticks after the start time.
    ///
    /// Where the clock has passed the state's tick, the state moves to the
    /// clock's tick and the counter starts again at 0. Otherwise the counter
    /// goes up by one, and where it has run through all its values, on to 0
    /// in the tick that follows.
    pub open spec fn advanced(self, current: int) -> Internals {
        if self.elapsed_time < current {
            Internals { elapsed_time: current as u64, sequence: 0 }
        } else if self.sequence < 0xff {
            Internals { elapsed_time: self.elapsed_time, sequence: (self.sequence + 1) as u8 }
        } else {
            Internals { elapsed_time: (self.elapsed_time + 1) as u64, sequence: 0 }
        }
    }

    /// By how many ticks `advanced` runs ahead of the wall clock: a number
    /// where the counter ran out and the state took the following tick, and
    /// nothing otherwise.
    pub open spec fn overtime(self, current: int) -> Option<int> {
        if self.elapsed_time >= current && self.sequence == 0xff {
            Some(self.elapsed_time + 1 - current)
        } else {
            None
        }
    }

    /// Takes one identifier's worth of state while the wall clock stands
    /// `current` ticks after the start time, and says by how many ticks the
    /// state now runs ahead of the clock, if it does.
    pub fn advance(&mut self, current: i128) -> (ahead: Option<u128>)
        requires
            old(self).elapsed_time < u64::MAX,
            -0x1_0000_0000_0000_0000 <= current <= u64::MAX,
        ensures
            *final(self) == old(self).advanced(current as int),
            match old(self).overtime(current as int) {
                Some(ticks) => ahead == Some(ticks as u128),
                None => ahead is None,
            },
    {
        if (self.elapsed_time as i128) < current {
            self.elapsed_time = current as u64;
            self.sequence = 0;
            None
        } else if self.sequence < 0xff {
            self.sequence = self.sequence + 1;
            None
        } else {
            self.elapsed_time = self.elapsed_time + 1;
            self.sequence = 0;
            Some((self.elapsed_time as i128 - current) as u128)
        }
    }
}

/// A span of time that a caller has to let pass, in the two parts that
/// `std::time::Duration::new` takes.
#[derive(Debug, Clone, Copy, PartialEq, Eq, Structural)]
pub struct Wait {
    /// Whole seconds.
    pub secs: u64,
    /// Nanoseconds beyond the whole seconds, under one second.
    pub nanos: u32,
}

impl Wait {
    /// No time at all.
    pub fn none() -> (wait: Wait)
        ensures
            wait == (Wait { secs: 0, nanos: 0 }),
    {
        Wait { secs: 0, nanos: 0 }
    }
}

/// The wait of `nanos` nanoseconds: the whole seconds, and what is left over.
pub open spec fn wait_of(nanos: int) -> Wait {
    Wait { secs: (nanos / 1_000_000_000) as u64, nanos: (nanos % 1_000_000_000) as u32 }
}

/// The nanoseconds from an instant `into_tick` nanoseconds into its tick to
/// the start of the tick `overtime` ticks later.
pub open spec fn sleep_nanos(overtime: int, into_tick: int) -> int {
    overtime * SONYFLAKE_TIME_UNIT - into_tick
}

/// How long to wait until the wall clock, which reads `now`, reaches the
/// tick `overtime` ticks after the one that the clock was last seen in.
///
/// Fails with `FailedToGetCurrentTime` exactly when `now` has no nanosecond
/// timestamp.
pub fn sleep_time(overtime: u128, now: &Timestamp) -> (wait: Result<Wait, Error>)
    requires
        1 <= overtime <= 0x2_0000_0000_0000_0000,
    ensures
        match now.unix_nanos() {
            Some(nanos) => wait == Ok::<Wait, Error>(
                wait_of(sleep_nanos(overtime as int, crate::clock::subtick_of(nanos as int))),
            ),
            None => wait == Err::<Wait, Error>(Error::FailedToGetCurrentTime),
        },
{
    match crate::clock::nanos_of(now) {
        Some(nanos) => {
            let into_tick: u32 = crate::clock::split_nanos(nanos).1;
            let total: u128 = overtime * 10_000_000 - (into_tick as u128);
            let secs: u128 = total / 1_000_000_000;
            let rest: u128 = total % 1_000_000_000;
            Ok(Wait { secs: secs as u64, nanos: rest as u32 })
        },
        None => Err(Error::FailedToGetCurrentTime),
    }
}

/// What one call of `next_id` hands back: the identifier or the failure, and
/// the time that the caller lets pass before it goes on with either.
///
/// The wait is what keeps a generator from running ahead of the wall clock.
/// Whoever shares a generator holds its lock until the wait is over.
#[derive(Debug)]
pub struct Issued {
    /// How long to wait before the result is used.
    pub wait: Wait,
    /// The identifier, or why there is none.
    pub result: Result<Id, Error>,
}

/// The identifier that a generator for the machine `machine_id` issues in the
/// state `internals`: `OverTimeLimit` where the tick no longer fits the time
/// field, and the packed fields otherwise.
pub open spec fn identifier(internals: Internals, machine_id: u16) -> Result<Id, Error> {
    if internals.elapsed_time >= TIME_LIMIT {
        Err(Error::OverTimeLimit)
    } else {
        Ok(
            Id(
                compose(
                    internals.elapsed_time as int,
                    internals.sequence as int,
                    machine_id as int,
                ) as u64,
            ),
        )
    }
}

/// Ticks from the tick `start` to the instant `now`, where `now` has a
/// nanosecond timestamp.
pub open spec fn elapsed_since(start: i64, now: Timestamp) -> Option<int> {
    match now.sonyflake_time() {
        Some(ticks) => Some(ticks - start),
        None => None,
    }
}

/// One call for an identifier, on a generator that counts from the tick
/// `start` for the machine `machine_id` and is in the state `internals`, when
/// the clock reads `now` on entry and `later` where it is read again: the
/// state afterwards, and what is handed back.
///
/// Without a timestamp for `now` nothing changes and the call fails.
/// Otherwise the state advances. Where that took the tick after the clock's,
/// the clock is read again: without a timestamp for `later` the call fails,
/// and with one the caller is told to wait until the clock reaches the
/// state's tick. The result is then the identifier of the new state.
pub open spec fn issue(
    start: i64,
    machine_id: u16,
    internals: Internals,
    now: Timestamp,
    later: Timestamp,
) -> (Internals, Issued) {
    match elapsed_since(start, now) {
        None => (
            internals,
            Issued { wait: Wait { secs: 0, nanos: 0 }, result: Err(Error::FailedToGetCurrentTime) },
        ),
        Some(current) => {
            let next = internals.advanced(current);
            match internals.overtime(current) {
                None => (
                    next,
                    Issued { wait: Wait { secs: 0, nanos: 0 }, result: identifier(next, machine_id) },
                ),
                Some(ticks) => match later.unix_nanos() {
                    None => (
                        next,
                        Issued {
                            wait: Wait { secs: 0, nanos: 0 },
                            result: Err(Error::FailedToGetCurrentTime),
                        },
                    ),
                    Some(nanos) => (
                        next,
                        Issued {
                            wait: wait_of(sleep_nanos(ticks, crate::clock::subtick_of(nanos as int))),
                            result: identifier(next, machine_id),
                        },
                    ),
                },
            }
        },
    }
}

/// A generator of identifiers.
///
/// The start time and the machine id are fixed when the generator is built.
/// One generator issues strictly increasing identifiers; to issue from
/// several threads, put it behind one lock.
#[derive(Debug)]
pub struct Sonyflake {
    start_time: i64,
    machine_id: u16,
    internals: Internals,
}

impl Sonyflake {
    /// The tick since the Unix epoch from which this generator counts.
    pub closed spec fn start(&self) -> i64 {
        self.start_time
    }

    /// The machine id that every identifier of this generator carries.
    pub closed spec fn machine(&self) -> u16 {
        self.machine_id
    }

    /// The tick and the counter of the last identifier.
    pub closed spec fn state(&self) -> Internals {
        self.internals
    }

    /// Builds a generator with the default start time, for the machine id
    /// that the host's network interfaces give.
    ///
    /// Fails with `NoPrivateIPv4` exactly when no interface that is up and no
    /// loopback has a private IPv4 address.
    pub fn new(interfaces: Vec<Interface>) -> (built: Result<Sonyflake, Error>)
        ensures
            match host_machine_id(interfaces@) {
                Ok(machine_id) => {
                    &&& built matches Ok(generator)
                    &&& generator.start() == DEFAULT_START_TICKS
                    &&& generator.machine() == machine_id
                    &&& generator.state() == (Internals {
                        elapsed_time: 0,
                        sequence: INITIAL_SEQUENCE,
                    })
                },
                Err(e) => built == Err::<Sonyflake, Error>(e),
            },
    {
        Builder::new().host_interfaces(interfaces).finalize()
    }

    /// A builder with nothing configured yet.
    pub fn builder() -> (builder: Builder<NoMachineId, NoCheck>)
        ensures
            builder.configured_start() is None,
            builder.source() == NoMachineId,
            builder.check() == NoCheck,
    {
        Builder::new()
    }

    /// A generator that counts from `start_time` for the machine `machine_id`
    /// and has issued nothing yet.
    pub(crate) fn new_inner(start_time: i64, machine_id: u16) -> (generator: Sonyflake)
        ensures
            generator.start() == start_time,
            generator.machine() == machine_id,
            generator.state() == (Internals { elapsed_time: 0, sequence: INITIAL_SEQUENCE }),
    {
        Sonyflake {
            start_time,
            machine_id,
            internals: Internals { elapsed_time: 0, sequence: INITIAL_SEQUENCE },
        }
    }

    /// The tick since the Unix epoch from which this generator counts.
    pub fn start_time(&self) -> (ticks: i64)
        ensures
            ticks == self.start(),
    {
        self.start_time
    }

    /// The machine id that every identifier of this generator carries.
    pub fn machine_id(&self) -> (id: u16)
        ensures
            id == self.machine(),
    {
        self.machine_id
    }

    /// The tick and the counter of the last identifier.
    pub fn internals(&self) -> (internals: Internals)
        ensures
            internals == self.state(),
    {
        self.internals
    }

    /// Puts the generator at a tick and counter of the caller's choice. The
    /// identifiers that follow are above all earlier ones only if the state
    /// handed in is not below the one it replaces.
    pub fn restore(&mut self, internals: Internals)
        ensures
            final(self).state() == internals,
            final(self).start() == old(self).start(),
            final(self).machine() == old(self).machine(),
    {
        self.internals = internals;
    }

    /// The identifier that the generator issues in the state `internals`.
    pub open spec fn id_of(&self, internals: Internals) -> Result<Id, Error> {
        identifier(internals, self.machine())
    }

    /// Ticks from the start time to the instant `now`, where `now` has a
    /// nanosecond timestamp.
    pub open spec fn elapsed_at(&self, now: Timestamp) -> Option<int> {
        elapsed_since(self.start(), now)
    }

    /// Ticks from the start time to the instant `now`.
    ///
    /// Fails with `FailedToGetCurrentTime` exactly when `now` has no
    /// nanosecond timestamp.
    pub fn current_elapsed_time(&self, now: &Timestamp) -> (current: Result<i128, Error>)
        ensures
            match self.elapsed_at(*now) {
                Some(ticks) => current == Ok::<i128, Error>(ticks as i128),
                None => current == Err::<i128, Error>(Error::FailedToGetCurrentTime),
            },
            current matches Ok(ticks) ==> -0x1_0000_0000_0000_0000 <= ticks <= u64::MAX,
    {
        match to_sonyflake_time(now) {
            Ok(ticks) => Ok(ticks as i128 - self.start_time as i128),
            Err(e) => Err(e),
        }
    }

    /// The identifier of the present state: `OverTimeLimit` where the tick no
    /// longer fits the time field, and the packed fields otherwise.
    pub fn id(&self) -> (id: Result<Id, Error>)
        ensures
            id == self.id_of(self.state()),
    {
        if self.internals.elapsed_time >= TIME_LIMIT {
            return Err(Error::OverTimeLimit);
        }
        let elapsed: u64 = self.internals.elapsed_time;
        let sequence: u64 = self.internals.sequence as u64;
        let machine: u64 = self.machine_id as u64;
        assert(elapsed < 0x80_0000_0000 && sequence < 0x100 && machine < 0x1_0000 ==> (elapsed << 24
            | sequence << 16 | machine) == elapsed * 0x100_0000 + sequence * 0x1_0000 + machine)
            by (bit_vector);
        Ok(Id(elapsed << 24 | sequence << 16 | machine))
    }

    /// What a call for an identifier does when the clock reads `now` on entry
    /// and `later` where it is read again: the state afterwards, and what is
    /// handed back.
    pub open spec fn issues(&self, now: Timestamp, later: Timestamp) -> (Internals, Issued) {
        issue(self.start(), self.machine(), self.state(), now, later)
    }

    /// Advances the state as of the instant `now`, and says by how many ticks
    /// the state then runs ahead of the clock, if it does.
    ///
    /// Fails with `FailedToGetCurrentTime`, and changes nothing, exactly when
    /// `now` has no nanosecond timestamp.
    fn advance_at(&mut self, now: &Timestamp) -> (ahead: Result<Option<u128>, Error>)
        requires
            old(self).state().elapsed_time < u64::MAX,
        ensures
            final(self).start() == old(self).start(),
            final(self).machine() == old(self).machine(),
            match old(self).elapsed_at(*now) {
                None => final(self).state() == old(self).state() && ahead == Err::<
                    Option<u128>,
                    Error,
                >(Error::FailedToGetCurrentTime),
                Some(current) => final(self).state() == old(self).state().advanced(current)
                    && match old(self).state().overtime(current) {
                    Some(ticks) => 1 <= ticks <= 0x2_0000_0000_0000_0000 && ahead == Ok::<
                        Option<u128>,
                        Error,
                    >(Some(ticks as u128)),
                    None => ahead == Ok::<Option<u128>, Error>(None),
                },
            },
    {
        match self.current_elapsed_time(now) {
            Ok(current) => Ok(self.internals.advance(current)),
            Err(e) => Err(e),
        }
    }

    /// Hands back the identifier of the present state, after the wait that
    /// `ahead` ticks ask for at the instant `later`.
    fn conclude(&self, ahead: Option<u128>, later: &Timestamp) -> (issued: Issued)
        requires
            ahead matches Some(ticks) ==> 1 <= ticks <= 0x2_0000_0000_0000_0000,
        ensures
            issued == match ahead {
                None => Issued { wait: Wait { secs: 0, nanos: 0 }, result: self.id_of(self.state()) },
                Some(ticks) => match later.unix_nanos() {
                    None => Issued {
                        wait: Wait { secs: 0, nanos: 0 },
                        result: Err(Error::FailedToGetCurrentTime),
                    },
                    Some(nanos) => Issued {
                        wait: wait_of(
                            sleep_nanos(ticks as int, crate::clock::subtick_of(nanos as int)),
                        ),
                        result: self.id_of(self.state()),
                    },
                },
            },
    {
        match ahead {
            None => Issued { wait: Wait::none(), result: self.id() },
            Some(overtime) => match sleep_time(overtime, later) {
                Ok(wait) => Issued { wait, result: self.id() },
                Err(e) => Issued { wait: Wait::none(), result: Err(e) },
            },
        }
    }

    /// Issues the next identifier as of given readings of the wall clock:
    /// `now` on entry, and `later` where the counter ran out and the clock is
    /// read again.
    pub fn next_id_at(&mut self, now: &Timestamp, later: &Timestamp) -> (issued: Issued)
        requires
            old(self).state().elapsed_time < u64::MAX,
        ensures
            final(self).start() == old(self).start(),
            final(self).machine() == old(self).machine(),
            (final(self).state(), issued) == old(self).issues(*now, *later),
    {
        match self.advance_at(now) {
            Ok(ahead) => self.conclude(ahead, later),
            Err(e) => Issued { wait: Wait::none(), result: Err(e) },
        }
    }

    /// Issues the next identifier.
    ///
    /// The wall clock is read once, and once more where the counter ran out.
    /// Whatever the clock read, the outcome is that of `next_id_at` for those
    /// readings. The start time and the machine id stay as they are.
    pub fn next_id(&mut self) -> (issued: Issued)
        requires
            old(self).state().elapsed_time < u64::MAX,
        ensures
            final(self).start() == old(self).start(),
            final(self).machine() == old(self).machine(),
            exists|now: Timestamp, later: Timestamp|
                (final(self).state(), issued) == #[trigger] old(self).issues(now, later),
    {
        let now = utc_now();
        match self.advance_at(&now) {
            Ok(None) => {
                let issued = self.conclude(None, &now);
                assert((self.state(), issued) == old(self).issues(now, now));
                issued
            },
            Ok(Some(overtime)) => {
                let later = utc_now();
                let issued = self.conclude(Some(overtime), &later);
                assert((self.state(), issued) == old(self).issues(now, later));
                issued
            },
            Err(e) => {
                let issued = Issued { wait: Wait::none(), result: Err(e) };
                assert((self.state(), issued) == old(self).issues(now, now));
                issued
            },
        }
    }
}

} // verus!
