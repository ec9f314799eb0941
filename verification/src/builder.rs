//! Building a generator: the start time is checked against the wall clock,
//! the machine id is resolved and, where the caller asks for it, checked.
use crate::clock::{to_sonyflake_time, utc_now, Timestamp};
use crate::error::Error;
use crate::machine::{host_machine_id, lower_16_bit_private_ip, Interface};
use crate::sonyflake::{Internals, Sonyflake, INITIAL_SEQUENCE};
use vstd::prelude::*;

verus! {

/// Seconds from the Unix epoch to the start time that a generator counts from
/// where none is configured: 2014-09-01T00:00:00Z.
pub const DEFAULT_START_SECS: i64 = 1_409_529_600;

/// The default start time in ticks since the Unix epoch.
pub const DEFAULT_START_TICKS: i64 = 140_952_960_000;

/// Where a builder takes the machine id from.
pub trait MachineIdSource {
    /// Whether the source may be asked.
    spec fn ready(&self) -> bool;

    /// Whether asking the source can end in `outcome`.
    spec fn yields(&self, outcome: Result<u16, Error>) -> bool;

    /// Asks the source for the machine id.
    fn resolve(&self) -> (outcome: Result<u16, Error>)
        requires
            self.ready(),
        ensures
            self.yields(outcome),
    ;
}

/// What a builder asks about a resolved machine id before it accepts it.
pub trait MachineIdCheck {
    /// Whether the check may be asked about `machine_id`.
    spec fn ready(&self, machine_id: u16) -> bool;

    /// Whether asking about `machine_id` can end in `accepted`.
    spec fn decides(&self, machine_id: u16, accepted: bool) -> bool;

    /// Asks whether `machine_id` is acceptable.
    fn accepts(&self, machine_id: u16) -> (accepted: bool)
        requires
            self.ready(machine_id),
        ensures
            self.decides(machine_id, accepted),
    ;
}

/// No source at all: resolving fails with `NoMachineIdFn`.
#[derive(Debug)]
pub struct NoMachineId;

/// The host's network interfaces as the source: the machine id is the low 16
/// bits of the first private IPv4 address.
#[derive(Debug)]
pub struct HostAddresses {
    /// The interfaces, in the order in which the host lists them.
    pub interfaces: Vec<Interface>,
}

/// A function of the caller's as the source. Where it fails, building fails
/// with `MachineIdFailed` and the cause that the function gave.
pub struct MachineIdFn<F>(pub F);

/// No check: every machine id is accepted.
#[derive(Debug)]
pub struct NoCheck;

/// A predicate of the caller's as the check.
pub struct CheckFn<C>(pub C);

/// What a machine id function's result means for the builder.
pub open spec fn resolved(result: Result<u16, String>) -> Result<u16, Error> {
    match result {
        Ok(machine_id) => Ok(machine_id),
        Err(cause) => Err(Error::MachineIdFailed(cause)),
    }
}

impl MachineIdSource for NoMachineId {
    open spec fn ready(&self) -> bool {
        true
    }

    open spec fn yields(&self, outcome: Result<u16, Error>) -> bool {
        outcome == Err::<u16, Error>(Error::NoMachineIdFn)
    }

    fn resolve(&self) -> (outcome: Result<u16, Error>) {
        Err(Error::NoMachineIdFn)
    }
}

impl MachineIdSource for HostAddresses {
    open spec fn ready(&self) -> bool {
        true
    }

    open spec fn yields(&self, outcome: Result<u16, Error>) -> bool {
        outcome == host_machine_id(self.interfaces@)
    }

    fn resolve(&self) -> (outcome: Result<u16, Error>) {
        lower_16_bit_private_ip(&self.interfaces)
    }
}

impl<F: Fn() -> Result<u16, String>> MachineIdSource for MachineIdFn<F> {
    open spec fn ready(&self) -> bool {
        call_requires(self.0, ())
    }

    open spec fn yields(&self, outcome: Result<u16, Error>) -> bool {
        exists|result: Result<u16, String>| #[trigger]
            call_ensures(self.0, (), result) && outcome == resolved(result)
    }

    fn resolve(&self) -> (outcome: Result<u16, Error>) {
        let result = (self.0)();
        match result {
            Ok(machine_id) => Ok(machine_id),
            Err(cause) => Err(Error::MachineIdFailed(cause)),
        }
    }
}

impl MachineIdCheck for NoCheck {
    open spec fn ready(&self, machine_id: u16) -> bool {
        true
    }

    open spec fn decides(&self, machine_id: u16, accepted: bool) -> bool {
        accepted
    }

    fn accepts(&self, machine_id: u16) -> (accepted: bool) {
        true
    }
}

impl<C: Fn(u16) -> bool> MachineIdCheck for CheckFn<C> {
    open spec fn ready(&self, machine_id: u16) -> bool {
        call_requires(self.0, (machine_id,))
    }

    open spec fn decides(&self, machine_id: u16, accepted: bool) -> bool {
        call_ensures(self.0, (machine_id,), accepted)
    }

    fn accepts(&self, machine_id: u16) -> (accepted: bool) {
        (self.0)(machine_id)
    }
}

/// The start of a generator's count in ticks since the Unix epoch, as a
/// builder settles it when the wall clock reads `now`.
///
/// A configured start time that is later than `now` is refused, and one
/// without a nanosecond timestamp cannot be counted from. Without a
/// configured start time the count starts at the default.
pub open spec fn start_ticks(start_time: Option<Timestamp>, now: Timestamp) -> Result<i64, Error> {
    match start_time {
        Some(start) => if start.is_later(now) {
            Err(Error::StartTimeAheadOfCurrentTime(start))
        } else {
            match start.sonyflake_time() {
                Some(ticks) => Ok(ticks),
                None => Err(Error::FailedToGetCurrentTime),
            }
        },
        None => Ok(DEFAULT_START_TICKS),
    }
}

/// Settles the start of a generator's count when the wall clock reads `now`.
pub fn settle_start(start_time: Option<Timestamp>, now: &Timestamp) -> (ticks: Result<i64, Error>)
    ensures
        ticks == start_ticks(start_time, *now),
{
    match start_time {
        Some(start) => {
            if start.later_than(now) {
                return Err(Error::StartTimeAheadOfCurrentTime(start));
            }
            to_sonyflake_time(&start)
        },
        None => default_start(),
    }
}

/// The start of a generator's count where no start time is configured.
pub fn default_start() -> (ticks: Result<i64, Error>)
    ensures
        ticks == Ok::<i64, Error>(DEFAULT_START_TICKS),
{
    let start = Timestamp { secs: DEFAULT_START_SECS, nanos: 0 };
    to_sonyflake_time(&start)
}

/// Collects what a generator is built from: a start time, a source for the
/// machine id, and a check of the machine id. Each has a default.
pub struct Builder<M, K> {
    start_time: Option<Timestamp>,
    machine_id: M,
    check_machine_id: K,
}

impl Builder<NoMachineId, NoCheck> {
    /// A builder with nothing configured: the default start time, no source
    /// for the machine id, no check.
    pub fn new() -> (builder: Self)
        ensures
            builder.configured_start() is None,
            builder.source() == NoMachineId,
            builder.check() == NoCheck,
    {
        Builder { start_time: None, machine_id: NoMachineId, check_machine_id: NoCheck }
    }
}

impl Default for Builder<NoMachineId, NoCheck> {
    fn default() -> (builder: Self)
        ensures
            builder.configured_start() is None,
            builder.source() == NoMachineId,
            builder.check() == NoCheck,
    {
        Builder::new()
    }
}

impl<M: MachineIdSource, K: MachineIdCheck> Builder<M, K> {
    /// The start time that was configured, if one was.
    pub closed spec fn configured_start(&self) -> Option<Timestamp> {
        self.start_time
    }

    /// The source of the machine id.
    pub closed spec fn source(&self) -> M {
        self.machine_id
    }

    /// The check of the machine id.
    pub closed spec fn check(&self) -> K {
        self.check_machine_id
    }

    /// Sets the start time. Building fails where it is ahead of the wall
    /// clock.
    pub fn start_time(self, start_time: Timestamp) -> (builder: Self)
        ensures
            builder.configured_start() == Some(start_time),
            builder.source() == self.source(),
            builder.check() == self.check(),
    {
        Builder {
            start_time: Some(start_time),
            machine_id: self.machine_id,
            check_machine_id: self.check_machine_id,
        }
    }

    /// Takes the machine id from a function of the caller's. Building fails
    /// where the function does.
    pub fn machine_id<F: Fn() -> Result<u16, String>>(self, machine_id: F) -> (builder: Builder<
        MachineIdFn<F>,
        K,
    >)
        ensures
            builder.configured_start() == self.configured_start(),
            builder.source() == MachineIdFn(machine_id),
            builder.check() == self.check(),
            builder.source().ready() == call_requires(machine_id, ()),
            forall|outcome: Result<u16, Error>| #[trigger]
                builder.source().yields(outcome) == (exists|result: Result<u16, String>| #[trigger]
                    call_ensures(machine_id, (), result) && outcome == resolved(result)),
    {
        Builder {
            start_time: self.start_time,
            machine_id: MachineIdFn(machine_id),
            check_machine_id: self.check_machine_id,
        }
    }

    /// Takes the machine id from the host's network interfaces. Building
    /// fails where none of them has a private IPv4 address.
    pub fn host_interfaces(self, interfaces: Vec<Interface>) -> (builder: Builder<HostAddresses, K>)
        ensures
            builder.configured_start() == self.configured_start(),
            builder.source() == (HostAddresses { interfaces }),
            builder.check() == self.check(),
    {
        Builder {
            start_time: self.start_time,
            machine_id: HostAddresses { interfaces },
            check_machine_id: self.check_machine_id,
        }
    }

    /// Has the machine id checked by a predicate of the caller's. Building
    /// fails where the predicate turns the machine id down.
    pub fn check_machine_id<C: Fn(u16) -> bool>(self, check_machine_id: C) -> (builder: Builder<
        M,
        CheckFn<C>,
    >)
        ensures
            builder.configured_start() == self.configured_start(),
            builder.source() == self.source(),
            builder.check() == CheckFn(check_machine_id),
            forall|machine_id: u16| #[trigger]
                builder.check().ready(machine_id) == call_requires(check_machine_id, (machine_id,)),
            forall|machine_id: u16, accepted: bool| #[trigger]
                builder.check().decides(machine_id, accepted) == call_ensures(
                    check_machine_id,
                    (machine_id,),
                    accepted,
                ),
    {
        Builder {
            start_time: self.start_time,
            machine_id: self.machine_id,
            check_machine_id: CheckFn(check_machine_id),
        }
    }

    /// Whether building can end in `built` once the start of the count is
    /// settled as `start`.
    ///
    /// A failure to settle the start is the builder's. Otherwise the source
    /// is asked for the machine id, and its failure is the builder's. Then
    /// the check is asked, and building fails with `CheckMachineIdFailed`
    /// where it says no. Otherwise there is a generator with that start and
    /// machine id that has issued nothing yet.
    pub open spec fn assembles(
        &self,
        start: Result<i64, Error>,
        built: Result<Sonyflake, Error>,
    ) -> bool {
        match start {
            Err(e) => built == Err::<Sonyflake, Error>(e),
            Ok(start) => match built {
                Ok(generator) => {
                    &&& generator.start() == start
                    &&& generator.state() == (Internals {
                        elapsed_time: 0,
                        sequence: INITIAL_SEQUENCE,
                    })
                    &&& self.source().yields(Ok(generator.machine()))
                    &&& self.check().decides(generator.machine(), true)
                },
                Err(e) => {
                    ||| self.source().yields(Err(e))
                    ||| e == Error::CheckMachineIdFailed && exists|machine_id: u16|
                        self.source().yields(Ok(machine_id)) && #[trigger] self.check().decides(
                            machine_id,
                            false,
                        )
                },
            },
        }
    }

    /// Whether building can end in `built` when the wall clock reads `now`:
    /// the start time is settled against `now` first, and the rest follows
    /// as `assembles` says.
    pub open spec fn builds(&self, now: Timestamp, built: Result<Sonyflake, Error>) -> bool {
        self.assembles(start_ticks(self.configured_start(), now), built)
    }

    /// Whether the check can be asked about every machine id that the source
    /// can give.
    pub open spec fn check_is_ready(&self) -> bool {
        forall|machine_id: u16|
            self.source().yields(Ok(machine_id)) ==> #[trigger] self.check().ready(machine_id)
    }

    /// Resolves and checks the machine id, and makes the generator that
    /// counts from `start`.
    fn assemble(self, start: Result<i64, Error>) -> (built: Result<Sonyflake, Error>)
        requires
            self.source().ready(),
            self.check_is_ready(),
        ensures
            self.assembles(start, built),
    {
        let start: i64 = match start {
            Ok(start) => start,
            Err(e) => {
                return Err(e);
            },
        };
        let machine_id: u16 = match self.machine_id.resolve() {
            Ok(machine_id) => machine_id,
            Err(e) => {
                return Err(e);
            },
        };
        assert(self.check().ready(machine_id));
        if !self.check_machine_id.accepts(machine_id) {
            return Err(Error::CheckMachineIdFailed);
        }
        Ok(Sonyflake::new_inner(start, machine_id))
    }

    /// Builds the generator as of the instant `now`.
    pub fn finalize_at(self, now: &Timestamp) -> (built: Result<Sonyflake, Error>)
        requires
            self.source().ready(),
            self.check_is_ready(),
        ensures
            self.builds(*now, built),
    {
        let start = settle_start(self.start_time, now);
        self.assemble(start)
    }

    /// Builds the generator as of now. The wall clock is read where a start
    /// time is configured, and only there; the outcome is one that `builds`
    /// allows for that reading, and without a start time for any reading.
    pub fn finalize(self) -> (built: Result<Sonyflake, Error>)
        requires
            self.source().ready(),
            self.check_is_ready(),
        ensures
            exists|now: Timestamp| #[trigger] self.builds(now, built),
            self.configured_start() is None ==> forall|now: Timestamp| #[trigger]
                self.builds(now, built),
    {
        match self.start_time {
            Some(start_time) => {
                let now = utc_now();
                self.finalize_at(&now)
            },
            None => {
                let built = self.assemble(default_start());
                assert(self.builds(Timestamp { secs: 0, nanos: 0 }, built));
                built
            },
        }
    }
}

/// A start time ahead of the wall clock is refused, whatever else is
/// configured, and the failure names it.
pub proof fn lemma_start_ahead_is_refused<M: MachineIdSource, K: MachineIdCheck>(
    builder: Builder<M, K>,
    start: Timestamp,
    now: Timestamp,
    built: Result<Sonyflake, Error>,
)
    requires
        builder.configured_start() == Some(start),
        start.is_later(now),
        builder.builds(now, built),
    ensures
        built == Err::<Sonyflake, Error>(Error::StartTimeAheadOfCurrentTime(start)),
{
}

/// Where the source of the machine id cannot succeed, building fails with a
/// failure of the source.
pub proof fn lemma_failing_source_fails<M: MachineIdSource, K: MachineIdCheck>(
    builder: Builder<M, K>,
    now: Timestamp,
    built: Result<Sonyflake, Error>,
)
    requires
        start_ticks(builder.configured_start(), now) is Ok,
        forall|machine_id: u16| !builder.source().yields(Ok(machine_id)),
        builder.builds(now, built),
    ensures
        built matches Err(e) && builder.source().yields(Err(e)),
{
}

/// The failure of a machine id function reaches the caller as
/// `MachineIdFailed` with the function's cause.
pub proof fn lemma_machine_id_fn_failure<F: Fn() -> Result<u16, String>>(
    source: MachineIdFn<F>,
    e: Error,
)
    requires
        source.yields(Err(e)),
    ensures
        e matches Error::MachineIdFailed(cause) && call_ensures(
            source.0,
            (),
            Err::<u16, String>(cause),
        ),
{
}

/// Where the machine id resolves and the check accepts none, building fails
/// with `CheckMachineIdFailed`.
pub proof fn lemma_refusing_check_fails<M: MachineIdSource, K: MachineIdCheck>(
    builder: Builder<M, K>,
    now: Timestamp,
    built: Result<Sonyflake, Error>,
)
    requires
        start_ticks(builder.configured_start(), now) is Ok,
        forall|e: Error| !builder.source().yields(Err(e)),
        forall|machine_id: u16| !builder.check().decides(machine_id, true),
        builder.builds(now, built),
    ensures
        built == Err::<Sonyflake, Error>(Error::CheckMachineIdFailed),
{
}

/// Where nothing stands in the way, building succeeds: with a start time
/// that can be counted from, a source that cannot fail and a check that
/// cannot refuse, there is a generator.
pub proof fn lemma_builds_where_nothing_fails<M: MachineIdSource, K: MachineIdCheck>(
    builder: Builder<M, K>,
    now: Timestamp,
    built: Result<Sonyflake, Error>,
)
    requires
        start_ticks(builder.configured_start(), now) is Ok,
        forall|e: Error| !builder.source().yields(Err(e)),
        forall|machine_id: u16| !builder.check().decides(machine_id, false),
        builder.builds(now, built),
    ensures
        built is Ok,
{
}

} // verus!
