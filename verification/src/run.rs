//! What holds of the identifiers of one generator, call by call and over a
//! whole run of calls.
use crate::clock::{subtick_of, Timestamp, SONYFLAKE_TIME_UNIT};
use crate::error::Error;
use crate::sonyflake::{
    compose, elapsed_since, identifier, issue, sleep_nanos, DecomposedSonyflake, Id, Internals,
    Issued, TIME_LIMIT,
};
use vstd::prelude::*;

verus! {

/// Every call that advances the state raises its rank: the tick never goes
/// back, and within a tick the counter goes up.
pub proof fn lemma_advance_raises_rank(internals: Internals, current: int)
    requires
        internals.elapsed_time < u64::MAX,
        current <= u64::MAX,
    ensures
        internals.advanced(current).rank() > internals.rank(),
        internals.advanced(current).elapsed_time >= internals.elapsed_time,
{
}

/// Of two states whose ticks fit the time field, the one of higher rank has
/// the larger identifier, whatever the machine id.
pub proof fn lemma_identifier_follows_rank(lower: Internals, higher: Internals, machine_id: u16)
    requires
        lower.rank() < higher.rank(),
        higher.elapsed_time < TIME_LIMIT,
    ensures
        identifier(lower, machine_id) matches Ok(a) && identifier(higher, machine_id) matches Ok(b)
            && a.0 < b.0,
{
    assert(compose(lower.elapsed_time as int, lower.sequence as int, machine_id as int)
        == lower.rank() * 0x1_0000 + machine_id);
    assert(compose(higher.elapsed_time as int, higher.sequence as int, machine_id as int)
        == higher.rank() * 0x1_0000 + machine_id);
}

/// Taking an issued identifier apart gives back the tick, the counter and
/// the machine id that it was made of, under a top bit of 0.
pub proof fn lemma_decompose_inverts_identifier(internals: Internals, machine_id: u16)
    requires
        internals.elapsed_time < TIME_LIMIT,
    ensures
        identifier(internals, machine_id) matches Ok(id) && ({
            let parts = DecomposedSonyflake::of(id.0);
            &&& parts.id == id.0
            &&& parts.msb == 0
            &&& parts.time == internals.elapsed_time
            &&& parts.sequence == internals.sequence
            &&& parts.machine_id == machine_id
        }),
{
    let e = internals.elapsed_time as int;
    let q = internals.sequence as int;
    let m = machine_id as int;
    let id = compose(e, q, m);
    assert(id / 0x1_0000 == e * 0x100 + q && id % 0x1_0000 == m) by {
        vstd::arithmetic::div_mod::lemma_fundamental_div_mod_converse(
            id,
            0x1_0000,
            e * 0x100 + q,
            m,
        );
    }
    assert((e * 0x100 + q) % 0x100 == q) by {
        vstd::arithmetic::div_mod::lemma_fundamental_div_mod_converse(e * 0x100 + q, 0x100, e, q);
    }
    assert(id / 0x100_0000 == e) by {
        vstd::arithmetic::div_mod::lemma_fundamental_div_mod_converse(
            id,
            0x100_0000,
            e,
            q * 0x1_0000 + m,
        );
    }
}

/// Where the wall clock has passed the state's tick, the next identifier is
/// the first of the clock's tick: its counter is 0 and its tick is the
/// clock's, which is later than the one before.
pub proof fn lemma_tick_reset(internals: Internals, current: int)
    requires
        internals.elapsed_time < current <= u64::MAX,
    ensures
        internals.advanced(current).sequence == 0,
        internals.advanced(current).elapsed_time == current,
        internals.advanced(current).elapsed_time > internals.elapsed_time,
        internals.overtime(current) is None,
{
}

/// Of two calls in a row, where the first leaves the generator no further
/// than the wall clock and the clock is at least one tick on at the second,
/// the second identifier is the first of its tick and its tick is later than
/// that of the first identifier.
pub proof fn lemma_tick_reset_between_calls(
    start: i64,
    machine_id: u16,
    internals: Internals,
    first: (Timestamp, Timestamp),
    second: (Timestamp, Timestamp),
)
    requires
        internals.elapsed_time < u64::MAX,
        elapsed_since(start, first.0) is Some,
        elapsed_since(start, second.0) is Some,
        elapsed_since(start, second.0)->Some_0 >= elapsed_since(start, first.0)->Some_0 + 1,
        issue(start, machine_id, internals, first.0, first.1).0.elapsed_time <= elapsed_since(
            start,
            first.0,
        )->Some_0,
        issue(start, machine_id, internals, first.0, first.1).1.result is Ok,
        issue(
            start,
            machine_id,
            issue(start, machine_id, internals, first.0, first.1).0,
            second.0,
            second.1,
        ).1.result is Ok,
    ensures
        ({
            let (between, a) = issue(start, machine_id, internals, first.0, first.1);
            let (after, b) = issue(start, machine_id, between, second.0, second.1);
            &&& DecomposedSonyflake::of(b.result->Ok_0.0).sequence == 0
            &&& DecomposedSonyflake::of(b.result->Ok_0.0).time > DecomposedSonyflake::of(
                a.result->Ok_0.0,
            ).time
        }),
{
    let (between, a) = issue(start, machine_id, internals, first.0, first.1);
    let (after, b) = issue(start, machine_id, between, second.0, second.1);
    lemma_tick_reset(between, elapsed_since(start, second.0)->Some_0);
    lemma_decompose_inverts_identifier(between, machine_id);
    lemma_decompose_inverts_identifier(after, machine_id);
}

/// The state after `count` identifiers are taken while the wall clock stands
/// still at `current` ticks after the start time.
pub open spec fn burst(internals: Internals, current: int, count: nat) -> Internals
    decreases count,
{
    if count == 0 {
        internals
    } else {
        burst(internals, current, (count - 1) as nat).advanced(current)
    }
}

/// While the clock stands still in a tick that the state has reached, the
/// counter runs up one by one within the tick.
pub proof fn lemma_burst_counts_up(internals: Internals, current: int, count: nat)
    requires
        current <= internals.elapsed_time,
        internals.sequence + count <= 0xff,
    ensures
        burst(internals, current, count) == (Internals {
            elapsed_time: internals.elapsed_time,
            sequence: (internals.sequence + count) as u8,
        }),
    decreases count,
{
    if count > 0 {
        lemma_burst_counts_up(internals, current, (count - 1) as nat);
    }
}

/// A burst that starts a tick fills it: the 256 identifiers of the tick have
/// the counters 0 to 255, and the one after them is the first of the next
/// tick, for which the caller is made to wait.
pub proof fn lemma_burst_wraps(elapsed_time: u64, current: int)
    requires
        current <= elapsed_time < u64::MAX,
    ensures
        forall|count: nat|
            count <= 0xff ==> #[trigger] burst(
                Internals { elapsed_time, sequence: 0 },
                current,
                count,
            ) == (Internals { elapsed_time, sequence: count as u8 }),
        burst(Internals { elapsed_time, sequence: 0 }, current, 0xff).overtime(current) == Some(
            elapsed_time + 1 - current,
        ),
        burst(Internals { elapsed_time, sequence: 0 }, current, 0x100) == (Internals {
            elapsed_time: (elapsed_time + 1) as u64,
            sequence: 0,
        }),
{
    let first = Internals { elapsed_time, sequence: 0 };
    assert forall|count: nat| count <= 0xff implies #[trigger] burst(first, current, count) == (
    Internals { elapsed_time, sequence: count as u8 }) by {
        lemma_burst_counts_up(first, current, count);
    }
    lemma_burst_counts_up(first, current, 0xff);
}

/// The wait that follows a full tick ends within the tick that the state
/// took: it is at most `overtime` ticks long and longer than one tick less.
pub proof fn lemma_sleep_is_bounded(overtime: int, nanos: int)
    requires
        overtime >= 1,
    ensures
        (overtime - 1) * SONYFLAKE_TIME_UNIT < sleep_nanos(overtime, subtick_of(nanos)) <= overtime
            * SONYFLAKE_TIME_UNIT,
{
}

/// Once the state's tick has outgrown the time field, no call issues an
/// identifier again.
pub proof fn lemma_over_time_limit(
    start: i64,
    machine_id: u16,
    internals: Internals,
    now: Timestamp,
    later: Timestamp,
)
    requires
        TIME_LIMIT <= internals.elapsed_time < u64::MAX,
    ensures
        issue(start, machine_id, internals, now, later).1.result is Err,
        now.unix_nanos() is Some && later.unix_nanos() is Some ==> issue(
            start,
            machine_id,
            internals,
            now,
            later,
        ).1.result == Err::<Id, Error>(Error::OverTimeLimit),
        issue(start, machine_id, internals, now, later).0.elapsed_time >= TIME_LIMIT,
{
}

/// Whether `states` and `issued` record a run of calls on one generator:
/// call `k` finds the state `states[k]`, reads the clock as `readings[k]`
/// says, leaves the state `states[k + 1]` and hands back `issued[k]`.
pub open spec fn is_run(
    start: i64,
    machine_id: u16,
    states: Seq<Internals>,
    readings: Seq<(Timestamp, Timestamp)>,
    issued: Seq<Issued>,
) -> bool {
    &&& states.len() == readings.len() + 1
    &&& issued.len() == readings.len()
    &&& forall|k: int|
        0 <= k < readings.len() ==> {
            &&& (#[trigger] states[k]).elapsed_time < u64::MAX
            &&& (states[k + 1], issued[k]) == issue(
                start,
                machine_id,
                states[k],
                readings[k].0,
                readings[k].1,
            )
        }
}

/// Over a run the rank of the state never falls.
pub proof fn lemma_rank_never_falls(
    start: i64,
    machine_id: u16,
    states: Seq<Internals>,
    readings: Seq<(Timestamp, Timestamp)>,
    issued: Seq<Issued>,
    i: int,
    j: int,
)
    requires
        is_run(start, machine_id, states, readings, issued),
        0 <= i <= j < states.len(),
    ensures
        states[i].rank() <= states[j].rank(),
    decreases j - i,
{
    if i < j {
        lemma_rank_never_falls(start, machine_id, states, readings, issued, i, j - 1);
        let before = states[j - 1];
        match elapsed_since(start, readings[j - 1].0) {
            Some(current) => {
                lemma_advance_raises_rank(before, current);
            },
            None => {},
        }
    }
}

/// Of two identifiers that one generator issues, the later one is the larger.
pub proof fn lemma_later_id_is_larger(
    start: i64,
    machine_id: u16,
    states: Seq<Internals>,
    readings: Seq<(Timestamp, Timestamp)>,
    issued: Seq<Issued>,
    i: int,
    j: int,
)
    requires
        is_run(start, machine_id, states, readings, issued),
        0 <= i < j < issued.len(),
        issued[i].result is Ok,
        issued[j].result is Ok,
    ensures
        issued[i].result->Ok_0.0 < issued[j].result->Ok_0.0,
{
    assert(states[i].elapsed_time < u64::MAX);
    let second = elapsed_since(start, readings[j].0)->Some_0;
    lemma_rank_never_falls(start, machine_id, states, readings, issued, i + 1, j);
    lemma_advance_raises_rank(states[j], second);
    lemma_identifier_follows_rank(states[i + 1], states[j + 1], machine_id);
}

/// No two identifiers that one generator issues are equal.
pub proof fn lemma_ids_are_distinct(
    start: i64,
    machine_id: u16,
    states: Seq<Internals>,
    readings: Seq<(Timestamp, Timestamp)>,
    issued: Seq<Issued>,
    i: int,
    j: int,
)
    requires
        is_run(start, machine_id, states, readings, issued),
        0 <= i < issued.len(),
        0 <= j < issued.len(),
        i != j,
        issued[i].result is Ok,
        issued[j].result is Ok,
    ensures
        issued[i].result->Ok_0 != issued[j].result->Ok_0,
{
    if i < j {
        lemma_later_id_is_larger(start, machine_id, states, readings, issued, i, j);
    } else {
        lemma_later_id_is_larger(start, machine_id, states, readings, issued, j, i);
    }
}

} // verus!
