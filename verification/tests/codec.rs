use sonyflake::{decompose, DecomposedSonyflake, Id, Internals, BIT_LEN_MACHINE_ID, BIT_LEN_SEQUENCE, BIT_LEN_TIME};

#[test]
fn the_fields_fill_63_bits() {
    assert_eq!(BIT_LEN_TIME, 39);
    assert_eq!(BIT_LEN_SEQUENCE, 8);
    assert_eq!(BIT_LEN_MACHINE_ID, 16);
    assert_eq!(BIT_LEN_TIME + BIT_LEN_SEQUENCE + BIT_LEN_MACHINE_ID, 63);
}

#[test]
fn decompose_takes_the_fields_apart() {
    let parts = decompose(Id(0x0000_0001_0203_002A));
    assert_eq!(parts.id, 0x0000_0001_0203_002A);
    assert_eq!(parts.msb, 0);
    assert_eq!(parts.time, 0x102);
    assert_eq!(parts.sequence, 3);
    assert_eq!(parts.machine_id, 42);
}

#[test]
fn decompose_accepts_every_value() {
    let zero = decompose(Id(0));
    assert_eq!((zero.msb, zero.time, zero.sequence, zero.machine_id), (0, 0, 0, 0));
    let all = decompose(Id(u64::MAX));
    assert_eq!(all.id, u64::MAX);
    assert_eq!(all.msb, 1);
    assert_eq!(all.time, (1 << 40) - 1);
    assert_eq!(all.sequence, 255);
    assert_eq!(all.machine_id, 65_535);
    let top = decompose(Id(1 << 63));
    assert_eq!((top.msb, top.time, top.sequence, top.machine_id), (1, 1 << 39, 0, 0));
}

#[test]
fn nanos_time_is_ten_milliseconds_a_tick() {
    assert_eq!(decompose(Id(0x0000_0001_0203_002A)).nanos_time(), 0x102 * 10_000_000);
    assert_eq!(decompose(Id(0)).nanos_time(), 0);
    let last = DecomposedSonyflake {
        id: 0,
        msb: 0,
        time: (1 << 39) - 1,
        sequence: 0,
        machine_id: 0,
    };
    assert_eq!(last.nanos_time(), 5_497_558_138_870_000_000);
}

#[test]
fn to_u64_is_the_identifier() {
    assert_eq!(Id(77).to_u64(), 77);
    assert!(Id(78) > Id(77));
    assert_eq!(Id(77), Id(77));
}

#[test]
fn the_state_advances_by_the_clock_or_by_the_counter() {
    let mut state = Internals { elapsed_time: 5, sequence: 9 };
    assert_eq!(state.advance(7), None);
    assert_eq!(state, Internals { elapsed_time: 7, sequence: 0 });
    assert_eq!(state.advance(7), None);
    assert_eq!(state, Internals { elapsed_time: 7, sequence: 1 });
    assert_eq!(state.advance(3), None);
    assert_eq!(state, Internals { elapsed_time: 7, sequence: 2 });
    assert_eq!(state.advance(-4), None);
    assert_eq!(state, Internals { elapsed_time: 7, sequence: 3 });
}

#[test]
fn a_full_tick_has_256_identifiers_and_then_the_next_tick_starts() {
    let mut state = Internals { elapsed_time: 40, sequence: 200 };
    assert_eq!(state.advance(41), None);
    let mut max_sequence: u8 = 0;
    for expected in 1..=255u8 {
        assert_eq!(state.advance(41), None);
        assert_eq!(state, Internals { elapsed_time: 41, sequence: expected });
        max_sequence = max_sequence.max(state.sequence);
    }
    assert_eq!(max_sequence, 255);
    assert_eq!(state.advance(41), Some(1));
    assert_eq!(state, Internals { elapsed_time: 42, sequence: 0 });
    state.sequence = 255;
    assert_eq!(state.advance(30), Some(13));
    assert_eq!(state, Internals { elapsed_time: 43, sequence: 0 });
}

#[test]
fn an_identifier_dereferences_to_its_number() {
    let id = Id(0x0000_0001_0203_002A);
    assert_eq!(*id, 0x0000_0001_0203_002A);
    assert_eq!(*id, id.to_u64());
    assert_eq!(id.leading_zeros(), 31);
}
