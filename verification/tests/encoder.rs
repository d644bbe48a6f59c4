use snowflake::encoder::{encode_id, get_time_since, get_uuid, next_sequence, State, TimeError};

#[test]
fn sequential_ids_strictly_increase_in_low_bits() {
    // epoch = 0, worker id = 5, timestamp = 1000 ms, 12-bit sequence.
    let a = encode_id(1000, 5, 0);
    let b = encode_id(1000, 5, 1);
    let c = encode_id(1000, 5, 2);
    assert_eq!(a, 4194324480);
    assert_eq!(b, 4194324481);
    assert_eq!(c, 4194324482);
    assert!(a < b && b < c);
    // They differ only in the low 12 bits.
    assert_eq!(a >> 12, b >> 12);
    assert_eq!(b >> 12, c >> 12);
}

#[test]
fn wide_layout_packs_all_four_fields() {
    assert_eq!(get_uuid(1, 2, 3, 7), 29634561);
    assert_eq!(get_uuid(0, 0, 0, 0), 0);
    assert_eq!(get_uuid(0xFFF, 0, 0, 0), 0xFFF);
    assert_eq!(get_uuid(0, 0, 0x1F, 0), 0x1F << 12);
    assert_eq!(get_uuid(0, 0x1F, 0, 0), 0x1F << 17);
}

#[test]
fn time_since_epoch_or_error() {
    assert_eq!(get_time_since(1_000, 3_500), Ok(2_500));
    assert_eq!(get_time_since(1_000, 1_000), Ok(0));
    assert_eq!(get_time_since(1_000, 999), Err(TimeError::ClockBeforeEpoch));
}

#[test]
fn sequence_wraps_within_twelve_bits() {
    assert_eq!(next_sequence(0), 1);
    assert_eq!(next_sequence(5), 6);
    assert_eq!(next_sequence(0xFFE), 0xFFF);
    assert_eq!(next_sequence(0xFFF), 0);
}

#[test]
fn generator_steps_counter_and_packs() {
    let mut st = State::new(0, 2, 5);
    assert_eq!(st.counter, 0);
    let id = st.generate(1000).unwrap();
    assert_eq!(st.counter, 1);
    assert_eq!(id, 4194586625);
    let id2 = st.generate(1000).unwrap();
    assert_eq!(st.counter, 2);
    assert!(id2 > id);
}

#[test]
fn generator_rejects_clock_before_epoch() {
    let mut st = State::new(5_000, 0, 0);
    assert_eq!(st.generate(4_999), Err(TimeError::ClockBeforeEpoch));
    assert_eq!(st.counter, 0);
}

#[test]
fn generator_worker_id_can_be_rebound() {
    let mut st = State::new(0, 0, 1);
    st.set_worker_id(9);
    assert_eq!(st.worker_id, 9);
    let id = st.generate(1).unwrap();
    // worker field sits in bits 12..17
    assert_eq!((id >> 12) & 0x1F, 9);
}
