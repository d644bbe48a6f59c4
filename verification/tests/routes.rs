use snowflake::encoder::{State, TimeError};
use snowflake::formats::{Format, Query};
use snowflake::routes::{get, render_id};

#[test]
fn get_renders_the_generated_id() {
    let mut st = State::new(0, 2, 5);
    let q = Query { format: Some(Format::Decimal) };
    let s = get(&mut st, 1000, &q).unwrap();
    assert_eq!(s, "4194586625");
    assert_eq!(st.counter, 1);
}

#[test]
fn get_defaults_to_decimal() {
    let mut with_fmt = State::new(0, 2, 5);
    let mut without = State::new(0, 2, 5);
    let explicit = get(&mut with_fmt, 1000, &Query { format: Some(Format::Decimal) }).unwrap();
    let defaulted = get(&mut without, 1000, &Query { format: None }).unwrap();
    assert_eq!(explicit, defaulted);
}

#[test]
fn get_honors_the_requested_encoding() {
    let mut st = State::new(0, 0, 0);
    let s = get(&mut st, 1, &Query { format: Some(Format::Binary) }).unwrap();
    // time 1 ms << 22, sequence 1.
    assert_eq!(s, "10000000000000000000001");
    let mut st = State::new(0, 0, 0);
    let s = get(&mut st, 1, &Query { format: Some(Format::LowerHex) }).unwrap();
    assert_eq!(s, "400001");
}

#[test]
fn get_propagates_a_backwards_clock() {
    let mut st = State::new(10_000, 0, 0);
    assert_eq!(get(&mut st, 9_999, &Query { format: None }), Err(TimeError::ClockBeforeEpoch));
    assert_eq!(st.counter, 0);
}

#[test]
fn render_id_packs_the_three_field_layout() {
    assert_eq!(render_id(1000, 5, 0, Format::Decimal), "4194324480");
    assert_eq!(render_id(1000, 5, 0, Format::Base64), "AAAAAPoAUAA=");
    assert_eq!(render_id(0, 0, 0, Format::LowerHex), "0");
}
