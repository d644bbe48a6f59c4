use snowflake::formats::{format_u64, parse_u64, Format};

const ID: u64 = 4194324480;

#[test]
fn renders_every_encoding_exactly() {
    assert_eq!(format_u64(ID, Format::Decimal), "4194324480");
    assert_eq!(format_u64(ID, Format::LowerHex), "fa005000");
    assert_eq!(format_u64(ID, Format::UpperHex), "FA005000");
    assert_eq!(format_u64(ID, Format::Octal), "37200050000");
    assert_eq!(format_u64(ID, Format::Binary), "11111010000000000101000000000000");
    assert_eq!(format_u64(ID, Format::Base64), "AAAAAPoAUAA=");
    assert_eq!(format_u64(ID, Format::Base64LE), "AFAA+gAAAAA=");
}

#[test]
fn renders_zero_and_max() {
    assert_eq!(format_u64(0, Format::Decimal), "0");
    assert_eq!(format_u64(0, Format::Binary), "0");
    assert_eq!(format_u64(u64::MAX, Format::Decimal), "18446744073709551615");
    assert_eq!(format_u64(u64::MAX, Format::LowerHex), "ffffffffffffffff");
    assert_eq!(format_u64(1, Format::Base64), "AAAAAAAAAAE=");
}

#[test]
fn every_encoding_round_trips() {
    for id in [0u64, 1, 5, ID, u64::MAX, 0x8000_0000_0000_0000] {
        for f in [
            Format::Decimal,
            Format::LowerHex,
            Format::UpperHex,
            Format::Octal,
            Format::Binary,
            Format::Base64,
            Format::Base64LE,
        ] {
            let s = format_u64(id, f);
            assert_eq!(parse_u64(&s, f), Some(id), "round trip failed for {:?}", f);
        }
    }
}

#[test]
fn base64_matches_the_encoder_crate() {
    // The rendering really is base64 of the byte forms, not the input back.
    assert_eq!(format_u64(ID, Format::Base64), base64::encode(ID.to_be_bytes()));
    assert_eq!(format_u64(ID, Format::Base64LE), base64::encode(ID.to_le_bytes()));
}

#[test]
fn parse_rejects_what_is_no_digit_string() {
    assert_eq!(parse_u64("", Format::Decimal), None);
    assert_eq!(parse_u64("12a", Format::Decimal), None);
    assert_eq!(parse_u64("-1", Format::Decimal), None);
    assert_eq!(parse_u64(" 1", Format::Decimal), None);
    assert_eq!(parse_u64("1\u{e9}", Format::Decimal), None);
    assert_eq!(parse_u64("2", Format::Binary), None);
    assert_eq!(parse_u64("8", Format::Octal), None);
    assert_eq!(parse_u64("g", Format::LowerHex), None);
}

#[test]
fn parse_rejects_overflow() {
    assert_eq!(parse_u64("18446744073709551615", Format::Decimal), Some(u64::MAX));
    assert_eq!(parse_u64("18446744073709551616", Format::Decimal), None);
    assert_eq!(parse_u64("ffffffffffffffff", Format::LowerHex), Some(u64::MAX));
    assert_eq!(parse_u64("10000000000000000", Format::LowerHex), None);
}

#[test]
fn parse_accepts_either_hex_case() {
    assert_eq!(parse_u64("fa005000", Format::UpperHex), Some(ID));
    assert_eq!(parse_u64("FA005000", Format::LowerHex), Some(ID));
}

#[test]
fn parse_rejects_malformed_base64() {
    assert_eq!(parse_u64("not base64!!", Format::Base64), None);
    // Valid base64, but not eight bytes.
    assert_eq!(parse_u64("YWJj", Format::Base64), None);
    assert_eq!(parse_u64("", Format::Base64LE), None);
}
