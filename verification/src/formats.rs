//! Textual encodings of a generated id.
//!
//! One id can be rendered as decimal, hex (either case), octal, binary, or
//! base64 over its big- or little-endian byte form. All encodings are pure
//! formatting of the same 64-bit integer, and each can be decoded back to it.

use vstd::prelude::*;
use vstd::arithmetic::div_mod::{lemma_div_decreases, lemma_fundamental_div_mod, lemma_small_mod};
use vstd::arithmetic::mul::{lemma_mul_inequality, lemma_mul_nonnegative};

verus! {

/// The output encodings a generation request may ask for.
#[derive(Clone, Copy, PartialEq, Eq, Structural, Debug)]
pub enum Format {
    LowerHex,
    UpperHex,
    Octal,
    Binary,
    Decimal,
    Base64,
    Base64LE,
}

/// A generation request's parameters: the desired output encoding, if any.
pub struct Query {
    pub format: Option<Format>,
}

/// The base-`base` digit values of `n`, most significant first. Zero is one
/// digit; there are no leading zeros.
pub open spec fn digits_of(n: u64, base: u64) -> Seq<u64>
    decreases n,
    via digits_of_decreases
{
    if base < 2 {
        seq![]
    } else if n < base {
        seq![n]
    } else {
        digits_of((n / base) as u64, base).push((n % base) as u64)
    }
}

#[via_fn]
proof fn digits_of_decreases(n: u64, base: u64) {
    if base >= 2 && n >= base {
        lemma_div_decreases(n as int, base as int);
    }
}

/// The integer a digit sequence denotes in base `base`.
pub open spec fn value_of(ds: Seq<u64>, base: u64) -> int
    decreases ds.len(),
{
    if ds.len() == 0 {
        0
    } else {
        value_of(ds.drop_last(), base) * base + ds.last()
    }
}

/// The ASCII byte for digit value `d`: `0-9`, then `a-f` or `A-F`.
pub open spec fn digit_byte(d: u64, upper: bool) -> u8 {
    if d < 10 {
        (48 + d) as u8
    } else if upper {
        (55 + d) as u8
    } else {
        (87 + d) as u8
    }
}

/// The ASCII rendering of `n` in base `base`.
pub open spec fn digit_bytes(n: u64, base: u64, upper: bool) -> Seq<u8> {
    digits_of(n, base).map_values(|d: u64| digit_byte(d, upper))
}

/// The digit value an ASCII byte denotes: `0-9`, `a-z`, `A-Z`, rejected
/// when the value does not fall below `base`.
pub open spec fn spec_digit_val(c: u8, base: u64) -> Option<u64> {
    let v: int = if 48 <= c <= 57 {
        c - 48
    } else if 65 <= c <= 90 {
        c - 55
    } else if 97 <= c <= 122 {
        c - 87
    } else {
        99
    };
    if v < base {
        Some(v as u64)
    } else {
        None
    }
}

/// Every byte of `s` is a digit of base `base`.
pub open spec fn all_digits(s: Seq<u8>, base: u64) -> bool {
    forall|i: int| 0 <= i < s.len() ==> #[trigger] spec_digit_val(s[i], base) is Some
}

/// The digit values of `s`, an out-of-range byte standing as 0.
pub open spec fn vals_of(s: Seq<u8>, base: u64) -> Seq<u64> {
    s.map_values(
        |c: u8|
            match spec_digit_val(c, base) {
                Some(v) => v,
                None => 0u64,
            },
    )
}

/// What decoding an ASCII digit string yields: its value, provided the
/// string is non-empty, all digits, and the value fits 64 bits.
pub open spec fn spec_parse_digits(s: Seq<u8>, base: u64) -> Option<u64> {
    if s.len() >= 1 && all_digits(s, base) && value_of(vals_of(s, base), base) <= u64::MAX {
        Some(value_of(vals_of(s, base), base) as u64)
    } else {
        None
    }
}

/// A digit sequence denotes a non-negative integer.
proof fn lemma_value_nonneg(ds: Seq<u64>, base: u64)
    ensures
        value_of(ds, base) >= 0,
    decreases ds.len(),
{
    if ds.len() > 0 {
        lemma_value_nonneg(ds.drop_last(), base);
        lemma_mul_nonnegative(value_of(ds.drop_last(), base), base as int);
    }
}

/// Dropping trailing digits cannot increase the denoted value.
proof fn lemma_value_take_le(ds: Seq<u64>, base: u64, k: int)
    requires
        base >= 1,
        0 <= k <= ds.len(),
    ensures
        value_of(ds.take(k), base) <= value_of(ds, base),
    decreases ds.len() - k,
{
    if k == ds.len() {
        assert(ds.take(k) =~= ds);
    } else {
        lemma_value_take_le(ds, base, k + 1);
        let p = ds.take(k + 1);
        assert(p.drop_last() =~= ds.take(k));
        assert(p.last() == ds[k]);
        assert(value_of(p, base) == value_of(ds.take(k), base) * base + ds[k]);
        lemma_value_nonneg(ds.take(k), base);
        assert(value_of(ds.take(k), base) <= value_of(p, base)) by (nonlinear_arith)
            requires
                value_of(p, base) == value_of(ds.take(k), base) * base + ds[k],
                base >= 1,
                value_of(ds.take(k), base) >= 0,
        ;
    }
}

/// The digits of `n` denote `n`, each digit falls below the base, and there
/// is at least one digit.
pub proof fn lemma_digits_value(n: u64, base: u64)
    requires
        2 <= base,
    ensures
        digits_of(n, base).len() >= 1,
        forall|i: int|
            0 <= i < digits_of(n, base).len() ==> #[trigger] digits_of(n, base)[i] < base,
        value_of(digits_of(n, base), base) == n,
    decreases n,
{
    if n < base {
        assert(value_of(digits_of(n, base), base) == n) by {
            assert(digits_of(n, base) =~= seq![n]);
            assert(digits_of(n, base).drop_last() =~= Seq::<u64>::empty());
            assert(value_of(Seq::<u64>::empty(), base) == 0);
        }
    } else {
        let q = (n / base) as u64;
        lemma_div_decreases(n as int, base as int);
        lemma_digits_value(q, base);
        lemma_fundamental_div_mod(n as int, base as int);
        let ds = digits_of(n, base);
        assert(ds == digits_of(q, base).push((n % base) as u64));
        assert(ds.drop_last() =~= digits_of(q, base));
        assert(ds.last() == (n % base) as u64);
        assert(value_of(ds, base) == value_of(digits_of(q, base), base) * base + (n % base));
        assert(q == n / base);
        assert(value_of(ds, base) == q * base + (n % base));
        assert(q * base == base * (n / base));
        assert(forall|i: int| 0 <= i < ds.len() - 1 ==> #[trigger] ds[i] == digits_of(q, base)[i]);
    }
}

/// Rendering a digit and reading it back is the identity, for any base the
/// renderer supports.
proof fn lemma_digit_byte_val(d: u64, base: u64, upper: bool)
    requires
        d < base,
        2 <= base <= 16,
    ensures
        spec_digit_val(digit_byte(d, upper), base) == Some(d),
{
}

/// The ASCII rendering of `n` decodes back to `n`.
pub proof fn lemma_digit_bytes_parse(n: u64, base: u64, upper: bool)
    requires
        2 <= base <= 16,
    ensures
        spec_parse_digits(digit_bytes(n, base, upper), base) == Some(n),
{
    lemma_digits_value(n, base);
    let ds = digits_of(n, base);
    let bs = digit_bytes(n, base, upper);
    assert forall|i: int| 0 <= i < bs.len() implies #[trigger] spec_digit_val(bs[i], base)
        is Some by {
        lemma_digit_byte_val(ds[i], base, upper);
    }
    assert(vals_of(bs, base) =~= ds) by {
        assert forall|i: int| 0 <= i < bs.len() implies vals_of(bs, base)[i] == ds[i] by {
            lemma_digit_byte_val(ds[i], base, upper);
        }
    }
}

/// Append the ASCII rendering of `n` in base `base` to `out`.
fn push_digits(n: u64, base: u64, upper: bool, out: &mut Vec<u8>)
    requires
        2 <= base <= 16,
    ensures
        final(out)@ == old(out)@ + digit_bytes(n, base, upper),
    decreases n,
{
    if n >= base {
        proof {
            lemma_div_decreases(n as int, base as int);
        }
        push_digits(n / base, base, upper, out);
    }
    let d = n % base;
    let c: u8 = if d < 10 {
        48 + d as u8
    } else if upper {
        55 + d as u8
    } else {
        87 + d as u8
    };
    out.push(c);
    proof {
        if n < base {
            lemma_small_mod(n as nat, base as nat);
            assert(digits_of(n, base) =~= seq![n]);
            assert(c == digit_byte(n, upper));
            assert(digit_bytes(n, base, upper) =~= seq![digit_byte(n, upper)]);
            assert(out@ =~= old(out)@ + digit_bytes(n, base, upper));
        } else {
            let q = (n / base) as u64;
            assert(c == digit_byte((n % base) as u64, upper));
            assert(digit_bytes(n, base, upper) =~= digit_bytes(q, base, upper).push(
                digit_byte((n % base) as u64, upper),
            ));
            assert(out@ =~= old(out)@ + digit_bytes(n, base, upper));
        }
    }
}

/// The ASCII rendering of `n` in base `base`, lowercase or uppercase
/// letters for digits past 9.
pub fn encode_digits(n: u64, base: u64, upper: bool) -> (r: Vec<u8>)
    requires
        2 <= base <= 16,
    ensures
        r@ == digit_bytes(n, base, upper),
{
    let mut out: Vec<u8> = Vec::new();
    push_digits(n, base, upper, &mut out);
    proof {
        assert(out@ =~= digit_bytes(n, base, upper));
    }
    out
}

/// The digit value of one ASCII byte in base `base`.
fn digit_val(c: u8, base: u64) -> (r: Option<u64>)
    ensures
        r == spec_digit_val(c, base),
{
    let v: u64 = if 48 <= c && c <= 57 {
        (c - 48) as u64
    } else if 65 <= c && c <= 90 {
        (c - 55) as u64
    } else if 97 <= c && c <= 122 {
        (c - 87) as u64
    } else {
        99
    };
    if v < base {
        Some(v)
    } else {
        None
    }
}

/// Decode an ASCII digit string in base `base`: its value when the string
/// is non-empty, all digits, and the value fits 64 bits; `None` otherwise.
pub fn decode_digits(s: &[u8], base: u64) -> (r: Option<u64>)
    requires
        2 <= base <= 16,
    ensures
        r == spec_parse_digits(s@, base),
{
    if s.len() == 0 {
        return None;
    }
    let mut acc: u64 = 0;
    let mut k: usize = 0;
    while k < s.len()
        invariant
            2 <= base <= 16,
            0 <= k <= s@.len(),
            all_digits(s@.take(k as int), base),
            acc == value_of(vals_of(s@.take(k as int), base), base),
        decreases s@.len() - k,
    {
        let d = match digit_val(s[k], base) {
            Some(d) => d,
            None => {
                return None;
            },
        };
        proof {
            lemma_mul_inequality(acc as int, u64::MAX as int, base as int);
        }
        let wide: u128 = (acc as u128) * (base as u128) + (d as u128);
        proof {
            assert(vals_of(s@.take(k + 1 as int), base) =~= vals_of(
                s@.take(k as int),
                base,
            ).push(d));
            assert(vals_of(s@.take(k + 1 as int), base).drop_last() =~= vals_of(
                s@.take(k as int),
                base,
            ));
        }
        if wide > u64::MAX as u128 {
            proof {
                lemma_value_take_le(vals_of(s@, base), base, k + 1 as int);
                assert(vals_of(s@, base).take(k + 1 as int) =~= vals_of(
                    s@.take(k + 1 as int),
                    base,
                ));
            }
            return None;
        }
        acc = wide as u64;
        k += 1;
    }
    proof {
        assert(s@.take(k as int) =~= s@);
    }
    Some(acc)
}


/// The big-endian byte form of an id.
pub open spec fn spec_be_bytes(id: u64) -> Seq<u8> {
    seq![
        (id >> 56) as u8,
        (id >> 48) as u8,
        (id >> 40) as u8,
        (id >> 32) as u8,
        (id >> 24) as u8,
        (id >> 16) as u8,
        (id >> 8) as u8,
        id as u8,
    ]
}

/// The little-endian byte form of an id.
pub open spec fn spec_le_bytes(id: u64) -> Seq<u8> {
    seq![
        id as u8,
        (id >> 8) as u8,
        (id >> 16) as u8,
        (id >> 24) as u8,
        (id >> 32) as u8,
        (id >> 40) as u8,
        (id >> 48) as u8,
        (id >> 56) as u8,
    ]
}

/// The big-endian byte form, as a vector.
pub fn be_bytes(id: u64) -> (r: Vec<u8>)
    ensures
        r@ == spec_be_bytes(id),
{
    let mut r: Vec<u8> = Vec::new();
    r.push((id >> 56u64) as u8);
    r.push((id >> 48u64) as u8);
    r.push((id >> 40u64) as u8);
    r.push((id >> 32u64) as u8);
    r.push((id >> 24u64) as u8);
    r.push((id >> 16u64) as u8);
    r.push((id >> 8u64) as u8);
    r.push(id as u8);
    proof {
        assert(r@ =~= spec_be_bytes(id));
    }
    r
}

/// The little-endian byte form, as a vector.
pub fn le_bytes(id: u64) -> (r: Vec<u8>)
    ensures
        r@ == spec_le_bytes(id),
{
    let mut r: Vec<u8> = Vec::new();
    r.push(id as u8);
    r.push((id >> 8u64) as u8);
    r.push((id >> 16u64) as u8);
    r.push((id >> 24u64) as u8);
    r.push((id >> 32u64) as u8);
    r.push((id >> 40u64) as u8);
    r.push((id >> 48u64) as u8);
    r.push((id >> 56u64) as u8);
    proof {
        assert(r@ =~= spec_le_bytes(id));
    }
    r
}

/// Read an id back off its big-endian byte form.
pub fn u64_from_be(b: &Vec<u8>) -> (r: u64)
    requires
        b@.len() == 8,
    ensures
        spec_be_bytes(r) == b@,
{
    let b0 = b[0];
    let b1 = b[1];
    let b2 = b[2];
    let b3 = b[3];
    let b4 = b[4];
    let b5 = b[5];
    let b6 = b[6];
    let b7 = b[7];
    let r = ((b0 as u64) << 56u64) | ((b1 as u64) << 48u64) | ((b2 as u64) << 40u64) | ((
    b3 as u64) << 32u64) | ((b4 as u64) << 24u64) | ((b5 as u64) << 16u64) | ((b6 as u64)
        << 8u64) | (b7 as u64);
    proof {
        assert((r >> 56) as u8 == b0 && (r >> 48) as u8 == b1 && (r >> 40) as u8 == b2 && (r
            >> 32) as u8 == b3 && (r >> 24) as u8 == b4 && (r >> 16) as u8 == b5 && (r >> 8) as u8
            == b6 && r as u8 == b7) by (bit_vector)
            requires
                r == ((b0 as u64) << 56u64) | ((b1 as u64) << 48u64) | ((b2 as u64) << 40u64) | ((
                b3 as u64) << 32u64) | ((b4 as u64) << 24u64) | ((b5 as u64) << 16u64) | ((
                b6 as u64) << 8u64) | (b7 as u64),
        ;
        assert(spec_be_bytes(r) =~= b@);
    }
    r
}

/// Read an id back off its little-endian byte form.
pub fn u64_from_le(b: &Vec<u8>) -> (r: u64)
    requires
        b@.len() == 8,
    ensures
        spec_le_bytes(r) == b@,
{
    let b0 = b[0];
    let b1 = b[1];
    let b2 = b[2];
    let b3 = b[3];
    let b4 = b[4];
    let b5 = b[5];
    let b6 = b[6];
    let b7 = b[7];
    let r = ((b7 as u64) << 56u64) | ((b6 as u64) << 48u64) | ((b5 as u64) << 40u64) | ((
    b4 as u64) << 32u64) | ((b3 as u64) << 24u64) | ((b2 as u64) << 16u64) | ((b1 as u64)
        << 8u64) | (b0 as u64);
    proof {
        assert((r >> 56) as u8 == b7 && (r >> 48) as u8 == b6 && (r >> 40) as u8 == b5 && (r
            >> 32) as u8 == b4 && (r >> 24) as u8 == b3 && (r >> 16) as u8 == b2 && (r >> 8) as u8
            == b1 && r as u8 == b0) by (bit_vector)
            requires
                r == ((b7 as u64) << 56u64) | ((b6 as u64) << 48u64) | ((b5 as u64) << 40u64) | ((
                b4 as u64) << 32u64) | ((b3 as u64) << 24u64) | ((b2 as u64) << 16u64) | ((
                b1 as u64) << 8u64) | (b0 as u64),
        ;
        assert(spec_le_bytes(r) =~= b@);
    }
    r
}

/// A u64 is determined by its big-endian byte form.
proof fn lemma_be_bytes_injective(x: u64, y: u64)
    requires
        spec_be_bytes(x) == spec_be_bytes(y),
    ensures
        x == y,
{
    assert(spec_be_bytes(x)[0] == spec_be_bytes(y)[0]);
    assert(spec_be_bytes(x)[1] == spec_be_bytes(y)[1]);
    assert(spec_be_bytes(x)[2] == spec_be_bytes(y)[2]);
    assert(spec_be_bytes(x)[3] == spec_be_bytes(y)[3]);
    assert(spec_be_bytes(x)[4] == spec_be_bytes(y)[4]);
    assert(spec_be_bytes(x)[5] == spec_be_bytes(y)[5]);
    assert(spec_be_bytes(x)[6] == spec_be_bytes(y)[6]);
    assert(spec_be_bytes(x)[7] == spec_be_bytes(y)[7]);
    assert(x == y) by (bit_vector)
        requires
            (x >> 56) as u8 == (y >> 56) as u8,
            (x >> 48) as u8 == (y >> 48) as u8,
            (x >> 40) as u8 == (y >> 40) as u8,
            (x >> 32) as u8 == (y >> 32) as u8,
            (x >> 24) as u8 == (y >> 24) as u8,
            (x >> 16) as u8 == (y >> 16) as u8,
            (x >> 8) as u8 == (y >> 8) as u8,
            x as u8 == y as u8,
    ;
}

/// A u64 is determined by its little-endian byte form.
proof fn lemma_le_bytes_injective(x: u64, y: u64)
    requires
        spec_le_bytes(x) == spec_le_bytes(y),
    ensures
        x == y,
{
    assert(spec_le_bytes(x)[0] == spec_le_bytes(y)[0]);
    assert(spec_le_bytes(x)[1] == spec_le_bytes(y)[1]);
    assert(spec_le_bytes(x)[2] == spec_le_bytes(y)[2]);
    assert(spec_le_bytes(x)[3] == spec_le_bytes(y)[3]);
    assert(spec_le_bytes(x)[4] == spec_le_bytes(y)[4]);
    assert(spec_le_bytes(x)[5] == spec_le_bytes(y)[5]);
    assert(spec_le_bytes(x)[6] == spec_le_bytes(y)[6]);
    assert(spec_le_bytes(x)[7] == spec_le_bytes(y)[7]);
    assert(x == y) by (bit_vector)
        requires
            (x >> 56) as u8 == (y >> 56) as u8,
            (x >> 48) as u8 == (y >> 48) as u8,
            (x >> 40) as u8 == (y >> 40) as u8,
            (x >> 32) as u8 == (y >> 32) as u8,
            (x >> 24) as u8 == (y >> 24) as u8,
            (x >> 16) as u8 == (y >> 16) as u8,
            (x >> 8) as u8 == (y >> 8) as u8,
            x as u8 == y as u8,
    ;
}

/// What `base64::encode` returns for the given bytes: standard alphabet,
/// padded. The result is a function of the bytes alone.
pub uninterp spec fn base64_of(b: Seq<u8>) -> Seq<char>;

/// Relies on base64::encode (standard alphabet, with padding): the output
/// depends on the input bytes alone.
#[verifier::external_body]
fn base64_encode(b: &Vec<u8>) -> (r: String)
    ensures
        r@ == base64_of(b@),
{
    base64::encode(b.as_slice())
}

/// Relies on base64::decode: it inverts base64::encode, so any string the
/// encoder produced decodes to the bytes that were encoded.
#[verifier::external_body]
fn base64_decode(s: &str) -> (r: Option<Vec<u8>>)
    ensures
        r is Some <== exists|b: Seq<u8>| s@ == base64_of(b),
        r matches Some(v) ==> forall|b: Seq<u8>| s@ == base64_of(b) ==> v@ == b,
{
    match base64::decode(s) {
        Ok(v) => Some(v),
        Err(_) => None,
    }
}

/// ASCII bytes, one character each.
pub open spec fn ascii_chars(s: Seq<u8>) -> Seq<char> {
    s.map_values(|b: u8| b as char)
}

/// Relies on String::from_utf8: ASCII bytes are valid UTF-8 and decode to
/// exactly those characters.
#[verifier::external_body]
fn ascii_to_string(v: Vec<u8>) -> (r: String)
    requires
        forall|i: int| 0 <= i < v@.len() ==> v@[i] < 128,
    ensures
        r@ == ascii_chars(v@),
{
    match String::from_utf8(v) {
        Ok(s) => s,
        Err(_) => String::new(),
    }
}

/// Digit bytes are ASCII.
proof fn lemma_digit_bytes_ascii(n: u64, base: u64, upper: bool)
    requires
        2 <= base <= 16,
    ensures
        forall|i: int|
            0 <= i < digit_bytes(n, base, upper).len() ==> #[trigger] digit_bytes(
                n,
                base,
                upper,
            )[i] < 128,
{
    lemma_digits_value(n, base);
}

/// The ASCII rendering of `n` in base `base`, as a string.
fn digit_string(n: u64, base: u64, upper: bool) -> (r: String)
    requires
        2 <= base <= 16,
    ensures
        r@ == ascii_chars(digit_bytes(n, base, upper)),
{
    let v = encode_digits(n, base, upper);
    proof {
        lemma_digit_bytes_ascii(n, base, upper);
    }
    ascii_to_string(v)
}

/// The characters of each textual encoding of `id`.
pub open spec fn format_spec(id: u64, f: Format) -> Seq<char> {
    match f {
        Format::Decimal => ascii_chars(digit_bytes(id, 10, false)),
        Format::LowerHex => ascii_chars(digit_bytes(id, 16, false)),
        Format::UpperHex => ascii_chars(digit_bytes(id, 16, true)),
        Format::Octal => ascii_chars(digit_bytes(id, 8, false)),
        Format::Binary => ascii_chars(digit_bytes(id, 2, false)),
        Format::Base64 => base64_of(spec_be_bytes(id)),
        Format::Base64LE => base64_of(spec_le_bytes(id)),
    }
}

/// Render `id` in the requested encoding.
pub fn format_u64(id: u64, f: Format) -> (r: String)
    ensures
        r@ == format_spec(id, f),
{
    match f {
        Format::Decimal => digit_string(id, 10, false),
        Format::LowerHex => digit_string(id, 16, false),
        Format::UpperHex => digit_string(id, 16, true),
        Format::Octal => digit_string(id, 8, false),
        Format::Binary => digit_string(id, 2, false),
        Format::Base64 => base64_encode(&be_bytes(id)),
        Format::Base64LE => base64_encode(&le_bytes(id)),
    }
}


/// The digit value one character denotes: the value of its ASCII byte, and
/// no character beyond ASCII is a digit.
pub open spec fn spec_char_val(c: char, base: u64) -> Option<u64> {
    if '\0' <= c <= '\u{7f}' {
        spec_digit_val(c as u8, base)
    } else {
        None
    }
}

/// Every character of `s` is a digit of base `base`.
pub open spec fn all_char_digits(s: Seq<char>, base: u64) -> bool {
    forall|i: int| 0 <= i < s.len() ==> #[trigger] spec_char_val(s[i], base) is Some
}

/// The digit values of `s`, a non-digit standing as 0.
pub open spec fn char_vals(s: Seq<char>, base: u64) -> Seq<u64> {
    s.map_values(
        |c: char|
            match spec_char_val(c, base) {
                Some(v) => v,
                None => 0u64,
            },
    )
}

/// What decoding a digit string yields: its value, provided the string is
/// non-empty, all digits, and the value fits 64 bits.
pub open spec fn spec_parse_chars(s: Seq<char>, base: u64) -> Option<u64> {
    if s.len() >= 1 && all_char_digits(s, base) && value_of(char_vals(s, base), base)
        <= u64::MAX {
        Some(value_of(char_vals(s, base), base) as u64)
    } else {
        None
    }
}

/// Parsing and byte-level decoding agree on an ASCII string.
proof fn lemma_parse_ascii(cs: Seq<char>, bs: Seq<u8>, base: u64)
    requires
        cs.len() == bs.len(),
        vstd::utf8::is_ascii_chars(cs),
        forall|i: int| 0 <= i < cs.len() ==> #[trigger] bs[i] == cs[i] as u8,
    ensures
        spec_parse_chars(cs, base) == spec_parse_digits(bs, base),
{
    assert forall|i: int| 0 <= i < cs.len() implies #[trigger] spec_char_val(cs[i], base)
        == spec_digit_val(bs[i], base) by {
        assert('\0' <= cs[i] <= '\u{7f}');
    }
    assert(all_char_digits(cs, base) == all_digits(bs, base)) by {
        if all_char_digits(cs, base) {
            assert forall|i: int| 0 <= i < bs.len() implies #[trigger] spec_digit_val(bs[i], base)
                is Some by {
                assert(spec_char_val(cs[i], base) is Some);
            }
        }
        if all_digits(bs, base) {
            assert forall|i: int| 0 <= i < cs.len() implies #[trigger] spec_char_val(cs[i], base)
                is Some by {
                assert(spec_digit_val(bs[i], base) is Some);
            }
        }
    }
    assert(char_vals(cs, base) =~= vals_of(bs, base));
}

/// Parse an ASCII digit string in base `base`.
fn parse_digit_format(s: &str, base: u64) -> (r: Option<u64>)
    requires
        2 <= base <= 16,
    ensures
        r == spec_parse_chars(s@, base),
{
    if !s.is_ascii() {
        proof {
            assert(!vstd::utf8::is_ascii_chars(s@));
            assert(exists|i: int| 0 <= i < s@.len() && !('\0' <= #[trigger] s@[i] <= '\u{7f}'));
            let i = choose|i: int| 0 <= i < s@.len() && !('\0' <= #[trigger] s@[i] <= '\u{7f}');
            assert(spec_char_val(s@[i], base) is None);
            assert(!all_char_digits(s@, base));
        }
        return None;
    }
    let bytes = s.as_bytes();
    proof {
        vstd::string::is_ascii_spec_bytes(s);
        assert(bytes@.len() == s@.len());
        assert(forall|i: int| 0 <= i < s@.len() ==> #[trigger] bytes@[i] == s@[i] as u8);
        lemma_parse_ascii(s@, bytes@, base);
    }
    decode_digits(bytes, base)
}

/// Rendering an id and parsing the rendering recovers the id.
pub proof fn lemma_parse_chars_roundtrip(id: u64, base: u64, upper: bool)
    requires
        2 <= base <= 16,
    ensures
        spec_parse_chars(ascii_chars(digit_bytes(id, base, upper)), base) == Some(id),
{
    lemma_digit_bytes_parse(id, base, upper);
    lemma_digit_bytes_ascii(id, base, upper);
    let bs = digit_bytes(id, base, upper);
    let cs = ascii_chars(bs);
    assert forall|i: int| 0 <= i < cs.len() implies '\0' <= #[trigger] cs[i] <= '\u{7f}' && bs[i]
        == cs[i] as u8 by {
        assert(bs[i] < 128);
        assert(cs[i] == bs[i] as char);
    }
    lemma_parse_ascii(cs, bs, base);
}

/// Decode a textual encoding of an id. Decoding any rendering that
/// `format_u64` produced recovers the id it rendered; a digit encoding is
/// accepted exactly when it is non-empty, all digits of its base, and its
/// value fits 64 bits.
pub fn parse_u64(s: &str, f: Format) -> (r: Option<u64>)
    ensures
        forall|id: u64| s@ == format_spec(id, f) ==> r == Some(id),
        f == Format::Decimal ==> r == spec_parse_chars(s@, 10),
        f == Format::LowerHex ==> r == spec_parse_chars(s@, 16),
        f == Format::UpperHex ==> r == spec_parse_chars(s@, 16),
        f == Format::Octal ==> r == spec_parse_chars(s@, 8),
        f == Format::Binary ==> r == spec_parse_chars(s@, 2),
{
    match f {
        Format::Decimal => {
            let r = parse_digit_format(s, 10);
            proof {
                assert forall|id: u64| s@ == format_spec(id, f) implies r == Some(id) by {
                    lemma_parse_chars_roundtrip(id, 10, false);
                }
            }
            r
        },
        Format::LowerHex => {
            let r = parse_digit_format(s, 16);
            proof {
                assert forall|id: u64| s@ == format_spec(id, f) implies r == Some(id) by {
                    lemma_parse_chars_roundtrip(id, 16, false);
                }
            }
            r
        },
        Format::UpperHex => {
            let r = parse_digit_format(s, 16);
            proof {
                assert forall|id: u64| s@ == format_spec(id, f) implies r == Some(id) by {
                    lemma_parse_chars_roundtrip(id, 16, true);
                }
            }
            r
        },
        Format::Octal => {
            let r = parse_digit_format(s, 8);
            proof {
                assert forall|id: u64| s@ == format_spec(id, f) implies r == Some(id) by {
                    lemma_parse_chars_roundtrip(id, 8, false);
                }
            }
            r
        },
        Format::Binary => {
            let r = parse_digit_format(s, 2);
            proof {
                assert forall|id: u64| s@ == format_spec(id, f) implies r == Some(id) by {
                    lemma_parse_chars_roundtrip(id, 2, false);
                }
            }
            r
        },
        Format::Base64 => {
            match base64_decode(s) {
                Some(v) => {
                    if v.len() == 8 {
                        let id = u64_from_be(&v);
                        proof {
                            assert forall|i: u64| s@ == format_spec(i, f) implies Some::<u64>(id)
                                == Some(i) by {
                                assert(v@ == spec_be_bytes(i));
                                lemma_be_bytes_injective(id, i);
                            }
                        }
                        Some(id)
                    } else {
                        None
                    }
                },
                None => None,
            }
        },
        Format::Base64LE => {
            match base64_decode(s) {
                Some(v) => {
                    if v.len() == 8 {
                        let id = u64_from_le(&v);
                        proof {
                            assert forall|i: u64| s@ == format_spec(i, f) implies Some::<u64>(id)
                                == Some(i) by {
                                assert(v@ == spec_le_bytes(i));
                                lemma_le_bytes_injective(id, i);
                            }
                        }
                        Some(id)
                    } else {
                        None
                    }
                },
                None => None,
            }
        },
    }
}

} // verus!
