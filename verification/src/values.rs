//! Plain-value models of the numeric and identifier types that the decoders
//! produce (decimal numbers, UTC instants, addresses, 256-bit integers), and
//! the calls into the crates that parse and compute them.

use vstd::prelude::*;
use vstd::string::StringSliceAdditionalSpecFns;

verus! {

/// The largest magnitude of a decimal's mantissa: 2^96 - 1.
pub const DECIMAL_MAX_MANTISSA: i128 = 0xFFFF_FFFF_FFFF_FFFF_FFFF_FFFF;

/// The largest number of digits after the point.
pub const DECIMAL_MAX_SCALE: u32 = 28;

/// A decimal number `mantissa / 10^scale`, as `rust_decimal` stores it.
#[derive(Clone, Copy, Debug, PartialEq, Eq, Structural)]
pub struct Decimal {
    pub mantissa: i128,
    pub scale: u32,
}

impl Decimal {
    /// The representable values: at most 28 digits after the point and a
    /// mantissa of at most 96 bits.
    pub open spec fn wf(self) -> bool {
        &&& self.scale <= DECIMAL_MAX_SCALE
        &&& -DECIMAL_MAX_MANTISSA <= self.mantissa <= DECIMAL_MAX_MANTISSA
    }

    pub fn zero() -> (r: Decimal)
        ensures
            r == (Decimal { mantissa: 0, scale: 0 }),
    {
        Decimal { mantissa: 0, scale: 0 }
    }

    pub fn one() -> (r: Decimal)
        ensures
            r == (Decimal { mantissa: 1, scale: 0 }),
    {
        Decimal { mantissa: 1, scale: 0 }
    }
}

#[verifier::external_type_specification]
#[verifier::external_body]
pub struct ExDecimalError(rust_decimal::Error);

#[verifier::external_type_specification]
#[verifier::external_body]
pub struct ExFromHexError(alloy_primitives::hex::FromHexError);

#[verifier::external_type_specification]
#[verifier::external_body]
pub struct ExUintParseError(alloy_primitives::ruint::ParseError);

/// What `rust_decimal`'s `Decimal::from_str` makes of the text, in this model;
/// `None` where it reports an error.
pub uninterp spec fn spec_decimal_from_str(s: Seq<char>) -> Option<Decimal>;

/// Calls `<rust_decimal::Decimal as FromStr>::from_str`. The contract claims
/// that the outcome depends on the text alone and that a parsed value lies in
/// the representable range (the crate stores 96 mantissa bits and a scale of
/// at most 28).
#[verifier::external_body]
pub(crate) fn decimal_from_str(s: &str) -> (r: Result<Decimal, rust_decimal::Error>)
    ensures
        match spec_decimal_from_str(s@) {
            Some(d) => r matches Ok(x) && x == d && d.wf(),
            None => r is Err,
        },
{
    match <rust_decimal::Decimal as std::str::FromStr>::from_str(s) {
        Ok(d) => Ok(Decimal { mantissa: d.mantissa(), scale: d.scale() }),
        Err(e) => Err(e),
    }
}

/// What `rust_decimal`'s `Decimal::checked_sub` gives for two representable
/// values, in this model; `None` on overflow.
pub uninterp spec fn spec_decimal_checked_sub(a: Decimal, b: Decimal) -> Option<Decimal>;

/// Calls `rust_decimal::Decimal::checked_sub` on the two values rebuilt with
/// `Decimal::from_i128_with_scale`. The contract claims that the outcome depends
/// on the operands alone and that a difference is representable; and, as the
/// crate's `add_sub_internal` shows, that two values of the same scale whose
/// difference fits in 96 bits give that exact difference at that scale. What
/// it gives when the scales differ or the difference does not fit is left
/// unsaid.
#[verifier::external_body]
pub(crate) fn decimal_checked_sub(a: Decimal, b: Decimal) -> (r: Option<Decimal>)
    requires
        a.wf(),
        b.wf(),
    ensures
        r == spec_decimal_checked_sub(a, b),
        r matches Some(d) ==> d.wf(),
        a.scale == b.scale && -DECIMAL_MAX_MANTISSA <= a.mantissa - b.mantissa <= DECIMAL_MAX_MANTISSA
            ==> r == Some(Decimal { mantissa: (a.mantissa - b.mantissa) as i128, scale: a.scale }),
{
    let x = rust_decimal::Decimal::from_i128_with_scale(a.mantissa, a.scale);
    let y = rust_decimal::Decimal::from_i128_with_scale(b.mantissa, b.scale);
    match x.checked_sub(y) {
        Some(d) => Some(Decimal { mantissa: d.mantissa(), scale: d.scale() }),
        None => None,
    }
}

/// The first second that `chrono` can represent: -262143-01-01T00:00:00Z.
pub const MIN_UTC_TIMESTAMP: i64 = -8334601228800;

/// The last second that `chrono` can represent: +262142-12-31T23:59:59Z.
pub const MAX_UTC_TIMESTAMP: i64 = 8210266876799;

/// An instant in UTC, as whole seconds since 1970-01-01T00:00:00Z.
#[derive(Clone, Copy, Debug, PartialEq, Eq, Structural)]
pub struct UtcDateTime {
    pub timestamp: i64,
}

/// Calls `chrono::DateTime::<Utc>::from_timestamp(secs, 0)` and reads the
/// instant back with `timestamp()`. In the crate's source a date exists
/// exactly for the days from -262143-01-01 to +262142-12-31, and the two
/// functions round-trip, as the documentation promises.
#[verifier::external_body]
pub(crate) fn utc_from_timestamp(secs: i64) -> (r: Option<UtcDateTime>)
    ensures
        (MIN_UTC_TIMESTAMP <= secs <= MAX_UTC_TIMESTAMP) ==> r == Some(UtcDateTime { timestamp: secs }),
        !(MIN_UTC_TIMESTAMP <= secs <= MAX_UTC_TIMESTAMP) ==> r is None,
{
    match chrono::DateTime::<chrono::Utc>::from_timestamp(secs, 0) {
        Some(t) => Some(UtcDateTime { timestamp: t.timestamp() }),
        None => None,
    }
}

/// A 20-byte account address.
#[derive(Clone, Copy, Debug, PartialEq, Eq)]
pub struct Address {
    pub bytes: [u8; 20],
}

/// The value of an ASCII hexadecimal digit, either case.
pub open spec fn spec_hex_digit(c: u8) -> Option<int> {
    if 0x30 <= c <= 0x39 {
        Some(c - 0x30)
    } else if 0x61 <= c <= 0x66 {
        Some(c - 0x61 + 10)
    } else if 0x41 <= c <= 0x46 {
        Some(c - 0x41 + 10)
    } else {
        None
    }
}

/// The hex digits of an address: a leading `0x` or `0X` is dropped.
pub open spec fn spec_strip_hex_prefix(b: Seq<u8>) -> Seq<u8> {
    if b.len() >= 2 && b[0] == 0x30u8 && (b[1] == 0x78u8 || b[1] == 0x58u8) {
        b.subrange(2, b.len() as int)
    } else {
        b
    }
}

/// The 20 bytes that the text of an address encodes: an even number of bytes,
/// after the optional prefix exactly 40 hex digits, two per byte, high first.
pub open spec fn spec_address_from_hex(b: Seq<u8>) -> Option<Seq<u8>> {
    let h = spec_strip_hex_prefix(b);
    if b.len() % 2 == 0 && h.len() == 40 && (forall|i: int| 0 <= i < 40 ==> #[trigger] spec_hex_digit(h[i]) is Some) {
        Some(Seq::new(20, |i: int| (spec_hex_digit(h[2 * i])->0 * 16 + spec_hex_digit(h[2 * i + 1])->0) as u8))
    } else {
        None
    }
}

/// Calls `<alloy_primitives::Address as FromStr>::from_str`, which hands the
/// bytes of the text to `const_hex::decode_to_array`: in that source an odd
/// length is refused, a `0x`/`0X` prefix is dropped, exactly 40 hex digits of
/// either case must remain, and each pair makes one byte.
#[verifier::external_body]
pub(crate) fn address_from_str(s: &str) -> (r: Result<Address, alloy_primitives::hex::FromHexError>)
    ensures
        match spec_address_from_hex(s.spec_bytes()) {
            Some(bytes) => r matches Ok(a) && a.bytes@ == bytes,
            None => r is Err,
        },
{
    match <alloy_primitives::Address as std::str::FromStr>::from_str(s) {
        Ok(a) => Ok(Address { bytes: a.0.0 }),
        Err(e) => Err(e),
    }
}

/// An unsigned 256-bit integer, as four 64-bit limbs, least significant first.
#[derive(Clone, Copy, Debug, PartialEq, Eq)]
pub struct U256 {
    pub limbs: [u64; 4],
}

pub open spec fn spec_u256_value(limbs: Seq<u64>) -> int {
    limbs[0] + limbs[1] * 0x1_0000_0000_0000_0000int + limbs[2] * 0x1_0000_0000_0000_0000_0000_0000_0000_0000int
        + limbs[3] * 0x1_0000_0000_0000_0000_0000_0000_0000_0000_0000_0000_0000_0000int
}

/// 2^256.
pub open spec fn spec_u256_bound() -> int {
    0x1_0000_0000_0000_0000_0000_0000_0000_0000_0000_0000_0000_0000_0000_0000_0000_0000int
}

/// The number that decimal digits spell, where `_` may stand between or
/// around them and is skipped; `None` on any other byte.
pub open spec fn spec_decimal_digits(b: Seq<u8>) -> Option<int>
    decreases b.len(),
{
    if b.len() == 0 {
        Some(0)
    } else {
        let c = b.last();
        match spec_decimal_digits(b.drop_last()) {
            Some(v) => if c == 0x5fu8 {
                Some(v)
            } else if 0x30 <= c <= 0x39 {
                Some(v * 10 + (c - 0x30))
            } else {
                None
            },
            None => None,
        }
    }
}

/// Calls `alloy_primitives::U256::from_str_radix(s, 10)`. In `ruint`'s source
/// the bytes are read as decimal digits, `_` is skipped, any other byte is an
/// error, and a value of 2^256 or more is an overflow error; the empty text is
/// zero.
#[verifier::external_body]
pub(crate) fn u256_from_decimal_str(s: &str) -> (r: Result<U256, alloy_primitives::ruint::ParseError>)
    ensures
        match spec_decimal_digits(s.spec_bytes()) {
            Some(v) => if v < spec_u256_bound() {
                r matches Ok(x) && spec_u256_value(x.limbs@) == v
            } else {
                r is Err
            },
            None => r is Err,
        },
{
    match alloy_primitives::U256::from_str_radix(s, 10) {
        Ok(v) => Ok(U256 { limbs: v.into_limbs() }),
        Err(e) => Err(e),
    }
}

} // verus!
