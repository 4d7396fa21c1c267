//! Parsers for single values that arrive as text.

use vstd::prelude::*;
use vstd::string::StringExecFns;
use crate::text::{str_equals, to_uppercase, spec_to_uppercase};
use crate::batch::copy_range;
use crate::json::{JsonValue, parse_json, simd_parse_json, spec_json_from_slice};
use crate::types::{PolyfillError, Side, is_parse_error_starting, is_parse_error_with, parse_error_with_detail};
use crate::values::{
    Address, Decimal, U256, address_from_str, decimal_from_str, spec_address_from_hex, spec_decimal_digits,
    spec_decimal_from_str, spec_u256_bound, spec_u256_value, u256_from_decimal_str,
};
use vstd::string::StringSliceAdditionalSpecFns;

verus! {

/// The side that an already uppercased word names, if any.
pub open spec fn spec_side_from_upper(u: Seq<char>) -> Option<Side> {
    if u == "BUY"@ {
        Some(Side::BUY)
    } else if u == "SELL"@ {
        Some(Side::SELL)
    } else {
        None
    }
}

/// Maps an uppercased word to a side: `BUY` and `SELL` only; `original` is the
/// text as the caller gave it, quoted in the error.
pub fn side_from_uppercase(upper: &str, original: &str) -> (r: Result<Side, PolyfillError>)
    ensures
        match spec_side_from_upper(upper@) {
            Some(side) => r == Ok::<Side, PolyfillError>(side),
            None => r matches Err(e) && crate::types::is_parse_error_with(e, "Invalid side: "@ + original@),
        },
{
    if str_equals(upper, "BUY") {
        Ok(Side::BUY)
    } else if str_equals(upper, "SELL") {
        Ok(Side::SELL)
    } else {
        let mut message = String::from_str("Invalid side: ");
        message.append(original);
        Err(PolyfillError::Parse { message })
    }
}

/// Parses a side case-insensitively: the text is uppercased by std's
/// `to_uppercase` and must then read `BUY` or `SELL`.
pub fn parse_side(s: &str) -> (r: Result<Side, PolyfillError>)
    ensures
        match spec_side_from_upper(spec_to_uppercase(s@)) {
            Some(side) => r == Ok::<Side, PolyfillError>(side),
            None => r matches Err(e) && crate::types::is_parse_error_with(e, "Invalid side: "@ + s@),
        },
{
    let upper = to_uppercase(s);
    side_from_uppercase(upper.as_str(), s)
}

/// Parses a decimal number with `rust_decimal`.
pub fn parse_decimal(s: &str) -> (r: Result<Decimal, PolyfillError>)
    ensures
        match spec_decimal_from_str(s@) {
            Some(d) => r == Ok::<Decimal, PolyfillError>(d),
            None => r matches Err(e) && is_parse_error_starting(e, "Invalid decimal: "@),
        },
{
    match decimal_from_str(s) {
        Ok(d) => Ok(d),
        Err(e) => Err(parse_error_with_detail("Invalid decimal: ", e.to_string().as_str())),
    }
}

/// Parses a 20-byte address written as 40 hex digits, optionally after `0x`.
pub fn parse_address(s: &str) -> (r: Result<Address, PolyfillError>)
    ensures
        match spec_address_from_hex(s.spec_bytes()) {
            Some(bytes) => r matches Ok(a) && a.bytes@ == bytes,
            None => r matches Err(e) && is_parse_error_starting(e, "Invalid address: "@),
        },
{
    match address_from_str(s) {
        Ok(a) => Ok(a),
        Err(e) => Err(parse_error_with_detail("Invalid address: ", e.to_string().as_str())),
    }
}

/// Parses an unsigned 256-bit integer written in decimal; `_` between digits
/// is skipped.
pub fn parse_u256(s: &str) -> (r: Result<U256, PolyfillError>)
    ensures
        match spec_decimal_digits(s.spec_bytes()) {
            Some(v) => if v < spec_u256_bound() {
                r matches Ok(x) && spec_u256_value(x.limbs@) == v
            } else {
                r matches Err(e) && is_parse_error_starting(e, "Invalid U256: "@)
            },
            None => r matches Err(e) && is_parse_error_starting(e, "Invalid U256: "@),
        },
{
    match u256_from_decimal_str(s) {
        Ok(v) => Ok(v),
        Err(e) => Err(parse_error_with_detail("Invalid U256: ", e.to_string().as_str())),
    }
}

/// Finishes a fast JSON parse: the SIMD parser's document where it gave one,
/// else what `serde_json` makes of `input`, the bytes as they were given.
pub fn json_fast_from_parts(simd: Option<JsonValue>, input: &[u8]) -> (r: Result<JsonValue, PolyfillError>)
    ensures
        match simd {
            Some(v) => r == Ok::<JsonValue, PolyfillError>(v),
            None => match spec_json_from_slice(input@) {
                Some(v) => r == Ok::<JsonValue, PolyfillError>(v),
                None => r matches Err(e) && is_parse_error_starting(e, "JSON parse error: "@),
            },
        },
{
    match simd {
        Some(v) => Ok(v),
        None => match parse_json(input) {
            Ok(v) => Ok(v),
            Err(e) => Err(parse_error_with_detail("JSON parse error: ", e.to_string().as_str())),
        },
    }
}

/// Parses JSON with the SIMD parser, which rewrites the buffer; where it
/// fails, parses the bytes as they were given with `serde_json`. So text that
/// `serde_json` accepts always parses, and an error means that `serde_json`
/// refused the text too. Which parser's document comes back, where both accept
/// the text, depends on the SIMD parser and is left unsaid.
pub fn parse_json_fast(bytes: &mut [u8]) -> (r: Result<JsonValue, PolyfillError>)
    ensures
        final(bytes)@.len() == old(bytes)@.len(),
        spec_json_from_slice(old(bytes)@) is Some ==> r is Ok,
        r matches Err(e) ==> spec_json_from_slice(old(bytes)@) is None && is_parse_error_starting(e, "JSON parse error: "@),
{
    let input = copy_range(bytes, 0, bytes.len());
    assert(old(bytes)@.subrange(0, old(bytes)@.len() as int) =~= old(bytes)@);
    let simd = simd_parse_json(bytes);
    json_fast_from_parts(simd, input.as_slice())
}

/// As `parse_json_fast`, on a copy of the bytes, which are left as they are.
pub fn parse_json_fast_owned(bytes: &[u8]) -> (r: Result<JsonValue, PolyfillError>)
    ensures
        spec_json_from_slice(bytes@) is Some ==> r is Ok,
        r matches Err(e) ==> spec_json_from_slice(bytes@) is None && is_parse_error_starting(e, "JSON parse error: "@),
{
    let mut data = copy_range(bytes, 0, bytes.len());
    assert(bytes@.subrange(0, bytes@.len() as int) =~= bytes@);
    parse_json_fast(data.as_mut_slice())
}

} // verus!
