//! The rules by which single JSON fields become numbers, instants and
//! decimals: numbers may come as JSON numbers or as text, and the optional
//! forms read `null` and the empty text as absent.

use vstd::prelude::*;
use crate::json::JsonValue;
use crate::text::{parse_u64, spec_parse_u64, trim, spec_trim, spec_is_white_space, lemma_blank_trims_to_empty};
use crate::values::{
    Decimal, UtcDateTime, decimal_from_str, spec_decimal_from_str, utc_from_timestamp,
    MIN_UTC_TIMESTAMP, MAX_UTC_TIMESTAMP,
};

verus! {

/// Why a field could not be read.
#[derive(Clone, Copy, Debug, PartialEq, Eq, Structural)]
pub enum ValueErrorKind {
    /// A JSON number that is not an unsigned 64-bit integer.
    FailedToDeserializeNumber,
    /// Neither a number nor a string.
    ExpectedNumberOrString,
    /// Neither a number, a string nor `null`.
    ExpectedNumberStringOrNull,
    /// Text that the number or decimal parser refused; its message is the detail.
    ParseFailed,
    /// A number of seconds outside the representable instants.
    InvalidTimestamp,
    /// A decimal was given as something other than a string, a number or `null`.
    UnexpectedDecimalJson,
    /// A decimal was required but `null` or empty text was given.
    MissingDecimal,
    /// A decimal was given as something other than a string or a number.
    ExpectedStringOrNumberForDecimal,
}

/// A field that could not be read: why, and the parser's message where a
/// parser refused the text.
#[derive(Debug)]
pub struct ValueError {
    pub kind: ValueErrorKind,
    pub detail: String,
}

fn value_error(kind: ValueErrorKind) -> (r: ValueError)
    ensures
        r.kind == kind,
{
    ValueError { kind, detail: String::new() }
}

/// The instant for a number of seconds, where `chrono` can represent it.
pub open spec fn spec_utc(secs: i64) -> Option<UtcDateTime> {
    if MIN_UTC_TIMESTAMP <= secs <= MAX_UTC_TIMESTAMP {
        Some(UtcDateTime { timestamp: secs })
    } else {
        None
    }
}

/// Reading an unsigned integer from a JSON number or from its text.
pub open spec fn spec_number_from_string(v: JsonValue) -> Result<u64, ValueErrorKind> {
    match v {
        JsonValue::Number(n) => match n.as_u64 {
            Some(x) => Ok(x),
            None => Err(ValueErrorKind::FailedToDeserializeNumber),
        },
        JsonValue::String(s) => match spec_parse_u64(s@) {
            Some(x) => Ok(x),
            None => Err(ValueErrorKind::ParseFailed),
        },
        _ => Err(ValueErrorKind::ExpectedNumberOrString),
    }
}

/// As `spec_number_from_string`, where `null` and the empty text mean "absent".
pub open spec fn spec_optional_number_from_string(v: JsonValue) -> Result<Option<u64>, ValueErrorKind> {
    match v {
        JsonValue::Null => Ok(None),
        JsonValue::Number(n) => match n.as_u64 {
            Some(x) => Ok(Some(x)),
            None => Err(ValueErrorKind::FailedToDeserializeNumber),
        },
        JsonValue::String(s) => if s@.len() == 0 {
            Ok(None)
        } else {
            match spec_parse_u64(s@) {
                Some(x) => Ok(Some(x)),
                None => Err(ValueErrorKind::ParseFailed),
            }
        },
        _ => Err(ValueErrorKind::ExpectedNumberStringOrNull),
    }
}

/// An instant from a number of seconds read as `spec_number_from_string` reads it;
/// the seconds are taken as a signed 64-bit number.
pub open spec fn spec_datetime_from_timestamp(v: JsonValue) -> Result<UtcDateTime, ValueErrorKind> {
    match spec_number_from_string(v) {
        Ok(t) => match spec_utc(t as i64) {
            Some(d) => Ok(d),
            None => Err(ValueErrorKind::InvalidTimestamp),
        },
        Err(k) => Err(k),
    }
}

/// As `spec_datetime_from_timestamp`, where absence is read as `spec_optional_number_from_string` reads it.
pub open spec fn spec_optional_datetime_from_timestamp(v: JsonValue) -> Result<Option<UtcDateTime>, ValueErrorKind> {
    match spec_optional_number_from_string(v) {
        Ok(Some(t)) => match spec_utc(t as i64) {
            Some(d) => Ok(Some(d)),
            None => Err(ValueErrorKind::InvalidTimestamp),
        },
        Ok(None) => Ok(None),
        Err(k) => Err(k),
    }
}

/// A decimal from text, where the parser decides.
pub open spec fn spec_decimal_text(s: Seq<char>) -> Result<Decimal, ValueErrorKind> {
    match spec_decimal_from_str(s) {
        Some(d) => Ok(d),
        None => Err(ValueErrorKind::ParseFailed),
    }
}

/// An optional decimal: `null` and text that is empty once trimmed are absent,
/// other text is parsed once trimmed, and a JSON number is parsed from its printed text.
pub open spec fn spec_optional_decimal_from_string(v: JsonValue) -> Result<Option<Decimal>, ValueErrorKind> {
    match v {
        JsonValue::Null => Ok(None),
        JsonValue::String(s) => if spec_trim(s@).len() == 0 {
            Ok(None)
        } else {
            match spec_decimal_text(spec_trim(s@)) {
                Ok(d) => Ok(Some(d)),
                Err(k) => Err(k),
            }
        },
        JsonValue::Number(n) => match spec_decimal_text(n.text@) {
            Ok(d) => Ok(Some(d)),
            Err(k) => Err(k),
        },
        _ => Err(ValueErrorKind::UnexpectedDecimalJson),
    }
}

/// As `spec_optional_decimal_from_string`, with every failure read as absent.
pub open spec fn spec_optional_decimal_from_string_default_on_error(v: JsonValue) -> Option<Decimal> {
    match v {
        JsonValue::String(s) => if spec_trim(s@).len() == 0 {
            None
        } else {
            spec_decimal_from_str(spec_trim(s@))
        },
        JsonValue::Number(n) => spec_decimal_from_str(n.text@),
        _ => None,
    }
}

/// A required decimal: as `spec_optional_decimal_from_string`, where absence is an error.
pub open spec fn spec_decimal_from_string(v: JsonValue) -> Result<Decimal, ValueErrorKind> {
    match spec_optional_decimal_from_string(v) {
        Ok(Some(d)) => Ok(d),
        Ok(None) => Err(ValueErrorKind::MissingDecimal),
        Err(k) => Err(k),
    }
}

/// A decimal from trimmed text or from a JSON number's printed text; nothing is absent.
pub open spec fn spec_decimal_from_any(v: JsonValue) -> Result<Decimal, ValueErrorKind> {
    match v {
        JsonValue::String(s) => spec_decimal_text(spec_trim(s@)),
        JsonValue::Number(n) => spec_decimal_text(n.text@),
        _ => Err(ValueErrorKind::ExpectedStringOrNumberForDecimal),
    }
}

/// Reads an unsigned integer from a JSON number, or from text by `u64`'s
/// parser; any other JSON value is refused.
pub fn number_from_string(v: &JsonValue) -> (r: Result<u64, ValueError>)
    ensures
        match spec_number_from_string(*v) {
            Ok(x) => r matches Ok(y) && y == x,
            Err(k) => r matches Err(e) && e.kind == k,
        },
{
    match v {
        JsonValue::Number(n) => match n.as_u64 {
            Some(x) => Ok(x),
            None => Err(value_error(ValueErrorKind::FailedToDeserializeNumber)),
        },
        JsonValue::String(s) => match parse_u64(s.as_str()) {
            Ok(x) => Ok(x),
            Err(m) => Err(ValueError { kind: ValueErrorKind::ParseFailed, detail: m }),
        },
        _ => Err(value_error(ValueErrorKind::ExpectedNumberOrString)),
    }
}

/// As `number_from_string`, where `null` and the empty text are absent.
pub fn optional_number_from_string(v: &JsonValue) -> (r: Result<Option<u64>, ValueError>)
    ensures
        match spec_optional_number_from_string(*v) {
            Ok(x) => r matches Ok(y) && y == x,
            Err(k) => r matches Err(e) && e.kind == k,
        },
{
    match v {
        JsonValue::Null => Ok(None),
        JsonValue::Number(n) => match n.as_u64 {
            Some(x) => Ok(Some(x)),
            None => Err(value_error(ValueErrorKind::FailedToDeserializeNumber)),
        },
        JsonValue::String(s) => {
            if s.as_str().is_empty() {
                Ok(None)
            } else {
                match parse_u64(s.as_str()) {
                    Ok(x) => Ok(Some(x)),
                    Err(m) => Err(ValueError { kind: ValueErrorKind::ParseFailed, detail: m }),
                }
            }
        },
        _ => Err(value_error(ValueErrorKind::ExpectedNumberStringOrNull)),
    }
}

/// Reads a Unix timestamp in seconds, as `number_from_string` reads a number,
/// and makes it an instant.
pub fn datetime_from_timestamp(v: &JsonValue) -> (r: Result<UtcDateTime, ValueError>)
    ensures
        match spec_datetime_from_timestamp(*v) {
            Ok(x) => r matches Ok(y) && y == x,
            Err(k) => r matches Err(e) && e.kind == k,
        },
{
    let t = number_from_string(v)?;
    match utc_from_timestamp(t as i64) {
        Some(d) => Ok(d),
        None => Err(value_error(ValueErrorKind::InvalidTimestamp)),
    }
}

/// As `datetime_from_timestamp`, where `null` and the empty text are absent.
pub fn optional_datetime_from_timestamp(v: &JsonValue) -> (r: Result<Option<UtcDateTime>, ValueError>)
    ensures
        match spec_optional_datetime_from_timestamp(*v) {
            Ok(x) => r matches Ok(y) && y == x,
            Err(k) => r matches Err(e) && e.kind == k,
        },
{
    match optional_number_from_string(v)? {
        Some(t) => match utc_from_timestamp(t as i64) {
            Some(d) => Ok(Some(d)),
            None => Err(value_error(ValueErrorKind::InvalidTimestamp)),
        },
        None => Ok(None),
    }
}

/// A list that may be missing reads as the empty list.
pub fn vec_from_null<T>(v: Option<Vec<T>>) -> (r: Vec<T>)
    ensures
        match v {
            Some(x) => r@ == x@,
            None => r@ == Seq::<T>::empty(),
        },
{
    match v {
        Some(x) => x,
        None => Vec::new(),
    }
}

fn decimal_text(s: &str) -> (r: Result<Decimal, ValueError>)
    ensures
        match spec_decimal_text(s@) {
            Ok(x) => r matches Ok(y) && y == x,
            Err(k) => r matches Err(e) && e.kind == k,
        },
{
    match decimal_from_str(s) {
        Ok(d) => Ok(d),
        Err(e) => Err(ValueError { kind: ValueErrorKind::ParseFailed, detail: e.to_string() }),
    }
}

/// Reads an optional decimal from `null`, from text (trimmed; empty means
/// absent) or from a JSON number; any other JSON value is an error.
pub fn optional_decimal_from_string(v: &JsonValue) -> (r: Result<Option<Decimal>, ValueError>)
    ensures
        match spec_optional_decimal_from_string(*v) {
            Ok(x) => r matches Ok(y) && y == x,
            Err(k) => r matches Err(e) && e.kind == k,
        },
{
    match v {
        JsonValue::Null => Ok(None),
        JsonValue::String(s) => {
            let t = trim(s.as_str());
            if t.is_empty() {
                Ok(None)
            } else {
                Ok(Some(decimal_text(t)?))
            }
        },
        JsonValue::Number(n) => Ok(Some(decimal_text(n.text.as_str())?)),
        _ => Err(value_error(ValueErrorKind::UnexpectedDecimalJson)),
    }
}

/// As `optional_decimal_from_string`, but every failure reads as absent.
pub fn optional_decimal_from_string_default_on_error(v: &JsonValue) -> (r: Result<Option<Decimal>, ValueError>)
    ensures
        r matches Ok(x) && x == spec_optional_decimal_from_string_default_on_error(*v),
{
    match v {
        JsonValue::String(s) => {
            let t = trim(s.as_str());
            if t.is_empty() {
                Ok(None)
            } else {
                match decimal_from_str(t) {
                    Ok(d) => Ok(Some(d)),
                    Err(_) => Ok(None),
                }
            }
        },
        JsonValue::Number(n) => match decimal_from_str(n.text.as_str()) {
            Ok(d) => Ok(Some(d)),
            Err(_) => Ok(None),
        },
        _ => Ok(None),
    }
}

/// Reads a required decimal: as `optional_decimal_from_string`, where `null` and
/// empty text are an error.
pub fn decimal_from_string(v: &JsonValue) -> (r: Result<Decimal, ValueError>)
    ensures
        match spec_decimal_from_string(*v) {
            Ok(x) => r matches Ok(y) && y == x,
            Err(k) => r matches Err(e) && e.kind == k,
        },
{
    match optional_decimal_from_string(v)? {
        Some(d) => Ok(d),
        None => Err(value_error(ValueErrorKind::MissingDecimal)),
    }
}

/// Reads a decimal from any text (trimmed) or JSON number.
pub fn decimal_from_any(v: &JsonValue) -> (r: Result<Decimal, ValueError>)
    ensures
        match spec_decimal_from_any(*v) {
            Ok(x) => r matches Ok(y) && y == x,
            Err(k) => r matches Err(e) && e.kind == k,
        },
{
    match v {
        JsonValue::String(s) => decimal_text(trim(s.as_str())),
        JsonValue::Number(n) => decimal_text(n.text.as_str()),
        _ => Err(value_error(ValueErrorKind::ExpectedStringOrNumberForDecimal)),
    }
}

/// Law: the lenient reading of an optional decimal agrees with the strict one
/// wherever the strict one succeeds, and reads every failure as absent.
pub proof fn law_default_on_error_agrees(v: JsonValue)
    ensures
        spec_optional_decimal_from_string_default_on_error(v) == match spec_optional_decimal_from_string(v) {
            Ok(x) => x,
            Err(_) => None,
        },
{
}

/// Law: a decimal that the strict reading accepts is read the same by the
/// reading that accepts any text or number.
pub proof fn law_decimal_readings_agree(v: JsonValue)
    ensures
        spec_decimal_from_string(v) matches Ok(d) ==> spec_decimal_from_any(v) == Ok::<Decimal, ValueErrorKind>(d),
{
}

/// Law: an optional number is absent exactly for `null` and the empty text,
/// and present ones are read as the required reading reads them.
pub proof fn law_optional_number_absent_exactly_for_null_or_empty(v: JsonValue)
    ensures
        (spec_optional_number_from_string(v) == Ok::<Option<u64>, ValueErrorKind>(None)) <==> (v is Null || (v matches JsonValue::String(s) && s@.len() == 0)),
        spec_optional_number_from_string(v) matches Ok(Some(x)) ==> spec_number_from_string(v) == Ok::<u64, ValueErrorKind>(x),
{
}

/// Law: text made only of white space, the empty text included, reads as an
/// absent decimal, and as a missing one where a decimal is required.
pub proof fn law_blank_text_is_absent_decimal(v: JsonValue)
    requires
        v matches JsonValue::String(s) && forall|i: int| 0 <= i < s@.len() ==> spec_is_white_space(#[trigger] s@[i]),
    ensures
        spec_optional_decimal_from_string(v) == Ok::<Option<Decimal>, ValueErrorKind>(None),
        spec_optional_decimal_from_string_default_on_error(v) is None,
        spec_decimal_from_string(v) == Err::<Decimal, ValueErrorKind>(ValueErrorKind::MissingDecimal),
{
    lemma_blank_trims_to_empty(v->String_0@);
}

/// Law: the required decimal reading is the optional one where a value is
/// present: it gives the decimal exactly where the optional reading gives
/// `Some` of it, `MissingDecimal` where that gives `None`, and its error
/// otherwise. In particular a JSON number reads as the decimal of its text.
pub proof fn law_required_decimal_is_the_present_optional(v: JsonValue)
    ensures
        spec_optional_decimal_from_string(v) matches Ok(Some(d)) ==> spec_decimal_from_string(v) == Ok::<Decimal, ValueErrorKind>(d),
        spec_optional_decimal_from_string(v) == Ok::<Option<Decimal>, ValueErrorKind>(None)
            ==> spec_decimal_from_string(v) == Err::<Decimal, ValueErrorKind>(ValueErrorKind::MissingDecimal),
        spec_optional_decimal_from_string(v) matches Err(k) ==> spec_decimal_from_string(v) == Err::<Decimal, ValueErrorKind>(k),
        spec_decimal_from_string(v) matches Ok(d) ==> spec_optional_decimal_from_string(v) == Ok::<Option<Decimal>, ValueErrorKind>(Some(d)),
        (v matches JsonValue::Number(n) && spec_decimal_from_str(n.text@) matches Some(d))
            ==> spec_decimal_from_string(v) == Ok::<Decimal, ValueErrorKind>(spec_decimal_from_str(v->Number_0.text@)->0),
{
}

/// Law: a timestamp is read exactly as `number_from_string` reads the number,
/// text and JSON numbers alike: where that gives seconds within `chrono`'s
/// range, the instant is those seconds; the optional reading agrees with the
/// optional number reading in the same way.
pub proof fn law_timestamp_reads_as_the_number(v: JsonValue)
    ensures
        (spec_number_from_string(v) matches Ok(t) && MIN_UTC_TIMESTAMP <= (t as i64) <= MAX_UTC_TIMESTAMP)
            ==> spec_datetime_from_timestamp(v) == Ok::<UtcDateTime, ValueErrorKind>(UtcDateTime { timestamp: spec_number_from_string(v)->Ok_0 as i64 }),
        (v matches JsonValue::String(s) && spec_parse_u64(s@) matches Some(t) && MIN_UTC_TIMESTAMP <= (t as i64) <= MAX_UTC_TIMESTAMP)
            ==> spec_datetime_from_timestamp(v) == Ok::<UtcDateTime, ValueErrorKind>(UtcDateTime { timestamp: spec_parse_u64(v->String_0@)->0 as i64 }),
        (v matches JsonValue::Number(n) && n.as_u64 matches Some(t) && MIN_UTC_TIMESTAMP <= (t as i64) <= MAX_UTC_TIMESTAMP)
            ==> spec_datetime_from_timestamp(v) == Ok::<UtcDateTime, ValueErrorKind>(UtcDateTime { timestamp: v->Number_0.as_u64->0 as i64 }),
        spec_number_from_string(v) matches Err(k) ==> spec_datetime_from_timestamp(v) == Err::<UtcDateTime, ValueErrorKind>(k),
        (spec_optional_number_from_string(v) matches Ok(Some(t)) && MIN_UTC_TIMESTAMP <= (t as i64) <= MAX_UTC_TIMESTAMP)
            ==> spec_optional_datetime_from_timestamp(v) == Ok::<Option<UtcDateTime>, ValueErrorKind>(Some(UtcDateTime { timestamp: spec_optional_number_from_string(v)->Ok_0->0 as i64 })),
{
}

/// Law: an optional instant is absent exactly where the optional number is.
pub proof fn law_optional_datetime_absent_with_number(v: JsonValue)
    ensures
        (spec_optional_datetime_from_timestamp(v) == Ok::<Option<UtcDateTime>, ValueErrorKind>(None))
            <==> (spec_optional_number_from_string(v) == Ok::<Option<u64>, ValueErrorKind>(None)),
{
}

} // verus!
