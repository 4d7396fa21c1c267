//! Decoding of Polymarket client data: JSON framing of byte streams,
//! stream message dispatch, field deserialization rules, and conversion
//! of raw API responses into client types.

pub mod text;
pub mod json;
pub mod batch;
pub mod types;
pub mod values;
pub mod deserializers;
pub mod raw;
pub mod stream;
pub mod fast_parse;
