//! The wire encoding, modelled, and the trusted boundary that parses it.
//!
//! Datagrams carry structured text. Parsing is done by serde_json behind a
//! small set of trusted wrappers; everything this library proves about a
//! datagram is stated over the spec-level shape [`JsonData`] that those
//! wrappers relate their results to.
use vstd::prelude::*;

use num_traits::ToPrimitive;

verus! {

use crate::numeric::{f32_bits_of_f64_bits, f64_bits_of_i64, f64_bits_of_u64};

#[verifier::external_type_specification]
#[verifier::external_body]
pub struct ExValue(serde_json::Value);

/// How the parser stores one numeric field: as an unsigned integer, as a
/// signed (strictly negative) integer, or as a finite double given by its
/// bit pattern.
pub enum NumData {
    U(u64),
    I(i64),
    F(u64),
}

/// The shape of one parsed wire value.
pub enum JsonData {
    Null,
    Boolean(bool),
    Num(NumData),
    Text(Seq<char>),
    Arr(Seq<JsonData>),
    Obj(Map<Seq<char>, JsonData>),
}

/// The double bit pattern a numeric field denotes: integers are converted,
/// a stored double is taken as it is.
pub open spec fn num_bits(n: NumData) -> u64 {
    match n {
        NumData::U(u) => f64_bits_of_u64(u),
        NumData::I(i) => f64_bits_of_i64(i),
        NumData::F(b) => b,
    }
}

/// The unsigned integer a numeric field denotes exactly, if any.
pub open spec fn num_as_u64_data(n: NumData) -> Option<u64> {
    match n {
        NumData::U(u) => Some(u),
        NumData::I(_) => None,
        NumData::F(_) => None,
    }
}

/// The signed integer a numeric field denotes exactly, if any.
pub open spec fn num_as_i64_data(n: NumData) -> Option<i64> {
    match n {
        NumData::U(u) => if u <= i64::MAX as u64 {
            Some(u as i64)
        } else {
            None
        },
        NumData::I(i) => Some(i),
        NumData::F(_) => None,
    }
}

/// Stands for what parsing a datagram yields: `None` when the bytes are not
/// a well-formed wire value, otherwise the shape of the parsed value.
pub uninterp spec fn parsed_json(b: Seq<u8>) -> Option<JsonData>;

/// Stands for the shape of a parsed value held by the outside parser.
pub uninterp spec fn value_data(v: serde_json::Value) -> JsonData;

/// Relies on serde_json::from_slice::<Value>: it returns Ok exactly when the
/// bytes are well-formed JSON, and the parsed value's shape is the parse's
/// outcome.
#[verifier::external_body]
pub(crate) fn parse_value(bytes: &[u8]) -> (r: Result<serde_json::Value, String>)
    ensures
        r matches Ok(v) ==> parsed_json(bytes@) == Some(value_data(v)),
        r is Err ==> parsed_json(bytes@) is None,
{
    match serde_json::from_slice::<serde_json::Value>(bytes) {
        Ok(v) => Ok(v),
        Err(e) => Err(e.to_string()),
    }
}

/// Relies on serde_json::Value::get with a string index: on an object it
/// looks the key up, on anything else it returns None.
#[verifier::external_body]
pub(crate) fn obj_get<'a>(v: &'a serde_json::Value, key: &str) -> (r: Option<
    &'a serde_json::Value,
>)
    ensures
        match r {
            Some(f) => value_data(*v) matches JsonData::Obj(m) && m.contains_key(key@)
                && value_data(*f) == m[key@],
            None => !(value_data(*v) matches JsonData::Obj(m) && m.contains_key(key@)),
        },
{
    v.get(key)
}

/// Relies on serde_json::Value::as_str: Some exactly on a string value.
#[verifier::external_body]
pub(crate) fn value_str<'a>(v: &'a serde_json::Value) -> (r: Option<&'a str>)
    ensures
        match r {
            Some(s) => value_data(*v) == JsonData::Text(s@),
            None => !(value_data(*v) is Text),
        },
{
    v.as_str()
}

/// Relies on serde_json::Value::as_array: Some exactly on an array value,
/// and the elements' shapes are the modelled sequence.
#[verifier::external_body]
pub(crate) fn value_array<'a>(v: &'a serde_json::Value) -> (r: Option<&'a Vec<serde_json::Value>>)
    ensures
        match r {
            Some(a) => value_data(*v) matches JsonData::Arr(s) && a@.map_values(
                |e: serde_json::Value| value_data(e),
            ) == s,
            None => !(value_data(*v) is Arr),
        },
{
    v.as_array()
}

/// Relies on serde_json::Value::as_u64: Some exactly on a number stored as
/// an unsigned integer.
#[verifier::external_body]
pub(crate) fn value_u64(v: &serde_json::Value) -> (r: Option<u64>)
    ensures
        match value_data(*v) {
            JsonData::Num(n) => r == num_as_u64_data(n),
            _ => r is None,
        },
{
    v.as_u64()
}

/// Relies on serde_json::Value::as_i64: Some exactly on a number that is
/// representable as a signed 64-bit integer.
#[verifier::external_body]
pub(crate) fn value_i64(v: &serde_json::Value) -> (r: Option<i64>)
    ensures
        match value_data(*v) {
            JsonData::Num(n) => r == num_as_i64_data(n),
            _ => r is None,
        },
{
    v.as_i64()
}

/// Relies on serde_json::Value::as_f64, f64::to_bits, and num_traits'
/// ToPrimitive::to_f32 (a plain narrowing cast, always Some on a double):
/// every number yields its double bit pattern and that pattern narrowed to
/// single width.
#[verifier::external_body]
pub(crate) fn value_num_bits(v: &serde_json::Value) -> (r: Option<(u64, u32)>)
    ensures
        match value_data(*v) {
            JsonData::Num(n) => r matches Some(p) && p.0 == num_bits(n) && p.1
                == f32_bits_of_f64_bits(p.0) && (n matches NumData::U(u) ==> p.0
                == f64_bits_of_u64(u)) && (n matches NumData::I(i) ==> p.0 == f64_bits_of_i64(i)),
            _ => r is None,
        },
{
    v.as_f64().map(|x| (x.to_bits(), x.to_f32().unwrap().to_bits()))
}

} // verus!
