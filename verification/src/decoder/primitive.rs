//! Decoding primitive values.
use vstd::prelude::*;

use crate::decoder::spec::{spec_int, spec_primitive, Fault};
use crate::error::{error_kind, spec_error_message, Error, ErrorKind};
use crate::internal::types::PklPrimitive;
use crate::msgpack::MsgValue;
use crate::utils::text::owned;
use crate::value::{FloatValue, Integer, SpecValue};

verus! {

/// Decodes a primitive value: a string, boolean, nil, integer or float.
pub fn decode_primitive(value: &MsgValue) -> (r: Result<PklPrimitive, Error>)
    ensures
        r matches Ok(p) ==> spec_primitive(*value) == Ok::<SpecValue, Fault>(p.spec_value()),
        r matches Err(e) ==> spec_primitive(*value) == Err::<SpecValue, Fault>(
            Fault::Rejected(error_kind(e), spec_error_message(e)),
        ),
{
    match value {
        MsgValue::String(_) => decode_string(value),
        MsgValue::Boolean(b) => Ok(PklPrimitive::Boolean(*b)),
        MsgValue::Nil => Ok(PklPrimitive::Null),
        MsgValue::PosInt(_) => decode_int(value),
        MsgValue::NegInt(_) => decode_int(value),
        MsgValue::F32(b) => Ok(PklPrimitive::Float(FloatValue::Bits32(*b))),
        MsgValue::F64(b) => Ok(PklPrimitive::Float(FloatValue::Bits64(*b))),
        _ => Err(Error::Message(owned("unexpected primitive value"))),
    }
}

/// Decodes a string; its bytes must be valid UTF-8.
pub fn decode_string(value: &MsgValue) -> (r: Result<PklPrimitive, Error>)
    ensures
        r matches Ok(p) ==> (p matches PklPrimitive::String(s) && value.spec_as_str() == Some(s@)),
        r is Err <==> value.spec_as_str() is None,
        r matches Err(e) ==> error_kind(e) == ErrorKind::Decode && spec_error_message(e)
            == "expected valid UTF-8 string"@,
{
    match value.as_str() {
        Some(s) => Ok(PklPrimitive::String(s)),
        None => Err(Error::DecodeError(owned("expected valid UTF-8 string"))),
    }
}

/// Decodes an integer: a value that fits in a `u64` becomes [`Integer::Pos`], any other
/// that fits in an `i64` becomes [`Integer::Neg`].
pub fn decode_int(value: &MsgValue) -> (r: Result<PklPrimitive, Error>)
    ensures
        r matches Ok(p) ==> spec_int(*value) == Some(p),
        r is Err <==> spec_int(*value) is None,
        r matches Err(e) ==> error_kind(e) == ErrorKind::Decode && spec_error_message(e)
            == "expected integer"@,
{
    if value.is_u64() {
        match value.as_u64() {
            Some(u) => {
                return Ok(PklPrimitive::Int(Integer::Pos(u)));
            },
            None => {},
        }
    } else if value.is_i64() {
        match value.as_i64() {
            Some(n) => {
                return Ok(PklPrimitive::Int(Integer::Neg(n)));
            },
            None => {},
        }
    } else {
        match value.as_f64() {
            Some(f) => {
                return Ok(PklPrimitive::Float(f));
            },
            None => {},
        }
    }
    Err(Error::DecodeError(owned("expected integer")))
}

} // verus!
