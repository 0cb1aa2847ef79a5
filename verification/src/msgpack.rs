//! A MessagePack value as the pkl server sends it, held as plain data, with the
//! accessors the decoders use (they behave as those of `rmpv::Value`).
use vstd::prelude::*;
use vstd::utf8::{decode_utf8, valid_utf8};

use rmpv::Value as RmpValue;

use crate::value::FloatValue;

verus! {

/// A decoded MessagePack value. Floats are held as their bit patterns,
/// strings as their raw bytes (which may not be valid UTF-8).
#[derive(Debug, PartialEq)]
pub enum MsgValue {
    Nil,
    Boolean(bool),
    /// A non-negative integer.
    PosInt(u64),
    /// A negative integer.
    NegInt(i64),
    /// A 32-bit float, by its bit pattern.
    F32(u32),
    /// A 64-bit float, by its bit pattern.
    F64(u64),
    /// A string, by its bytes.
    String(Vec<u8>),
    Binary(Vec<u8>),
    Array(Vec<MsgValue>),
    /// A map, as its key-value pairs in order.
    Pairs(Vec<(MsgValue, MsgValue)>),
    Ext(i8, Vec<u8>),
}

/// The value type of `rmpv`, carried through opaquely.
#[verifier::external_type_specification]
#[verifier::external_body]
pub struct ExRmpValue(RmpValue);

/// What `rmpv::decode::read_value` reads from the start of `bytes`, in the library's form,
/// or the text of its error.
pub uninterp spec fn spec_msgpack_value(bytes: Seq<u8>) -> Result<MsgValue, Seq<char>>;

/// Calls `rmpv::decode::read_value` on `bytes` and turns what it read into a
/// [`MsgValue`], or its error into the error's text.
/// Claimed: the result depends on the bytes alone, and is named by `spec_msgpack_value`.
#[verifier::external_body]
pub fn msgpack_value(bytes: &[u8]) -> (r: Result<MsgValue, String>)
    ensures
        match r {
            Ok(v) => spec_msgpack_value(bytes@) == Ok::<MsgValue, Seq<char>>(v),
            Err(e) => spec_msgpack_value(bytes@) == Err::<MsgValue, Seq<char>>(e@),
        },
{
    let mut slice = bytes;
    match rmpv::decode::read_value(&mut slice) {
        Ok(v) => Ok(value_from_rmpv(v)),
        Err(e) => Err(e.to_string()),
    }
}

/// Turns an `rmpv` value into a [`MsgValue`], variant for variant, recursing into arrays
/// and maps. It serves `msgpack_value` alone, whose contract covers what it gives.
#[verifier::external_body]
fn value_from_rmpv(value: RmpValue) -> MsgValue {
    match value {
        RmpValue::Nil => MsgValue::Nil,
        RmpValue::Boolean(b) => MsgValue::Boolean(b),
        RmpValue::Integer(n) => {
            n.as_u64().map_or(n.as_i64().map_or(MsgValue::Nil, MsgValue::NegInt), MsgValue::PosInt)
        },
        RmpValue::F32(f) => MsgValue::F32(f.to_bits()),
        RmpValue::F64(f) => MsgValue::F64(f.to_bits()),
        RmpValue::String(t) => MsgValue::String(t.into_bytes()),
        RmpValue::Binary(b) => MsgValue::Binary(b),
        RmpValue::Array(items) => MsgValue::Array(items.into_iter().map(value_from_rmpv).collect()),
        RmpValue::Map(p) => MsgValue::Pairs(pairs_from_rmpv(p)),
        RmpValue::Ext(tag, data) => MsgValue::Ext(tag, data),
    }
}

/// Turns the entries of an `rmpv` map into pairs of [`MsgValue`]s, in order. It serves
/// `value_from_rmpv` alone.
#[verifier::external_body]
fn pairs_from_rmpv(pairs: Vec<(RmpValue, RmpValue)>) -> Vec<(MsgValue, MsgValue)> {
    pairs.into_iter().map(|(k, v)| (value_from_rmpv(k), value_from_rmpv(v))).collect()
}

/// Calls `std::str::from_utf8` on `bytes`.
/// Claimed: it succeeds exactly on valid UTF-8, and then the string holds the
/// characters that the bytes encode.
#[verifier::external_body]
pub(crate) fn utf8_text(bytes: &[u8]) -> (r: Option<String>)
    ensures
        r is Some <==> valid_utf8(bytes@),
        r matches Some(s) ==> s@ == decode_utf8(bytes@),
{
    std::str::from_utf8(bytes).ok().map(|s| s.to_string())
}

/// The text that bytes hold, when they are valid UTF-8.
pub open spec fn spec_utf8(b: Seq<u8>) -> Option<Seq<char>> {
    if valid_utf8(b) {
        Some(decode_utf8(b))
    } else {
        None
    }
}

impl MsgValue {
    pub open spec fn spec_as_array(self) -> Option<Seq<MsgValue>> {
        match self {
            MsgValue::Array(a) => Some(a@),
            _ => None,
        }
    }

    pub open spec fn spec_is_u64(self) -> bool {
        self is PosInt
    }

    pub open spec fn spec_is_i64(self) -> bool {
        match self {
            MsgValue::PosInt(u) => u <= i64::MAX,
            MsgValue::NegInt(_) => true,
            _ => false,
        }
    }

    pub open spec fn spec_as_u64(self) -> Option<u64> {
        match self {
            MsgValue::PosInt(u) => Some(u),
            MsgValue::NegInt(n) => if n >= 0 {
                Some(n as u64)
            } else {
                None
            },
            _ => None,
        }
    }

    pub open spec fn spec_as_i64(self) -> Option<i64> {
        match self {
            MsgValue::PosInt(u) => if u <= i64::MAX {
                Some(u as i64)
            } else {
                None
            },
            MsgValue::NegInt(n) => Some(n),
            _ => None,
        }
    }

    pub open spec fn spec_as_f64(self) -> Option<FloatValue> {
        match self {
            MsgValue::PosInt(u) => Some(FloatValue::Unsigned(u)),
            MsgValue::NegInt(n) => Some(FloatValue::Signed(n)),
            MsgValue::F32(b) => Some(FloatValue::Bits32(b)),
            MsgValue::F64(b) => Some(FloatValue::Bits64(b)),
            _ => None,
        }
    }

    pub open spec fn spec_as_str(self) -> Option<Seq<char>> {
        match self {
            MsgValue::String(b) => spec_utf8(b@),
            _ => None,
        }
    }

    pub open spec fn spec_as_slice(self) -> Option<Seq<u8>> {
        match self {
            MsgValue::String(b) => Some(b@),
            MsgValue::Binary(b) => Some(b@),
            _ => None,
        }
    }

    /// The elements, if this is an array.
    pub fn as_array(&self) -> (r: Option<&Vec<MsgValue>>)
        ensures
            r is Some <==> self is Array,
            r matches Some(a) ==> *self == MsgValue::Array(*a),
    {
        match self {
            MsgValue::Array(a) => Some(a),
            _ => None,
        }
    }

    /// The key-value pairs, if this is a map.
    pub fn as_map(&self) -> (r: Option<&Vec<(MsgValue, MsgValue)>>)
        ensures
            r is Some <==> self is Pairs,
            r matches Some(m) ==> *self == MsgValue::Pairs(*m),
    {
        match self {
            MsgValue::Pairs(m) => Some(m),
            _ => None,
        }
    }

    /// Whether this is an integer that fits in a `u64`.
    pub fn is_u64(&self) -> (b: bool)
        ensures
            b == self.spec_is_u64(),
    {
        match self {
            MsgValue::PosInt(_) => true,
            _ => false,
        }
    }

    /// Whether this is an integer that fits in an `i64`.
    pub fn is_i64(&self) -> (b: bool)
        ensures
            b == self.spec_is_i64(),
    {
        match self {
            MsgValue::PosInt(u) => *u <= 9223372036854775807u64,
            MsgValue::NegInt(_) => true,
            _ => false,
        }
    }

    /// The integer as a `u64`, when it is one and fits.
    pub fn as_u64(&self) -> (r: Option<u64>)
        ensures
            r == self.spec_as_u64(),
    {
        match self {
            MsgValue::PosInt(u) => Some(*u),
            MsgValue::NegInt(n) => if *n >= 0 {
                Some(*n as u64)
            } else {
                None
            },
            _ => None,
        }
    }

    /// The integer as an `i64`, when it is one and fits.
    pub fn as_i64(&self) -> (r: Option<i64>)
        ensures
            r == self.spec_as_i64(),
    {
        match self {
            MsgValue::PosInt(u) => if *u <= 9223372036854775807u64 {
                Some(*u as i64)
            } else {
                None
            },
            MsgValue::NegInt(n) => Some(*n),
            _ => None,
        }
    }

    /// The number that stands for a float, when this is a number.
    pub fn as_f64(&self) -> (r: Option<FloatValue>)
        ensures
            r == self.spec_as_f64(),
    {
        match self {
            MsgValue::PosInt(u) => Some(FloatValue::Unsigned(*u)),
            MsgValue::NegInt(n) => Some(FloatValue::Signed(*n)),
            MsgValue::F32(b) => Some(FloatValue::Bits32(*b)),
            MsgValue::F64(b) => Some(FloatValue::Bits64(*b)),
            _ => None,
        }
    }

    /// The text, when this is a string of valid UTF-8.
    pub fn as_str(&self) -> (r: Option<String>)
        ensures
            r is Some <==> self.spec_as_str() is Some,
            r matches Some(s) ==> self.spec_as_str() == Some(s@),
    {
        match self {
            MsgValue::String(b) => utf8_text(b.as_slice()),
            _ => None,
        }
    }

    /// The bytes of a binary or of a string.
    pub fn as_slice(&self) -> (r: Option<&Vec<u8>>)
        ensures
            r is Some <==> self.spec_as_slice() is Some,
            r matches Some(b) ==> self.spec_as_slice() == Some(b@),
    {
        match self {
            MsgValue::String(b) => Some(b),
            MsgValue::Binary(b) => Some(b),
            _ => None,
        }
    }
}

} // verus!
