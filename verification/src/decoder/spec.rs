//! What decoding a pkl module from its binary encoding gives, stated on the
//! MessagePack value, member by member and slot by slot.
use vstd::prelude::*;

use crate::internal::type_constants::{
    BYTES, DATA_SIZE, DURATION, DYNAMIC_LISTING, DYNAMIC_MAPPING, INT_SEQ, LIST, LISTING, MAP,
    MAPPING, OBJECT_MEMBER, PAIR, REGEX, SET, TYPED_DYNAMIC, TYPE_ALIAS,
};
use crate::error::ErrorKind;
use crate::internal::types::{members_map, PklPrimitive};
use crate::msgpack::MsgValue;
use vstd::utf8::{decode_utf8, valid_utf8};
use crate::pkl::pkl_mod::SpecModule;
use crate::types::integer::decimal_text;
use crate::utils::text::str_debug;
use crate::value::entries::entries_insert;
use crate::value::{
    spec_data_size_unit, spec_duration_unit, DataSize, DataSizeUnit, DurationUnit, FloatValue, Integer, PklDuration,
    SpecValue,
};

verus! {

/// Why decoding gives no value: the input is rejected with an error, or it reaches a
/// place where decoding aborts (a missing slot that is indexed, or a type alias,
/// which the pkl server never sends).
///
/// Where the error of a rejected value ends with a description of the value (`got …`),
/// the message here stops before it, and an invalid duration's message leaves out its
/// amount and unit: those texts print the server's MessagePack value, floats included,
/// and this library holds floats only as bit patterns, with no way to print them.
pub enum Fault {
    /// Rejected, with the kind of the error and its message.
    Rejected(ErrorKind, Seq<char>),
    Aborts,
}

/// The fault of a member that could not be decoded, seen from the list holding it.
pub open spec fn member_fault(f: Fault) -> Fault {
    match f {
        Fault::Rejected(_, m) => Fault::Rejected(
            ErrorKind::Message,
            "failed to parse pkl object member: "@ + m,
        ),
        Fault::Aborts => Fault::Aborts,
    }
}

/// Why the type code of an object's encoding cannot be read.
pub open spec fn type_id_fault(s: Seq<MsgValue>) -> Fault {
    if s.len() == 0 {
        Fault::Rejected(ErrorKind::Decode, "empty data for object"@)
    } else {
        Fault::Rejected(ErrorKind::Message, "expected type id in object preamble"@)
    }
}

/// What `decode_int` gives for an integer.
pub open spec fn spec_int(m: MsgValue) -> Option<PklPrimitive> {
    if m.spec_is_u64() {
        Some(PklPrimitive::Int(Integer::Pos(m.spec_as_u64().unwrap())))
    } else if m.spec_is_i64() {
        Some(PklPrimitive::Int(Integer::Neg(m.spec_as_i64().unwrap())))
    } else {
        match m.spec_as_f64() {
            Some(f) => Some(PklPrimitive::Float(f)),
            None => None,
        }
    }
}

/// The value a primitive (non-array) encoding decodes to.
pub open spec fn spec_primitive(m: MsgValue) -> Result<SpecValue, Fault> {
    match m {
        MsgValue::String(_) => match m.spec_as_str() {
            Some(s) => Ok(SpecValue::String(s)),
            None => Err(Fault::Rejected(ErrorKind::Decode, "expected valid UTF-8 string"@)),
        },
        MsgValue::Boolean(b) => Ok(SpecValue::Boolean(b)),
        MsgValue::Nil => Ok(SpecValue::Null),
        MsgValue::PosInt(_) => match spec_int(m) {
            Some(p) => Ok(p.spec_value()),
            None => Err(Fault::Rejected(ErrorKind::Decode, "expected integer"@)),
        },
        MsgValue::NegInt(_) => match spec_int(m) {
            Some(p) => Ok(p.spec_value()),
            None => Err(Fault::Rejected(ErrorKind::Decode, "expected integer"@)),
        },
        MsgValue::F32(b) => Ok(SpecValue::Int(Integer::Float(FloatValue::Bits32(b)))),
        MsgValue::F64(b) => Ok(SpecValue::Int(Integer::Float(FloatValue::Bits64(b)))),
        _ => Err(Fault::Rejected(ErrorKind::Message, "unexpected primitive value"@)),
    }
}

/// The type code in the first slot of an object's encoding.
pub open spec fn spec_type_id(s: Seq<MsgValue>) -> Option<u64> {
    if s.len() == 0 {
        None
    } else {
        s[0].spec_as_u64()
    }
}

/// The value a member's encoding decodes to: an array is a non-primitive value,
/// anything else a primitive.
pub open spec fn spec_member(m: MsgValue) -> Result<SpecValue, Fault>
    decreases m, 0int,
{
    match m {
        MsgValue::Array(a) => {
            proof {
                assert(decreases_to!(m => a));
                assert(decreases_to!(a => a@));
            }
            spec_non_primitive(a@)
        },
        _ => spec_primitive(m),
    }
}

/// The value a non-primitive encoding (type code first, then its slots) decodes to.
pub open spec fn spec_non_primitive(s: Seq<MsgValue>) -> Result<SpecValue, Fault>
    decreases s, 3int,
{
    match spec_type_id(s) {
        None => Err(type_id_fault(s)),
        Some(t) => if t == TYPED_DYNAMIC {
            spec_typed(s)
        } else if t == SET || t == LIST || t == LISTING {
            spec_list_slot(s, t)
        } else if t == MAPPING || t == MAP {
            spec_mapping_slot(s)
        } else if t == DURATION {
            spec_duration(s)
        } else if t == DATA_SIZE {
            spec_data_size(s)
        } else if t == PAIR {
            spec_pair(s)
        } else if t == INT_SEQ {
            spec_int_seq(s)
        } else if t == REGEX {
            spec_regex(s)
        } else if t == BYTES {
            spec_bytes(s)
        } else if t == TYPE_ALIAS {
            Err(Fault::Aborts)
        } else {
            Err(
                Fault::Rejected(ErrorKind::Message, "unexpected type id when decoding non-primitive value, got: "@ + decimal_text(
                        t as int,
                    ) + " (needs to be implemented)"@,
                ),
            )
        },
    }
}

/// A typed object: class name, module URI, then the array of its members, which
/// become a map.
pub open spec fn spec_typed(s: Seq<MsgValue>) -> Result<SpecValue, Fault>
    decreases s, 2int,
{
    if s.len() < 2 {
        Err(Fault::Aborts)
    } else if s[1].spec_as_str() is None {
        Err(Fault::Rejected(ErrorKind::Message, "[typed] expected fully qualified name"@))
    } else if s.len() < 3 {
        Err(Fault::Aborts)
    } else if s[2].spec_as_str() is None {
        Err(Fault::Rejected(ErrorKind::Message, "[typed] expected module uri"@))
    } else if s.len() < 4 {
        Err(Fault::Aborts)
    } else {
        match s[3] {
            MsgValue::Array(a) => {
                proof {
                    assert(decreases_to!(s => s[3]));
                    assert(decreases_to!(s[3] => a));
                    assert(decreases_to!(a => a@));
                }
                match spec_member_list(a@, false) {
                    Ok(ms) => Ok(SpecValue::Mapping(members_map(ms))),
                    Err(f) => Err(f),
                }
            },
            _ => Err(Fault::Rejected(ErrorKind::Decode, "expected array of object members"@)),
        }
    }
}

/// A list, listing or set (by its type code): an array of values.
pub open spec fn spec_list_slot(s: Seq<MsgValue>, t: u64) -> Result<SpecValue, Fault>
    decreases s, 2int,
{
    if s.len() < 2 {
        Err(Fault::Aborts)
    } else {
        match s[1] {
            MsgValue::Array(a) => {
                proof {
                    assert(decreases_to!(s => s[1]));
                    assert(decreases_to!(s[1] => a));
                    assert(decreases_to!(a => a@));
                }
                match spec_value_list(a@) {
                    Ok(vs) => Ok(SpecValue::List(vs)),
                    Err(f) => Err(f),
                }
            },
            _ => if t == SET {
                Err(Fault::Rejected(ErrorKind::Message, "expected array when decoding set"@))
            } else {
                Err(Fault::Rejected(ErrorKind::Message, "expected array when decoding `List`"@))
            },
        }
    }
}

/// A map or mapping: string keys and values, inserted in order.
pub open spec fn spec_mapping_slot(s: Seq<MsgValue>) -> Result<SpecValue, Fault>
    decreases s, 2int,
{
    if s.len() < 2 {
        Err(Fault::Aborts)
    } else {
        match s[1] {
            MsgValue::Pairs(p) => {
                proof {
                    assert(decreases_to!(s => s[1]));
                    assert(decreases_to!(s[1] => p));
                    assert(decreases_to!(p => p@));
                }
                match spec_mapping_entries(p@) {
                    Ok(e) => Ok(SpecValue::Mapping(e)),
                    Err(f) => Err(f),
                }
            },
            _ => Err(Fault::Rejected(ErrorKind::Decode, "expected map when decoding mapping"@)),
        }
    }
}

/// The least bit pattern of a positive double whose amount, scaled to nanoseconds in
/// double arithmetic (rounding to nearest), is infinite: a microsecond is multiplied by
/// 1e3, a millisecond by 1e6, a second by 1e9, a minute by 60 then 1e9, an hour by 3600
/// then 1e9 and a day by 86400 then 1e9. Nanoseconds are not scaled, so only infinity
/// itself is infinite. Positive doubles order as their bit patterns do.
pub open spec fn duration_overflow_bits(unit: DurationUnit) -> u64 {
    match unit {
        DurationUnit::Nanoseconds => 0x7ff0_0000_0000_0000u64,
        DurationUnit::Microseconds => 0x7f50_624d_d2f1_a9fcu64,
        DurationUnit::Milliseconds => 0x7eb0_c6f7_a0b5_ed8du64,
        DurationUnit::Seconds => 0x7e11_2e0b_e826_d695u64,
        DurationUnit::Minutes => 0x7db2_533f_e68f_d3d2u64,
        DurationUnit::Hours => 0x7d53_8bff_e4dd_aebeu64,
        DurationUnit::Days => 0x7d0a_0fff_dbd2_3e52u64,
    }
}

/// Whether a duration's amount is refused: not a number, infinite, below zero (a
/// negative zero is not below zero), or so large that scaled to nanoseconds it is
/// infinite. A single-precision amount or an integer is never that large.
pub open spec fn is_invalid_duration_amount(v: FloatValue, unit: DurationUnit) -> bool {
    match v {
        FloatValue::Bits64(b) => (b >> 52u64) & 0x7ffu64 == 0x7ffu64 || ((b >> 63u64) == 1u64 && (b
            & 0x7fff_ffff_ffff_ffffu64) != 0u64) || ((b >> 63u64) == 0u64 && b
            >= duration_overflow_bits(unit)),
        FloatValue::Bits32(b) => (b >> 23u32) & 0xffu32 == 0xffu32 || ((b >> 31u32) == 1u32 && (b
            & 0x7fff_ffffu32) != 0u32),
        FloatValue::Unsigned(_) => false,
        FloatValue::Signed(i) => i < 0,
    }
}

/// A duration: a number and the name of a unit. An amount that is not a number, infinite,
/// negative, or infinite once scaled to nanoseconds is refused.
pub open spec fn spec_duration(s: Seq<MsgValue>) -> Result<SpecValue, Fault> {
    if s.len() < 2 {
        Err(Fault::Aborts)
    } else if s[1].spec_as_f64() is None {
        Err(Fault::Rejected(ErrorKind::Message, "expected float for duration"@))
    } else if s.len() < 3 {
        Err(Fault::Aborts)
    } else {
        match s[2].spec_as_str() {
            None => Err(Fault::Rejected(ErrorKind::Message, "expected time type"@)),
            Some(u) => match spec_duration_unit(u) {
                None => Err(
                    Fault::Rejected(ErrorKind::Decode, "unknown duration unit: "@ + str_debug(u)),
                ),
                Some(unit) => if is_invalid_duration_amount(s[1].spec_as_f64().unwrap(), unit) {
                    Err(Fault::Rejected(ErrorKind::Decode, "invalid duration value"@))
                } else {
                    Ok(
                        SpecValue::Duration(
                            PklDuration { value: s[1].spec_as_f64().unwrap(), unit },
                        ),
                    )
                },
            },
        }
    }
}

/// A data size: a number and the name of a unit.
pub open spec fn spec_data_size(s: Seq<MsgValue>) -> Result<SpecValue, Fault> {
    if s.len() < 2 {
        Err(Fault::Aborts)
    } else if s[1].spec_as_f64() is None {
        Err(Fault::Rejected(ErrorKind::Message, "expected float for data size"@))
    } else if s.len() < 3 {
        Err(Fault::Aborts)
    } else {
        match s[2].spec_as_str() {
            None => Err(Fault::Rejected(ErrorKind::Message, "expected size type"@)),
            Some(u) => match spec_data_size_unit(u) {
                None => Err(Fault::Rejected(ErrorKind::Decode, "unknown data size unit"@)),
                Some(unit) => Ok(
                    SpecValue::DataSize(DataSize { value: s[1].spec_as_f64().unwrap(), unit }),
                ),
            },
        }
    }
}

/// A pair of two member values.
pub open spec fn spec_pair(s: Seq<MsgValue>) -> Result<SpecValue, Fault>
    decreases s, 2int,
{
    if s.len() < 2 {
        Err(Fault::Aborts)
    } else {
        match spec_member(s[1]) {
            Err(f) => Err(f),
            Ok(a) => if s.len() < 3 {
                Err(Fault::Aborts)
            } else {
                match spec_member(s[2]) {
                    Err(f) => Err(f),
                    Ok(b) => Ok(SpecValue::Pair(Box::new(a), Box::new(b))),
                }
            },
        }
    }
}

/// An int seq: start, end and step; it becomes the range from start to end.
pub open spec fn spec_int_seq(s: Seq<MsgValue>) -> Result<SpecValue, Fault> {
    if s.len() < 2 {
        Err(Fault::Aborts)
    } else if s[1].spec_as_i64() is None {
        Err(Fault::Rejected(ErrorKind::Message, "expected start for int seq"@))
    } else if s.len() < 3 {
        Err(Fault::Aborts)
    } else if s[2].spec_as_i64() is None {
        Err(Fault::Rejected(ErrorKind::Message, "expected end for int seq"@))
    } else if s.len() < 4 {
        Err(Fault::Aborts)
    } else if s[3].spec_as_i64() is None {
        Err(Fault::Rejected(ErrorKind::Message, "expected step for int seq"@))
    } else {
        Ok(SpecValue::Range(s[1].spec_as_i64().unwrap(), s[2].spec_as_i64().unwrap()))
    }
}

/// A regex: its pattern.
pub open spec fn spec_regex(s: Seq<MsgValue>) -> Result<SpecValue, Fault> {
    if s.len() < 2 {
        Err(Fault::Rejected(ErrorKind::Message, "expected pattern for regex"@))
    } else {
        match s[1].spec_as_str() {
            Some(p) => Ok(SpecValue::Regex(p)),
            None => Err(Fault::Rejected(ErrorKind::Message, "expected pattern for regex"@)),
        }
    }
}

/// Bytes: a binary (or the bytes of a string).
pub open spec fn spec_bytes(s: Seq<MsgValue>) -> Result<SpecValue, Fault> {
    if s.len() < 2 {
        Err(Fault::Aborts)
    } else {
        match s[1].spec_as_slice() {
            Some(b) => Ok(SpecValue::Bytes(b)),
            None => Err(Fault::Rejected(ErrorKind::Message, "expected binary when decoding `Bytes`"@)),
        }
    }
}

/// Member values decoded in order; the first failure is the outcome.
pub open spec fn spec_value_list(v: Seq<MsgValue>) -> Result<Seq<SpecValue>, Fault>
    decreases v, 1int,
{
    if v.len() == 0 {
        Ok(Seq::empty())
    } else {
        match spec_value_list(v.drop_last()) {
            Err(f) => Err(f),
            Ok(prev) => {
                proof {
                    assert(decreases_to!(v => v.last()));
                }
                match spec_member(v.last()) {
                    Ok(x) => Ok(prev.push(x)),
                    Err(f) => Err(f),
                }
            },
        }
    }
}

/// Key-value pairs decoded in order and inserted into a map; each key must be a string.
pub open spec fn spec_mapping_entries(p: Seq<(MsgValue, MsgValue)>) -> Result<
    Seq<(Seq<char>, SpecValue)>,
    Fault,
>
    decreases p, 1int,
{
    if p.len() == 0 {
        Ok(Seq::empty())
    } else {
        match spec_mapping_entries(p.drop_last()) {
            Err(f) => Err(f),
            Ok(prev) => match p.last().0.spec_as_str() {
                None => Err(Fault::Rejected(ErrorKind::Message, "expected key for mapping"@)),
                Some(k) => {
                    proof {
                        assert(decreases_to!(p => p.last()));
                        assert(decreases_to!(p.last() => p.last().1));
                    }
                    match spec_member(p.last().1) {
                        Ok(x) => Ok(entries_insert(prev, k, x)),
                        Err(f) => Err(f),
                    }
                },
            },
        }
    }
}

/// Object members decoded in order; each must be an array. The members of a module and
/// those of an object differ only in the error for a member that is not an array.
pub open spec fn spec_member_list(v: Seq<MsgValue>, module_level: bool) -> Result<
    Seq<(Seq<char>, SpecValue)>,
    Fault,
>
    decreases v, 1int,
{
    if v.len() == 0 {
        Ok(Seq::empty())
    } else {
        match spec_member_list(v.drop_last(), module_level) {
            Err(f) => Err(f),
            Ok(prev) => match v.last() {
                MsgValue::Array(a) => {
                    proof {
                        assert(decreases_to!(v => v.last()));
                        assert(decreases_to!(v.last() => a));
                        assert(decreases_to!(a => a@));
                    }
                    match spec_object_member(a@) {
                        Ok(e) => Ok(prev.push(e)),
                        Err(f) => Err(member_fault(f)),
                    }
                },
                _ => if module_level {
                    Err(Fault::Rejected(ErrorKind::Message, "expected array for pkl module member"@))
                } else {
                    Err(Fault::Rejected(ErrorKind::Decode, "expected array for object member"@))
                },
            },
        }
    }
}

/// An object member: a property, entry or element code, an identifier string and a value.
pub open spec fn spec_object_member(d: Seq<MsgValue>) -> Result<(Seq<char>, SpecValue), Fault>
    decreases d, 0int,
{
    match spec_type_id(d) {
        None => Err(type_id_fault(d)),
        Some(t) => if t == OBJECT_MEMBER || t == DYNAMIC_MAPPING || t == DYNAMIC_LISTING {
            if d.len() < 2 {
                Err(Fault::Rejected(ErrorKind::Message, "expected ident for object"@))
            } else {
                match d[1].spec_as_str() {
                    None => Err(Fault::Rejected(ErrorKind::Message, "expected ident for object"@)),
                    Some(ident) => if d.len() < 3 {
                        Err(Fault::Rejected(ErrorKind::Message, "[decode_object_generic] expected value"@))
                    } else {
                        proof {
                            assert(decreases_to!(d => d[2]));
                        }
                        match spec_member(d[2]) {
                            Ok(x) => Ok((ident, x)),
                            Err(f) => Err(f),
                        }
                    },
                }
            }
        } else {
            Err(
                Fault::Rejected(ErrorKind::Message, "unexpected type id when decoding object member, got: "@ + decimal_text(t as int),
                ),
            )
        },
    }
}

/// A module: an array whose second and third elements are its name and URI and whose
/// last element is the array of its members.
pub open spec fn spec_module(m: MsgValue) -> Result<SpecModule, Fault> {
    match m.spec_as_array() {
        None => Err(Fault::Rejected(ErrorKind::Message, "expected root array for pkl module"@)),
        Some(r) => if r.len() < 2 {
            Err(Fault::Rejected(ErrorKind::Message, "expected root level module name"@))
        } else if r[1].spec_as_str() is None {
            Err(Fault::Rejected(ErrorKind::Message, "PklMod name is not valid utf8"@))
        } else if r.len() < 3 {
            Err(Fault::Rejected(ErrorKind::Message, "expected root level module uri"@))
        } else if r[2].spec_as_str() is None {
            Err(Fault::Rejected(ErrorKind::Message, "PklMod uri is not valid utf8"@))
        } else {
            match r.last().spec_as_array() {
                None => Err(Fault::Rejected(ErrorKind::Message, "expected array of children"@)),
                Some(children) => match spec_member_list(children, true) {
                    Err(f) => Err(f),
                    Ok(members) => Ok(
                        SpecModule {
                            name: r[1].spec_as_str().unwrap(),
                            uri: r[2].spec_as_str().unwrap(),
                            members,
                        },
                    ),
                },
            }
        },
    }
}

/// Decoding a member that is not an array keeps its value: a boolean decodes to the same
/// boolean, nil to null, a string of valid UTF-8 to its text, a non-negative integer to
/// `Integer::Pos` and a negative one to `Integer::Neg` of the same number, and a float to
/// a float of the same bits.
pub proof fn law_primitive_values(m: MsgValue)
    ensures
        m matches MsgValue::Boolean(b) ==> spec_member(m) == Ok::<SpecValue, Fault>(
            SpecValue::Boolean(b),
        ),
        m is Nil ==> spec_member(m) == Ok::<SpecValue, Fault>(SpecValue::Null),
        m matches MsgValue::String(t) ==> (valid_utf8(t@) ==> spec_member(m) == Ok::<
            SpecValue,
            Fault,
        >(SpecValue::String(decode_utf8(t@)))),
        m matches MsgValue::PosInt(u) ==> spec_member(m) == Ok::<SpecValue, Fault>(
            SpecValue::Int(Integer::Pos(u)),
        ),
        m matches MsgValue::NegInt(n) ==> (n < 0 ==> spec_member(m) == Ok::<SpecValue, Fault>(
            SpecValue::Int(Integer::Neg(n)),
        )),
        m matches MsgValue::F64(b) ==> spec_member(m) == Ok::<SpecValue, Fault>(
            SpecValue::Int(Integer::Float(FloatValue::Bits64(b))),
        ),
        m matches MsgValue::F32(b) ==> spec_member(m) == Ok::<SpecValue, Fault>(
            SpecValue::Int(Integer::Float(FloatValue::Bits32(b))),
        ),
{
}

/// Decoding a list of member values decodes each in turn: it succeeds when every value
/// decodes, and then gives one value per element, in order, each what that element
/// decodes to.
pub proof fn law_value_list(v: Seq<MsgValue>)
    ensures
        (forall|i: int| 0 <= i < v.len() ==> #[trigger] spec_member(v[i]) is Ok)
            ==> spec_value_list(v) is Ok,
        spec_value_list(v) matches Ok(out) ==> out.len() == v.len() && forall|i: int|
            0 <= i < v.len() ==> spec_member(v[i]) == Ok::<SpecValue, Fault>(#[trigger] out[i]),
    decreases v.len(),
{
    if v.len() > 0 {
        law_value_list(v.drop_last());
        assert forall|i: int| 0 <= i < v.len() - 1 implies v.drop_last()[i] == v[i] by {}
        if forall|i: int| 0 <= i < v.len() ==> #[trigger] spec_member(v[i]) is Ok {
            assert forall|i: int| 0 <= i < v.drop_last().len() implies #[trigger] spec_member(
                v.drop_last()[i],
            ) is Ok by {
                assert(v.drop_last()[i] == v[i]);
            }
            assert(spec_member(v[v.len() - 1]) is Ok);
        }
        if spec_value_list(v) is Ok {
            let out = spec_value_list(v)->Ok_0;
            let prev = spec_value_list(v.drop_last())->Ok_0;
            assert(out == prev.push(spec_member(v.last())->Ok_0));
            assert forall|i: int| 0 <= i < v.len() implies spec_member(v[i]) == Ok::<
                SpecValue,
                Fault,
            >(#[trigger] out[i]) by {
                if i < v.len() - 1 {
                    assert(v.drop_last()[i] == v[i]);
                    assert(out[i] == prev[i]);
                }
            }
        }
    }
}

/// Decoding the members of an object or module decodes each in turn: when it succeeds,
/// each element is an array and gives the identifier and value that decoding it as an
/// object member gives, one per element, in order.
pub proof fn law_member_list(v: Seq<MsgValue>, module_level: bool)
    ensures
        spec_member_list(v, module_level) matches Ok(out) ==> out.len() == v.len() && forall|
            i: int,
        |
            0 <= i < v.len() ==> spec_object_member(v[i]->Array_0@) == Ok::<
                (Seq<char>, SpecValue),
                Fault,
            >(#[trigger] out[i]),
        spec_member_list(v, module_level) is Ok ==> forall|i: int|
            0 <= i < v.len() ==> #[trigger] v[i] is Array,
    decreases v.len(),
{
    if v.len() > 0 {
        law_member_list(v.drop_last(), module_level);
        if spec_member_list(v, module_level) is Ok {
            let out = spec_member_list(v, module_level)->Ok_0;
            let prev = spec_member_list(v.drop_last(), module_level)->Ok_0;
            let last = v.last();
            assert(last is Array);
            let a = last->Array_0;
            let e = spec_object_member(a@)->Ok_0;
            assert(spec_object_member(a@) == Ok::<(Seq<char>, SpecValue), Fault>(e));
            assert(out == prev.push(e));
            assert(out.len() == v.len());
            assert(v[v.len() - 1] == last);
            assert forall|i: int| 0 <= i < v.len() implies spec_object_member(v[i]->Array_0@)
                == Ok::<(Seq<char>, SpecValue), Fault>(#[trigger] out[i]) by {
                if i < v.len() - 1 {
                    assert(v.drop_last()[i] == v[i]);
                    assert(out[i] == prev[i]);
                }
            }
            assert forall|i: int| 0 <= i < v.len() implies #[trigger] v[i] is Array by {
                if i < v.len() - 1 {
                    assert(v.drop_last()[i] == v[i]);
                    assert(v.drop_last()[i] is Array);
                }
            }
        }
    }
}

/// An object member encoded as `[16, identifier, value]` (or with the dynamic-mapping or
/// dynamic-listing codes 17 and 18) decodes to its identifier's text and the value that its
/// third slot decodes to.
pub proof fn law_object_member(t: u64, ident: Vec<u8>, value: MsgValue)
    requires
        t == 16 || t == 17 || t == 18,
        valid_utf8(ident@),
    ensures
        spec_member(value) matches Ok(x) ==> spec_object_member(
            seq![MsgValue::PosInt(t), MsgValue::String(ident), value],
        ) == Ok::<(Seq<char>, SpecValue), Fault>((decode_utf8(ident@), x)),
{
    let d = seq![MsgValue::PosInt(t), MsgValue::String(ident), value];
    assert(d[2] == value);
}

/// A list, listing or set encoded as `[code, values]`, with code 4, 5 or 6, decodes to
/// the list of what its values decode to, in order.
pub proof fn law_list_value(t: u64, values: Vec<MsgValue>, encoded: Vec<MsgValue>)
    requires
        t == 4 || t == 5 || t == 6,
        encoded@ == seq![MsgValue::PosInt(t), MsgValue::Array(values)],
    ensures
        spec_value_list(values@) matches Ok(out) ==> spec_member(MsgValue::Array(encoded))
            == Ok::<SpecValue, Fault>(SpecValue::List(out)),
{
    assert(encoded@[1] == MsgValue::Array(values));
}

/// A module encoded as an array with its name and URI in its second and third slots and
/// its members in its last decodes to that name, URI and the members' decoding.
pub proof fn law_module(root: Vec<MsgValue>)
    requires
        root@.len() >= 3,
    ensures
        root@[1] matches MsgValue::String(n) ==> (root@[2] matches MsgValue::String(u) ==> (
        root@.last() matches MsgValue::Array(ms) ==> (valid_utf8(n@) && valid_utf8(u@) ==> (
        spec_member_list(ms@, true) matches Ok(out) ==> spec_module(MsgValue::Array(root))
            == Ok::<SpecModule, Fault>(
            SpecModule { name: decode_utf8(n@), uri: decode_utf8(u@), members: out },
        ))))),
{
}

/// A duration encoded as `[7, amount, unit name]`, with a positive double amount below
/// 2.08e294 (finite once scaled to nanoseconds by any unit) and a known unit name, decodes
/// to that amount of that unit.
pub proof fn law_duration_value(b: u64, name: Vec<u8>, unit: DurationUnit, s: Seq<MsgValue>)
    requires
        s == seq![MsgValue::PosInt(7), MsgValue::F64(b), MsgValue::String(name)],
        valid_utf8(name@),
        spec_duration_unit(decode_utf8(name@)) == Some(unit),
        b < 0x7d0a_0fff_dbd2_3e52u64,
    ensures
        spec_non_primitive(s) == Ok::<SpecValue, Fault>(
            SpecValue::Duration(PklDuration { value: FloatValue::Bits64(b), unit }),
        ),
{
    assert((b >> 52u64) & 0x7ffu64 != 0x7ffu64 && (b >> 63u64) == 0u64) by (bit_vector)
        requires
            b < 0x7d0a_0fff_dbd2_3e52u64,
    ;
    assert(!is_invalid_duration_amount(FloatValue::Bits64(b), unit));
}

/// A data size encoded as `[8, amount, unit name]` with a known unit name decodes to that
/// amount of that unit.
pub proof fn law_data_size_value(b: u64, name: Vec<u8>, unit: DataSizeUnit, s: Seq<MsgValue>)
    requires
        s == seq![MsgValue::PosInt(8), MsgValue::F64(b), MsgValue::String(name)],
        valid_utf8(name@),
        spec_data_size_unit(decode_utf8(name@)) == Some(unit),
    ensures
        spec_non_primitive(s) == Ok::<SpecValue, Fault>(
            SpecValue::DataSize(DataSize { value: FloatValue::Bits64(b), unit }),
        ),
{
}

/// A pair encoded as `[9, first, second]` decodes to the pair of what its two slots
/// decode to, in that order.
pub proof fn law_pair_value(first: MsgValue, second: MsgValue, s: Seq<MsgValue>)
    requires
        s == seq![MsgValue::PosInt(9), first, second],
    ensures
        spec_member(first) matches Ok(a) ==> (spec_member(second) matches Ok(b) ==> spec_non_primitive(
            s,
        ) == Ok::<SpecValue, Fault>(SpecValue::Pair(Box::new(a), Box::new(b)))),
{
    assert(s[1] == first && s[2] == second);
}

/// An int seq encoded as `[10, start, end, step]` of integers decodes to the range from
/// its start to its end.
pub proof fn law_int_seq_value(start: i64, end: i64, step: MsgValue, s: Seq<MsgValue>)
    requires
        s == seq![MsgValue::PosInt(10), MsgValue::NegInt(start), MsgValue::NegInt(end), step],
        step.spec_as_i64() is Some,
    ensures
        spec_non_primitive(s) == Ok::<SpecValue, Fault>(SpecValue::Range(start, end)),
{
    assert(s[1] == MsgValue::NegInt(start) && s[2] == MsgValue::NegInt(end) && s[3] == step);
}

/// A regex encoded as `[11, pattern]` decodes to its pattern's text, and bytes encoded as
/// `[15, binary]` to those bytes.
pub proof fn law_regex_and_bytes_values(pattern: Vec<u8>, bytes: Vec<u8>, r: Seq<MsgValue>, b: Seq<MsgValue>)
    requires
        r == seq![MsgValue::PosInt(11), MsgValue::String(pattern)],
        b == seq![MsgValue::PosInt(15), MsgValue::Binary(bytes)],
    ensures
        valid_utf8(pattern@) ==> spec_non_primitive(r) == Ok::<SpecValue, Fault>(
            SpecValue::Regex(decode_utf8(pattern@)),
        ),
        spec_non_primitive(b) == Ok::<SpecValue, Fault>(SpecValue::Bytes(bytes@)),
{
    assert(r[1] == MsgValue::String(pattern));
    assert(b[1] == MsgValue::Binary(bytes));
}

} // verus!
