//! Decoding objects, their members and the non-primitive values.
use vstd::prelude::*;

use crate::decoder::primitive::decode_primitive;
use crate::decoder::spec::{
    duration_overflow_bits, is_invalid_duration_amount, spec_bytes, spec_data_size, spec_duration, spec_int_seq, spec_list_slot, spec_mapping_entries,
    spec_mapping_slot, spec_member, spec_member_list, spec_non_primitive, spec_object_member,
    spec_pair, spec_regex, spec_type_id, spec_typed, spec_value_list, member_fault, type_id_fault,
    Fault,
};
use crate::error::{error_kind, spec_error_message, Error, ErrorKind};
use crate::internal::type_constants::{
    BYTES, DATA_SIZE, DURATION, DYNAMIC_LISTING, DYNAMIC_MAPPING, INT_SEQ, LIST, LISTING, MAP,
    MAPPING, OBJECT_MEMBER, PAIR, REGEX, SET, TYPED_DYNAMIC, TYPE_ALIAS,
};
use crate::internal::types::{
    view_members, IPklValue, ObjectMember, PklNonPrimitive,
};
use crate::msgpack::MsgValue;
use crate::types::integer::format_decimal;
use crate::utils::text::{concat, debug_text, owned};
use crate::value::{
    lemma_view_list_push, view_list, DataSize, DataSizeUnit, DurationUnit, FloatValue, PklDuration,
    PklValue, SpecValue, ValueMap,
};

verus! {

/// Why decoding gave no value: an error, or an input on which decoding aborts.
#[derive(Debug)]
pub enum DecodeFailure {
    Rejected(Error),
    Aborts,
}

/// The fault a failure stands for.
pub open spec fn fault_of(f: DecodeFailure) -> Fault {
    match f {
        DecodeFailure::Rejected(e) => Fault::Rejected(error_kind(e), spec_error_message(e)),
        DecodeFailure::Aborts => Fault::Aborts,
    }
}

fn rejected(msg: &str) -> (f: DecodeFailure)
    ensures
        fault_of(f) == Fault::Rejected(ErrorKind::Decode, msg@),
{
    DecodeFailure::Rejected(Error::DecodeError(owned(msg)))
}

fn rejected_message(msg: &str) -> (f: DecodeFailure)
    ensures
        fault_of(f) == Fault::Rejected(ErrorKind::Message, msg@),
{
    DecodeFailure::Rejected(Error::Message(owned(msg)))
}

/// A member's failure, with its error prefixed by what was being decoded.
fn member_failure(f: DecodeFailure) -> (g: DecodeFailure)
    ensures
        fault_of(g) == member_fault(fault_of(f)),
{
    match f {
        DecodeFailure::Rejected(e) => {
            let msg = e.to_message();
            DecodeFailure::Rejected(
                Error::Message(concat("failed to parse pkl object member: ", msg.as_str())),
            )
        },
        DecodeFailure::Aborts => DecodeFailure::Aborts,
    }
}

proof fn lemma_value_list_prefix(v: Seq<MsgValue>, k: int)
    requires
        0 <= k <= v.len(),
        spec_value_list(v.take(k)) is Err,
    ensures
        spec_value_list(v) == spec_value_list(v.take(k)),
    decreases v.len() - k,
{
    if k < v.len() {
        assert(v.take(k + 1).drop_last() =~= v.take(k));
        lemma_value_list_prefix(v, k + 1);
    } else {
        assert(v.take(k) =~= v);
    }
}

proof fn lemma_member_list_prefix(v: Seq<MsgValue>, k: int, module_level: bool)
    requires
        0 <= k <= v.len(),
        spec_member_list(v.take(k), module_level) is Err,
    ensures
        spec_member_list(v, module_level) == spec_member_list(v.take(k), module_level),
    decreases v.len() - k,
{
    if k < v.len() {
        assert(v.take(k + 1).drop_last() =~= v.take(k));
        lemma_member_list_prefix(v, k + 1, module_level);
    } else {
        assert(v.take(k) =~= v);
    }
}

proof fn lemma_mapping_prefix(p: Seq<(MsgValue, MsgValue)>, k: int)
    requires
        0 <= k <= p.len(),
        spec_mapping_entries(p.take(k)) is Err,
    ensures
        spec_mapping_entries(p) == spec_mapping_entries(p.take(k)),
    decreases p.len() - k,
{
    if k < p.len() {
        assert(p.take(k + 1).drop_last() =~= p.take(k));
        lemma_mapping_prefix(p, k + 1);
    } else {
        assert(p.take(k) =~= p);
    }
}

/// The type code in the first slot of an object's encoding.
fn decode_object_type_id(data: &[MsgValue]) -> (r: Result<u64, DecodeFailure>)
    ensures
        r matches Ok(t) ==> spec_type_id(data@) == Some(t),
        r matches Err(f) ==> spec_type_id(data@) is None && fault_of(f) == type_id_fault(data@),
{
    if data.len() == 0 {
        return Err(rejected("empty data for object"));
    }
    match data[0].as_u64() {
        Some(t) => Ok(t),
        None => Err(rejected_message("expected type id in object preamble")),
    }
}

/// Decodes an object member (a property, entry or element) into its identifier and value.
/// Inputs on which decoding aborts are left out.
pub fn decode_object_member(data: &[MsgValue]) -> (r: Result<ObjectMember, Error>)
    requires
        spec_object_member(data@) != Err::<(Seq<char>, SpecValue), Fault>(Fault::Aborts),
    ensures
        r matches Ok(m) ==> spec_object_member(data@) == Ok::<(Seq<char>, SpecValue), Fault>(
            m.spec_entry(),
        ),
        r matches Err(e) ==> spec_object_member(data@) == Err::<(Seq<char>, SpecValue), Fault>(
            Fault::Rejected(error_kind(e), spec_error_message(e)),
        ),
{
    match object_member(data) {
        Ok(m) => Ok(m),
        Err(DecodeFailure::Rejected(e)) => Err(e),
        Err(DecodeFailure::Aborts) => Err(Error::Message(owned("unreachable"))),
    }
}

/// Decodes an object member, telling an error from an abort.
pub fn object_member(data: &[MsgValue]) -> (r: Result<ObjectMember, DecodeFailure>)
    ensures
        r matches Ok(m) ==> spec_object_member(data@) == Ok::<(Seq<char>, SpecValue), Fault>(
            m.spec_entry(),
        ),
        r matches Err(f) ==> spec_object_member(data@) == Err::<(Seq<char>, SpecValue), Fault>(
            fault_of(f),
        ),
    decreases data@, 2int,
{
    let type_id = decode_object_type_id(data)?;
    if type_id == OBJECT_MEMBER || type_id == DYNAMIC_MAPPING || type_id == DYNAMIC_LISTING {
        decode_object_generic(type_id, data)
    } else {
        let digits = format_decimal(type_id as i128);
        Err(
            DecodeFailure::Rejected(
                Error::Message(
                    concat("unexpected type id when decoding object member, got: ", digits.as_str()),
                ),
            ),
        )
    }
}

/// Decodes the identifier and value of an object member.
fn decode_object_generic(type_id: u64, data: &[MsgValue]) -> (r: Result<
    ObjectMember,
    DecodeFailure,
>)
    requires
        spec_type_id(data@) == Some(type_id),
        type_id == OBJECT_MEMBER || type_id == DYNAMIC_MAPPING || type_id == DYNAMIC_LISTING,
    ensures
        r matches Ok(m) ==> spec_object_member(data@) == Ok::<(Seq<char>, SpecValue), Fault>(
            m.spec_entry(),
        ),
        r matches Err(f) ==> spec_object_member(data@) == Err::<(Seq<char>, SpecValue), Fault>(
            fault_of(f),
        ),
    decreases data@, 1int,
{
    if data.len() < 2 {
        return Err(rejected_message("expected ident for object"));
    }
    let ident = match data[1].as_str() {
        Some(s) => s,
        None => {
            return Err(rejected_message("expected ident for object"));
        },
    };
    if data.len() < 3 {
        return Err(rejected_message("[decode_object_generic] expected value"));
    }
    proof {
        assert(decreases_to!(data@ => data@[2]));
    }
    let value = decode_member(&data[2])?;
    Ok(ObjectMember(ident, value.into_value()))
}

/// Decodes a member value: an array is a non-primitive value, anything else a primitive.
fn decode_member(value: &MsgValue) -> (r: Result<IPklValue, DecodeFailure>)
    ensures
        r matches Ok(x) ==> spec_member(*value) == Ok::<SpecValue, Fault>(x.spec_value()),
        r matches Err(f) ==> spec_member(*value) == Err::<SpecValue, Fault>(fault_of(f)),
    decreases *value, 0int,
{
    match value.as_array() {
        Some(array) => {
            proof {
                assert(decreases_to!(*value => *array));
                assert(decreases_to!(*array => array@));
            }
            let np = decode_non_primitive(array.as_slice())?;
            Ok(IPklValue::NonPrimitive(np))
        },
        None => match decode_primitive(value) {
            Ok(p) => Ok(IPklValue::Primitive(p)),
            Err(e) => Err(DecodeFailure::Rejected(e)),
        },
    }
}

/// Decodes a non-primitive value by its type code: the variant is the one of that code,
/// and it keeps the code.
fn decode_non_primitive(slots: &[MsgValue]) -> (r: Result<PklNonPrimitive, DecodeFailure>)
    ensures
        r matches Ok(np) ==> spec_non_primitive(slots@) == Ok::<SpecValue, Fault>(
            np.spec_value(),
        ),
        r matches Ok(np) ==> spec_type_id(slots@) == Some(np.type_code()) && np.is_variant_of_code(
            np.type_code(),
        ) && np.names_from(slots@),
        r matches Err(f) ==> spec_non_primitive(slots@) == Err::<SpecValue, Fault>(fault_of(f)),
    decreases slots@, 6int,
{
    let type_id = decode_object_type_id(slots)?;
    if type_id == TYPED_DYNAMIC {
        decode_typed(type_id, slots)
    } else if type_id == SET {
        decode_set(type_id, slots)
    } else if type_id == MAPPING || type_id == MAP {
        decode_mapping(type_id, slots)
    } else if type_id == LIST || type_id == LISTING {
        decode_list(type_id, slots)
    } else if type_id == DURATION {
        decode_duration(type_id, slots)
    } else if type_id == DATA_SIZE {
        decode_datasize(type_id, slots)
    } else if type_id == PAIR {
        decode_pair(type_id, slots)
    } else if type_id == INT_SEQ {
        decode_intseq(type_id, slots)
    } else if type_id == REGEX {
        decode_regex(type_id, slots)
    } else if type_id == BYTES {
        decode_bytes(type_id, slots)
    } else if type_id == TYPE_ALIAS {
        Err(DecodeFailure::Aborts)
    } else {
        let digits = format_decimal(type_id as i128);
        let head = concat(
            "unexpected type id when decoding non-primitive value, got: ",
            digits.as_str(),
        );
        Err(
            DecodeFailure::Rejected(
                Error::Message(concat(head.as_str(), " (needs to be implemented)")),
            ),
        )
    }
}

/// Decodes a typed object into its class name, module URI and members.
fn decode_typed(type_id: u64, slots: &[MsgValue]) -> (r: Result<PklNonPrimitive, DecodeFailure>)
    requires
        spec_type_id(slots@) == Some(type_id),
    ensures
        r matches Ok(np) ==> np is TypedDynamic && np.type_code() == type_id && spec_typed(slots@) == Ok::<SpecValue, Fault>(
            np.spec_value(),
        ) && np.names_from(slots@),
        r matches Err(f) ==> spec_typed(slots@) == Err::<SpecValue, Fault>(fault_of(f)),
    decreases slots@, 5int,
{
    if slots.len() < 2 {
        return Err(DecodeFailure::Aborts);
    }
    let dyn_ident = match slots[1].as_str() {
        Some(s) => s,
        None => {
            return Err(rejected_message("[typed] expected fully qualified name"));
        },
    };
    if slots.len() < 3 {
        return Err(DecodeFailure::Aborts);
    }
    let module_uri = match slots[2].as_str() {
        Some(s) => s,
        None => {
            return Err(rejected_message("[typed] expected module uri"));
        },
    };
    if slots.len() < 4 {
        return Err(DecodeFailure::Aborts);
    }
    let members = match slots[3].as_array() {
        Some(m) => m,
        None => {
            return Err(rejected("expected array of object members"));
        },
    };
    proof {
        assert(decreases_to!(slots@ => slots@[3]));
        assert(decreases_to!(slots@[3] => *members));
        assert(decreases_to!(*members => members@));
    }
    let decoded = decode_member_list(members.as_slice(), false)?;
    Ok(PklNonPrimitive::TypedDynamic(type_id, dyn_ident, module_uri, decoded))
}

/// Decodes object members in order; each must be an array.
fn decode_member_list(items: &[MsgValue], module_level: bool) -> (r: Result<
    Vec<ObjectMember>,
    DecodeFailure,
>)
    ensures
        r matches Ok(ms) ==> spec_member_list(items@, module_level) == Ok::<
            Seq<(Seq<char>, SpecValue)>,
            Fault,
        >(view_members(ms@)),
        r matches Err(f) ==> spec_member_list(items@, module_level) == Err::<Seq<(Seq<char>, SpecValue)>, Fault>(
            fault_of(f),
        ),
    decreases items@, 4int,
{
    let mut out: Vec<ObjectMember> = Vec::with_capacity(items.len());
    let mut i: usize = 0;
    assert(items@.take(0) =~= Seq::<MsgValue>::empty());
    assert(view_members(out@) =~= Seq::<(Seq<char>, SpecValue)>::empty());
    while i < items.len()
        invariant
            i <= items@.len(),
            spec_member_list(items@.take(i as int), module_level) == Ok::<Seq<(Seq<char>, SpecValue)>, Fault>(
                view_members(out@),
            ),
        decreases items.len() - i,
    {
        proof {
            assert(items@.take(i + 1).drop_last() =~= items@.take(i as int));
            assert(items@.take(i + 1).last() == items@[i as int]);
        }
        match items[i].as_array() {
            Some(m) => {
                proof {
                    let ghost cur = items@[i as int];
                    assert(cur == MsgValue::Array(*m));
                    assert(decreases_to!(items@ => cur));
                    assert(decreases_to!(cur => cur->Array_0));
                    assert(decreases_to!(*m => m@));
                }
                match object_member(m.as_slice()) {
                    Ok(om) => {
                        let ghost before = out@;
                        out.push(om);
                        proof {
                            assert(view_members(out@) =~= view_members(before).push(
                                om.spec_entry(),
                            ));
                        }
                    },
                    Err(f) => {
                        proof {
                            lemma_member_list_prefix(items@, i + 1, module_level);
                        }
                        return Err(member_failure(f));
                    },
                }
            },
            None => {
                proof {
                    lemma_member_list_prefix(items@, i + 1, module_level);
                }
                if module_level {
                    return Err(rejected_message("expected array for pkl module member"));
                }
                return Err(rejected("expected array for object member"));
            },
        }
        i = i + 1;
    }
    assert(items@.take(items@.len() as int) =~= items@);
    Ok(out)
}

/// Decodes member values in order.
fn decode_values(items: &[MsgValue]) -> (r: Result<Vec<PklValue>, DecodeFailure>)
    ensures
        r matches Ok(vs) ==> spec_value_list(items@) == Ok::<Seq<SpecValue>, Fault>(
            view_list(vs@),
        ),
        r matches Err(f) ==> spec_value_list(items@) == Err::<Seq<SpecValue>, Fault>(fault_of(f)),
    decreases items@, 4int,
{
    let mut out: Vec<PklValue> = Vec::with_capacity(items.len());
    let mut i: usize = 0;
    assert(items@.take(0) =~= Seq::<MsgValue>::empty());
    while i < items.len()
        invariant
            i <= items@.len(),
            spec_value_list(items@.take(i as int)) == Ok::<Seq<SpecValue>, Fault>(
                view_list(out@),
            ),
        decreases items.len() - i,
    {
        proof {
            assert(items@.take(i + 1).drop_last() =~= items@.take(i as int));
            assert(items@.take(i + 1).last() == items@[i as int]);
            assert(decreases_to!(items@ => items@[i as int]));
        }
        match decode_member(&items[i]) {
            Ok(x) => {
                let v = x.into_value();
                let ghost before = out@;
                out.push(v);
                proof {
                    lemma_view_list_push(before, v);
                }
            },
            Err(f) => {
                proof {
                    lemma_value_list_prefix(items@, i + 1);
                }
                return Err(f);
            },
        }
        i = i + 1;
    }
    assert(items@.take(items@.len() as int) =~= items@);
    Ok(out)
}

/// Decodes a set: an array of values.
fn decode_set(type_id: u64, slots: &[MsgValue]) -> (r: Result<PklNonPrimitive, DecodeFailure>)
    requires
        type_id == SET,
    ensures
        r matches Ok(np) ==> np is SetValues && np.type_code() == type_id && spec_list_slot(slots@, type_id) == Ok::<SpecValue, Fault>(
            np.spec_value(),
        ),
        r matches Err(f) ==> spec_list_slot(slots@, type_id) == Err::<SpecValue, Fault>(fault_of(f)),
    decreases slots@, 5int,
{
    if slots.len() < 2 {
        return Err(DecodeFailure::Aborts);
    }
    let values = match slots[1].as_array() {
        Some(v) => v,
        None => {
            return Err(rejected_message("expected array when decoding set"));
        },
    };
    proof {
        assert(decreases_to!(slots@ => slots@[1]));
        assert(decreases_to!(slots@[1] => *values));
        assert(decreases_to!(*values => values@));
    }
    let set_values = decode_values(values.as_slice())?;
    Ok(PklNonPrimitive::SetValues(type_id, set_values))
}

/// Decodes a list or listing: an array of values.
fn decode_list(type_id: u64, slots: &[MsgValue]) -> (r: Result<PklNonPrimitive, DecodeFailure>)
    requires
        type_id == LIST || type_id == LISTING,
    ensures
        r matches Ok(np) ==> np is List && np.type_code() == type_id && spec_list_slot(slots@, type_id) == Ok::<SpecValue, Fault>(
            np.spec_value(),
        ),
        r matches Err(f) ==> spec_list_slot(slots@, type_id) == Err::<SpecValue, Fault>(fault_of(f)),
    decreases slots@, 5int,
{
    if slots.len() < 2 {
        return Err(DecodeFailure::Aborts);
    }
    let values = match slots[1].as_array() {
        Some(v) => v,
        None => {
            return Err(rejected_message("expected array when decoding `List`"));
        },
    };
    proof {
        assert(decreases_to!(slots@ => slots@[1]));
        assert(decreases_to!(slots@[1] => *values));
        assert(decreases_to!(*values => values@));
    }
    let list_values = decode_values(values.as_slice())?;
    Ok(PklNonPrimitive::List(type_id, list_values))
}

/// Decodes a map or mapping: string keys and values, inserted in order.
fn decode_mapping(type_id: u64, slots: &[MsgValue]) -> (r: Result<
    PklNonPrimitive,
    DecodeFailure,
>)
    ensures
        r matches Ok(np) ==> np is Mapping && np.type_code() == type_id && spec_mapping_slot(slots@) == Ok::<SpecValue, Fault>(
            np.spec_value(),
        ),
        r matches Err(f) ==> spec_mapping_slot(slots@) == Err::<SpecValue, Fault>(fault_of(f)),
    decreases slots@, 5int,
{
    if slots.len() < 2 {
        return Err(DecodeFailure::Aborts);
    }
    let pairs = match slots[1].as_map() {
        Some(p) => p,
        None => {
            return Err(rejected("expected map when decoding mapping"));
        },
    };
    let mut mapping = ValueMap::with_capacity(pairs.len());
    let mut i: usize = 0;
    assert(pairs@.take(0) =~= Seq::<(MsgValue, MsgValue)>::empty());
    while i < pairs.len()
        invariant
            i <= pairs@.len(),
            slots@.len() >= 2,
            slots@[1] == MsgValue::Pairs(*pairs),
            spec_mapping_entries(pairs@.take(i as int)) == Ok::<
                Seq<(Seq<char>, SpecValue)>,
                Fault,
            >(mapping@),
        decreases pairs.len() - i,
    {
        proof {
            assert(pairs@.take(i + 1).drop_last() =~= pairs@.take(i as int));
            assert(pairs@.take(i + 1).last() == pairs@[i as int]);
        }
        let key = match pairs[i].0.as_str() {
            Some(k) => k,
            None => {
                proof {
                    lemma_mapping_prefix(pairs@, i + 1);
                }
                return Err(rejected_message("expected key for mapping"));
            },
        };
        proof {
            assert(decreases_to!(slots@ => slots@[1]));
            assert(decreases_to!(slots@[1] => *pairs));
            assert(decreases_to!(*pairs => pairs@));
            assert(decreases_to!(pairs@ => pairs@[i as int]));
            assert(decreases_to!(pairs@[i as int] => pairs@[i as int].1));
        }
        match decode_member(&pairs[i].1) {
            Ok(x) => {
                mapping.insert(key, x.into_value());
            },
            Err(f) => {
                proof {
                    lemma_mapping_prefix(pairs@, i + 1);
                }
                return Err(f);
            },
        }
        i = i + 1;
    }
    assert(pairs@.take(pairs@.len() as int) =~= pairs@);
    Ok(PklNonPrimitive::Mapping(type_id, PklValue::Mapping(mapping)))
}

/// Decodes a pair of two member values.
fn decode_pair(type_id: u64, slots: &[MsgValue]) -> (r: Result<PklNonPrimitive, DecodeFailure>)
    ensures
        r matches Ok(np) ==> np is Pair && np.type_code() == type_id && spec_pair(slots@) == Ok::<SpecValue, Fault>(
            np.spec_value(),
        ),
        r matches Err(f) ==> spec_pair(slots@) == Err::<SpecValue, Fault>(fault_of(f)),
    decreases slots@, 5int,
{
    if slots.len() < 2 {
        return Err(DecodeFailure::Aborts);
    }
    proof {
        assert(decreases_to!(slots@ => slots@[1]));
    }
    let first = decode_member(&slots[1])?;
    if slots.len() < 3 {
        return Err(DecodeFailure::Aborts);
    }
    proof {
        assert(decreases_to!(slots@ => slots@[2]));
    }
    let second = decode_member(&slots[2])?;
    Ok(PklNonPrimitive::Pair(type_id, first.into_value(), second.into_value()))
}

/// Decodes a duration: a number and the name of a unit.
fn decode_duration(type_id: u64, slots: &[MsgValue]) -> (r: Result<
    PklNonPrimitive,
    DecodeFailure,
>)
    ensures
        r matches Ok(np) ==> np is Duration && np.type_code() == type_id && spec_duration(slots@) == Ok::<SpecValue, Fault>(
            np.spec_value(),
        ),
        r matches Err(f) ==> spec_duration(slots@) == Err::<SpecValue, Fault>(fault_of(f)),
{
    if slots.len() < 2 {
        return Err(DecodeFailure::Aborts);
    }
    let value = match slots[1].as_f64() {
        Some(v) => v,
        None => {
            return Err(rejected_message("expected float for duration"));
        },
    };
    if slots.len() < 3 {
        return Err(DecodeFailure::Aborts);
    }
    let unit_name = match slots[2].as_str() {
        Some(u) => u,
        None => {
            return Err(rejected_message("expected time type"));
        },
    };
    match DurationUnit::from_name(unit_name.as_str()) {
        Some(unit) => if invalid_duration_amount(value, unit) {
            Err(rejected("invalid duration value"))
        } else {
            Ok(PklNonPrimitive::Duration(type_id, PklDuration { value, unit }))
        },
        None => {
            let quoted = debug_text(unit_name.as_str());
            Err(
                DecodeFailure::Rejected(
                    Error::DecodeError(concat("unknown duration unit: ", quoted.as_str())),
                ),
            )
        },
    }
}

/// The least bit pattern of a positive double that overflows once scaled by `unit`.
fn overflow_bits(unit: DurationUnit) -> (r: u64)
    ensures
        r == duration_overflow_bits(unit),
{
    match unit {
        DurationUnit::Nanoseconds => 0x7ff0_0000_0000_0000u64,
        DurationUnit::Microseconds => 0x7f50_624d_d2f1_a9fcu64,
        DurationUnit::Milliseconds => 0x7eb0_c6f7_a0b5_ed8du64,
        DurationUnit::Seconds => 0x7e11_2e0b_e826_d695u64,
        DurationUnit::Minutes => 0x7db2_533f_e68f_d3d2u64,
        DurationUnit::Hours => 0x7d53_8bff_e4dd_aebeu64,
        DurationUnit::Days => 0x7d0a_0fff_dbd2_3e52u64,
    }
}

/// Whether a duration's amount is refused, read from its bits.
fn invalid_duration_amount(v: FloatValue, unit: DurationUnit) -> (r: bool)
    ensures
        r == is_invalid_duration_amount(v, unit),
{
    match v {
        FloatValue::Bits64(b) => (b >> 52u64) & 0x7ffu64 == 0x7ffu64 || ((b >> 63u64) == 1u64 && (b
            & 0x7fff_ffff_ffff_ffffu64) != 0u64) || ((b >> 63u64) == 0u64 && b >= overflow_bits(
            unit,
        )),
        FloatValue::Bits32(b) => (b >> 23u32) & 0xffu32 == 0xffu32 || ((b >> 31u32) == 1u32 && (b
            & 0x7fff_ffffu32) != 0u32),
        FloatValue::Unsigned(_) => false,
        FloatValue::Signed(i) => i < 0,
    }
}

/// Decodes a data size: a number and the name of a unit.
fn decode_datasize(type_id: u64, slots: &[MsgValue]) -> (r: Result<
    PklNonPrimitive,
    DecodeFailure,
>)
    ensures
        r matches Ok(np) ==> np is DataSize && np.type_code() == type_id && spec_data_size(slots@) == Ok::<SpecValue, Fault>(
            np.spec_value(),
        ),
        r matches Err(f) ==> spec_data_size(slots@) == Err::<SpecValue, Fault>(fault_of(f)),
{
    if slots.len() < 2 {
        return Err(DecodeFailure::Aborts);
    }
    let value = match slots[1].as_f64() {
        Some(v) => v,
        None => {
            return Err(rejected_message("expected float for data size"));
        },
    };
    if slots.len() < 3 {
        return Err(DecodeFailure::Aborts);
    }
    let unit_name = match slots[2].as_str() {
        Some(u) => u,
        None => {
            return Err(rejected_message("expected size type"));
        },
    };
    match DataSizeUnit::from_name(unit_name.as_str()) {
        Some(unit) => Ok(PklNonPrimitive::DataSize(type_id, DataSize::new(value, unit))),
        None => Err(rejected("unknown data size unit")),
    }
}

/// Decodes an int seq: start, end and step.
fn decode_intseq(type_id: u64, slots: &[MsgValue]) -> (r: Result<
    PklNonPrimitive,
    DecodeFailure,
>)
    ensures
        r matches Ok(np) ==> np is IntSeq && np.type_code() == type_id && spec_int_seq(slots@) == Ok::<SpecValue, Fault>(
            np.spec_value(),
        ) && np.names_from(slots@),
        r matches Err(f) ==> spec_int_seq(slots@) == Err::<SpecValue, Fault>(fault_of(f)),
{
    if slots.len() < 2 {
        return Err(DecodeFailure::Aborts);
    }
    let start = match slots[1].as_i64() {
        Some(v) => v,
        None => {
            return Err(rejected_message("expected start for int seq"));
        },
    };
    if slots.len() < 3 {
        return Err(DecodeFailure::Aborts);
    }
    let end = match slots[2].as_i64() {
        Some(v) => v,
        None => {
            return Err(rejected_message("expected end for int seq"));
        },
    };
    if slots.len() < 4 {
        return Err(DecodeFailure::Aborts);
    }
    let step = match slots[3].as_i64() {
        Some(v) => v,
        None => {
            return Err(rejected_message("expected step for int seq"));
        },
    };
    Ok(PklNonPrimitive::IntSeq(type_id, start, end, step))
}

/// Decodes a regex: its pattern.
fn decode_regex(type_id: u64, slots: &[MsgValue]) -> (r: Result<PklNonPrimitive, DecodeFailure>)
    ensures
        r matches Ok(np) ==> np is Regex && np.type_code() == type_id && spec_regex(slots@) == Ok::<SpecValue, Fault>(
            np.spec_value(),
        ),
        r matches Err(f) ==> spec_regex(slots@) == Err::<SpecValue, Fault>(fault_of(f)),
{
    if slots.len() < 2 {
        return Err(rejected_message("expected pattern for regex"));
    }
    match slots[1].as_str() {
        Some(pattern) => Ok(PklNonPrimitive::Regex(type_id, pattern)),
        None => Err(rejected_message("expected pattern for regex")),
    }
}

/// Decodes bytes: a binary, or the bytes of a string.
fn decode_bytes(type_id: u64, slots: &[MsgValue]) -> (r: Result<PklNonPrimitive, DecodeFailure>)
    ensures
        r matches Ok(np) ==> np is Bytes && np.type_code() == type_id && spec_bytes(slots@) == Ok::<SpecValue, Fault>(
            np.spec_value(),
        ),
        r matches Err(f) ==> spec_bytes(slots@) == Err::<SpecValue, Fault>(fault_of(f)),
{
    if slots.len() < 2 {
        return Err(DecodeFailure::Aborts);
    }
    match slots[1].as_slice() {
        Some(values) => Ok(PklNonPrimitive::Bytes(type_id, values.clone())),
        None => Err(rejected_message("expected binary when decoding `Bytes`")),
    }
}

/// Decodes the members of a module, telling an error from an abort.
pub fn decode_members(items: &[MsgValue]) -> (r: Result<Vec<ObjectMember>, DecodeFailure>)
    ensures
        r matches Ok(ms) ==> spec_member_list(items@, true) == Ok::<
            Seq<(Seq<char>, SpecValue)>,
            Fault,
        >(view_members(ms@)),
        r matches Err(f) ==> spec_member_list(items@, true) == Err::<Seq<(Seq<char>, SpecValue)>, Fault>(
            fault_of(f),
        ),
{
    decode_member_list(items, true)
}

} // verus!
