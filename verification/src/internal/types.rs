//! The intermediate shapes that decoding produces before values become [`PklValue`]s.
use vstd::prelude::*;

use crate::internal::type_constants::{
    BYTES, DATA_SIZE, DURATION, INT_SEQ, LIST, LISTING, MAP, MAPPING, PAIR, REGEX, SET,
    TYPED_DYNAMIC,
};
use crate::msgpack::MsgValue;
use crate::pkl::serializer::serialize_members;
use crate::value::entries::entries_insert_all;
use crate::value::{
    view_list, DataSize, FloatValue, Integer, PklDuration, PklValue, SpecValue,
};

verus! {

/// Represents a member of a `.pkl` object. Fields: identifier, value.
#[derive(Debug, PartialEq)]
pub struct ObjectMember(pub String, pub PklValue);

impl ObjectMember {
    /// The member as an identifier and the model of its value.
    pub open spec fn spec_entry(self) -> (Seq<char>, SpecValue) {
        (self.0@, self.1@)
    }

    /// The member's identifier.
    pub fn get_ident(&self) -> (r: &str)
        ensures
            r@ == self.0@,
    {
        self.0.as_str()
    }
}

/// The members as identifier-value pairs, in order.
pub open spec fn view_members(s: Seq<ObjectMember>) -> Seq<(Seq<char>, SpecValue)> {
    Seq::new(s.len(), |i: int| s[i].spec_entry())
}

/// The map that members make when each is inserted in order: a later member with
/// an identifier already present replaces its value in place.
pub open spec fn members_map(entries: Seq<(Seq<char>, SpecValue)>) -> Seq<(Seq<char>, SpecValue)> {
    entries_insert_all(Seq::empty(), entries)
}

/// <https://pkl-lang.org/main/current/bindings-specification/binary-encoding.html#primitives>
#[derive(Debug, PartialEq)]
pub enum PklPrimitive {
    Int(Integer),
    Float(FloatValue),
    String(String),
    Boolean(bool),
    Null,
}

/// The non-primitive values of the binary encoding; each keeps its type code.
#[derive(Debug, PartialEq)]
pub enum PklNonPrimitive {
    /// Type code, fully qualified class name, enclosing module URI, members.
    TypedDynamic(u64, String, String, Vec<ObjectMember>),
    List(u64, Vec<PklValue>),
    Mapping(u64, PklValue),
    SetValues(u64, Vec<PklValue>),
    Duration(u64, PklDuration),
    DataSize(u64, DataSize),
    Pair(u64, PklValue, PklValue),
    /// Type code, start, end, step.
    IntSeq(u64, i64, i64, i64),
    Regex(u64, String),
    Bytes(u64, Vec<u8>),
}

/// A decoded member value before it becomes a [`PklValue`].
#[derive(Debug, PartialEq)]
pub enum IPklValue {
    Primitive(PklPrimitive),
    NonPrimitive(PklNonPrimitive),
}

impl PklPrimitive {
    /// The model of the value this primitive becomes.
    pub open spec fn spec_value(self) -> SpecValue {
        match self {
            PklPrimitive::Int(i) => SpecValue::Int(i),
            PklPrimitive::Float(f) => SpecValue::Int(Integer::Float(f)),
            PklPrimitive::String(s) => SpecValue::String(s@),
            PklPrimitive::Boolean(b) => SpecValue::Boolean(b),
            PklPrimitive::Null => SpecValue::Null,
        }
    }

    /// The value this primitive becomes; a float becomes [`Integer::Float`].
    pub fn into_value(self) -> (r: PklValue)
        ensures
            r@ == self.spec_value(),
    {
        match self {
            PklPrimitive::Int(i) => PklValue::Int(i),
            PklPrimitive::Float(f) => PklValue::Int(Integer::Float(f)),
            PklPrimitive::String(s) => PklValue::String(s),
            PklPrimitive::Boolean(b) => PklValue::Boolean(b),
            PklPrimitive::Null => PklValue::Null,
        }
    }
}

impl PklNonPrimitive {
    /// The type code it was decoded under.
    pub open spec fn type_code(self) -> u64 {
        match self {
            PklNonPrimitive::TypedDynamic(t, _, _, _) => t,
            PklNonPrimitive::List(t, _) => t,
            PklNonPrimitive::Mapping(t, _) => t,
            PklNonPrimitive::SetValues(t, _) => t,
            PklNonPrimitive::Duration(t, _) => t,
            PklNonPrimitive::DataSize(t, _) => t,
            PklNonPrimitive::Pair(t, _, _) => t,
            PklNonPrimitive::IntSeq(t, _, _, _) => t,
            PklNonPrimitive::Regex(t, _) => t,
            PklNonPrimitive::Bytes(t, _) => t,
        }
    }

    /// Whether this is the variant that the type code `code` decodes to.
    pub open spec fn is_variant_of_code(self, code: u64) -> bool {
        match self {
            PklNonPrimitive::TypedDynamic(..) => code == TYPED_DYNAMIC,
            PklNonPrimitive::List(..) => code == LIST || code == LISTING,
            PklNonPrimitive::Mapping(..) => code == MAP || code == MAPPING,
            PklNonPrimitive::SetValues(..) => code == SET,
            PklNonPrimitive::Duration(..) => code == DURATION,
            PklNonPrimitive::DataSize(..) => code == DATA_SIZE,
            PklNonPrimitive::Pair(..) => code == PAIR,
            PklNonPrimitive::IntSeq(..) => code == INT_SEQ,
            PklNonPrimitive::Regex(..) => code == REGEX,
            PklNonPrimitive::Bytes(..) => code == BYTES,
        }
    }

    /// The parts that its value leaves out come from the slots of its encoding: a typed
    /// object's class name and module URI, and an int seq's step.
    pub open spec fn names_from(self, slots: Seq<MsgValue>) -> bool {
        match self {
            PklNonPrimitive::TypedDynamic(_, name, uri, _) => slots.len() >= 3
                && slots[1].spec_as_str() == Some(name@) && slots[2].spec_as_str() == Some(uri@),
            PklNonPrimitive::IntSeq(_, _, _, step) => slots.len() >= 4 && slots[3].spec_as_i64()
                == Some(step),
            _ => true,
        }
    }

    /// The model of the value this non-primitive becomes.
    pub open spec fn spec_value(self) -> SpecValue {
        match self {
            PklNonPrimitive::TypedDynamic(_, _, _, m) => SpecValue::Mapping(
                members_map(view_members(m@)),
            ),
            PklNonPrimitive::List(_, items) => SpecValue::List(view_list(items@)),
            PklNonPrimitive::SetValues(_, items) => SpecValue::List(view_list(items@)),
            PklNonPrimitive::Mapping(_, m) => m@,
            PklNonPrimitive::Duration(_, d) => SpecValue::Duration(d),
            PklNonPrimitive::DataSize(_, d) => SpecValue::DataSize(d),
            PklNonPrimitive::Pair(_, a, b) => SpecValue::Pair(Box::new(a@), Box::new(b@)),
            PklNonPrimitive::IntSeq(_, start, end, _) => SpecValue::Range(start, end),
            PklNonPrimitive::Regex(_, r) => SpecValue::Regex(r@),
            PklNonPrimitive::Bytes(_, b) => SpecValue::Bytes(b@),
        }
    }

    /// The value this non-primitive becomes: a typed object becomes the map of its
    /// members, a list or set becomes a list, an int seq the range from its start to its end.
    pub fn into_value(self) -> (r: PklValue)
        ensures
            r@ == self.spec_value(),
    {
        match self {
            PklNonPrimitive::TypedDynamic(_, _, _, children) => PklValue::Mapping(
                serialize_members(children),
            ),
            PklNonPrimitive::List(_, items) => PklValue::List(items),
            PklNonPrimitive::SetValues(_, items) => PklValue::List(items),
            PklNonPrimitive::Mapping(_, m) => m,
            PklNonPrimitive::Duration(_, d) => PklValue::Duration(d),
            PklNonPrimitive::DataSize(_, d) => PklValue::DataSize(d),
            PklNonPrimitive::Pair(_, a, b) => PklValue::Pair(Box::new(a), Box::new(b)),
            PklNonPrimitive::IntSeq(_, start, end, _) => PklValue::Range(
                std::ops::Range { start, end },
            ),
            PklNonPrimitive::Regex(_, r) => PklValue::Regex(r),
            PklNonPrimitive::Bytes(_, b) => PklValue::Bytes(b),
        }
    }
}

impl IPklValue {
    /// The model of the value this becomes.
    pub open spec fn spec_value(self) -> SpecValue {
        match self {
            IPklValue::Primitive(p) => p.spec_value(),
            IPklValue::NonPrimitive(np) => np.spec_value(),
        }
    }

    /// The value this becomes.
    pub fn into_value(self) -> (r: PklValue)
        ensures
            r@ == self.spec_value(),
    {
        match self {
            IPklValue::Primitive(p) => p.into_value(),
            IPklValue::NonPrimitive(np) => np.into_value(),
        }
    }
}

} // verus!
