//! The values a pkl module evaluates to, and their mathematical model.
pub mod entries;

use vstd::prelude::*;

use crate::types::integer::{decimal_text, format_decimal};
use crate::utils::text::{concat, str_eq};
use crate::value::entries::{entries_get, entries_insert, key_index, lemma_key_index, lemma_key_index_at};

verus! {

/// A floating-point number as pkl sent it: the bit pattern of a 64-bit or of a 32-bit
/// IEEE-754 float, or an integer that stands for the float it converts to.
#[derive(Clone, Copy, Debug, PartialEq, Eq, Structural)]
pub enum FloatValue {
    Bits64(u64),
    Bits32(u32),
    Unsigned(u64),
    Signed(i64),
}

/// Represents a number in `.pkl`.
#[derive(Clone, Copy, Debug, PartialEq, Eq, Structural)]
pub enum Integer {
    Pos(u64),
    Float(FloatValue),
    Neg(i64),
}

/// Unit of a pkl `Duration`.
#[derive(Clone, Copy, Debug, PartialEq, Eq, Structural)]
pub enum DurationUnit {
    Nanoseconds,
    Microseconds,
    Milliseconds,
    Seconds,
    Minutes,
    Hours,
    Days,
}

/// A pkl `Duration`: a float amount of a unit.
#[derive(Clone, Copy, Debug, PartialEq, Eq, Structural)]
pub struct PklDuration {
    pub value: FloatValue,
    pub unit: DurationUnit,
}

/// Unit of a pkl `DataSize`.
#[derive(Clone, Copy, Debug, PartialEq, Eq, Structural)]
pub enum DataSizeUnit {
    Bytes,
    Kilobytes,
    Kibibytes,
    Megabytes,
    Mebibytes,
    Gigabytes,
    Gibibytes,
    Terabytes,
    Tebibytes,
    Petabytes,
    Pebibytes,
}

/// The unit that a pkl data size unit name (`b`, `kb`, `kib`, ...) denotes.
pub open spec fn spec_data_size_unit(s: Seq<char>) -> Option<DataSizeUnit> {
    if s == "b"@ {
        Some(DataSizeUnit::Bytes)
    } else if s == "kb"@ {
        Some(DataSizeUnit::Kilobytes)
    } else if s == "kib"@ {
        Some(DataSizeUnit::Kibibytes)
    } else if s == "mb"@ {
        Some(DataSizeUnit::Megabytes)
    } else if s == "mib"@ {
        Some(DataSizeUnit::Mebibytes)
    } else if s == "gb"@ {
        Some(DataSizeUnit::Gigabytes)
    } else if s == "gib"@ {
        Some(DataSizeUnit::Gibibytes)
    } else if s == "tb"@ {
        Some(DataSizeUnit::Terabytes)
    } else if s == "tib"@ {
        Some(DataSizeUnit::Tebibytes)
    } else if s == "pb"@ {
        Some(DataSizeUnit::Petabytes)
    } else if s == "pib"@ {
        Some(DataSizeUnit::Pebibytes)
    } else {
        None
    }
}

/// The unit that a pkl duration unit name (`ns`, `us`, `ms`, `s`, `min`, `h`, `d`) denotes.
pub open spec fn spec_duration_unit(s: Seq<char>) -> Option<DurationUnit> {
    if s == "ns"@ {
        Some(DurationUnit::Nanoseconds)
    } else if s == "us"@ {
        Some(DurationUnit::Microseconds)
    } else if s == "ms"@ {
        Some(DurationUnit::Milliseconds)
    } else if s == "s"@ {
        Some(DurationUnit::Seconds)
    } else if s == "min"@ {
        Some(DurationUnit::Minutes)
    } else if s == "h"@ {
        Some(DurationUnit::Hours)
    } else if s == "d"@ {
        Some(DurationUnit::Days)
    } else {
        None
    }
}

/// Each pkl duration unit name denotes its own unit: `ns` nanoseconds, `us` microseconds,
/// `ms` milliseconds, `s` seconds, `min` minutes, `h` hours and `d` days. Other names,
/// such as `m`, `sec` or `H`, denote none.
pub proof fn law_duration_unit_names()
    ensures
        spec_duration_unit("ns"@) == Some(DurationUnit::Nanoseconds),
        spec_duration_unit("us"@) == Some(DurationUnit::Microseconds),
        spec_duration_unit("ms"@) == Some(DurationUnit::Milliseconds),
        spec_duration_unit("s"@) == Some(DurationUnit::Seconds),
        spec_duration_unit("min"@) == Some(DurationUnit::Minutes),
        spec_duration_unit("h"@) == Some(DurationUnit::Hours),
        spec_duration_unit("d"@) == Some(DurationUnit::Days),
        spec_duration_unit("m"@) is None,
        spec_duration_unit("sec"@) is None,
        spec_duration_unit("H"@) is None,
{
    reveal_strlit("ns");
    reveal_strlit("us");
    reveal_strlit("ms");
    reveal_strlit("s");
    reveal_strlit("min");
    reveal_strlit("h");
    reveal_strlit("d");
    reveal_strlit("m");
    reveal_strlit("sec");
    reveal_strlit("H");
    assert("us"@[0] != "ns"@[0]);
    assert("ms"@[0] != "ns"@[0]);
    assert("ms"@[0] != "us"@[0]);
    assert("s"@.len() != "ns"@.len());
    assert("s"@.len() != "us"@.len());
    assert("s"@.len() != "ms"@.len());
    assert("min"@.len() != "ns"@.len());
    assert("min"@.len() != "us"@.len());
    assert("min"@.len() != "ms"@.len());
    assert("min"@.len() != "s"@.len());
    assert("h"@.len() != "ns"@.len());
    assert("h"@.len() != "us"@.len());
    assert("h"@.len() != "ms"@.len());
    assert("h"@[0] != "s"@[0]);
    assert("h"@.len() != "min"@.len());
    assert("d"@.len() != "ns"@.len());
    assert("d"@.len() != "us"@.len());
    assert("d"@.len() != "ms"@.len());
    assert("d"@[0] != "s"@[0]);
    assert("d"@.len() != "min"@.len());
    assert("d"@[0] != "h"@[0]);
    assert("m"@.len() != "ns"@.len());
    assert("m"@.len() != "us"@.len());
    assert("m"@.len() != "ms"@.len());
    assert("m"@[0] != "s"@[0]);
    assert("m"@.len() != "min"@.len());
    assert("m"@[0] != "h"@[0]);
    assert("m"@[0] != "d"@[0]);
    assert("sec"@.len() != "ns"@.len());
    assert("sec"@.len() != "us"@.len());
    assert("sec"@.len() != "ms"@.len());
    assert("sec"@.len() != "s"@.len());
    assert("sec"@[0] != "min"@[0]);
    assert("sec"@.len() != "h"@.len());
    assert("sec"@.len() != "d"@.len());
    assert("H"@.len() != "ns"@.len());
    assert("H"@.len() != "us"@.len());
    assert("H"@.len() != "ms"@.len());
    assert("H"@[0] != "s"@[0]);
    assert("H"@.len() != "min"@.len());
    assert("H"@[0] != "h"@[0]);
    assert("H"@[0] != "d"@[0]);
}

/// Each pkl data size unit name denotes its own unit: `b` bytes, `kb`/`kib` kilo- and
/// kibibytes, `mb`/`mib`, `gb`/`gib`, `tb`/`tib` and `pb`/`pib` likewise. Other names,
/// such as `KB` or `eb`, denote none.
pub proof fn law_data_size_unit_names()
    ensures
        spec_data_size_unit("b"@) == Some(DataSizeUnit::Bytes),
        spec_data_size_unit("kb"@) == Some(DataSizeUnit::Kilobytes),
        spec_data_size_unit("kib"@) == Some(DataSizeUnit::Kibibytes),
        spec_data_size_unit("mb"@) == Some(DataSizeUnit::Megabytes),
        spec_data_size_unit("mib"@) == Some(DataSizeUnit::Mebibytes),
        spec_data_size_unit("gb"@) == Some(DataSizeUnit::Gigabytes),
        spec_data_size_unit("gib"@) == Some(DataSizeUnit::Gibibytes),
        spec_data_size_unit("tb"@) == Some(DataSizeUnit::Terabytes),
        spec_data_size_unit("tib"@) == Some(DataSizeUnit::Tebibytes),
        spec_data_size_unit("pb"@) == Some(DataSizeUnit::Petabytes),
        spec_data_size_unit("pib"@) == Some(DataSizeUnit::Pebibytes),
        spec_data_size_unit("KB"@) is None,
        spec_data_size_unit("eb"@) is None,
{
    reveal_strlit("b");
    reveal_strlit("kb");
    reveal_strlit("kib");
    reveal_strlit("mb");
    reveal_strlit("mib");
    reveal_strlit("gb");
    reveal_strlit("gib");
    reveal_strlit("tb");
    reveal_strlit("tib");
    reveal_strlit("pb");
    reveal_strlit("pib");
    reveal_strlit("KB");
    reveal_strlit("eb");
    assert("kb"@.len() != "b"@.len());
    assert("kib"@.len() != "b"@.len());
    assert("kib"@.len() != "kb"@.len());
    assert("mb"@.len() != "b"@.len());
    assert("mb"@[0] != "kb"@[0]);
    assert("mb"@.len() != "kib"@.len());
    assert("mib"@.len() != "b"@.len());
    assert("mib"@.len() != "kb"@.len());
    assert("mib"@[0] != "kib"@[0]);
    assert("mib"@.len() != "mb"@.len());
    assert("gb"@.len() != "b"@.len());
    assert("gb"@[0] != "kb"@[0]);
    assert("gb"@.len() != "kib"@.len());
    assert("gb"@[0] != "mb"@[0]);
    assert("gb"@.len() != "mib"@.len());
    assert("gib"@.len() != "b"@.len());
    assert("gib"@.len() != "kb"@.len());
    assert("gib"@[0] != "kib"@[0]);
    assert("gib"@.len() != "mb"@.len());
    assert("gib"@[0] != "mib"@[0]);
    assert("gib"@.len() != "gb"@.len());
    assert("tb"@.len() != "b"@.len());
    assert("tb"@[0] != "kb"@[0]);
    assert("tb"@.len() != "kib"@.len());
    assert("tb"@[0] != "mb"@[0]);
    assert("tb"@.len() != "mib"@.len());
    assert("tb"@[0] != "gb"@[0]);
    assert("tb"@.len() != "gib"@.len());
    assert("tib"@.len() != "b"@.len());
    assert("tib"@.len() != "kb"@.len());
    assert("tib"@[0] != "kib"@[0]);
    assert("tib"@.len() != "mb"@.len());
    assert("tib"@[0] != "mib"@[0]);
    assert("tib"@.len() != "gb"@.len());
    assert("tib"@[0] != "gib"@[0]);
    assert("tib"@.len() != "tb"@.len());
    assert("pb"@.len() != "b"@.len());
    assert("pb"@[0] != "kb"@[0]);
    assert("pb"@.len() != "kib"@.len());
    assert("pb"@[0] != "mb"@[0]);
    assert("pb"@.len() != "mib"@.len());
    assert("pb"@[0] != "gb"@[0]);
    assert("pb"@.len() != "gib"@.len());
    assert("pb"@[0] != "tb"@[0]);
    assert("pb"@.len() != "tib"@.len());
    assert("pib"@.len() != "b"@.len());
    assert("pib"@.len() != "kb"@.len());
    assert("pib"@[0] != "kib"@[0]);
    assert("pib"@.len() != "mb"@.len());
    assert("pib"@[0] != "mib"@[0]);
    assert("pib"@.len() != "gb"@.len());
    assert("pib"@[0] != "gib"@[0]);
    assert("pib"@.len() != "tb"@.len());
    assert("pib"@[0] != "tib"@[0]);
    assert("pib"@.len() != "pb"@.len());
    assert("KB"@.len() != "b"@.len());
    assert("KB"@[0] != "kb"@[0]);
    assert("KB"@.len() != "kib"@.len());
    assert("KB"@[0] != "mb"@[0]);
    assert("KB"@.len() != "mib"@.len());
    assert("KB"@[0] != "gb"@[0]);
    assert("KB"@.len() != "gib"@.len());
    assert("KB"@[0] != "tb"@[0]);
    assert("KB"@.len() != "tib"@.len());
    assert("KB"@[0] != "pb"@[0]);
    assert("KB"@.len() != "pib"@.len());
    assert("eb"@.len() != "b"@.len());
    assert("eb"@[0] != "kb"@[0]);
    assert("eb"@.len() != "kib"@.len());
    assert("eb"@[0] != "mb"@[0]);
    assert("eb"@.len() != "mib"@.len());
    assert("eb"@[0] != "gb"@[0]);
    assert("eb"@.len() != "gib"@.len());
    assert("eb"@[0] != "tb"@[0]);
    assert("eb"@.len() != "tib"@.len());
    assert("eb"@[0] != "pb"@[0]);
    assert("eb"@.len() != "pib"@.len());
}

impl DataSizeUnit {
    /// The unit a pkl data size unit name denotes, if any.
    pub fn from_name(s: &str) -> (r: Option<DataSizeUnit>)
        ensures
            r == spec_data_size_unit(s@),
    {
        if str_eq(s, "b") {
            Some(DataSizeUnit::Bytes)
        } else if str_eq(s, "kb") {
            Some(DataSizeUnit::Kilobytes)
        } else if str_eq(s, "kib") {
            Some(DataSizeUnit::Kibibytes)
        } else if str_eq(s, "mb") {
            Some(DataSizeUnit::Megabytes)
        } else if str_eq(s, "mib") {
            Some(DataSizeUnit::Mebibytes)
        } else if str_eq(s, "gb") {
            Some(DataSizeUnit::Gigabytes)
        } else if str_eq(s, "gib") {
            Some(DataSizeUnit::Gibibytes)
        } else if str_eq(s, "tb") {
            Some(DataSizeUnit::Terabytes)
        } else if str_eq(s, "tib") {
            Some(DataSizeUnit::Tebibytes)
        } else if str_eq(s, "pb") {
            Some(DataSizeUnit::Petabytes)
        } else if str_eq(s, "pib") {
            Some(DataSizeUnit::Pebibytes)
        } else {
            None
        }
    }
}

impl DurationUnit {
    /// The unit a pkl duration unit name denotes, if any.
    pub fn from_name(s: &str) -> (r: Option<DurationUnit>)
        ensures
            r == spec_duration_unit(s@),
    {
        if str_eq(s, "ns") {
            Some(DurationUnit::Nanoseconds)
        } else if str_eq(s, "us") {
            Some(DurationUnit::Microseconds)
        } else if str_eq(s, "ms") {
            Some(DurationUnit::Milliseconds)
        } else if str_eq(s, "s") {
            Some(DurationUnit::Seconds)
        } else if str_eq(s, "min") {
            Some(DurationUnit::Minutes)
        } else if str_eq(s, "h") {
            Some(DurationUnit::Hours)
        } else if str_eq(s, "d") {
            Some(DurationUnit::Days)
        } else {
            None
        }
    }
}

/// A pkl `DataSize`: a float amount of a unit.
#[derive(Clone, Copy, Debug, PartialEq, Eq, Structural)]
pub struct DataSize {
    pub value: FloatValue,
    pub unit: DataSizeUnit,
}

impl DataSize {
    pub fn new(value: FloatValue, unit: DataSizeUnit) -> (r: DataSize)
        ensures
            r == (DataSize { value, unit }),
    {
        DataSize { value, unit }
    }
}

/// <https://pkl-lang.org/package-docs/pkl/0.26.1/base/IntSeq>
pub type IntSeq = std::ops::Range<i64>;

/// Represents a `.pkl` value.
#[derive(Debug, PartialEq)]
pub enum PklValue {
    Mapping(ValueMap),
    List(Vec<PklValue>),
    String(String),
    Int(Integer),
    Boolean(bool),
    Null,
    Pair(Box<PklValue>, Box<PklValue>),
    Duration(PklDuration),
    DataSize(DataSize),
    Range(IntSeq),
    Regex(String),
    Bytes(Vec<u8>),
}

/// The mathematical model of a [`PklValue`]: strings as character sequences,
/// mappings as association lists in insertion order.
pub enum SpecValue {
    Mapping(Seq<(Seq<char>, SpecValue)>),
    List(Seq<SpecValue>),
    String(Seq<char>),
    Int(Integer),
    Boolean(bool),
    Null,
    Pair(Box<SpecValue>, Box<SpecValue>),
    Duration(PklDuration),
    DataSize(DataSize),
    Range(i64, i64),
    Regex(Seq<char>),
    Bytes(Seq<u8>),
}

/// An insertion-ordered map from strings to pkl values in which no key occurs twice.
#[derive(Debug, PartialEq)]
pub struct ValueMap {
    entries: Vec<(String, PklValue)>,
}

pub open spec fn view_value(v: PklValue) -> SpecValue
    decreases v, 0int,
{
    match v {
        PklValue::Mapping(m) => SpecValue::Mapping(view_map(m)),
        PklValue::List(l) => SpecValue::List(view_list(l@)),
        PklValue::String(s) => SpecValue::String(s@),
        PklValue::Int(i) => SpecValue::Int(i),
        PklValue::Boolean(b) => SpecValue::Boolean(b),
        PklValue::Null => SpecValue::Null,
        PklValue::Pair(a, b) => SpecValue::Pair(Box::new(view_value(*a)), Box::new(view_value(*b))),
        PklValue::Duration(d) => SpecValue::Duration(d),
        PklValue::DataSize(d) => SpecValue::DataSize(d),
        PklValue::Range(r) => SpecValue::Range(r.start, r.end),
        PklValue::Regex(s) => SpecValue::Regex(s@),
        PklValue::Bytes(b) => SpecValue::Bytes(b@),
    }
}

/// The model of a sequence of values, element by element.
pub open spec fn view_list(s: Seq<PklValue>) -> Seq<SpecValue>
    decreases s, 0int,
{
    if s.len() == 0 {
        Seq::empty()
    } else {
        view_list(s.drop_last()).push(view_value(s.last()))
    }
}

/// The model of a map: its entries in order, keys and values by their models.
pub closed spec fn view_map(m: ValueMap) -> Seq<(Seq<char>, SpecValue)>
    decreases m, 1int,
{
    view_entry_seq(m.entries@)
}

pub closed spec fn view_entry_seq(s: Seq<(String, PklValue)>) -> Seq<(Seq<char>, SpecValue)>
    decreases s, 0int,
{
    if s.len() == 0 {
        Seq::empty()
    } else {
        proof {
            assert(decreases_to!(s => s.last()));
        }
        view_entry_seq(s.drop_last()).push((s.last().0@, view_value(s.last().1)))
    }
}

impl View for PklValue {
    type V = SpecValue;

    open spec fn view(&self) -> SpecValue {
        view_value(*self)
    }
}

impl View for ValueMap {
    type V = Seq<(Seq<char>, SpecValue)>;

    open spec fn view(&self) -> Seq<(Seq<char>, SpecValue)> {
        view_map(*self)
    }
}

pub proof fn lemma_view_list(s: Seq<PklValue>)
    ensures
        view_list(s).len() == s.len(),
        forall|i: int| 0 <= i < s.len() ==> #[trigger] view_list(s)[i] == view_value(s[i]),
    decreases s.len(),
{
    if s.len() > 0 {
        lemma_view_list(s.drop_last());
    }
}

pub proof fn lemma_view_list_push(s: Seq<PklValue>, x: PklValue)
    ensures
        view_list(s.push(x)) == view_list(s).push(view_value(x)),
{
    assert(s.push(x).drop_last() =~= s);
}

proof fn lemma_view_entry_seq(s: Seq<(String, PklValue)>)
    ensures
        view_entry_seq(s).len() == s.len(),
        forall|i: int|
            0 <= i < s.len() ==> #[trigger] view_entry_seq(s)[i] == (s[i].0@, view_value(s[i].1)),
    decreases s.len(),
{
    if s.len() > 0 {
        lemma_view_entry_seq(s.drop_last());
    }
}

impl ValueMap {
    proof fn lemma_view(&self)
        ensures
            self@.len() == self.entries@.len(),
            forall|i: int|
                0 <= i < self.entries@.len() ==> #[trigger] self@[i] == (
                self.entries@[i].0@,
                view_value(self.entries@[i].1),
            ),
    {
        lemma_view_entry_seq(self.entries@);
    }

    /// Creates an empty map.
    pub fn new() -> (m: ValueMap)
        ensures
            m@ == Seq::<(Seq<char>, SpecValue)>::empty(),
    {
        let m = ValueMap { entries: Vec::new() };
        proof {
            m.lemma_view();
        }
        assert(m@ =~= Seq::<(Seq<char>, SpecValue)>::empty());
        m
    }

    /// Creates an empty map with room for `n` entries.
    pub fn with_capacity(n: usize) -> (m: ValueMap)
        ensures
            m@ == Seq::<(Seq<char>, SpecValue)>::empty(),
    {
        let m = ValueMap { entries: Vec::with_capacity(n) };
        proof {
            m.lemma_view();
        }
        assert(m@ =~= Seq::<(Seq<char>, SpecValue)>::empty());
        m
    }

    /// Number of entries.
    pub fn len(&self) -> (n: usize)
        ensures
            n == self@.len(),
    {
        proof {
            self.lemma_view();
        }
        self.entries.len()
    }

    /// Whether the map holds no entry.
    pub fn is_empty(&self) -> (b: bool)
        ensures
            b == (self@.len() == 0),
    {
        proof {
            self.lemma_view();
        }
        self.entries.len() == 0
    }

    /// Position of the first entry with the given key.
    fn find(&self, key: &str) -> (r: Option<usize>)
        ensures
            r matches Some(i) ==> i == key_index(self@, key@) && i < self.entries@.len(),
            r is None ==> key_index(self@, key@) == -1,
    {
        proof {
            self.lemma_view();
            lemma_key_index(self@, key@);
        }
        let mut i: usize = 0;
        while i < self.entries.len()
            invariant
                i <= self.entries@.len(),
                self@.len() == self.entries@.len(),
                forall|j: int|
                    0 <= j < self.entries@.len() ==> #[trigger] self@[j] == (
                    self.entries@[j].0@,
                    view_value(self.entries@[j].1),
                ),
                forall|j: int| 0 <= j < i ==> (#[trigger] self@[j]).0 != key@,
            decreases self.entries.len() - i,
        {
            if crate::utils::text::str_eq(self.entries[i].0.as_str(), key) {
                proof {
                    lemma_key_index_at(self@, key@, i as int);
                }
                return Some(i);
            }
            i = i + 1;
        }
        None
    }

    /// Inserts a key-value pair. An existing key keeps its position and takes the new value,
    /// whose previous value is returned; a new key is appended last.
    pub fn insert(&mut self, key: String, value: PklValue) -> (prev: Option<PklValue>)
        ensures
            final(self)@ == entries_insert(old(self)@, key@, value@),
            prev is Some <==> key_index(old(self)@, key@) >= 0,
            prev matches Some(p) ==> entries_get(old(self)@, key@) == Some(p@),
    {
        let ghost key_view = key@;
        let ghost value_view = value@;
        let ghost old_view = self@;
        let ghost old_entries = self.entries@;
        proof {
            self.lemma_view();
            lemma_key_index(old_view, key_view);
        }
        match self.find(key.as_str()) {
            Some(i) => {
                let (k, p) = self.entries.remove(i);
                self.entries.insert(i, (k, value));
                proof {
                    assert(self.entries@ =~= old_entries.update(i as int, (k, value)));
                    assert(old_view[i as int].0 == key_view);
                    self.lemma_view();
                    assert(self@ =~= entries_insert(old_view, key_view, value_view));
                }
                Some(p)
            },
            None => {
                self.entries.push((key, value));
                proof {
                    self.lemma_view();
                    assert(self@ =~= entries_insert(old_view, key_view, value_view));
                }
                None
            },
        }
    }

    /// The value stored under `key`, if any.
    pub fn get(&self, key: &str) -> (r: Option<&PklValue>)
        ensures
            r is Some <==> key_index(self@, key@) >= 0,
            r matches Some(v) ==> entries_get(self@, key@) == Some(v@),
    {
        proof {
            self.lemma_view();
        }
        match self.find(key) {
            Some(i) => Some(&self.entries[i].1),
            None => None,
        }
    }

    /// Whether some entry has the given key.
    pub fn contains_key(&self, key: &str) -> (b: bool)
        ensures
            b == (key_index(self@, key@) >= 0),
    {
        self.find(key).is_some()
    }

    /// The entries, in order.
    pub fn entries(&self) -> (r: &Vec<(String, PklValue)>)
        ensures
            r@.len() == self@.len(),
            forall|i: int|
                0 <= i < r@.len() ==> #[trigger] self@[i] == (r@[i].0@, view_value(r@[i].1)),
    {
        proof {
            self.lemma_view();
        }
        &self.entries
    }
}

impl PklValue {
    /// The map, if this value is one.
    pub fn as_map(&self) -> (r: Option<&ValueMap>)
        ensures
            r is Some <==> self is Mapping,
            r matches Some(m) ==> *self == PklValue::Mapping(*m),
    {
        match self {
            PklValue::Mapping(m) => Some(m),
            _ => None,
        }
    }

    /// The list, if this value is one.
    pub fn as_array(&self) -> (r: Option<&Vec<PklValue>>)
        ensures
            r is Some <==> self is List,
            r matches Some(l) ==> *self == PklValue::List(*l),
    {
        match self {
            PklValue::List(l) => Some(l),
            _ => None,
        }
    }

    /// The number, if this value is one.
    pub fn as_int(&self) -> (r: Option<&Integer>)
        ensures
            r is Some <==> self is Int,
            r matches Some(i) ==> *self == PklValue::Int(*i),
    {
        match self {
            PklValue::Int(i) => Some(i),
            _ => None,
        }
    }

    /// The boolean, if this value is one.
    pub fn as_bool(&self) -> (r: Option<&bool>)
        ensures
            r is Some <==> self is Boolean,
            r matches Some(b) ==> *self == PklValue::Boolean(*b),
    {
        match self {
            PklValue::Boolean(b) => Some(b),
            _ => None,
        }
    }

    /// The string, if this value is one.
    pub fn as_str(&self) -> (r: Option<&str>)
        ensures
            r is Some <==> self is String,
            r matches Some(s) ==> self@ == SpecValue::String(s@),
    {
        match self {
            PklValue::String(s) => Some(s.as_str()),
            _ => None,
        }
    }
}

/// The number that a deserialized signed integer becomes: one that fits in an `i32`, as
/// [`Integer::Pos`] when it is not negative and as [`Integer::Neg`] otherwise.
pub fn integer_from_i64(value: i64) -> (r: Result<Integer, String>)
    ensures
        i32::MIN <= value <= i32::MAX && value >= 0 ==> r == Ok::<Integer, String>(
            Integer::Pos(value as u64),
        ),
        i32::MIN <= value <= i32::MAX && value < 0 ==> r == Ok::<Integer, String>(
            Integer::Neg(value),
        ),
        !(i32::MIN <= value <= i32::MAX) ==> (r matches Err(e) && e@ == "i32 out of range: "@
            + decimal_text(value as int)),
{
    if -2147483648 <= value && value <= 2147483647 {
        if value >= 0 {
            Ok(Integer::Pos(value as u64))
        } else {
            Ok(Integer::Neg(value))
        }
    } else {
        let digits = format_decimal(value as i128);
        Err(concat("i32 out of range: ", digits.as_str()))
    }
}

/// The number that a deserialized unsigned integer becomes: one that fits in an `i64`, as
/// [`Integer::Pos`].
pub fn integer_from_u64(value: u64) -> (r: Result<Integer, String>)
    ensures
        value <= i64::MAX ==> r == Ok::<Integer, String>(Integer::Pos(value)),
        value > i64::MAX ==> (r matches Err(e) && e@ == "u64 out of range: "@ + decimal_text(
            value as int,
        )),
{
    if value <= 9223372036854775807u64 {
        Ok(Integer::Pos(value))
    } else {
        let digits = format_decimal(value as i128);
        Err(concat("u64 out of range: ", digits.as_str()))
    }
}

} // verus!
