//! Client-side readers and the handling of the server's read and list requests.

use vstd::prelude::*;
use vstd::string::StrSliceExecFns;

use crate::internal::msgapi::incoming::PklServerMessage;
use crate::internal::msgapi::outgoing::{
    ListModulesResponse, ListResourcesResponse, PathElements, ReadModuleResponse,
    ReadResourceResponse,
};
use crate::msgpack::{spec_utf8, MsgValue};
use vstd::utf8::{decode_utf8, valid_utf8};
use crate::utils::text::{
    concat, debug_text, first_index_of, lemma_first_index_of, owned, str_debug, str_eq,
};

verus! {

/// A reader of resources under one URI scheme, run on the client side.
///
/// The spec functions describe a reader to verified callers: its scheme and flags, and
/// which outcomes a read or a list of a URI may give. An implementation states its own by
/// overriding them; the default bodies name no scheme, give the flags as `false` and allow
/// every outcome. Each flag has its own method, with no default body: a default body could
/// not be held to a spec function that an implementation may override on its own.
pub trait PklResourceReader {
    /// The scheme that `scheme` gives.
    open spec fn spec_scheme(&self) -> Seq<char> {
        Seq::empty()
    }

    /// What `has_hierarchical_uris` gives.
    open spec fn spec_hierarchical(&self) -> bool {
        false
    }

    /// What `is_globbable` gives.
    open spec fn spec_globbable(&self) -> bool {
        false
    }

    /// Whether a read of `uri` may give `outcome`.
    open spec fn read_gives(&self, uri: Seq<char>, outcome: Result<Vec<u8>, String>) -> bool {
        true
    }

    /// Whether a list of `uri` may give `outcome`.
    open spec fn list_gives(&self, uri: Seq<char>, outcome: Result<Vec<PathElements>, String>) -> bool {
        true
    }

    /// The URI scheme this reader is responsible for.
    fn scheme(&self) -> (r: &str)
        ensures
            r@ == self.spec_scheme(),
    ;

    /// Whether the path part of the URIs is hierarchical.
    fn has_hierarchical_uris(&self) -> (r: bool)
        ensures
            r == self.spec_hierarchical(),
    ;

    /// Whether this reader supports globbing.
    fn is_globbable(&self) -> (r: bool)
        ensures
            r == self.spec_globbable(),
    ;

    /// The contents of the resource at `uri`, or a description of what went wrong.
    fn read(&self, uri: &str) -> (r: Result<Vec<u8>, String>)
        ensures
            self.read_gives(uri@, r),
    ;

    /// The elements under `uri`, or a description of what went wrong.
    fn list(&self, uri: &str) -> (r: Result<Vec<PathElements>, String>)
        ensures
            self.list_gives(uri@, r),
    ;
}

/// A reader of modules under one URI scheme, run on the client side.
///
/// The spec functions describe a reader to verified callers, as for resource readers.
pub trait PklModuleReader {
    /// The scheme that `scheme` gives.
    open spec fn spec_scheme(&self) -> Seq<char> {
        Seq::empty()
    }

    /// What `has_hierarchical_uris` gives.
    open spec fn spec_hierarchical(&self) -> bool {
        false
    }

    /// What `is_globbable` gives.
    open spec fn spec_globbable(&self) -> bool {
        false
    }

    /// What `is_local` gives.
    open spec fn spec_local(&self) -> bool {
        false
    }

    /// Whether a read of `uri` may give `outcome`.
    open spec fn read_gives(&self, uri: Seq<char>, outcome: Result<String, String>) -> bool {
        true
    }

    /// Whether a list of `uri` may give `outcome`.
    open spec fn list_gives(&self, uri: Seq<char>, outcome: Result<Vec<PathElements>, String>) -> bool {
        true
    }

    /// The URI scheme this reader is responsible for.
    fn scheme(&self) -> (r: &str)
        ensures
            r@ == self.spec_scheme(),
    ;

    /// Whether the path part of the URIs is hierarchical.
    fn has_hierarchical_uris(&self) -> (r: bool)
        ensures
            r == self.spec_hierarchical(),
    ;

    /// Whether this reader supports globbing.
    fn is_globbable(&self) -> (r: bool)
        ensures
            r == self.spec_globbable(),
    ;

    /// Whether the modules are local to the machine.
    fn is_local(&self) -> (r: bool)
        ensures
            r == self.spec_local(),
    ;

    /// The source of the module at `uri`, or a description of what went wrong.
    fn read(&self, uri: &str) -> (r: Result<String, String>)
        ensures
            self.read_gives(uri@, r),
    ;

    /// The elements under `uri`, or a description of what went wrong.
    fn list(&self, uri: &str) -> (r: Result<Vec<PathElements>, String>)
        ensures
            self.list_gives(uri@, r),
    ;
}

/// A reader, or several, to register at once.
pub trait IntoResourceReaders {
    /// How many readers this gives.
    spec fn reader_count(&self) -> nat;

    /// The readers this gives, in order.
    spec fn boxed_readers(&self) -> Seq<Box<dyn PklResourceReader>>;

    fn into_readers(self) -> (r: Vec<Box<dyn PklResourceReader>>)
        ensures
            r@.len() == self.reader_count(),
            r@ == self.boxed_readers(),
    ;
}

/// A reader, or several, to register at once.
pub trait IntoModuleReaders {
    /// How many readers this gives.
    spec fn reader_count(&self) -> nat;

    /// The readers this gives, in order.
    spec fn boxed_readers(&self) -> Seq<Box<dyn PklModuleReader>>;

    fn into_readers(self) -> (r: Vec<Box<dyn PklModuleReader>>)
        ensures
            r@.len() == self.reader_count(),
            r@ == self.boxed_readers(),
    ;
}

impl<T: PklResourceReader + 'static> IntoResourceReaders for T {
    open spec fn reader_count(&self) -> nat {
        1
    }

    open spec fn boxed_readers(&self) -> Seq<Box<dyn PklResourceReader>> {
        let a: Box<dyn PklResourceReader> = Box::new(*self);
        seq![a]
    }

    /// The reader alone.
    fn into_readers(self) -> (r: Vec<Box<dyn PklResourceReader>>)
        ensures
            r@.len() == 1,
    {
        let a: Box<dyn PklResourceReader> = Box::new(self);
        vec![a]
    }
}

impl<T1: PklResourceReader + 'static, T2: PklResourceReader + 'static> IntoResourceReaders for (T1, T2) {
    open spec fn reader_count(&self) -> nat {
        2
    }

    /// The readers of each element, in order.
    open spec fn boxed_readers(&self) -> Seq<Box<dyn PklResourceReader>> {
        self.0.boxed_readers() + self.1.boxed_readers()
    }

    /// The readers, in order.
    fn into_readers(self) -> (r: Vec<Box<dyn PklResourceReader>>)
        ensures
            r@.len() == 2,
    {
        let ghost expected = self.boxed_readers();
        let (r1, r2) = self;
        let mut v = r1.into_readers();
        let mut w2 = r2.into_readers();
        v.append(&mut w2);
        assert(v@ =~= expected);
        v
    }
}

impl<T1: PklResourceReader + 'static, T2: PklResourceReader + 'static, T3: PklResourceReader + 'static> IntoResourceReaders for (T1, T2, T3) {
    open spec fn reader_count(&self) -> nat {
        3
    }

    /// The readers of each element, in order.
    open spec fn boxed_readers(&self) -> Seq<Box<dyn PklResourceReader>> {
        self.0.boxed_readers() + self.1.boxed_readers() + self.2.boxed_readers()
    }

    /// The readers, in order.
    fn into_readers(self) -> (r: Vec<Box<dyn PklResourceReader>>)
        ensures
            r@.len() == 3,
    {
        let ghost expected = self.boxed_readers();
        let (r1, r2, r3) = self;
        let mut v = r1.into_readers();
        let mut w2 = r2.into_readers();
        v.append(&mut w2);
        let mut w3 = r3.into_readers();
        v.append(&mut w3);
        assert(v@ =~= expected);
        v
    }
}

impl<T1: PklResourceReader + 'static, T2: PklResourceReader + 'static, T3: PklResourceReader + 'static, T4: PklResourceReader + 'static> IntoResourceReaders for (T1, T2, T3, T4) {
    open spec fn reader_count(&self) -> nat {
        4
    }

    /// The readers of each element, in order.
    open spec fn boxed_readers(&self) -> Seq<Box<dyn PklResourceReader>> {
        self.0.boxed_readers() + self.1.boxed_readers() + self.2.boxed_readers() + self.3.boxed_readers()
    }

    /// The readers, in order.
    fn into_readers(self) -> (r: Vec<Box<dyn PklResourceReader>>)
        ensures
            r@.len() == 4,
    {
        let ghost expected = self.boxed_readers();
        let (r1, r2, r3, r4) = self;
        let mut v = r1.into_readers();
        let mut w2 = r2.into_readers();
        v.append(&mut w2);
        let mut w3 = r3.into_readers();
        v.append(&mut w3);
        let mut w4 = r4.into_readers();
        v.append(&mut w4);
        assert(v@ =~= expected);
        v
    }
}

impl<T1: PklResourceReader + 'static, T2: PklResourceReader + 'static, T3: PklResourceReader + 'static, T4: PklResourceReader + 'static, T5: PklResourceReader + 'static> IntoResourceReaders for (T1, T2, T3, T4, T5) {
    open spec fn reader_count(&self) -> nat {
        5
    }

    /// The readers of each element, in order.
    open spec fn boxed_readers(&self) -> Seq<Box<dyn PklResourceReader>> {
        self.0.boxed_readers() + self.1.boxed_readers() + self.2.boxed_readers() + self.3.boxed_readers() + self.4.boxed_readers()
    }

    /// The readers, in order.
    fn into_readers(self) -> (r: Vec<Box<dyn PklResourceReader>>)
        ensures
            r@.len() == 5,
    {
        let ghost expected = self.boxed_readers();
        let (r1, r2, r3, r4, r5) = self;
        let mut v = r1.into_readers();
        let mut w2 = r2.into_readers();
        v.append(&mut w2);
        let mut w3 = r3.into_readers();
        v.append(&mut w3);
        let mut w4 = r4.into_readers();
        v.append(&mut w4);
        let mut w5 = r5.into_readers();
        v.append(&mut w5);
        assert(v@ =~= expected);
        v
    }
}

impl<T: PklModuleReader + 'static> IntoModuleReaders for T {
    open spec fn reader_count(&self) -> nat {
        1
    }

    open spec fn boxed_readers(&self) -> Seq<Box<dyn PklModuleReader>> {
        let a: Box<dyn PklModuleReader> = Box::new(*self);
        seq![a]
    }

    /// The reader alone.
    fn into_readers(self) -> (r: Vec<Box<dyn PklModuleReader>>)
        ensures
            r@.len() == 1,
    {
        let a: Box<dyn PklModuleReader> = Box::new(self);
        vec![a]
    }
}

impl<T1: PklModuleReader + 'static, T2: PklModuleReader + 'static> IntoModuleReaders for (T1, T2) {
    open spec fn reader_count(&self) -> nat {
        2
    }

    /// The readers of each element, in order.
    open spec fn boxed_readers(&self) -> Seq<Box<dyn PklModuleReader>> {
        self.0.boxed_readers() + self.1.boxed_readers()
    }

    /// The readers, in order.
    fn into_readers(self) -> (r: Vec<Box<dyn PklModuleReader>>)
        ensures
            r@.len() == 2,
    {
        let ghost expected = self.boxed_readers();
        let (r1, r2) = self;
        let mut v = r1.into_readers();
        let mut w2 = r2.into_readers();
        v.append(&mut w2);
        assert(v@ =~= expected);
        v
    }
}

impl<T1: PklModuleReader + 'static, T2: PklModuleReader + 'static, T3: PklModuleReader + 'static> IntoModuleReaders for (T1, T2, T3) {
    open spec fn reader_count(&self) -> nat {
        3
    }

    /// The readers of each element, in order.
    open spec fn boxed_readers(&self) -> Seq<Box<dyn PklModuleReader>> {
        self.0.boxed_readers() + self.1.boxed_readers() + self.2.boxed_readers()
    }

    /// The readers, in order.
    fn into_readers(self) -> (r: Vec<Box<dyn PklModuleReader>>)
        ensures
            r@.len() == 3,
    {
        let ghost expected = self.boxed_readers();
        let (r1, r2, r3) = self;
        let mut v = r1.into_readers();
        let mut w2 = r2.into_readers();
        v.append(&mut w2);
        let mut w3 = r3.into_readers();
        v.append(&mut w3);
        assert(v@ =~= expected);
        v
    }
}

impl<T1: PklModuleReader + 'static, T2: PklModuleReader + 'static, T3: PklModuleReader + 'static, T4: PklModuleReader + 'static> IntoModuleReaders for (T1, T2, T3, T4) {
    open spec fn reader_count(&self) -> nat {
        4
    }

    /// The readers of each element, in order.
    open spec fn boxed_readers(&self) -> Seq<Box<dyn PklModuleReader>> {
        self.0.boxed_readers() + self.1.boxed_readers() + self.2.boxed_readers() + self.3.boxed_readers()
    }

    /// The readers, in order.
    fn into_readers(self) -> (r: Vec<Box<dyn PklModuleReader>>)
        ensures
            r@.len() == 4,
    {
        let ghost expected = self.boxed_readers();
        let (r1, r2, r3, r4) = self;
        let mut v = r1.into_readers();
        let mut w2 = r2.into_readers();
        v.append(&mut w2);
        let mut w3 = r3.into_readers();
        v.append(&mut w3);
        let mut w4 = r4.into_readers();
        v.append(&mut w4);
        assert(v@ =~= expected);
        v
    }
}

impl<T1: PklModuleReader + 'static, T2: PklModuleReader + 'static, T3: PklModuleReader + 'static, T4: PklModuleReader + 'static, T5: PklModuleReader + 'static> IntoModuleReaders for (T1, T2, T3, T4, T5) {
    open spec fn reader_count(&self) -> nat {
        5
    }

    /// The readers of each element, in order.
    open spec fn boxed_readers(&self) -> Seq<Box<dyn PklModuleReader>> {
        self.0.boxed_readers() + self.1.boxed_readers() + self.2.boxed_readers() + self.3.boxed_readers() + self.4.boxed_readers()
    }

    /// The readers, in order.
    fn into_readers(self) -> (r: Vec<Box<dyn PklModuleReader>>)
        ensures
            r@.len() == 5,
    {
        let ghost expected = self.boxed_readers();
        let (r1, r2, r3, r4, r5) = self;
        let mut v = r1.into_readers();
        let mut w2 = r2.into_readers();
        v.append(&mut w2);
        let mut w3 = r3.into_readers();
        v.append(&mut w3);
        let mut w4 = r4.into_readers();
        v.append(&mut w4);
        let mut w5 = r5.into_readers();
        v.append(&mut w5);
        assert(v@ =~= expected);
        v
    }
}

/// A character that may stand in a URI scheme: an ASCII letter or digit, `+`, `.` or `-`.
pub open spec fn is_scheme_char(c: char) -> bool {
    ||| ('a' <= c && c <= 'z')
    ||| ('A' <= c && c <= 'Z')
    ||| ('0' <= c && c <= '9')
    ||| c == '+'
    ||| c == '.'
    ||| c == '-'
}

/// The scheme of a URI: the text before its first `:`, when it is not empty and made of
/// scheme characters only.
pub open spec fn spec_parse_scheme(uri: Seq<char>) -> Option<Seq<char>> {
    let i = first_index_of(uri, ':');
    if i > 0 && forall|j: int| 0 <= j < i ==> #[trigger] is_scheme_char(uri[j]) {
        Some(uri.take(i))
    } else {
        None
    }
}

fn scheme_char(c: char) -> (b: bool)
    ensures
        b == is_scheme_char(c),
{
    ('a' <= c && c <= 'z') || ('A' <= c && c <= 'Z') || ('0' <= c && c <= '9') || c == '+' || c
        == '.' || c == '-'
}

/// The scheme of a URI: the text before its first `:`, when it is not empty and made of
/// ASCII letters, digits, `+`, `.` and `-`.
pub fn parse_scheme(uri: &str) -> (r: Option<&str>)
    ensures
        r is Some == spec_parse_scheme(uri@) is Some,
        r matches Some(s) ==> spec_parse_scheme(uri@) == Some(s@),
{
    proof {
        lemma_first_index_of(uri@, ':');
    }
    let n = uri.unicode_len();
    let mut i: usize = 0;
    let mut valid = true;
    while i < n
        invariant
            n == uri@.len(),
            i <= n,
            forall|j: int| 0 <= j < i ==> uri@[j] != ':',
            valid == forall|j: int| 0 <= j < i ==> #[trigger] is_scheme_char(uri@[j]),
        decreases n - i,
    {
        let c = uri.get_char(i);
        if c == ':' {
            proof {
                lemma_first_index_of(uri@, ':');
            }
            assert(first_index_of(uri@, ':') == i);
            if valid && i > 0 {
                return Some(uri.substring_char(0, i));
            } else {
                return None;
            }
        }
        valid = valid && scheme_char(c);
        i = i + 1;
    }
    None
}

/// Index of the first entry whose key is the string `field`, or `-1` when there is none.
pub open spec fn field_index(map: Seq<(MsgValue, MsgValue)>, field: Seq<char>) -> int
    decreases map.len(),
{
    if map.len() == 0 {
        -1
    } else if map[0].0.spec_as_str() == Some(field) {
        0
    } else {
        let r = field_index(map.drop_first(), field);
        if r < 0 {
            -1
        } else {
            r + 1
        }
    }
}

pub proof fn lemma_field_index(map: Seq<(MsgValue, MsgValue)>, field: Seq<char>)
    ensures
        -1 <= field_index(map, field) < map.len(),
        field_index(map, field) >= 0 ==> map[field_index(map, field)].0.spec_as_str() == Some(
            field,
        ),
        forall|j: int|
            0 <= j < field_index(map, field) ==> map[j].0.spec_as_str() != Some(field),
        field_index(map, field) < 0 ==> forall|j: int|
            0 <= j < map.len() ==> map[j].0.spec_as_str() != Some(field),
    decreases map.len(),
{
    if map.len() > 0 && map[0].0.spec_as_str() != Some(field) {
        lemma_field_index(map.drop_first(), field);
        assert forall|j: int| 1 <= j < map.len() implies map[j] == map.drop_first()[j - 1] by {}
    }
}

/// The value of the first entry whose key is `field`, or the message naming the missing field.
pub open spec fn spec_extract_field(map: Seq<(MsgValue, MsgValue)>, field: Seq<char>) -> Result<
    MsgValue,
    Seq<char>,
> {
    let i = field_index(map, field);
    if i >= 0 {
        Ok(map[i].1)
    } else {
        Err("Field not found: "@ + field)
    }
}

/// A field's value read as an `i64`.
pub open spec fn spec_field_i64(v: MsgValue) -> Result<i64, Seq<char>> {
    match v {
        MsgValue::PosInt(_) | MsgValue::NegInt(_) => match v.spec_as_i64() {
            Some(n) => Ok(n),
            None => Err("Failed to convert to i64"@),
        },
        _ => Err("Expected integer value"@),
    }
}

/// A field's value read as a string.
pub open spec fn spec_field_str(v: MsgValue) -> Result<Seq<char>, Seq<char>> {
    match v {
        MsgValue::String(b) => match spec_utf8(b@) {
            Some(s) => Ok(s),
            None => Err("Failed to get str from string"@),
        },
        _ => Err("Expected string value"@),
    }
}

/// The evaluator id, request id and URI of a request, read in that order.
pub open spec fn spec_request_fields(map: Seq<(MsgValue, MsgValue)>) -> Result<
    (i64, i64, Seq<char>),
    Seq<char>,
> {
    match spec_extract_field(map, "evaluatorId"@) {
        Err(e) => Err(e),
        Ok(ev) => match spec_field_i64(ev) {
            Err(e) => Err(e),
            Ok(evaluator_id) => match spec_extract_field(map, "requestId"@) {
                Err(e) => Err(e),
                Ok(rv) => match spec_field_i64(rv) {
                    Err(e) => Err(e),
                    Ok(request_id) => match spec_extract_field(map, "uri"@) {
                        Err(e) => Err(e),
                        Ok(uv) => match spec_field_str(uv) {
                            Err(e) => Err(e),
                            Ok(uri) => Ok((evaluator_id, request_id, uri)),
                        },
                    },
                },
            },
        },
    }
}

/// The value of the first entry whose key is `field`.
pub fn extract_field<'a>(map: &'a [(MsgValue, MsgValue)], field: &str) -> (r: Result<
    &'a MsgValue,
    String,
>)
    ensures
        r matches Ok(v) ==> spec_extract_field(map@, field@) == Ok::<MsgValue, Seq<char>>(*v),
        r matches Err(e) ==> spec_extract_field(map@, field@) == Err::<MsgValue, Seq<char>>(e@),
{
    proof {
        lemma_field_index(map@, field@);
    }
    let mut i: usize = 0;
    while i < map.len()
        invariant
            i <= map@.len(),
            forall|j: int| 0 <= j < i ==> map@[j].0.spec_as_str() != Some(field@),
        decreases map.len() - i,
    {
        let hit = match map[i].0.as_str() {
            Some(k) => str_eq(k.as_str(), field),
            None => false,
        };
        if hit {
            proof {
                lemma_field_index(map@, field@);
                if field_index(map@, field@) != i {
                    assert(map@[i as int].0.spec_as_str() == Some(field@));
                }
            }
            return Ok(&map[i].1);
        }
        i = i + 1;
    }
    Err(concat("Field not found: ", field))
}

/// A field's value read as an `i64`.
fn field_i64(v: &MsgValue) -> (r: Result<i64, String>)
    ensures
        r matches Ok(n) ==> spec_field_i64(*v) == Ok::<i64, Seq<char>>(n),
        r matches Err(e) ==> spec_field_i64(*v) == Err::<i64, Seq<char>>(e@),
{
    match v {
        MsgValue::PosInt(_) | MsgValue::NegInt(_) => match v.as_i64() {
            Some(n) => Ok(n),
            None => Err(owned("Failed to convert to i64")),
        },
        _ => Err(owned("Expected integer value")),
    }
}

/// A field's value read as a string.
fn field_str(v: &MsgValue) -> (r: Result<String, String>)
    ensures
        r matches Ok(s) ==> spec_field_str(*v) == Ok::<Seq<char>, Seq<char>>(s@),
        r matches Err(e) ==> spec_field_str(*v) == Err::<Seq<char>, Seq<char>>(e@),
{
    match v {
        MsgValue::String(_) => match v.as_str() {
            Some(s) => Ok(s),
            None => Err(owned("Failed to get str from string")),
        },
        _ => Err(owned("Expected string value")),
    }
}

/// The evaluator id, request id and URI of a request.
pub fn request_fields(map: &[(MsgValue, MsgValue)]) -> (r: Result<(i64, i64, String), String>)
    ensures
        r matches Ok((e, q, u)) ==> spec_request_fields(map@) == Ok::<
            (i64, i64, Seq<char>),
            Seq<char>,
        >((e, q, u@)),
        r matches Err(m) ==> spec_request_fields(map@) == Err::<(i64, i64, Seq<char>), Seq<char>>(
            m@,
        ),
{
    let evaluator_id = field_i64(extract_field(map, "evaluatorId")?)?;
    let request_id = field_i64(extract_field(map, "requestId")?)?;
    let uri = field_str(extract_field(map, "uri")?)?;
    Ok((evaluator_id, request_id, uri))
}

/// Whether `i` is where the first entry with the string key `key` stands.
pub open spec fn is_first_key(m: Seq<(MsgValue, MsgValue)>, key: Seq<char>, i: int) -> bool {
    &&& 0 <= i < m.len()
    &&& m[i].0.spec_as_str() == Some(key)
    &&& forall|j: int| 0 <= j < i ==> m[j].0.spec_as_str() != Some(key)
}

pub proof fn lemma_first_key(m: Seq<(MsgValue, MsgValue)>, key: Seq<char>, i: int)
    requires
        is_first_key(m, key, i),
    ensures
        field_index(m, key) == i,
{
    lemma_field_index(m, key);
    let f = field_index(m, key);
    if f >= 0 && f < i {
        assert(m[f].0.spec_as_str() != Some(key));
    }
    if f > i {
        assert(m[i].0.spec_as_str() != Some(key));
    }
}

pub proof fn lemma_no_key(m: Seq<(MsgValue, MsgValue)>, key: Seq<char>)
    requires
        forall|j: int| 0 <= j < m.len() ==> m[j].0.spec_as_str() != Some(key),
    ensures
        field_index(m, key) < 0,
{
    lemma_field_index(m, key);
    let f = field_index(m, key);
    if f >= 0 {
        assert(m[f].0.spec_as_str() != Some(key));
    }
}

/// A request's evaluator id, request id and URI are the integers and the text under the
/// first `evaluatorId`, `requestId` and `uri` keys of its map, wherever those entries stand.
pub proof fn law_request_fields(
    m: Seq<(MsgValue, MsgValue)>,
    a: int,
    b: int,
    c: int,
    e: i64,
    q: i64,
    t: Vec<u8>,
)
    requires
        is_first_key(m, "evaluatorId"@, a),
        m[a].1 == MsgValue::NegInt(e) || (e >= 0 && m[a].1 == MsgValue::PosInt(e as u64)),
        is_first_key(m, "requestId"@, b),
        m[b].1 == MsgValue::NegInt(q) || (q >= 0 && m[b].1 == MsgValue::PosInt(q as u64)),
        is_first_key(m, "uri"@, c),
        m[c].1 == MsgValue::String(t),
        valid_utf8(t@),
    ensures
        spec_request_fields(m) == Ok::<(i64, i64, Seq<char>), Seq<char>>((e, q, decode_utf8(t@))),
{
    lemma_first_key(m, "evaluatorId"@, a);
    lemma_first_key(m, "requestId"@, b);
    lemma_first_key(m, "uri"@, c);
}

/// A read-resource reply echoes the request's ids and carries what the reader gave: its
/// result, or its error, or, when no reader serves the scheme, the error naming the URI.
pub proof fn law_read_resource_reply(
    r: ReadResourceResponse,
    request_id: i64,
    evaluator_id: i64,
    uri: Seq<char>,
    outcome: Option<Result<Vec<u8>, String>>,
)
    requires
        is_read_resource_reply(r, request_id, evaluator_id, uri, outcome),
    ensures
        r.request_id == request_id,
        r.evaluator_id == evaluator_id,
        outcome matches Some(Ok(x)) ==> r.contents == Some(x) && r.error is None,
        outcome matches Some(Err(e)) ==> r.contents is None && r.error == Some(e),
        outcome is None ==> r.contents is None && (r.error matches Some(m) && m@
            == "No reader found for scheme: "@ + str_debug(uri)),
{
}

/// A read-module reply echoes the request's ids and carries what the reader gave: its
/// result, or its error, or, when no reader serves the scheme, the error naming the URI.
pub proof fn law_read_module_reply(
    r: ReadModuleResponse,
    request_id: i64,
    evaluator_id: i64,
    uri: Seq<char>,
    outcome: Option<Result<String, String>>,
)
    requires
        is_read_module_reply(r, request_id, evaluator_id, uri, outcome),
    ensures
        r.request_id == request_id,
        r.evaluator_id == evaluator_id,
        outcome matches Some(Ok(x)) ==> r.contents == Some(x) && r.error is None,
        outcome matches Some(Err(e)) ==> r.contents is None && r.error == Some(e),
        outcome is None ==> r.contents is None && (r.error matches Some(m) && m@
            == "No reader found for scheme: "@ + str_debug(uri)),
{
}

/// A list-resources reply echoes the request's ids and carries what the reader gave: its
/// result, or its error, or, when no reader serves the scheme, the error naming the URI.
pub proof fn law_list_resources_reply(
    r: ListResourcesResponse,
    request_id: i64,
    evaluator_id: i64,
    uri: Seq<char>,
    outcome: Option<Result<Vec<PathElements>, String>>,
)
    requires
        is_list_resources_reply(r, request_id, evaluator_id, uri, outcome),
    ensures
        r.request_id == request_id,
        r.evaluator_id == evaluator_id,
        outcome matches Some(Ok(x)) ==> r.path_elements == Some(x) && r.error is None,
        outcome matches Some(Err(e)) ==> r.path_elements is None && r.error == Some(e),
        outcome is None ==> r.path_elements is None && (r.error matches Some(m) && m@
            == "No reader found for scheme: "@ + str_debug(uri)),
{
}

/// A list-modules reply echoes the request's ids and carries what the reader gave: its
/// result, or its error, or, when no reader serves the scheme, the error naming the URI.
pub proof fn law_list_modules_reply(
    r: ListModulesResponse,
    request_id: i64,
    evaluator_id: i64,
    uri: Seq<char>,
    outcome: Option<Result<Vec<PathElements>, String>>,
)
    requires
        is_list_modules_reply(r, request_id, evaluator_id, uri, outcome),
    ensures
        r.request_id == request_id,
        r.evaluator_id == evaluator_id,
        outcome matches Some(Ok(x)) ==> r.path_elements == Some(x) && r.error is None,
        outcome matches Some(Err(e)) ==> r.path_elements is None && r.error == Some(e),
        outcome is None ==> r.path_elements is None && (r.error matches Some(m) && m@
            == "No reader found for scheme: "@ + str_debug(uri)),
{
}

/// The error sent when no reader serves a URI's scheme.
pub open spec fn no_reader_message(uri: Seq<char>) -> Seq<char> {
    "No reader found for scheme: "@ + str_debug(uri)
}

fn no_reader_error(uri: &str) -> (r: String)
    ensures
        r@ == no_reader_message(uri@),
{
    let quoted = debug_text(uri);
    concat("No reader found for scheme: ", quoted.as_str())
}

/// Whether `r` answers a request with the given ids for `uri`, where `outcome` is what the
/// reader gave, or none when no reader serves the scheme.
pub open spec fn is_read_resource_reply(
    r: ReadResourceResponse,
    request_id: i64,
    evaluator_id: i64,
    uri: Seq<char>,
    outcome: Option<Result<Vec<u8>, String>>,
) -> bool {
    &&& r.request_id == request_id
    &&& r.evaluator_id == evaluator_id
    &&& match outcome {
        None => r.contents is None && (r.error matches Some(e) && e@ == no_reader_message(uri)),
        Some(Ok(data)) => r.contents == Some(data) && r.error is None,
        Some(Err(e)) => r.contents is None && r.error == Some(e),
    }
}

/// The reply to a read-resource request: `outcome` is what the reader gave, or none when
/// no reader serves the scheme.
pub fn read_resource_reply(
    request_id: i64,
    evaluator_id: i64,
    uri: &str,
    outcome: Option<Result<Vec<u8>, String>>,
) -> (r: ReadResourceResponse)
    ensures
        is_read_resource_reply(r, request_id, evaluator_id, uri@, outcome),
{
    match outcome {
        None => ReadResourceResponse {
            request_id,
            evaluator_id,
            contents: None,
            error: Some(no_reader_error(uri)),
        },
        Some(Ok(data)) => ReadResourceResponse {
            request_id,
            evaluator_id,
            contents: Some(data),
            error: None,
        },
        Some(Err(e)) => ReadResourceResponse {
            request_id,
            evaluator_id,
            contents: None,
            error: Some(e),
        },
    }
}

/// Whether `r` answers a request with the given ids for `uri`, where `outcome` is what the
/// reader gave, or none when no reader serves the scheme.
pub open spec fn is_read_module_reply(
    r: ReadModuleResponse,
    request_id: i64,
    evaluator_id: i64,
    uri: Seq<char>,
    outcome: Option<Result<String, String>>,
) -> bool {
    &&& r.request_id == request_id
    &&& r.evaluator_id == evaluator_id
    &&& match outcome {
        None => r.contents is None && (r.error matches Some(e) && e@ == no_reader_message(uri)),
        Some(Ok(text)) => r.contents == Some(text) && r.error is None,
        Some(Err(e)) => r.contents is None && r.error == Some(e),
    }
}

/// The reply to a read-module request: `outcome` is what the reader gave, or none when
/// no reader serves the scheme.
pub fn read_module_reply(
    request_id: i64,
    evaluator_id: i64,
    uri: &str,
    outcome: Option<Result<String, String>>,
) -> (r: ReadModuleResponse)
    ensures
        is_read_module_reply(r, request_id, evaluator_id, uri@, outcome),
{
    match outcome {
        None => ReadModuleResponse {
            request_id,
            evaluator_id,
            contents: None,
            error: Some(no_reader_error(uri)),
        },
        Some(Ok(text)) => ReadModuleResponse {
            request_id,
            evaluator_id,
            contents: Some(text),
            error: None,
        },
        Some(Err(e)) => ReadModuleResponse {
            request_id,
            evaluator_id,
            contents: None,
            error: Some(e),
        },
    }
}

/// Whether `r` answers a request with the given ids for `uri`, where `outcome` is what the
/// reader gave, or none when no reader serves the scheme.
pub open spec fn is_list_resources_reply(
    r: ListResourcesResponse,
    request_id: i64,
    evaluator_id: i64,
    uri: Seq<char>,
    outcome: Option<Result<Vec<PathElements>, String>>,
) -> bool {
    &&& r.request_id == request_id
    &&& r.evaluator_id == evaluator_id
    &&& match outcome {
        None => r.path_elements is None && (r.error matches Some(e) && e@ == no_reader_message(uri)),
        Some(Ok(elements)) => r.path_elements == Some(elements) && r.error is None,
        Some(Err(e)) => r.path_elements is None && r.error == Some(e),
    }
}

/// The reply to a list-resources request: `outcome` is what the reader gave, or none when
/// no reader serves the scheme.
pub fn list_resources_reply(
    request_id: i64,
    evaluator_id: i64,
    uri: &str,
    outcome: Option<Result<Vec<PathElements>, String>>,
) -> (r: ListResourcesResponse)
    ensures
        is_list_resources_reply(r, request_id, evaluator_id, uri@, outcome),
{
    match outcome {
        None => ListResourcesResponse {
            request_id,
            evaluator_id,
            path_elements: None,
            error: Some(no_reader_error(uri)),
        },
        Some(Ok(elements)) => ListResourcesResponse {
            request_id,
            evaluator_id,
            path_elements: Some(elements),
            error: None,
        },
        Some(Err(e)) => ListResourcesResponse {
            request_id,
            evaluator_id,
            path_elements: None,
            error: Some(e),
        },
    }
}

/// Whether `r` answers a request with the given ids for `uri`, where `outcome` is what the
/// reader gave, or none when no reader serves the scheme.
pub open spec fn is_list_modules_reply(
    r: ListModulesResponse,
    request_id: i64,
    evaluator_id: i64,
    uri: Seq<char>,
    outcome: Option<Result<Vec<PathElements>, String>>,
) -> bool {
    &&& r.request_id == request_id
    &&& r.evaluator_id == evaluator_id
    &&& match outcome {
        None => r.path_elements is None && (r.error matches Some(e) && e@ == no_reader_message(uri)),
        Some(Ok(elements)) => r.path_elements == Some(elements) && r.error is None,
        Some(Err(e)) => r.path_elements is None && r.error == Some(e),
    }
}

/// The reply to a list-modules request: `outcome` is what the reader gave, or none when
/// no reader serves the scheme.
pub fn list_modules_reply(
    request_id: i64,
    evaluator_id: i64,
    uri: &str,
    outcome: Option<Result<Vec<PathElements>, String>>,
) -> (r: ListModulesResponse)
    ensures
        is_list_modules_reply(r, request_id, evaluator_id, uri@, outcome),
{
    match outcome {
        None => ListModulesResponse {
            request_id,
            evaluator_id,
            path_elements: None,
            error: Some(no_reader_error(uri)),
        },
        Some(Ok(elements)) => ListModulesResponse {
            request_id,
            evaluator_id,
            path_elements: Some(elements),
            error: None,
        },
        Some(Err(e)) => ListModulesResponse {
            request_id,
            evaluator_id,
            path_elements: None,
            error: Some(e),
        },
    }
}

/// Whether a request message can be handled without aborting: its body is a map, and a
/// URI read from it has a scheme.
pub open spec fn request_answerable(msg: PklServerMessage) -> bool {
    &&& msg.response is Pairs
    &&& spec_request_fields(msg.response->Pairs_0@) matches Ok((_, _, uri)) ==> spec_parse_scheme(
        uri,
    ) is Some
}

/// The schemes of resource readers, in order.
pub open spec fn resource_reader_schemes(readers: Seq<Box<dyn PklResourceReader>>) -> Seq<
    Seq<char>,
> {
    readers.map_values(|r: Box<dyn PklResourceReader>| r.spec_scheme())
}

/// The schemes of module readers, in order.
pub open spec fn module_reader_schemes(readers: Seq<Box<dyn PklModuleReader>>) -> Seq<Seq<char>> {
    readers.map_values(|r: Box<dyn PklModuleReader>| r.spec_scheme())
}

/// Whether `i` is where `x` first stands in `s`.
pub open spec fn is_first_position(s: Seq<Seq<char>>, x: Seq<char>, i: int) -> bool {
    &&& 0 <= i < s.len()
    &&& s[i] == x
    &&& forall|j: int| 0 <= j < i ==> s[j] != x
}

/// Where `x` first stands in `s`, or `-1` when `s` does not hold it.
pub open spec fn first_position(s: Seq<Seq<char>>, x: Seq<char>) -> int {
    if exists|i: int| is_first_position(s, x, i) {
        choose|i: int| is_first_position(s, x, i)
    } else {
        -1
    }
}

pub proof fn lemma_first_position(s: Seq<Seq<char>>, x: Seq<char>, i: int)
    requires
        is_first_position(s, x, i),
    ensures
        first_position(s, x) == i,
{
    let k = choose|k: int| is_first_position(s, x, k);
    assert(is_first_position(s, x, k));
    if k < i {
        assert(s[k] != x);
    } else if k > i {
        assert(s[i] != x);
    }
}

pub proof fn lemma_no_position(s: Seq<Seq<char>>, x: Seq<char>)
    requires
        forall|j: int| 0 <= j < s.len() ==> s[j] != x,
    ensures
        first_position(s, x) == -1,
{
    if exists|i: int| is_first_position(s, x, i) {
        let k = choose|k: int| is_first_position(s, x, k);
        assert(s[k] != x);
    }
}

/// The first resource reader whose scheme is `scheme`.
fn find_resource_reader(readers: &[Box<dyn PklResourceReader>], scheme: &str) -> (r: Option<
    usize,
>)
    ensures
        r matches Some(i) ==> i < readers@.len() && i == first_position(
            resource_reader_schemes(readers@),
            scheme@,
        ),
        r is None ==> first_position(resource_reader_schemes(readers@), scheme@) < 0,
{
    let ghost schemes = resource_reader_schemes(readers@);
    let mut i: usize = 0;
    while i < readers.len()
        invariant
            i <= readers@.len(),
            schemes == resource_reader_schemes(readers@),
            forall|j: int| 0 <= j < i ==> schemes[j] != scheme@,
        decreases readers.len() - i,
    {
        if str_eq(readers[i].scheme(), scheme) {
            proof {
                lemma_first_position(schemes, scheme@, i as int);
            }
            return Some(i);
        }
        i = i + 1;
    }
    proof {
        lemma_no_position(schemes, scheme@);
    }
    None
}

/// The first module reader whose scheme is `scheme`.
fn find_module_reader(readers: &[Box<dyn PklModuleReader>], scheme: &str) -> (r: Option<usize>)
    ensures
        r matches Some(i) ==> i < readers@.len() && i == first_position(
            module_reader_schemes(readers@),
            scheme@,
        ),
        r is None ==> first_position(module_reader_schemes(readers@), scheme@) < 0,
{
    let ghost schemes = module_reader_schemes(readers@);
    let mut i: usize = 0;
    while i < readers.len()
        invariant
            i <= readers@.len(),
            schemes == module_reader_schemes(readers@),
            forall|j: int| 0 <= j < i ==> schemes[j] != scheme@,
        decreases readers.len() - i,
    {
        if str_eq(readers[i].scheme(), scheme) {
            proof {
                lemma_first_position(schemes, scheme@, i as int);
            }
            return Some(i);
        }
        i = i + 1;
    }
    proof {
        lemma_no_position(schemes, scheme@);
    }
    None
}

/// How `readers` answer a list-resources request: with the error of a field that is missing or
/// of the wrong kind, or else with the reply built from what the first reader of the URI's
/// scheme gave for the URI, or the no-reader reply when none serves it.
pub open spec fn list_resources_answer(
    readers: Seq<Box<dyn PklResourceReader>>,
    msg: PklServerMessage,
    r: Result<ListResourcesResponse, String>,
) -> bool {
    match spec_request_fields(msg.response->Pairs_0@) {
        Err(e) => r matches Err(m) && m@ == e,
        Ok((eid, rid, uri)) => r matches Ok(resp) && {
            let i = first_position(resource_reader_schemes(readers), spec_parse_scheme(uri)->0);
            &&& i < 0 ==> is_list_resources_reply(resp, rid, eid, uri, None)
            &&& i >= 0 ==> exists|o: Result<Vec<PathElements>, String>|
                #[trigger] readers[i].list_gives(uri, o) && is_list_resources_reply(resp, rid, eid, uri, Some(o))
        },
    }
}

/// How `readers` answer a list-modules request: with the error of a field that is missing or
/// of the wrong kind, or else with the reply built from what the first reader of the URI's
/// scheme gave for the URI, or the no-reader reply when none serves it.
pub open spec fn list_modules_answer(
    readers: Seq<Box<dyn PklModuleReader>>,
    msg: PklServerMessage,
    r: Result<ListModulesResponse, String>,
) -> bool {
    match spec_request_fields(msg.response->Pairs_0@) {
        Err(e) => r matches Err(m) && m@ == e,
        Ok((eid, rid, uri)) => r matches Ok(resp) && {
            let i = first_position(module_reader_schemes(readers), spec_parse_scheme(uri)->0);
            &&& i < 0 ==> is_list_modules_reply(resp, rid, eid, uri, None)
            &&& i >= 0 ==> exists|o: Result<Vec<PathElements>, String>|
                #[trigger] readers[i].list_gives(uri, o) && is_list_modules_reply(resp, rid, eid, uri, Some(o))
        },
    }
}

/// How `readers` answer a read-resource request: with the error of a field that is missing or
/// of the wrong kind, or else with the reply built from what the first reader of the URI's
/// scheme gave for the URI, or the no-reader reply when none serves it.
pub open spec fn read_resource_answer(
    readers: Seq<Box<dyn PklResourceReader>>,
    msg: PklServerMessage,
    r: Result<ReadResourceResponse, String>,
) -> bool {
    match spec_request_fields(msg.response->Pairs_0@) {
        Err(e) => r matches Err(m) && m@ == e,
        Ok((eid, rid, uri)) => r matches Ok(resp) && {
            let i = first_position(resource_reader_schemes(readers), spec_parse_scheme(uri)->0);
            &&& i < 0 ==> is_read_resource_reply(resp, rid, eid, uri, None)
            &&& i >= 0 ==> exists|o: Result<Vec<u8>, String>|
                #[trigger] readers[i].read_gives(uri, o) && is_read_resource_reply(resp, rid, eid, uri, Some(o))
        },
    }
}

/// How `readers` answer a read-module request: with the error of a field that is missing or
/// of the wrong kind, or else with the reply built from what the first reader of the URI's
/// scheme gave for the URI, or the no-reader reply when none serves it.
pub open spec fn read_module_answer(
    readers: Seq<Box<dyn PklModuleReader>>,
    msg: PklServerMessage,
    r: Result<ReadModuleResponse, String>,
) -> bool {
    match spec_request_fields(msg.response->Pairs_0@) {
        Err(e) => r matches Err(m) && m@ == e,
        Ok((eid, rid, uri)) => r matches Ok(resp) && {
            let i = first_position(module_reader_schemes(readers), spec_parse_scheme(uri)->0);
            &&& i < 0 ==> is_read_module_reply(resp, rid, eid, uri, None)
            &&& i >= 0 ==> exists|o: Result<String, String>|
                #[trigger] readers[i].read_gives(uri, o) && is_read_module_reply(resp, rid, eid, uri, Some(o))
        },
    }
}

/// Answers a list-resources request with the first reader of the URI's scheme. An error is
/// a field missing from the request, or of the wrong kind.
pub fn handle_list_resources(
    resource_readers: &[Box<dyn PklResourceReader>],
    msg: &PklServerMessage,
) -> (r: Result<ListResourcesResponse, String>)
    requires
        request_answerable(*msg),
    ensures
        list_resources_answer(resource_readers@, *msg, r),
{
    let map = match msg.response.as_map() {
        Some(m) => m,
        None => {
            return Err(owned("expected a map"));
        },
    };
    let (evaluator_id, request_id, uri) = request_fields(map.as_slice())?;
    let scheme = match parse_scheme(uri.as_str()) {
        Some(s) => s,
        None => {
            return Err(owned("Invalid URI"));
        },
    };
    let outcome = match find_resource_reader(resource_readers, scheme) {
        Some(i) => Some(resource_readers[i].list(uri.as_str())),
        None => None,
    };
    Ok(list_resources_reply(request_id, evaluator_id, uri.as_str(), outcome))
}

/// Answers a list-modules request with the first reader of the URI's scheme. An error is
/// a field missing from the request, or of the wrong kind.
pub fn handle_list_modules(module_readers: &[Box<dyn PklModuleReader>], msg: &PklServerMessage) -> (r:
    Result<ListModulesResponse, String>)
    requires
        request_answerable(*msg),
    ensures
        list_modules_answer(module_readers@, *msg, r),
{
    let map = match msg.response.as_map() {
        Some(m) => m,
        None => {
            return Err(owned("expected a map"));
        },
    };
    let (evaluator_id, request_id, uri) = request_fields(map.as_slice())?;
    let scheme = match parse_scheme(uri.as_str()) {
        Some(s) => s,
        None => {
            return Err(owned("Invalid URI"));
        },
    };
    let outcome = match find_module_reader(module_readers, scheme) {
        Some(i) => Some(module_readers[i].list(uri.as_str())),
        None => None,
    };
    Ok(list_modules_reply(request_id, evaluator_id, uri.as_str(), outcome))
}

/// Answers a read-resource request with the first reader of the URI's scheme. An error is
/// a field missing from the request, or of the wrong kind.
pub fn handle_read_resource(
    resource_readers: &[Box<dyn PklResourceReader>],
    msg: &PklServerMessage,
) -> (r: Result<ReadResourceResponse, String>)
    requires
        request_answerable(*msg),
    ensures
        read_resource_answer(resource_readers@, *msg, r),
{
    let map = match msg.response.as_map() {
        Some(m) => m,
        None => {
            return Err(owned("expected a map"));
        },
    };
    let (evaluator_id, request_id, uri) = request_fields(map.as_slice())?;
    let scheme = match parse_scheme(uri.as_str()) {
        Some(s) => s,
        None => {
            return Err(owned("Invalid URI"));
        },
    };
    let outcome = match find_resource_reader(resource_readers, scheme) {
        Some(i) => Some(resource_readers[i].read(uri.as_str())),
        None => None,
    };
    Ok(read_resource_reply(request_id, evaluator_id, uri.as_str(), outcome))
}

/// Answers a read-module request with the first reader of the URI's scheme. An error is
/// a field missing from the request, or of the wrong kind.
pub fn handle_read_module(module_readers: &[Box<dyn PklModuleReader>], msg: &PklServerMessage) -> (r:
    Result<ReadModuleResponse, String>)
    requires
        request_answerable(*msg),
    ensures
        read_module_answer(module_readers@, *msg, r),
{
    let map = match msg.response.as_map() {
        Some(m) => m,
        None => {
            return Err(owned("expected a map"));
        },
    };
    let (evaluator_id, request_id, uri) = request_fields(map.as_slice())?;
    let scheme = match parse_scheme(uri.as_str()) {
        Some(s) => s,
        None => {
            return Err(owned("Invalid URI"));
        },
    };
    let outcome = match find_module_reader(module_readers, scheme) {
        Some(i) => Some(module_readers[i].read(uri.as_str())),
        None => None,
    };
    Ok(read_module_reply(request_id, evaluator_id, uri.as_str(), outcome))
}

} // verus!


verus! {

/// Adding two module readers one after the other gives the same readers, in the same
/// order, hence the same schemes, as adding them as a pair.
pub proof fn law_module_readers_pair<A: PklModuleReader + 'static, B: PklModuleReader + 'static>(
    before: Seq<Box<dyn PklModuleReader>>,
    a: A,
    b: B,
)
    ensures
        before + a.boxed_readers() + b.boxed_readers() == before + (a, b).boxed_readers(),
        module_reader_schemes(before + a.boxed_readers() + b.boxed_readers())
            == module_reader_schemes(before + (a, b).boxed_readers()),
{
    assert(before + a.boxed_readers() + b.boxed_readers() =~= before + (a, b).boxed_readers());
}

/// Adding two resource readers one after the other gives the same readers, in the same
/// order, hence the same schemes, as adding them as a pair.
pub proof fn law_resource_readers_pair<
    A: PklResourceReader + 'static,
    B: PklResourceReader + 'static,
>(before: Seq<Box<dyn PklResourceReader>>, a: A, b: B)
    ensures
        before + a.boxed_readers() + b.boxed_readers() == before + (a, b).boxed_readers(),
        resource_reader_schemes(before + a.boxed_readers() + b.boxed_readers())
            == resource_reader_schemes(before + (a, b).boxed_readers()),
{
    assert(before + a.boxed_readers() + b.boxed_readers() =~= before + (a, b).boxed_readers());
}

} // verus!

verus! {

/// The characters that may stand in a URI scheme are exactly the ASCII letters and
/// digits, `+`, `.` and `-` (RFC 3986's scheme characters), read by their code points.
pub proof fn law_scheme_chars(c: char)
    ensures
        is_scheme_char(c) <==> (0x61 <= (c as u32) <= 0x7a || 0x41 <= (c as u32) <= 0x5a || 0x30
            <= (c as u32) <= 0x39 || (c as u32) == 0x2b || (c as u32) == 0x2e || (c as u32)
            == 0x2d),
{
}

/// A URI whose text before its first `:` is a non-empty run of ASCII letters, digits, `+`,
/// `.` and `-` has that run as its scheme, whatever follows the `:`; a URI with no `:` has
/// none.
pub proof fn law_parse_scheme(scheme: Seq<char>, rest: Seq<char>)
    requires
        scheme.len() > 0,
        forall|j: int|
            0 <= j < scheme.len() ==> {
                let u = #[trigger] (scheme[j] as u32);
                0x61 <= u <= 0x7a || 0x41 <= u <= 0x5a || 0x30 <= u <= 0x39 || u == 0x2b || u
                    == 0x2e || u == 0x2d
            },
    ensures
        spec_parse_scheme(scheme + ":"@ + rest) == Some(scheme),
        !rest.contains(':') ==> spec_parse_scheme(rest) is None,
{
    reveal_strlit(":");
    let uri = scheme + ":"@ + rest;
    let n = scheme.len() as int;
    assert(uri[n] == ':');
    assert forall|j: int| 0 <= j < n implies uri[j] == scheme[j] && uri[j] != ':' && is_scheme_char(
        uri[j],
    ) by {
        assert(uri[j] == scheme[j]);
        let u = scheme[j] as u32;
        assert(0x61 <= u <= 0x7a || 0x41 <= u <= 0x5a || 0x30 <= u <= 0x39 || u == 0x2b || u
            == 0x2e || u == 0x2d);
        law_scheme_chars(uri[j]);
    }
    lemma_first_index_of(uri, ':');
    let f = first_index_of(uri, ':');
    if f < n {
        if f >= 0 {
            assert(uri[f] != ':');
        }
    }
    assert(f == n);
    assert(uri.take(n) =~= scheme);
    lemma_first_index_of(rest, ':');
    if first_index_of(rest, ':') >= 0 {
        assert(rest.contains(':'));
    }
}

} // verus!
