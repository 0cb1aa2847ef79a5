//! Acting as an external reader process: registering readers and answering the server.
use vstd::prelude::*;

use crate::api::reader::{
    first_position, handle_list_modules, handle_list_resources, handle_read_module,
    handle_read_resource, lemma_first_position,
    list_modules_answer, list_resources_answer, module_reader_schemes, read_module_answer,
    read_resource_answer, request_answerable, resource_reader_schemes, IntoModuleReaders,
    IntoResourceReaders, PklModuleReader, PklResourceReader,
};
use crate::internal::msgapi::codes::{
    CLOSE_EXTERNAL_PROCESS, INITIALIZE_MODULE_READER_REQUEST, INITIALIZE_RESOURCE_READER_REQUEST,
    LIST_MODULES_REQUEST, LIST_RESOURCES_REQUEST, READ_MODULE_REQUEST, READ_RESOURCE_REQUEST,
};
use crate::internal::msgapi::incoming::PklServerMessage;
use crate::internal::msgapi::outgoing::{
    ClientModuleReader, ClientResourceReader, InitializeModuleReaderResponse,
    InitializeResourceReaderResponse, ListModulesResponse, ListResourcesResponse,
    ReadModuleResponse, ReadResourceResponse,
};
use crate::utils::text::{concat, owned, str_eq, string_views};

verus! {

/// The requests an external reader answers.
#[derive(Debug, PartialEq, Eq, Structural, Clone, Copy)]
pub enum ReaderCodes {
    ListModulesRequest,
    ListResourcesRequest,
    ReadModuleRequest,
    ReadResourceRequest,
    CloseExternalProcess,
    InitializeResourceReaderRequest,
    InitializeModuleReaderRequest,
}

/// The message code of each request.
pub open spec fn reader_code(c: ReaderCodes) -> u64 {
    match c {
        ReaderCodes::ListModulesRequest => LIST_MODULES_REQUEST,
        ReaderCodes::ListResourcesRequest => LIST_RESOURCES_REQUEST,
        ReaderCodes::ReadModuleRequest => READ_MODULE_REQUEST,
        ReaderCodes::ReadResourceRequest => READ_RESOURCE_REQUEST,
        ReaderCodes::CloseExternalProcess => CLOSE_EXTERNAL_PROCESS,
        ReaderCodes::InitializeResourceReaderRequest => INITIALIZE_RESOURCE_READER_REQUEST,
        ReaderCodes::InitializeModuleReaderRequest => INITIALIZE_MODULE_READER_REQUEST,
    }
}

/// Each request has its own code in the pkl message-passing API (0x2c list modules, 0x2a
/// list resources, 0x28 read module, 0x26 read resource, 0x32 close, 0x30 and 0x2e
/// initialize a resource or module reader), and a request's code leads back to it.
pub proof fn law_reader_codes(c: ReaderCodes)
    ensures
        code_request(reader_code(c)) == Some(c),
        reader_code(ReaderCodes::ListModulesRequest) == 0x2c,
        reader_code(ReaderCodes::ListResourcesRequest) == 0x2a,
        reader_code(ReaderCodes::ReadModuleRequest) == 0x28,
        reader_code(ReaderCodes::ReadResourceRequest) == 0x26,
        reader_code(ReaderCodes::CloseExternalProcess) == 0x32,
        reader_code(ReaderCodes::InitializeResourceReaderRequest) == 0x30,
        reader_code(ReaderCodes::InitializeModuleReaderRequest) == 0x2e,
{
}

/// The request with the given code, if there is one.
pub open spec fn code_request(value: u64) -> Option<ReaderCodes> {
    if value == INITIALIZE_RESOURCE_READER_REQUEST {
        Some(ReaderCodes::InitializeResourceReaderRequest)
    } else if value == INITIALIZE_MODULE_READER_REQUEST {
        Some(ReaderCodes::InitializeModuleReaderRequest)
    } else if value == LIST_MODULES_REQUEST {
        Some(ReaderCodes::ListModulesRequest)
    } else if value == LIST_RESOURCES_REQUEST {
        Some(ReaderCodes::ListResourcesRequest)
    } else if value == READ_RESOURCE_REQUEST {
        Some(ReaderCodes::ReadResourceRequest)
    } else if value == READ_MODULE_REQUEST {
        Some(ReaderCodes::ReadModuleRequest)
    } else if value == CLOSE_EXTERNAL_PROCESS {
        Some(ReaderCodes::CloseExternalProcess)
    } else {
        None
    }
}

impl ReaderCodes {
    /// The message code of this request.
    pub fn code(&self) -> (r: u64)
        ensures
            r == reader_code(*self),
    {
        match self {
            ReaderCodes::ListModulesRequest => LIST_MODULES_REQUEST,
            ReaderCodes::ListResourcesRequest => LIST_RESOURCES_REQUEST,
            ReaderCodes::ReadModuleRequest => READ_MODULE_REQUEST,
            ReaderCodes::ReadResourceRequest => READ_RESOURCE_REQUEST,
            ReaderCodes::CloseExternalProcess => CLOSE_EXTERNAL_PROCESS,
            ReaderCodes::InitializeResourceReaderRequest => INITIALIZE_RESOURCE_READER_REQUEST,
            ReaderCodes::InitializeModuleReaderRequest => INITIALIZE_MODULE_READER_REQUEST,
        }
    }

    /// The request with the given message code, if it is one an external reader answers.
    pub fn try_from(value: u64) -> (r: Result<ReaderCodes, ()>)
        ensures
            r matches Ok(c) ==> code_request(value) == Some(c) && reader_code(c) == value,
            r is Err ==> code_request(value) is None && forall|c: ReaderCodes|
                reader_code(c) != value,
    {
        if value == INITIALIZE_RESOURCE_READER_REQUEST {
            Ok(ReaderCodes::InitializeResourceReaderRequest)
        } else if value == INITIALIZE_MODULE_READER_REQUEST {
            Ok(ReaderCodes::InitializeModuleReaderRequest)
        } else if value == LIST_MODULES_REQUEST {
            Ok(ReaderCodes::ListModulesRequest)
        } else if value == LIST_RESOURCES_REQUEST {
            Ok(ReaderCodes::ListResourcesRequest)
        } else if value == READ_RESOURCE_REQUEST {
            Ok(ReaderCodes::ReadResourceRequest)
        } else if value == READ_MODULE_REQUEST {
            Ok(ReaderCodes::ReadModuleRequest)
        } else if value == CLOSE_EXTERNAL_PROCESS {
            Ok(ReaderCodes::CloseExternalProcess)
        } else {
            Err(())
        }
    }
}

/// No text occurs twice.
pub open spec fn texts_unique(s: Seq<Seq<char>>) -> bool {
    forall|i: int, j: int| 0 <= i < j < s.len() ==> #[trigger] s[i] != #[trigger] s[j]
}

/// The first of `new` that is among `seen` or earlier in `new`: the scheme on which
/// registering `new` after `seen` stops.
pub open spec fn first_clash(seen: Seq<Seq<char>>, new: Seq<Seq<char>>) -> Option<Seq<char>>
    decreases new.len(),
{
    if new.len() == 0 {
        None
    } else if seen.contains(new[0]) {
        Some(new[0])
    } else {
        first_clash(seen.push(new[0]), new.drop_first())
    }
}

proof fn lemma_first_clash_append(seen: Seq<Seq<char>>, a: Seq<Seq<char>>, b: Seq<Seq<char>>)
    ensures
        first_clash(seen, a + b) == (match first_clash(seen, a) {
            Some(x) => Some(x),
            None => first_clash(seen + a, b),
        }),
    decreases a.len(),
{
    if a.len() == 0 {
        assert(a + b =~= b);
        assert(seen + a =~= seen);
    } else {
        assert((a + b)[0] == a[0]);
        assert((a + b).drop_first() =~= a.drop_first() + b);
        lemma_first_clash_append(seen.push(a[0]), a.drop_first(), b);
        assert(seen.push(a[0]) + a.drop_first() =~= seen + a);
    }
}

proof fn lemma_concat_contains(a: Seq<Seq<char>>, b: Seq<Seq<char>>, x: Seq<char>)
    ensures
        (a + b).contains(x) <==> (a.contains(x) || b.contains(x)),
{
    if a.contains(x) {
        let i = choose|i: int| 0 <= i < a.len() && a[i] == x;
        assert((a + b)[i] == x);
    }
    if b.contains(x) {
        let i = choose|i: int| 0 <= i < b.len() && b[i] == x;
        assert((a + b)[a.len() + i] == x);
    }
    if (a + b).contains(x) {
        let i = choose|i: int| 0 <= i < (a + b).len() && (a + b)[i] == x;
        if i < a.len() {
            assert(a[i] == x);
        } else {
            assert(b[i - a.len()] == x);
        }
    }
}

/// Registration stops at the first new scheme that is among those registered or earlier
/// among the new ones.
proof fn lemma_clash_at(old: Seq<Seq<char>>, new: Seq<Seq<char>>, i: int)
    requires
        0 <= i < new.len(),
        first_clash(old, new.take(i)) is None,
        (old + new.take(i)).contains(new[i]),
    ensures
        first_clash(old, new) == Some(new[i]),
{
    let rest = new.skip(i);
    assert(new =~= new.take(i) + rest);
    lemma_first_clash_append(old, new.take(i), rest);
    assert(rest[0] == new[i]);
}

/// A scheme that clashes with none keeps the registered ones clash-free.
proof fn lemma_clash_step(old: Seq<Seq<char>>, collected: Seq<Seq<char>>, s: Seq<char>)
    requires
        first_clash(old, collected) is None,
        !(old + collected).contains(s),
    ensures
        first_clash(old, collected.push(s)) is None,
{
    lemma_first_clash_append(old, collected, seq![s]);
    assert(collected.push(s) =~= collected + seq![s]);
    assert(seq![s].drop_first() =~= Seq::<Seq<char>>::empty());
    assert(seq![s][0] == s);
    assert(first_clash((old + collected).push(s), Seq::<Seq<char>>::empty()) is None);
    assert(first_clash(old + collected, seq![s]) == first_clash(
        (old + collected).push(s),
        seq![s].drop_first(),
    ));
}

/// The runtime of an external reader process: its resource and module readers, each with
/// the scheme it reported when it was added.
pub struct ExternalReaderRuntime {
    resource_readers: Vec<Box<dyn PklResourceReader>>,
    resource_schemes: Vec<String>,
    module_readers: Vec<Box<dyn PklModuleReader>>,
    module_schemes: Vec<String>,
}

/// What the runtime does with a message.
pub enum ReaderStep {
    InitializeResourceReader(InitializeResourceReaderResponse),
    InitializeModuleReader(InitializeModuleReaderResponse),
    ListResources(ListResourcesResponse),
    ListModules(ListModulesResponse),
    ReadResource(ReadResourceResponse),
    ReadModule(ReadModuleResponse),
    /// The server closes the process: stop reading.
    Close,
    /// A message no reader answers: read the next one.
    Ignore,
}

impl ExternalReaderRuntime {
    /// Every reader is held with the scheme it reported, and no scheme is registered twice.
    pub closed spec fn wf(&self) -> bool {
        &&& string_views(self.resource_schemes@) == resource_reader_schemes(
            self.resource_readers@,
        )
        &&& string_views(self.module_schemes@) == module_reader_schemes(self.module_readers@)
        &&& texts_unique(string_views(self.resource_schemes@))
        &&& texts_unique(string_views(self.module_schemes@))
    }

    /// A well-formed runtime never holds two resource readers, or two module readers,
    /// with the same scheme: what adding readers keeps.
    pub proof fn law_schemes_distinct(&self)
        requires
            self.wf(),
        ensures
            texts_unique(self.resource_scheme_list()),
            texts_unique(self.module_scheme_list()),
    {
    }

    /// The resource readers, in the order they were added.
    pub closed spec fn resource_reader_list(&self) -> Seq<Box<dyn PklResourceReader>> {
        self.resource_readers@
    }

    /// The module readers, in the order they were added.
    pub closed spec fn module_reader_list(&self) -> Seq<Box<dyn PklModuleReader>> {
        self.module_readers@
    }

    /// The schemes of the resource readers, in the order they were added.
    pub open spec fn resource_scheme_list(&self) -> Seq<Seq<char>> {
        resource_reader_schemes(self.resource_reader_list())
    }

    /// The schemes of the module readers, in the order they were added.
    pub open spec fn module_scheme_list(&self) -> Seq<Seq<char>> {
        module_reader_schemes(self.module_reader_list())
    }

    /// A runtime with no reader.
    pub fn new() -> (r: Self)
        ensures
            r.wf(),
            r.resource_reader_list() == Seq::<Box<dyn PklResourceReader>>::empty(),
            r.module_reader_list() == Seq::<Box<dyn PklModuleReader>>::empty(),
    {
        let r = ExternalReaderRuntime {
            resource_readers: Vec::new(),
            resource_schemes: Vec::new(),
            module_readers: Vec::new(),
            module_schemes: Vec::new(),
        };
        assert(string_views(r.resource_schemes@) =~= resource_reader_schemes(r.resource_readers@));
        assert(string_views(r.module_schemes@) =~= module_reader_schemes(r.module_readers@));
        r
    }

    /// Adds resource readers after those already there. No two readers may share a scheme.
    pub fn add_resource_readers<T: IntoResourceReaders>(&mut self, readers: T) -> (r: &mut Self)
        requires
            old(self).wf(),
            first_clash(
                old(self).resource_scheme_list(),
                resource_reader_schemes(readers.boxed_readers()),
            ) is None,
        ensures
            r.wf(),
            r.resource_reader_list() == old(self).resource_reader_list() + readers.boxed_readers(),
            r.module_reader_list() == old(self).module_reader_list(),
            *final(self) == *final(r),
    {
        let added = self.try_add_resource_readers(readers);
        assert(added is Ok);
        self
    }

    /// Adds resource readers after those already there, when no two readers would share a
    /// scheme; otherwise nothing is added and the error names the first shared scheme.
    pub fn try_add_resource_readers<T: IntoResourceReaders>(&mut self, readers: T) -> (r: Result<
        (),
        String,
    >)
        requires
            old(self).wf(),
        ensures
            final(self).wf(),
            r is Ok <==> first_clash(
                old(self).resource_scheme_list(),
                resource_reader_schemes(readers.boxed_readers()),
            ) is None,
            r is Ok ==> final(self).resource_reader_list() == old(self).resource_reader_list()
                + readers.boxed_readers(),
            r is Err ==> final(self).resource_reader_list() == old(self).resource_reader_list(),
            r matches Err(m) ==> (first_clash(
                old(self).resource_scheme_list(),
                resource_reader_schemes(readers.boxed_readers()),
            ) matches Some(x) && m@ == "Multiple resource readers sharing the same scheme: "@ + x),
            final(self).module_reader_list() == old(self).module_reader_list(),
    {
        let ghost count = readers.reader_count();
        let ghost boxed = readers.boxed_readers();
        let added = readers.into_readers();
        let mut schemes: Vec<String> = Vec::new();
        let mut i: usize = 0;
        while i < added.len()
            invariant
                i <= added@.len(),
                added@.len() == count,
                added@ == boxed,
                boxed == readers.boxed_readers(),
                self.resource_readers@ == old(self).resource_readers@,
                schemes@.len() == i,
                texts_unique(string_views(self.resource_schemes@) + string_views(schemes@)),
                first_clash(string_views(self.resource_schemes@), string_views(schemes@)) is None,
                self.wf(),
                string_views(schemes@) == resource_reader_schemes(added@).take(i as int),
                self.resource_schemes@ == old(self).resource_schemes@,
            decreases added.len() - i,
        {
            let s = owned(added[i].scheme());
            proof {
                lemma_concat_contains(string_views(self.resource_schemes@), string_views(schemes@), s@);
            }
            if contains_text(&self.resource_schemes, s.as_str()) || contains_text(
                &schemes,
                s.as_str(),
            ) {
                let msg = concat("Multiple resource readers sharing the same scheme: ", s.as_str());
                proof {
                    lemma_clash_at(
                        string_views(self.resource_schemes@),
                        resource_reader_schemes(added@),
                        i as int,
                    );
                }
                return Err(msg);
            }
            let ghost before = string_views(schemes@);
            proof {
                lemma_clash_step(string_views(self.resource_schemes@), before, s@);
            }
            schemes.push(s);
            proof {
                assert(string_views(schemes@) =~= before.push(s@));
                assert(resource_reader_schemes(added@).take(i + 1) =~= resource_reader_schemes(added@).take(
                    i as int,
                ).push(s@));
                assert(string_views(self.resource_schemes@) + string_views(schemes@) =~= (
                string_views(self.resource_schemes@) + before).push(s@));
            }
            i = i + 1;
        }
        let ghost old_schemes = string_views(self.resource_schemes@);
        let ghost new_schemes = string_views(schemes@);
        let ghost old_readers = self.resource_readers@;
        let ghost new_readers = added@;
        assert(resource_reader_schemes(added@).take(i as int) =~= resource_reader_schemes(added@));
        let mut added = added;
        self.resource_readers.append(&mut added);
        self.resource_schemes.append(&mut schemes);
        proof {
            assert(string_views(self.resource_schemes@) =~= old_schemes + new_schemes);
            assert(new_schemes.len() == count);
            assert(first_clash(old_schemes, new_schemes) is None);
            assert(resource_reader_schemes(old_readers + new_readers) =~= old_schemes + new_schemes);
            assert(first_clash(old(self).resource_scheme_list(), resource_reader_schemes(new_readers)) is None);
        }
        Ok(())
    }

    /// Adds module readers after those already there. No two readers may share a scheme.
    pub fn add_module_readers<T: IntoModuleReaders>(&mut self, readers: T) -> (r: &mut Self)
        requires
            old(self).wf(),
            first_clash(
                old(self).module_scheme_list(),
                module_reader_schemes(readers.boxed_readers()),
            ) is None,
        ensures
            r.wf(),
            r.module_reader_list() == old(self).module_reader_list() + readers.boxed_readers(),
            r.resource_reader_list() == old(self).resource_reader_list(),
            *final(self) == *final(r),
    {
        let added = self.try_add_module_readers(readers);
        assert(added is Ok);
        self
    }

    /// Adds module readers after those already there, when no two readers would share a
    /// scheme; otherwise nothing is added and the error names the first shared scheme.
    pub fn try_add_module_readers<T: IntoModuleReaders>(&mut self, readers: T) -> (r: Result<
        (),
        String,
    >)
        requires
            old(self).wf(),
        ensures
            final(self).wf(),
            r is Ok <==> first_clash(
                old(self).module_scheme_list(),
                module_reader_schemes(readers.boxed_readers()),
            ) is None,
            r is Ok ==> final(self).module_reader_list() == old(self).module_reader_list()
                + readers.boxed_readers(),
            r is Err ==> final(self).module_reader_list() == old(self).module_reader_list(),
            r matches Err(m) ==> (first_clash(
                old(self).module_scheme_list(),
                module_reader_schemes(readers.boxed_readers()),
            ) matches Some(x) && m@ == "Multiple resource readers sharing the same scheme: "@ + x),
            final(self).resource_reader_list() == old(self).resource_reader_list(),
    {
        let ghost count = readers.reader_count();
        let ghost boxed = readers.boxed_readers();
        let added = readers.into_readers();
        let mut schemes: Vec<String> = Vec::new();
        let mut i: usize = 0;
        while i < added.len()
            invariant
                i <= added@.len(),
                added@.len() == count,
                added@ == boxed,
                boxed == readers.boxed_readers(),
                self.module_readers@ == old(self).module_readers@,
                schemes@.len() == i,
                texts_unique(string_views(self.module_schemes@) + string_views(schemes@)),
                first_clash(string_views(self.module_schemes@), string_views(schemes@)) is None,
                self.wf(),
                string_views(schemes@) == module_reader_schemes(added@).take(i as int),
                self.module_schemes@ == old(self).module_schemes@,
            decreases added.len() - i,
        {
            let s = owned(added[i].scheme());
            proof {
                lemma_concat_contains(string_views(self.module_schemes@), string_views(schemes@), s@);
            }
            if contains_text(&self.module_schemes, s.as_str()) || contains_text(
                &schemes,
                s.as_str(),
            ) {
                let msg = concat("Multiple resource readers sharing the same scheme: ", s.as_str());
                proof {
                    lemma_clash_at(
                        string_views(self.module_schemes@),
                        module_reader_schemes(added@),
                        i as int,
                    );
                }
                return Err(msg);
            }
            let ghost before = string_views(schemes@);
            proof {
                lemma_clash_step(string_views(self.module_schemes@), before, s@);
            }
            schemes.push(s);
            proof {
                assert(string_views(schemes@) =~= before.push(s@));
                assert(module_reader_schemes(added@).take(i + 1) =~= module_reader_schemes(added@).take(
                    i as int,
                ).push(s@));
                assert(string_views(self.module_schemes@) + string_views(schemes@) =~= (
                string_views(self.module_schemes@) + before).push(s@));
            }
            i = i + 1;
        }
        let ghost old_schemes = string_views(self.module_schemes@);
        let ghost new_schemes = string_views(schemes@);
        let ghost old_readers = self.module_readers@;
        let ghost new_readers = added@;
        assert(module_reader_schemes(added@).take(i as int) =~= module_reader_schemes(added@));
        let mut added = added;
        self.module_readers.append(&mut added);
        self.module_schemes.append(&mut schemes);
        proof {
            assert(string_views(self.module_schemes@) =~= old_schemes + new_schemes);
            assert(new_schemes.len() == count);
            assert(first_clash(old_schemes, new_schemes) is None);
            assert(module_reader_schemes(old_readers + new_readers) =~= old_schemes + new_schemes);
            assert(first_clash(old(self).module_scheme_list(), module_reader_schemes(new_readers)) is None);
        }
        Ok(())
    }
}

/// Whether an initialize request can be handled without aborting: its body is a map
/// whose first entry holds an `i64` request id and whose second holds a string scheme.
pub open spec fn init_request_answerable(msg: PklServerMessage) -> bool {
    &&& msg.response is Pairs
    &&& msg.response->Pairs_0@.len() >= 2
    &&& msg.response->Pairs_0@[0].1.spec_as_i64() is Some
    &&& msg.response->Pairs_0@[1].1.spec_as_str() is Some
}

/// The request id of an initialize request.
pub open spec fn init_request_id(msg: PklServerMessage) -> i64 {
    msg.response->Pairs_0@[0].1.spec_as_i64()->0
}

/// The scheme of an initialize request.
pub open spec fn init_scheme(msg: PklServerMessage) -> Seq<char> {
    msg.response->Pairs_0@[1].1.spec_as_str()->0
}

/// Whether a message can be handled without aborting, by its code.
pub open spec fn message_answerable(msg: PklServerMessage) -> bool {
    if msg.header == INITIALIZE_RESOURCE_READER_REQUEST || msg.header
        == INITIALIZE_MODULE_READER_REQUEST {
        init_request_answerable(msg)
    } else if msg.header == LIST_RESOURCES_REQUEST || msg.header == LIST_MODULES_REQUEST
        || msg.header == READ_RESOURCE_REQUEST || msg.header == READ_MODULE_REQUEST {
        request_answerable(msg)
    } else {
        true
    }
}

/// The position of the first string of `v` that holds the text `s`.
fn position_of(v: &Vec<String>, s: &str) -> (r: Option<usize>)
    ensures
        r is Some == string_views(v@).contains(s@),
        r matches Some(i) ==> i < v@.len() && v@[i as int]@ == s@ && forall|j: int|
            0 <= j < i ==> v@[j]@ != s@,
{
    let mut i: usize = 0;
    while i < v.len()
        invariant
            i <= v@.len(),
            forall|j: int| 0 <= j < i ==> v@[j]@ != s@,
        decreases v.len() - i,
    {
        if str_eq(v[i].as_str(), s) {
            assert(string_views(v@)[i as int] == s@);
            return Some(i);
        }
        i = i + 1;
    }
    assert forall|j: int| 0 <= j < string_views(v@).len() implies string_views(v@)[j] != s@ by {}
    None
}

impl ExternalReaderRuntime {
    /// Answers an initialize-resource-reader request: the description of the reader of the
    /// requested scheme, or none when no reader serves it.
    pub fn handle_initalize_resource_reader(&self, pkl_msg: &PklServerMessage) -> (r:
        InitializeResourceReaderResponse)
        requires
            self.wf(),
            init_request_answerable(*pkl_msg),
        ensures
            r.request_id == init_request_id(*pkl_msg),
            r.spec is Some == self.resource_scheme_list().contains(init_scheme(*pkl_msg)),
            r.spec matches Some(d) ==> d.scheme@ == init_scheme(*pkl_msg) && d.describes(
                &self.resource_reader_list()[first_position(
                    self.resource_scheme_list(),
                    init_scheme(*pkl_msg),
                )],
            ),
    {
        let map = pkl_msg.response.as_map().unwrap();
        let request_id = map[0].1.as_i64().unwrap();
        let scheme = map[1].1.as_str().unwrap();
        match position_of(&self.resource_schemes, scheme.as_str()) {
            None => InitializeResourceReaderResponse { request_id, spec: None },
            Some(i) => {
                proof {
                    assert(string_views(self.resource_schemes@)[i as int] == scheme@);
                    assert forall|j: int| 0 <= j < i implies string_views(self.resource_schemes@)[j]
                        != scheme@ by {}
                    lemma_first_position(string_views(self.resource_schemes@), scheme@, i as int);
                }
                let reader = &self.resource_readers[i];
                InitializeResourceReaderResponse {
                    request_id,
                    spec: Some(
                        ClientResourceReader {
                            scheme: owned(scheme.as_str()),
                            has_hierarchical_uris: reader.has_hierarchical_uris(),
                            is_globbable: reader.is_globbable(),
                        },
                    ),
                }
            },
        }
    }

    /// Answers an initialize-module-reader request: the description of the reader of the
    /// requested scheme, or none when no reader serves it.
    pub fn handle_initalize_module_reader(&self, pkl_msg: &PklServerMessage) -> (r:
        InitializeModuleReaderResponse)
        requires
            self.wf(),
            init_request_answerable(*pkl_msg),
        ensures
            r.request_id == init_request_id(*pkl_msg),
            r.spec is Some == self.module_scheme_list().contains(init_scheme(*pkl_msg)),
            r.spec matches Some(d) ==> d.scheme@ == init_scheme(*pkl_msg) && d.describes(
                &self.module_reader_list()[first_position(
                    self.module_scheme_list(),
                    init_scheme(*pkl_msg),
                )],
            ),
    {
        let map = pkl_msg.response.as_map().unwrap();
        let request_id = map[0].1.as_i64().unwrap();
        let scheme = map[1].1.as_str().unwrap();
        match position_of(&self.module_schemes, scheme.as_str()) {
            None => InitializeModuleReaderResponse { request_id, spec: None },
            Some(i) => {
                proof {
                    assert(string_views(self.module_schemes@)[i as int] == scheme@);
                    assert forall|j: int| 0 <= j < i implies string_views(self.module_schemes@)[j]
                        != scheme@ by {}
                    lemma_first_position(string_views(self.module_schemes@), scheme@, i as int);
                }
                let reader = &self.module_readers[i];
                InitializeModuleReaderResponse {
                    request_id,
                    spec: Some(
                        ClientModuleReader {
                            scheme: owned(scheme.as_str()),
                            has_hierarchical_uris: reader.has_hierarchical_uris(),
                            is_globbable: reader.is_globbable(),
                            is_local: reader.is_local(),
                        },
                    ),
                }
            },
        }
    }

    /// What to do with one message from the server: the reply to send, or to stop, or to
    /// read on. Resource requests are answered by the resource readers and module requests
    /// by the module readers, as the reader handlers do. An error is a request missing a
    /// field, or holding one of the wrong kind.
    pub fn handle_message(&self, msg: &PklServerMessage) -> (r: Result<ReaderStep, String>)
        requires
            self.wf(),
            message_answerable(*msg),
        ensures
            msg.header == CLOSE_EXTERNAL_PROCESS ==> r matches Ok(ReaderStep::Close),
            (forall|c: ReaderCodes| reader_code(c) != msg.header) ==> r matches Ok(
                ReaderStep::Ignore,
            ),
            msg.header == INITIALIZE_RESOURCE_READER_REQUEST ==> (r matches Ok(
                ReaderStep::InitializeResourceReader(resp),
            ) && resp.request_id == init_request_id(*msg) && (resp.spec is Some
                == self.resource_scheme_list().contains(init_scheme(*msg))) && (resp.spec matches Some(
                d,
            ) ==> d.scheme@ == init_scheme(*msg) && d.describes(
                &self.resource_reader_list()[first_position(self.resource_scheme_list(), init_scheme(*msg))],
            ))),
            msg.header == INITIALIZE_MODULE_READER_REQUEST ==> (r matches Ok(
                ReaderStep::InitializeModuleReader(resp),
            ) && resp.request_id == init_request_id(*msg) && (resp.spec is Some
                == self.module_scheme_list().contains(init_scheme(*msg))) && (resp.spec matches Some(
                d,
            ) ==> d.scheme@ == init_scheme(*msg) && d.describes(
                &self.module_reader_list()[first_position(self.module_scheme_list(), init_scheme(*msg))],
            ))),
            msg.header == LIST_RESOURCES_REQUEST ==> match r {
                Ok(ReaderStep::ListResources(resp)) => list_resources_answer(self.resource_reader_list(), *msg, Ok(resp)),
                Err(m) => list_resources_answer(self.resource_reader_list(), *msg, Err(m)),
                _ => false,
            },
            msg.header == LIST_MODULES_REQUEST ==> match r {
                Ok(ReaderStep::ListModules(resp)) => list_modules_answer(self.module_reader_list(), *msg, Ok(resp)),
                Err(m) => list_modules_answer(self.module_reader_list(), *msg, Err(m)),
                _ => false,
            },
            msg.header == READ_RESOURCE_REQUEST ==> match r {
                Ok(ReaderStep::ReadResource(resp)) => read_resource_answer(self.resource_reader_list(), *msg, Ok(resp)),
                Err(m) => read_resource_answer(self.resource_reader_list(), *msg, Err(m)),
                _ => false,
            },
            msg.header == READ_MODULE_REQUEST ==> match r {
                Ok(ReaderStep::ReadModule(resp)) => read_module_answer(self.module_reader_list(), *msg, Ok(resp)),
                Err(m) => read_module_answer(self.module_reader_list(), *msg, Err(m)),
                _ => false,
            },
    {
        match ReaderCodes::try_from(msg.header) {
            Ok(ReaderCodes::InitializeResourceReaderRequest) => Ok(
                ReaderStep::InitializeResourceReader(self.handle_initalize_resource_reader(msg)),
            ),
            Ok(ReaderCodes::InitializeModuleReaderRequest) => Ok(
                ReaderStep::InitializeModuleReader(self.handle_initalize_module_reader(msg)),
            ),
            Ok(ReaderCodes::ListResourcesRequest) => {
                let resp = handle_list_resources(self.resource_readers.as_slice(), msg)?;
                Ok(ReaderStep::ListResources(resp))
            },
            Ok(ReaderCodes::ListModulesRequest) => {
                let resp = handle_list_modules(self.module_readers.as_slice(), msg)?;
                Ok(ReaderStep::ListModules(resp))
            },
            Ok(ReaderCodes::ReadResourceRequest) => {
                let resp = handle_read_resource(self.resource_readers.as_slice(), msg)?;
                Ok(ReaderStep::ReadResource(resp))
            },
            Ok(ReaderCodes::ReadModuleRequest) => {
                let resp = handle_read_module(self.module_readers.as_slice(), msg)?;
                Ok(ReaderStep::ReadModule(resp))
            },
            Ok(ReaderCodes::CloseExternalProcess) => Ok(ReaderStep::Close),
            Err(()) => Ok(ReaderStep::Ignore),
        }
    }
}

/// Whether some string of `v` holds the text `s`.
fn contains_text(v: &Vec<String>, s: &str) -> (r: bool)
    ensures
        r == string_views(v@).contains(s@),
{
    let mut i: usize = 0;
    while i < v.len()
        invariant
            i <= v@.len(),
            forall|j: int| 0 <= j < i ==> v@[j]@ != s@,
        decreases v.len() - i,
    {
        if str_eq(v[i].as_str(), s) {
            assert(string_views(v@)[i as int] == s@);
            return true;
        }
        i = i + 1;
    }
    assert forall|j: int| 0 <= j < string_views(v@).len() implies string_views(v@)[j] != s@ by {}
    false
}

} // verus!
