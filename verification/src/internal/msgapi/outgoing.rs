//! Messages the client sends to the pkl server.
use vstd::prelude::*;

use crate::api::evaluator::{EvaluatorOptions, CREATE_EVALUATOR_REQUEST_ID};
use crate::api::reader::{
    module_reader_schemes, resource_reader_schemes, PklModuleReader, PklResourceReader,
};
use crate::internal::msgapi::codes::{
    CLOSE, CREATE_EVALUATOR, EVALUATE_REQUEST, INITIALIZE_MODULE_READER_RESPONSE,
    INITIALIZE_RESOURCE_READER_RESPONSE, LIST_MODULES_RESPONSE, LIST_RESOURCES_RESPONSE,
    READ_MODULE_RESPONSE, READ_RESOURCE_RESPONSE,
};
use crate::internal::msgapi::PklMessage;
use crate::utils::string_map::StringMap;
use crate::utils::text::{owned, string_views};
use crate::value::entries::entries_keys;

verus! {

/// What the server is told of a client-side module reader.
#[derive(Debug, Clone, PartialEq)]
pub struct ClientModuleReader {
    pub scheme: String,
    pub has_hierarchical_uris: bool,
    pub is_globbable: bool,
    pub is_local: bool,
}

/// What the server is told of a client-side resource reader.
#[derive(Debug, Clone, PartialEq)]
pub struct ClientResourceReader {
    /// The URI scheme this reader is responsible for reading.
    pub scheme: String,
    /// Whether the path part of the URI is hierarchical.
    pub has_hierarchical_uris: bool,
    /// Whether this reader supports globbing.
    pub is_globbable: bool,
}

impl ClientModuleReader {
    /// Whether this tells the server the reader's scheme and flags.
    pub open spec fn describes(self, reader: &Box<dyn PklModuleReader>) -> bool {
        &&& self.scheme@ == reader.spec_scheme()
        &&& self.has_hierarchical_uris == reader.spec_hierarchical()
        &&& self.is_globbable == reader.spec_globbable()
        &&& self.is_local == reader.spec_local()
    }

    /// The description of a module reader, asking it each property once.
    pub fn from_reader(reader: &Box<dyn PklModuleReader>) -> (r: ClientModuleReader)
        ensures
            r.describes(reader),
    {
        ClientModuleReader {
            scheme: owned(reader.scheme()),
            has_hierarchical_uris: reader.has_hierarchical_uris(),
            is_globbable: reader.is_globbable(),
            is_local: reader.is_local(),
        }
    }
}

impl ClientResourceReader {
    /// Whether this tells the server the reader's scheme and flags.
    pub open spec fn describes(self, reader: &Box<dyn PklResourceReader>) -> bool {
        &&& self.scheme@ == reader.spec_scheme()
        &&& self.has_hierarchical_uris == reader.spec_hierarchical()
        &&& self.is_globbable == reader.spec_globbable()
    }

    /// The description of a resource reader, asking it each property once.
    pub fn from_reader(reader: &Box<dyn PklResourceReader>) -> (r: ClientResourceReader)
        ensures
            r.describes(reader),
    {
        ClientResourceReader {
            scheme: owned(reader.scheme()),
            has_hierarchical_uris: reader.has_hierarchical_uris(),
            is_globbable: reader.is_globbable(),
        }
    }
}

/// Code 0x20: creates an evaluator.
pub struct CreateEvaluator<'a> {
    pub request_id: u64,
    pub allowed_modules: Vec<String>,
    pub allowed_resources: Vec<String>,
    pub client_module_readers: Option<Vec<ClientModuleReader>>,
    pub client_resource_readers: Option<Vec<ClientResourceReader>>,
    pub env: Option<StringMap<String>>,
    pub properties: Option<&'a StringMap<String>>,
    pub external_resource_readers: Option<&'a StringMap<ExternalReader>>,
    pub external_module_readers: Option<&'a StringMap<ExternalReader>>,
}

/// The module schemes every evaluator allows.
pub open spec fn default_allowed_modules() -> Seq<Seq<char>> {
    seq!["pkl:"@, "repl:"@, "file:"@, "https:"@, "package:"@]
}

/// The resource schemes every evaluator allows.
pub open spec fn default_allowed_resources() -> Seq<Seq<char>> {
    seq!["env:"@, "prop:"@, "package:"@, "https:"@, "projectpackage:"@]
}

/// The schemes of module reader descriptions, in order.
pub open spec fn module_seq_schemes(v: Seq<ClientModuleReader>) -> Seq<Seq<char>> {
    Seq::new(v.len(), |i: int| v[i].scheme@)
}

/// The schemes of resource reader descriptions, in order.
pub open spec fn resource_seq_schemes(v: Seq<ClientResourceReader>) -> Seq<Seq<char>> {
    Seq::new(v.len(), |i: int| v[i].scheme@)
}

/// The schemes of optional module reader descriptions, in order.
pub open spec fn module_schemes(r: Option<Vec<ClientModuleReader>>) -> Seq<Seq<char>> {
    match r {
        Some(v) => module_seq_schemes(v@),
        None => Seq::empty(),
    }
}

/// The schemes of optional resource reader descriptions, in order.
pub open spec fn resource_schemes(r: Option<Vec<ClientResourceReader>>) -> Seq<Seq<char>> {
    match r {
        Some(v) => resource_seq_schemes(v@),
        None => Seq::empty(),
    }
}

/// The keys of an optional map of external readers, in order.
pub open spec fn reader_keys(m: Option<StringMap<ExternalReader>>) -> Seq<Seq<char>> {
    match m {
        Some(m) => entries_keys(m@),
        None => Seq::empty(),
    }
}

/// Appends the keys of a map of external readers to a list of schemes.
fn push_keys(list: &mut Vec<String>, readers: &StringMap<ExternalReader>)
    ensures
        string_views(final(list)@) == string_views(old(list)@) + entries_keys(readers@),
{
    let entries = readers.entries();
    let ghost start = string_views(list@);
    let mut i: usize = 0;
    while i < entries.len()
        invariant
            i <= entries@.len(),
            entries@.len() == readers@.len(),
            forall|j: int| 0 <= j < entries@.len() ==> #[trigger] readers@[j] == (
                entries@[j].0@,
                entries@[j].1@,
            ),
            string_views(list@) == start + entries_keys(readers@).take(i as int),
        decreases entries.len() - i,
    {
        let ghost before = list@;
        list.push(owned(entries[i].0.as_str()));
        assert(string_views(list@) =~= string_views(before).push(entries@[i as int].0@));
        assert(entries_keys(readers@).take(i + 1) =~= entries_keys(readers@).take(i as int).push(
            readers@[i as int].0,
        ));
        i = i + 1;
    }
    assert(entries_keys(readers@).take(entries@.len() as int) =~= entries_keys(readers@));
}

impl<'a> CreateEvaluator<'a> {
    /// The request with the default allowed schemes, the given environment and no option.
    pub fn new(env: StringMap<String>) -> (r: CreateEvaluator<'a>)
        ensures
            r.request_id == CREATE_EVALUATOR_REQUEST_ID,
            string_views(r.allowed_modules@) == default_allowed_modules(),
            string_views(r.allowed_resources@) == default_allowed_resources(),
            r.env == Some(env),
            r.client_module_readers is None,
            r.client_resource_readers is None,
            r.properties is None,
            r.external_resource_readers is None,
            r.external_module_readers is None,
    {
        let allowed_modules = vec![
            owned("pkl:"),
            owned("repl:"),
            owned("file:"),
            owned("https:"),
            owned("package:"),
        ];
        let allowed_resources = vec![
            owned("env:"),
            owned("prop:"),
            owned("package:"),
            owned("https:"),
            owned("projectpackage:"),
        ];
        assert(string_views(allowed_modules@) =~= default_allowed_modules());
        assert(string_views(allowed_resources@) =~= default_allowed_resources());
        CreateEvaluator {
            request_id: CREATE_EVALUATOR_REQUEST_ID,
            allowed_modules,
            allowed_resources,
            client_module_readers: None,
            client_resource_readers: None,
            env: Some(env),
            properties: None,
            external_resource_readers: None,
            external_module_readers: None,
        }
    }

    /// The request for the given options: each client reader is described and its scheme
    /// allowed, and each external reader's scheme is allowed, after the defaults.
    pub fn from_options(opts: &'a EvaluatorOptions, env: StringMap<String>) -> (r:
        CreateEvaluator<'a>)
        ensures
            r.request_id == CREATE_EVALUATOR_REQUEST_ID,
            r.env == Some(env),
            r.properties is Some == opts.properties is Some,
            r.properties matches Some(p) ==> *p == opts.properties->0,
            r.external_resource_readers is Some == opts.external_resource_readers is Some,
            r.external_resource_readers matches Some(m) ==> *m == opts.external_resource_readers->0,
            r.external_module_readers is Some == opts.external_module_readers is Some,
            r.external_module_readers matches Some(m) ==> *m == opts.external_module_readers->0,
            r.client_module_readers is Some == opts.client_module_readers is Some,
            r.client_module_readers matches Some(d) ==> module_seq_schemes(d@)
                == module_reader_schemes(opts.client_module_readers->0@),
            r.client_module_readers matches Some(d) ==> d@.len() == opts.client_module_readers->0@.len()
                && forall|j: int|
                0 <= j < d@.len() ==> #[trigger] d@[j].describes(&opts.client_module_readers->0@[j]),
            r.client_resource_readers is Some == opts.client_resource_readers is Some,
            r.client_resource_readers matches Some(d) ==> resource_seq_schemes(d@)
                == resource_reader_schemes(opts.client_resource_readers->0@),
            r.client_resource_readers matches Some(d) ==> d@.len() == opts.client_resource_readers->0@.len()
                && forall|j: int|
                0 <= j < d@.len() ==> #[trigger] d@[j].describes(&opts.client_resource_readers->0@[j]),
            string_views(r.allowed_modules@) == default_allowed_modules() + module_schemes(
                r.client_module_readers,
            ) + reader_keys(opts.external_module_readers),
            string_views(r.allowed_resources@) == default_allowed_resources() + resource_schemes(
                r.client_resource_readers,
            ) + reader_keys(opts.external_resource_readers),
    {
        let base = CreateEvaluator::new(env);
        let mut modules = base.allowed_modules;
        let mut resources = base.allowed_resources;
        let properties = match &opts.properties {
            Some(p) => Some(p),
            None => None,
        };
        let client_module_readers = match &opts.client_module_readers {
            Some(readers) => {
                let mut descs: Vec<ClientModuleReader> = Vec::with_capacity(readers.len());
                let mut i: usize = 0;
                while i < readers.len()
                    invariant
                        i <= readers@.len(),
                        descs@.len() == i,
                        forall|j: int|
                            0 <= j < i ==> #[trigger] descs@[j].describes(&readers@[j]),
                        module_seq_schemes(descs@) == module_reader_schemes(readers@).take(
                            i as int,
                        ),
                        string_views(modules@) == default_allowed_modules() + module_seq_schemes(
                            descs@,
                        ),
                    decreases readers.len() - i,
                {
                    let d = ClientModuleReader::from_reader(&readers[i]);
                    let ghost before_list = modules@;
                    let ghost before_descs = descs@;
                    modules.push(owned(d.scheme.as_str()));
                    descs.push(d);
                    assert(module_seq_schemes(descs@) =~= module_seq_schemes(before_descs).push(
                        d.scheme@,
                    ));
                    assert(string_views(modules@) =~= string_views(before_list).push(d.scheme@));
                    assert(module_reader_schemes(readers@).take(i + 1) =~= module_reader_schemes(
                        readers@,
                    ).take(i as int).push(d.scheme@));
                    i = i + 1;
                }
                assert(module_reader_schemes(readers@).take(i as int) =~= module_reader_schemes(
                    readers@,
                ));
                Some(descs)
            },
            None => {
                assert(string_views(modules@) =~= default_allowed_modules() + module_schemes(None));
                None
            },
        };
        let client_resource_readers = match &opts.client_resource_readers {
            Some(readers) => {
                let mut descs: Vec<ClientResourceReader> = Vec::with_capacity(readers.len());
                let mut i: usize = 0;
                while i < readers.len()
                    invariant
                        i <= readers@.len(),
                        descs@.len() == i,
                        forall|j: int|
                            0 <= j < i ==> #[trigger] descs@[j].describes(&readers@[j]),
                        resource_seq_schemes(descs@) == resource_reader_schemes(readers@).take(
                            i as int,
                        ),
                        string_views(resources@) == default_allowed_resources()
                            + resource_seq_schemes(descs@),
                    decreases readers.len() - i,
                {
                    let d = ClientResourceReader::from_reader(&readers[i]);
                    let ghost before_list = resources@;
                    let ghost before_descs = descs@;
                    resources.push(owned(d.scheme.as_str()));
                    descs.push(d);
                    assert(resource_seq_schemes(descs@) =~= resource_seq_schemes(before_descs).push(
                        d.scheme@,
                    ));
                    assert(string_views(resources@) =~= string_views(before_list).push(d.scheme@));
                    assert(resource_reader_schemes(readers@).take(i + 1) =~= resource_reader_schemes(
                        readers@,
                    ).take(i as int).push(d.scheme@));
                    i = i + 1;
                }
                assert(resource_reader_schemes(readers@).take(i as int) =~= resource_reader_schemes(
                    readers@,
                ));
                Some(descs)
            },
            None => {
                assert(string_views(resources@) =~= default_allowed_resources() + resource_schemes(
                    None,
                ));
                None
            },
        };
        let external_resource_readers = match &opts.external_resource_readers {
            Some(m) => {
                push_keys(&mut resources, m);
                Some(m)
            },
            None => {
                assert(string_views(resources@) =~= string_views(resources@) + reader_keys(None));
                None
            },
        };
        let external_module_readers = match &opts.external_module_readers {
            Some(m) => {
                push_keys(&mut modules, m);
                Some(m)
            },
            None => {
                assert(string_views(modules@) =~= string_views(modules@) + reader_keys(None));
                None
            },
        };
        CreateEvaluator {
            request_id: base.request_id,
            allowed_modules: modules,
            allowed_resources: resources,
            client_module_readers,
            client_resource_readers,
            env: base.env,
            properties,
            external_resource_readers,
            external_module_readers,
        }
    }
}

impl<'a> PklMessage for CreateEvaluator<'a> {
    fn message_id() -> (r: u64)
        ensures
            r == CREATE_EVALUATOR,
    {
        CREATE_EVALUATOR
    }
}

/// Code 0x22: closes an evaluator.
#[derive(Debug, PartialEq)]
pub struct CloseEvaluator {
    pub evaluator_id: i64,
}

/// Code 0x23: evaluates a module.
#[derive(Debug, PartialEq)]
pub struct EvaluateRequest {
    pub request_id: u64,
    pub evaluator_id: i64,
    pub module_uri: String,
}

/// Code 0x27: the contents of a resource, or why it could not be read.
#[derive(Debug, PartialEq)]
pub struct ReadResourceResponse {
    pub request_id: i64,
    pub evaluator_id: i64,
    pub contents: Option<Vec<u8>>,
    pub error: Option<String>,
}

/// Code 0x29: the source of a module, or why it could not be read.
#[derive(Debug, PartialEq)]
pub struct ReadModuleResponse {
    pub request_id: i64,
    pub evaluator_id: i64,
    pub contents: Option<String>,
    pub error: Option<String>,
}

/// Code 0x31: the description of a resource reader, or none when the scheme is not served.
#[derive(Debug, PartialEq)]
pub struct InitializeResourceReaderResponse {
    pub request_id: i64,
    pub spec: Option<ClientResourceReader>,
}

/// Code 0x2f: the description of a module reader, or none when the scheme is not served.
#[derive(Debug, PartialEq)]
pub struct InitializeModuleReaderResponse {
    pub request_id: i64,
    pub spec: Option<ClientModuleReader>,
}

/// Code 0x2b: the elements at a base path, or why they could not be listed.
#[derive(Debug, PartialEq)]
pub struct ListResourcesResponse {
    pub request_id: i64,
    pub evaluator_id: i64,
    pub path_elements: Option<Vec<PathElements>>,
    pub error: Option<String>,
}

/// Code 0x2d: the elements at a base path, or why they could not be listed.
#[derive(Debug, PartialEq)]
pub struct ListModulesResponse {
    pub request_id: i64,
    pub evaluator_id: i64,
    pub path_elements: Option<Vec<PathElements>>,
    pub error: Option<String>,
}

/// An element at a listed path.
#[derive(Debug, Clone, PartialEq)]
pub struct PathElements {
    /// The name of the element at this path.
    pub name: String,
    /// Whether the element is a directory.
    pub is_directory: bool,
}

/// An external reader process: an executable and its arguments.
#[derive(Debug, Clone, PartialEq)]
pub struct ExternalReader {
    /// An absolute path to an executable, or a name resolved through `PATH`.
    pub executable: String,
    /// Command line arguments passed to the reader process.
    pub arguments: Vec<String>,
}

impl View for ExternalReader {
    type V = (Seq<char>, Seq<Seq<char>>);

    open spec fn view(&self) -> (Seq<char>, Seq<Seq<char>>) {
        (self.executable@, string_views(self.arguments@))
    }
}

impl PklMessage for EvaluateRequest {
    fn message_id() -> (r: u64)
        ensures
            r == EVALUATE_REQUEST,
    {
        EVALUATE_REQUEST
    }
}

impl PklMessage for CloseEvaluator {
    fn message_id() -> (r: u64)
        ensures
            r == CLOSE,
    {
        CLOSE
    }
}

impl PklMessage for ReadResourceResponse {
    fn message_id() -> (r: u64)
        ensures
            r == READ_RESOURCE_RESPONSE,
    {
        READ_RESOURCE_RESPONSE
    }
}

impl PklMessage for ReadModuleResponse {
    fn message_id() -> (r: u64)
        ensures
            r == READ_MODULE_RESPONSE,
    {
        READ_MODULE_RESPONSE
    }
}

impl PklMessage for InitializeResourceReaderResponse {
    fn message_id() -> (r: u64)
        ensures
            r == INITIALIZE_RESOURCE_READER_RESPONSE,
    {
        INITIALIZE_RESOURCE_READER_RESPONSE
    }
}

impl PklMessage for InitializeModuleReaderResponse {
    fn message_id() -> (r: u64)
        ensures
            r == INITIALIZE_MODULE_READER_RESPONSE,
    {
        INITIALIZE_MODULE_READER_RESPONSE
    }
}

impl PklMessage for ListResourcesResponse {
    fn message_id() -> (r: u64)
        ensures
            r == LIST_RESOURCES_RESPONSE,
    {
        LIST_RESOURCES_RESPONSE
    }
}

impl PklMessage for ListModulesResponse {
    fn message_id() -> (r: u64)
        ensures
            r == LIST_MODULES_RESPONSE,
    {
        LIST_MODULES_RESPONSE
    }
}

} // verus!
