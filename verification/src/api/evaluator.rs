//! Evaluator options, and the decisions taken while talking to the pkl server.
use vstd::prelude::*;

use crate::api::reader::{
    field_index, handle_list_modules, handle_list_resources, handle_read_module,
    handle_read_resource, is_first_key, lemma_first_key, lemma_no_key, list_modules_answer, list_resources_answer, read_module_answer,
    read_resource_answer, request_answerable, IntoModuleReaders,
    IntoResourceReaders, PklModuleReader, PklResourceReader,
};
use crate::error::Error;
use crate::internal::msgapi::codes::{
    EVALUATE_RESPONSE, LIST_MODULES_REQUEST, LIST_RESOURCES_REQUEST, READ_MODULE_REQUEST,
    READ_RESOURCE_REQUEST,
};
use crate::internal::msgapi::incoming::PklServerMessage;
use crate::internal::msgapi::outgoing::{
    EvaluateRequest, ExternalReader, ListModulesResponse, ListResourcesResponse,
    ReadModuleResponse, ReadResourceResponse,
};
use crate::msgpack::MsgValue;
use vstd::utf8::{decode_utf8, valid_utf8};
use crate::utils::string_map::StringMap;
use crate::utils::text::{concat, owned, str_eq, str_views, string_views, to_strings};
use crate::value::entries::{entries_insert, entries_insert_all};

verus! {

/// The request id of the create-evaluator request.
pub const CREATE_EVALUATOR_REQUEST_ID: u64 = 135;

/// The request id of evaluate requests.
pub const OUTGOING_MESSAGE_REQUEST_ID: u64 = 9805131;

/// HTTP proxy configuration for outgoing requests.
///
/// Only HTTP proxies are supported (not HTTPS or SOCKS).
/// The proxy address must use the `http://` scheme and contain only host and port.
#[derive(Default, Clone, Debug)]
pub struct HttpProxy {
    /// The proxy server address (e.g., "http://proxy.example.com:8080").
    pub address: Option<String>,
    /// Hosts that should bypass the proxy: hostnames, IP addresses or CIDR notation.
    pub no_proxy: Option<Vec<String>>,
}

impl HttpProxy {
    /// A proxy at the given address, bypassed by no host.
    pub fn new(address: &str) -> (r: Self)
        ensures
            r.address matches Some(a) && a@ == address@,
            r.no_proxy is None,
    {
        HttpProxy { address: Some(owned(address)), no_proxy: None }
    }

    /// Sets the proxy address.
    pub fn address(self, address: &str) -> (r: Self)
        ensures
            r.address matches Some(a) && a@ == address@,
            r.no_proxy == self.no_proxy,
    {
        HttpProxy { address: Some(owned(address)), no_proxy: self.no_proxy }
    }

    /// Sets the hosts that bypass the proxy.
    pub fn no_proxy(self, hosts: &[&str]) -> (r: Self)
        ensures
            r.address == self.address,
            r.no_proxy matches Some(h) && string_views(h@) == str_views(hosts@),
    {
        HttpProxy { address: self.address, no_proxy: Some(to_strings(hosts)) }
    }
}

/// HTTP configuration for outgoing requests.
#[derive(Default, Clone, Debug)]
pub struct HttpOptions {
    /// HTTP proxy configuration.
    pub proxy: Option<HttpProxy>,
    /// PEM-format CA certificates to trust for HTTPS connections.
    pub ca_certificates: Option<Vec<u8>>,
}

impl HttpOptions {
    /// No proxy and no certificates.
    pub fn new() -> (r: Self)
        ensures
            r.proxy is None,
            r.ca_certificates is None,
    {
        HttpOptions { proxy: None, ca_certificates: None }
    }

    /// Sets the HTTP proxy configuration.
    pub fn proxy(self, proxy: HttpProxy) -> (r: Self)
        ensures
            r.proxy == Some(proxy),
            r.ca_certificates == self.ca_certificates,
    {
        HttpOptions { proxy: Some(proxy), ca_certificates: self.ca_certificates }
    }

    /// Sets the CA certificates (PEM format) for HTTPS connections.
    pub fn ca_certificates(self, certs: Vec<u8>) -> (r: Self)
        ensures
            r.proxy == self.proxy,
            r.ca_certificates == Some(certs),
    {
        HttpOptions { proxy: self.proxy, ca_certificates: Some(certs) }
    }
}

/// Options of the evaluator, such as properties (the `-p` flag of the CLI).
pub struct EvaluatorOptions {
    /// Properties, read from `prop:` in `.pkl` files.
    pub properties: Option<StringMap<String>>,
    /// Client-side module readers.
    pub client_module_readers: Option<Vec<Box<dyn PklModuleReader>>>,
    /// Client-side resource readers.
    pub client_resource_readers: Option<Vec<Box<dyn PklResourceReader>>>,
    /// External resource readers, by scheme.
    pub external_resource_readers: Option<StringMap<ExternalReader>>,
    /// External module readers, by scheme.
    pub external_module_readers: Option<StringMap<ExternalReader>>,
    /// HTTP configuration for outgoing requests (proxy, CA certificates).
    pub http: Option<HttpOptions>,
    /// Timeout in seconds for evaluating a source module.
    pub timeout_seconds: Option<u64>,
}

/// The entries of an optional map; none when it is absent.
pub open spec fn map_or_empty<V: View>(m: Option<StringMap<V>>) -> Seq<(Seq<char>, V::V)> {
    match m {
        Some(m) => m@,
        None => Seq::empty(),
    }
}

/// Pairs of string slices as pairs of texts.
pub open spec fn pair_views(p: Seq<(&str, &str)>) -> Seq<(Seq<char>, Seq<char>)> {
    Seq::new(p.len(), |i: int| (p[i].0@, p[i].1@))
}

/// Whether every option has no value.
pub open spec fn options_empty(o: EvaluatorOptions) -> bool {
    &&& o.properties is None
    &&& o.client_module_readers is None
    &&& o.client_resource_readers is None
    &&& o.external_resource_readers is None
    &&& o.external_module_readers is None
    &&& o.http is None
    &&& o.timeout_seconds is None
}

impl Default for EvaluatorOptions {
    /// No option set.
    fn default() -> (r: Self)
        ensures
            options_empty(r),
    {
        EvaluatorOptions {
            properties: None,
            client_module_readers: None,
            client_resource_readers: None,
            external_resource_readers: None,
            external_module_readers: None,
            http: None,
            timeout_seconds: None,
        }
    }
}

impl EvaluatorOptions {
    /// No option set.
    pub fn new() -> (r: Self)
        ensures
            options_empty(r),
    {
        EvaluatorOptions::default()
    }

    /// Adds a property; a key already present takes the new value.
    pub fn property(self, key: &str, value: &str) -> (r: Self)
        ensures
            r.properties matches Some(m) && m@ == entries_insert(
                map_or_empty(self.properties),
                key@,
                value@,
            ),
            r.client_module_readers == self.client_module_readers,
            r.client_resource_readers == self.client_resource_readers,
            r.external_resource_readers == self.external_resource_readers,
            r.external_module_readers == self.external_module_readers,
            r.http == self.http,
            r.timeout_seconds == self.timeout_seconds,
    {
        let mut props = match self.properties {
            Some(p) => p,
            None => StringMap::new(),
        };
        props.insert(owned(key), owned(value));
        EvaluatorOptions {
            properties: Some(props),
            client_module_readers: self.client_module_readers,
            client_resource_readers: self.client_resource_readers,
            external_resource_readers: self.external_resource_readers,
            external_module_readers: self.external_module_readers,
            http: self.http,
            timeout_seconds: self.timeout_seconds,
        }
    }

    /// Replaces the properties by the given pairs; of two pairs with one key the later
    /// value stays, at the place of the first.
    pub fn properties(self, properties: &[(&str, &str)]) -> (r: Self)
        ensures
            r.properties matches Some(m) && m@ == entries_insert_all(
                Seq::<(Seq<char>, Seq<char>)>::empty(),
                pair_views(properties@),
            ),
            r.client_module_readers == self.client_module_readers,
            r.client_resource_readers == self.client_resource_readers,
            r.external_resource_readers == self.external_resource_readers,
            r.external_module_readers == self.external_module_readers,
            r.http == self.http,
            r.timeout_seconds == self.timeout_seconds,
    {
        let mut props: StringMap<String> = StringMap::new();
        let mut i: usize = 0;
        while i < properties.len()
            invariant
                i <= properties@.len(),
                props@ == entries_insert_all(
                    Seq::<(Seq<char>, Seq<char>)>::empty(),
                    pair_views(properties@.take(i as int)),
                ),
            decreases properties.len() - i,
        {
            let (k, v) = properties[i];
            assert(pair_views(properties@.take(i + 1)).drop_last() =~= pair_views(
                properties@.take(i as int),
            ));
            props.insert(owned(k), owned(v));
            i = i + 1;
        }
        assert(properties@.take(properties@.len() as int) =~= properties@);
        EvaluatorOptions {
            properties: Some(props),
            client_module_readers: self.client_module_readers,
            client_resource_readers: self.client_resource_readers,
            external_resource_readers: self.external_resource_readers,
            external_module_readers: self.external_module_readers,
            http: self.http,
            timeout_seconds: self.timeout_seconds,
        }
    }

    /// Adds client-side resource readers after those already there.
    pub fn add_client_resource_readers(self, readers: impl IntoResourceReaders) -> (r: Self)
        ensures
            r.client_resource_readers is Some,
            r.client_resource_readers->0@ == match self.client_resource_readers {
                Some(v) => v@,
                None => Seq::<Box<dyn PklResourceReader>>::empty(),
            } + readers.boxed_readers(),
            r.properties == self.properties,
            r.client_module_readers == self.client_module_readers,
            r.external_resource_readers == self.external_resource_readers,
            r.external_module_readers == self.external_module_readers,
            r.http == self.http,
            r.timeout_seconds == self.timeout_seconds,
    {
        let mut added = readers.into_readers();
        let all = match self.client_resource_readers {
            Some(mut v) => {
                v.append(&mut added);
                v
            },
            None => {
                assert(added@ =~= Seq::empty() + added@);
                added
            },
        };
        EvaluatorOptions {
            properties: self.properties,
            client_module_readers: self.client_module_readers,
            client_resource_readers: Some(all),
            external_resource_readers: self.external_resource_readers,
            external_module_readers: self.external_module_readers,
            http: self.http,
            timeout_seconds: self.timeout_seconds,
        }
    }

    /// Adds client-side module readers after those already there.
    pub fn add_client_module_readers(self, readers: impl IntoModuleReaders) -> (r: Self)
        ensures
            r.client_module_readers is Some,
            r.client_module_readers->0@ == match self.client_module_readers {
                Some(v) => v@,
                None => Seq::<Box<dyn PklModuleReader>>::empty(),
            } + readers.boxed_readers(),
            r.properties == self.properties,
            r.client_resource_readers == self.client_resource_readers,
            r.external_resource_readers == self.external_resource_readers,
            r.external_module_readers == self.external_module_readers,
            r.http == self.http,
            r.timeout_seconds == self.timeout_seconds,
    {
        let mut added = readers.into_readers();
        let all = match self.client_module_readers {
            Some(mut v) => {
                v.append(&mut added);
                v
            },
            None => {
                assert(added@ =~= Seq::empty() + added@);
                added
            },
        };
        EvaluatorOptions {
            properties: self.properties,
            client_module_readers: Some(all),
            client_resource_readers: self.client_resource_readers,
            external_resource_readers: self.external_resource_readers,
            external_module_readers: self.external_module_readers,
            http: self.http,
            timeout_seconds: self.timeout_seconds,
        }
    }

    /// Adds client-side resource readers after those already there; the same as
    /// [`Self::add_client_resource_readers`].
    pub fn client_resource_readers(self, readers: impl IntoResourceReaders) -> (r: Self)
        ensures
            r.client_resource_readers is Some,
            r.client_resource_readers->0@ == match self.client_resource_readers {
                Some(v) => v@,
                None => Seq::<Box<dyn PklResourceReader>>::empty(),
            } + readers.boxed_readers(),
            r.properties == self.properties,
            r.client_module_readers == self.client_module_readers,
            r.external_resource_readers == self.external_resource_readers,
            r.external_module_readers == self.external_module_readers,
            r.http == self.http,
            r.timeout_seconds == self.timeout_seconds,
    {
        self.add_client_resource_readers(readers)
    }

    /// Adds client-side module readers after those already there; the same as
    /// [`Self::add_client_module_readers`].
    pub fn client_module_readers(self, readers: impl IntoModuleReaders) -> (r: Self)
        ensures
            r.client_module_readers is Some,
            r.client_module_readers->0@ == match self.client_module_readers {
                Some(v) => v@,
                None => Seq::<Box<dyn PklModuleReader>>::empty(),
            } + readers.boxed_readers(),
            r.properties == self.properties,
            r.client_resource_readers == self.client_resource_readers,
            r.external_resource_readers == self.external_resource_readers,
            r.external_module_readers == self.external_module_readers,
            r.http == self.http,
            r.timeout_seconds == self.timeout_seconds,
    {
        self.add_client_module_readers(readers)
    }

    /// Adds an external resource reader for a scheme; a scheme already present takes the
    /// new reader.
    pub fn external_resource_reader(self, key: &str, executable: &str, args: &[&str]) -> (r:
        Self)
        ensures
            r.external_resource_readers matches Some(m) && m@ == entries_insert(
                map_or_empty(self.external_resource_readers),
                key@,
                (executable@, str_views(args@)),
            ),
            r.properties == self.properties,
            r.client_module_readers == self.client_module_readers,
            r.client_resource_readers == self.client_resource_readers,
            r.external_module_readers == self.external_module_readers,
            r.http == self.http,
            r.timeout_seconds == self.timeout_seconds,
    {
        let reader = ExternalReader { executable: owned(executable), arguments: to_strings(args) };
        let mut readers = match self.external_resource_readers {
            Some(m) => m,
            None => StringMap::new(),
        };
        readers.insert(owned(key), reader);
        EvaluatorOptions {
            properties: self.properties,
            client_module_readers: self.client_module_readers,
            client_resource_readers: self.client_resource_readers,
            external_resource_readers: Some(readers),
            external_module_readers: self.external_module_readers,
            http: self.http,
            timeout_seconds: self.timeout_seconds,
        }
    }

    /// Adds an external module reader for a scheme; a scheme already present takes the
    /// new reader.
    pub fn external_module_reader(self, key: &str, executable: &str, args: &[&str]) -> (r: Self)
        ensures
            r.external_module_readers matches Some(m) && m@ == entries_insert(
                map_or_empty(self.external_module_readers),
                key@,
                (executable@, str_views(args@)),
            ),
            r.properties == self.properties,
            r.client_module_readers == self.client_module_readers,
            r.client_resource_readers == self.client_resource_readers,
            r.external_resource_readers == self.external_resource_readers,
            r.http == self.http,
            r.timeout_seconds == self.timeout_seconds,
    {
        let reader = ExternalReader { executable: owned(executable), arguments: to_strings(args) };
        let mut readers = match self.external_module_readers {
            Some(m) => m,
            None => StringMap::new(),
        };
        readers.insert(owned(key), reader);
        EvaluatorOptions {
            properties: self.properties,
            client_module_readers: self.client_module_readers,
            client_resource_readers: self.client_resource_readers,
            external_resource_readers: self.external_resource_readers,
            external_module_readers: Some(readers),
            http: self.http,
            timeout_seconds: self.timeout_seconds,
        }
    }

    /// Sets the HTTP configuration for outgoing requests.
    pub fn http(self, http: HttpOptions) -> (r: Self)
        ensures
            r.http == Some(http),
            r.properties == self.properties,
            r.client_module_readers == self.client_module_readers,
            r.client_resource_readers == self.client_resource_readers,
            r.external_resource_readers == self.external_resource_readers,
            r.external_module_readers == self.external_module_readers,
            r.timeout_seconds == self.timeout_seconds,
    {
        EvaluatorOptions {
            properties: self.properties,
            client_module_readers: self.client_module_readers,
            client_resource_readers: self.client_resource_readers,
            external_resource_readers: self.external_resource_readers,
            external_module_readers: self.external_module_readers,
            http: Some(http),
            timeout_seconds: self.timeout_seconds,
        }
    }

    /// Sets the timeout in seconds for evaluating a source module.
    pub fn timeout_seconds(self, seconds: u64) -> (r: Self)
        ensures
            r.timeout_seconds == Some(seconds),
            r.properties == self.properties,
            r.client_module_readers == self.client_module_readers,
            r.client_resource_readers == self.client_resource_readers,
            r.external_resource_readers == self.external_resource_readers,
            r.external_module_readers == self.external_module_readers,
            r.http == self.http,
    {
        EvaluatorOptions {
            properties: self.properties,
            client_module_readers: self.client_module_readers,
            client_resource_readers: self.client_resource_readers,
            external_resource_readers: self.external_resource_readers,
            external_module_readers: self.external_module_readers,
            http: self.http,
            timeout_seconds: Some(seconds),
        }
    }
}

/// The evaluator id of a create-evaluator response: the `i64` under the first
/// `evaluatorId` key of its map.
pub open spec fn spec_evaluator_id(response: MsgValue) -> Option<i64> {
    match response {
        MsgValue::Pairs(m) => {
            let i = field_index(m@, "evaluatorId"@);
            if i >= 0 {
                m@[i].1.spec_as_i64()
            } else {
                None
            }
        },
        _ => None,
    }
}

/// Position of the first entry whose key is the string `field`.
fn find_field(map: &Vec<(MsgValue, MsgValue)>, field: &str) -> (r: Option<usize>)
    ensures
        r matches Some(i) ==> i == field_index(map@, field@) && i < map@.len(),
        r is None ==> field_index(map@, field@) < 0,
{
    proof {
        crate::api::reader::lemma_field_index(map@, field@);
    }
    let mut i: usize = 0;
    while i < map.len()
        invariant
            i <= map@.len(),
            forall|j: int| 0 <= j < i ==> map@[j].0.spec_as_str() != Some(field@),
        decreases map.len() - i,
    {
        let hit = match map[i].0.as_str() {
            Some(k) => str_eq(k.as_str(), field),
            None => false,
        };
        if hit {
            proof {
                crate::api::reader::lemma_field_index(map@, field@);
                if field_index(map@, field@) != i {
                    assert(map@[i as int].0.spec_as_str() == Some(field@));
                }
            }
            return Some(i);
        }
        i = i + 1;
    }
    proof {
        crate::api::reader::lemma_field_index(map@, field@);
    }
    None
}

/// The evaluator id that the server gave in its create-evaluator response.
pub fn evaluator_id_from_response(response: &MsgValue) -> (r: Result<i64, Error>)
    ensures
        r matches Ok(id) ==> spec_evaluator_id(*response) == Some(id),
        response !is Pairs ==> (r matches Err(Error::PklMalformedResponse { message }) && message@
            == "expected map in response"@),
        response is Pairs && spec_evaluator_id(*response) is None ==> (r matches Err(
            Error::PklMalformedResponse { message },
        ) && message@ == "expected evaluatorId in CreateEvaluator response"@),
        spec_evaluator_id(*response) is Some ==> r is Ok,
{
    let map = match response.as_map() {
        Some(m) => m,
        None => {
            return Err(Error::PklMalformedResponse { message: owned("expected map in response") });
        },
    };
    let found = match find_field(map, "evaluatorId") {
        Some(i) => map[i].1.as_i64(),
        None => None,
    };
    match found {
        Some(id) => Ok(id),
        None => Err(
            Error::PklMalformedResponse {
                message: owned("expected evaluatorId in CreateEvaluator response"),
            },
        ),
    }
}

/// The request to evaluate the module at an absolute path.
pub fn evaluate_request(evaluator_id: i64, path: &str) -> (r: EvaluateRequest)
    ensures
        r.request_id == OUTGOING_MESSAGE_REQUEST_ID,
        r.evaluator_id == evaluator_id,
        r.module_uri@ == "file://"@ + path@,
{
    EvaluateRequest {
        request_id: OUTGOING_MESSAGE_REQUEST_ID,
        evaluator_id,
        module_uri: concat("file://", path),
    }
}

/// What an evaluate response gives: the bytes of the evaluated module, the server's error
/// message, or why the response is malformed.
pub enum EvaluateOutcome {
    /// The MessagePack bytes of the module.
    Module(Seq<u8>),
    /// The server could not evaluate the module.
    ServerError(Seq<char>),
    /// The result is neither bytes nor a string.
    ResultNotBytes,
    /// The error message is not valid UTF-8.
    ErrorNotText,
    /// Neither a result nor an error.
    Neither,
    /// The body is not a map.
    NotMap,
}

/// What an evaluate response gives: the value under the first `result` key, else the
/// value under the first `error` key.
pub open spec fn spec_evaluate_outcome(response: MsgValue) -> EvaluateOutcome {
    match response {
        MsgValue::Pairs(m) => {
            let i = field_index(m@, "result"@);
            if i >= 0 {
                match m@[i].1.spec_as_slice() {
                    Some(b) => EvaluateOutcome::Module(b),
                    None => EvaluateOutcome::ResultNotBytes,
                }
            } else {
                let j = field_index(m@, "error"@);
                if j >= 0 {
                    match m@[j].1.spec_as_str() {
                        Some(e) => EvaluateOutcome::ServerError(e),
                        None => EvaluateOutcome::ErrorNotText,
                    }
                } else {
                    EvaluateOutcome::Neither
                }
            }
        },
        _ => EvaluateOutcome::NotMap,
    }
}

/// The bytes of the evaluated module in an evaluate response, or the error it reports.
pub fn evaluate_result(response: &MsgValue) -> (r: Result<Vec<u8>, Error>)
    ensures
        match spec_evaluate_outcome(*response) {
            EvaluateOutcome::Module(b) => r matches Ok(v) && v@ == b,
            EvaluateOutcome::ServerError(e) => r matches Err(Error::PklServerError { pkl_error })
                && pkl_error@ == e,
            EvaluateOutcome::ResultNotBytes => r matches Err(Error::Message(m)) && m@
                == "expected result to be a slice, got: {result:?}"@,
            EvaluateOutcome::ErrorNotText => r matches Err(Error::Message(m)) && m@
                == "error message from pkl should be valid utf8"@,
            EvaluateOutcome::Neither => r matches Err(Error::PklMalformedResponse { message })
                && message@ == "expected result or error in evaluate response"@,
            EvaluateOutcome::NotMap => r matches Err(Error::PklMalformedResponse { message })
                && message@ == "expected map in evaluate response"@,
        },
{
    let map = match response.as_map() {
        Some(m) => m,
        None => {
            return Err(
                Error::PklMalformedResponse { message: owned("expected map in evaluate response") },
            );
        },
    };
    match find_field(map, "result") {
        Some(i) => match map[i].1.as_slice() {
            Some(b) => Ok(b.clone()),
            None => Err(Error::Message(owned("expected result to be a slice, got: {result:?}"))),
        },
        None => match find_field(map, "error") {
            Some(j) => match map[j].1.as_str() {
                Some(e) => Err(Error::PklServerError { pkl_error: e }),
                None => Err(Error::Message(owned("error message from pkl should be valid utf8"))),
            },
            None => Err(
                Error::PklMalformedResponse {
                    message: owned("expected result or error in evaluate response"),
                },
            ),
        },
    }
}

/// The reply to a request the server sends while it evaluates a module.
pub enum ServerReply {
    ReadResource(ReadResourceResponse),
    ReadModule(ReadModuleResponse),
    ListResources(ListResourcesResponse),
    ListModules(ListModulesResponse),
}

/// What the client does with a message the server sends while it evaluates a module.
#[derive(Debug, PartialEq, Eq, Structural, Clone, Copy)]
pub enum EvaluateStep {
    /// The evaluate response: stop reading and take the result from it.
    Finish,
    /// A read or list request: answer it with the client-side readers, then read on.
    Answer,
    /// Any other message, which the client does not expect while it evaluates.
    Unexpected,
}

/// Whether a message code is that of a read or list request the client answers.
pub open spec fn is_client_request(header: u64) -> bool {
    header == READ_RESOURCE_REQUEST || header == READ_MODULE_REQUEST || header
        == LIST_MODULES_REQUEST || header == LIST_RESOURCES_REQUEST
}

/// The requests the client answers while it evaluates are exactly those with codes 0x26
/// (read resource), 0x28 (read module), 0x2a (list resources) and 0x2c (list modules);
/// the evaluate response has code 0x24.
pub proof fn law_client_requests(header: u64)
    ensures
        is_client_request(header) <==> (header == 0x26 || header == 0x28 || header == 0x2a
            || header == 0x2c),
        EVALUATE_RESPONSE == 0x24,
{
}

/// The next step of evaluating a module, by the code of the message the server sent.
pub fn evaluate_step(header: u64) -> (r: EvaluateStep)
    ensures
        r == (if header == EVALUATE_RESPONSE {
            EvaluateStep::Finish
        } else if is_client_request(header) {
            EvaluateStep::Answer
        } else {
            EvaluateStep::Unexpected
        }),
{
    if header == EVALUATE_RESPONSE {
        EvaluateStep::Finish
    } else if header == READ_RESOURCE_REQUEST || header == READ_MODULE_REQUEST || header
        == LIST_MODULES_REQUEST || header == LIST_RESOURCES_REQUEST {
        EvaluateStep::Answer
    } else {
        EvaluateStep::Unexpected
    }
}

/// Whether the server's request is one the client answers, and can be handled without
/// aborting.
pub open spec fn client_request_answerable(msg: PklServerMessage) -> bool {
    &&& (msg.header == READ_RESOURCE_REQUEST || msg.header == READ_MODULE_REQUEST || msg.header
        == LIST_MODULES_REQUEST || msg.header == LIST_RESOURCES_REQUEST)
    &&& request_answerable(msg)
}

/// An evaluator's state on the client side: its id and its client-side readers.
pub struct EvaluatorState {
    evaluator_id: i64,
    client_module_readers: Vec<Box<dyn PklModuleReader>>,
    client_resource_readers: Vec<Box<dyn PklResourceReader>>,
}

impl EvaluatorState {
    /// The evaluator's id.
    pub closed spec fn spec_id(&self) -> i64 {
        self.evaluator_id
    }

    /// The client-side module readers.
    pub closed spec fn module_readers(&self) -> Seq<Box<dyn PklModuleReader>> {
        self.client_module_readers@
    }

    /// The client-side resource readers.
    pub closed spec fn resource_readers(&self) -> Seq<Box<dyn PklResourceReader>> {
        self.client_resource_readers@
    }

    /// The state of the evaluator with the given id, keeping the client-side readers of
    /// the options (none where the options have none).
    pub fn new(evaluator_id: i64, options: EvaluatorOptions) -> (r: EvaluatorState)
        ensures
            r.spec_id() == evaluator_id,
            r.module_readers() == match options.client_module_readers {
                Some(v) => v@,
                None => Seq::<Box<dyn PklModuleReader>>::empty(),
            },
            r.resource_readers() == match options.client_resource_readers {
                Some(v) => v@,
                None => Seq::<Box<dyn PklResourceReader>>::empty(),
            },
    {
        let client_module_readers = match options.client_module_readers {
            Some(v) => v,
            None => Vec::new(),
        };
        let client_resource_readers = match options.client_resource_readers {
            Some(v) => v,
            None => Vec::new(),
        };
        EvaluatorState { evaluator_id, client_module_readers, client_resource_readers }
    }

    /// The evaluator's id.
    pub fn id(&self) -> (r: i64)
        ensures
            r == self.spec_id(),
    {
        self.evaluator_id
    }

    /// Answers a read or list request of the server: resource requests with the client-side
    /// resource readers, module requests with the module readers, each as the reader
    /// handlers do. An error is a request missing a field, or holding one of the wrong kind.
    pub fn handle_request(&self, msg: &PklServerMessage) -> (r: Result<ServerReply, Error>)
        requires
            client_request_answerable(*msg),
        ensures
            msg.header == READ_RESOURCE_REQUEST ==> match r {
                Ok(ServerReply::ReadResource(resp)) => read_resource_answer(self.resource_readers(), *msg, Ok(resp)),
                Err(Error::Message(m)) => read_resource_answer(self.resource_readers(), *msg, Err(m)),
                _ => false,
            },
            msg.header == READ_MODULE_REQUEST ==> match r {
                Ok(ServerReply::ReadModule(resp)) => read_module_answer(self.module_readers(), *msg, Ok(resp)),
                Err(Error::Message(m)) => read_module_answer(self.module_readers(), *msg, Err(m)),
                _ => false,
            },
            msg.header == LIST_RESOURCES_REQUEST ==> match r {
                Ok(ServerReply::ListResources(resp)) => list_resources_answer(self.resource_readers(), *msg, Ok(resp)),
                Err(Error::Message(m)) => list_resources_answer(self.resource_readers(), *msg, Err(m)),
                _ => false,
            },
            msg.header == LIST_MODULES_REQUEST ==> match r {
                Ok(ServerReply::ListModules(resp)) => list_modules_answer(self.module_readers(), *msg, Ok(resp)),
                Err(Error::Message(m)) => list_modules_answer(self.module_readers(), *msg, Err(m)),
                _ => false,
            },
    {
        if msg.header == READ_RESOURCE_REQUEST {
            match handle_read_resource(self.client_resource_readers.as_slice(), msg) {
                Ok(resp) => Ok(ServerReply::ReadResource(resp)),
                Err(e) => Err(Error::Message(e)),
            }
        } else if msg.header == READ_MODULE_REQUEST {
            match handle_read_module(self.client_module_readers.as_slice(), msg) {
                Ok(resp) => Ok(ServerReply::ReadModule(resp)),
                Err(e) => Err(Error::Message(e)),
            }
        } else if msg.header == LIST_MODULES_REQUEST {
            match handle_list_modules(self.client_module_readers.as_slice(), msg) {
                Ok(resp) => Ok(ServerReply::ListModules(resp)),
                Err(e) => Err(Error::Message(e)),
            }
        } else {
            match handle_list_resources(self.client_resource_readers.as_slice(), msg) {
                Ok(resp) => Ok(ServerReply::ListResources(resp)),
                Err(e) => Err(Error::Message(e)),
            }
        }
    }
}

/// The evaluator id is the integer under the first `evaluatorId` key of the response map,
/// wherever that entry stands: a non-negative integer up to `i64::MAX` as well as a
/// negative one. A value that is no integer, or a map without that key, gives no id.
pub proof fn law_evaluator_id(m: Vec<(MsgValue, MsgValue)>, i: int)
    ensures
        is_first_key(m@, "evaluatorId"@, i) ==> {
            let v = m@[i].1;
            &&& (v matches MsgValue::PosInt(u) ==> (u <= i64::MAX ==> spec_evaluator_id(
                MsgValue::Pairs(m),
            ) == Some(u as i64)))
            &&& (v matches MsgValue::NegInt(n) ==> spec_evaluator_id(MsgValue::Pairs(m)) == Some(
                n,
            ))
            &&& (!(v is PosInt || v is NegInt) ==> spec_evaluator_id(MsgValue::Pairs(m)) is None)
        },
        (forall|j: int| 0 <= j < m@.len() ==> m@[j].0.spec_as_str() != Some("evaluatorId"@))
            ==> spec_evaluator_id(MsgValue::Pairs(m)) is None,
{
    if is_first_key(m@, "evaluatorId"@, i) {
        lemma_first_key(m@, "evaluatorId"@, i);
    }
    if forall|j: int| 0 <= j < m@.len() ==> m@[j].0.spec_as_str() != Some("evaluatorId"@) {
        lemma_no_key(m@, "evaluatorId"@);
    }
}

/// An evaluate response gives the bytes under the first `result` key of its map, wherever
/// that entry stands; with no `result` key, the text under the first `error` key is the
/// server's error; with neither, the response is malformed.
pub proof fn law_evaluate_outcome(m: Vec<(MsgValue, MsgValue)>, i: int)
    ensures
        is_first_key(m@, "result"@, i) ==> (m@[i].1 matches MsgValue::Binary(b) ==> spec_evaluate_outcome(
            MsgValue::Pairs(m),
        ) == EvaluateOutcome::Module(b@)),
        is_first_key(m@, "result"@, i) ==> (m@[i].1 matches MsgValue::String(b) ==> spec_evaluate_outcome(
            MsgValue::Pairs(m),
        ) == EvaluateOutcome::Module(b@)),
        (forall|j: int| 0 <= j < m@.len() ==> m@[j].0.spec_as_str() != Some("result"@))
            ==> (is_first_key(m@, "error"@, i) ==> (m@[i].1 matches MsgValue::String(t) ==> (
            valid_utf8(t@) ==> spec_evaluate_outcome(MsgValue::Pairs(m))
                == EvaluateOutcome::ServerError(decode_utf8(t@))))),
        (forall|j: int|
            0 <= j < m@.len() ==> m@[j].0.spec_as_str() != Some("result"@) && m@[j].0.spec_as_str()
                != Some("error"@)) ==> spec_evaluate_outcome(MsgValue::Pairs(m))
            == EvaluateOutcome::Neither,
{
    if is_first_key(m@, "result"@, i) {
        lemma_first_key(m@, "result"@, i);
    }
    if forall|j: int| 0 <= j < m@.len() ==> m@[j].0.spec_as_str() != Some("result"@) {
        lemma_no_key(m@, "result"@);
        if is_first_key(m@, "error"@, i) {
            lemma_first_key(m@, "error"@, i);
        }
    }
    if forall|j: int|
        0 <= j < m@.len() ==> m@[j].0.spec_as_str() != Some("result"@) && m@[j].0.spec_as_str()
            != Some("error"@) {
        lemma_no_key(m@, "result"@);
        lemma_no_key(m@, "error"@);
    }
}

} // verus!
