use rpkl::internal::msgapi::outgoing::{ClientModuleReader, ClientResourceReader};
use rpkl::api::evaluator::{
    evaluate_step, EvaluateStep,
    evaluate_request, evaluate_result, evaluator_id_from_response, EvaluatorOptions,
    EvaluatorState, HttpOptions, HttpProxy, ServerReply, CREATE_EVALUATOR_REQUEST_ID,
    OUTGOING_MESSAGE_REQUEST_ID,
};
use rpkl::api::external_reader::{ExternalReaderRuntime, ReaderCodes, ReaderStep};
use rpkl::api::reader::{
    extract_field, handle_list_modules, handle_list_resources, handle_read_module,
    handle_read_resource, list_modules_reply, list_resources_reply, parse_scheme,
    read_module_reply, read_resource_reply, request_fields, PklModuleReader, PklResourceReader,
};
use rpkl::internal::msgapi::codes;
use rpkl::internal::msgapi::incoming::{decode_pkl_message, PklServerMessage, ReadResourceRequest};
use rpkl::internal::msgapi::outgoing::{CreateEvaluator, PathElements};
use rpkl::internal::msgapi::PklMessage;
use rpkl::internal::msgapi::outgoing::{EvaluateRequest, ReadResourceResponse};
use rpkl::msgpack::MsgValue;
use rpkl::utils::string_map::StringMap;
use rpkl::Error;

fn s(text: &str) -> MsgValue {
    MsgValue::String(text.as_bytes().to_vec())
}

struct LdapReader;
struct LdapsReader;
struct ModuleReader;
struct FailingReader;

impl PklResourceReader for LdapReader {
    fn has_hierarchical_uris(&self) -> bool {
        false
    }
    fn is_globbable(&self) -> bool {
        false
    }
    fn scheme(&self) -> &str {
        "ldap"
    }
    fn read(&self, uri: &str) -> Result<Vec<u8>, String> {
        Ok(uri.bytes().collect())
    }
    fn list(&self, _uri: &str) -> Result<Vec<PathElements>, String> {
        Ok(vec![PathElements { name: "a".into(), is_directory: false }])
    }
}

impl PklResourceReader for LdapsReader {
    fn is_globbable(&self) -> bool {
        false
    }
    fn scheme(&self) -> &str {
        "ldaps"
    }
    fn has_hierarchical_uris(&self) -> bool {
        true
    }
    fn read(&self, uri: &str) -> Result<Vec<u8>, String> {
        Ok(uri.bytes().collect())
    }
    fn list(&self, _uri: &str) -> Result<Vec<PathElements>, String> {
        Ok(vec![])
    }
}

impl PklResourceReader for FailingReader {
    fn has_hierarchical_uris(&self) -> bool {
        false
    }
    fn is_globbable(&self) -> bool {
        false
    }
    fn scheme(&self) -> &str {
        "fail"
    }
    fn read(&self, _uri: &str) -> Result<Vec<u8>, String> {
        Err("cannot read".into())
    }
    fn list(&self, _uri: &str) -> Result<Vec<PathElements>, String> {
        Err("cannot list".into())
    }
}

impl PklModuleReader for ModuleReader {
    fn has_hierarchical_uris(&self) -> bool {
        false
    }
    fn is_globbable(&self) -> bool {
        false
    }
    fn scheme(&self) -> &str {
        "remote"
    }
    fn read(&self, _uri: &str) -> Result<String, String> {
        Ok("x = 1".to_string())
    }
    fn is_local(&self) -> bool {
        true
    }
    fn list(&self, _uri: &str) -> Result<Vec<PathElements>, String> {
        Ok(vec![])
    }
}

fn request(header: u64, evaluator_id: i64, request_id: i64, uri: &str) -> PklServerMessage {
    PklServerMessage {
        header,
        response: MsgValue::Pairs(vec![
            (s("requestId"), MsgValue::PosInt(request_id as u64)),
            (s("evaluatorId"), MsgValue::NegInt(evaluator_id)),
            (s("uri"), s(uri)),
        ]),
    }
}

#[test]
fn parse_scheme_cases() {
    assert_eq!(parse_scheme("ldap://host/x"), Some("ldap"));
    assert_eq!(parse_scheme("a+b.c-d:rest"), Some("a+b.c-d"));
    assert_eq!(parse_scheme("no-colon"), None);
    assert_eq!(parse_scheme(":empty"), None);
    assert_eq!(parse_scheme("bad scheme:x"), None);
    assert_eq!(parse_scheme("ünï:x"), None);
    assert_eq!(parse_scheme("x:y:z"), Some("x"));
}

#[test]
fn extract_field_errors() {
    let map = vec![(s("a"), MsgValue::PosInt(1)), (s("a"), MsgValue::PosInt(2))];
    assert_eq!(extract_field(&map, "a").unwrap(), &MsgValue::PosInt(1));
    assert_eq!(extract_field(&map, "b").unwrap_err(), "Field not found: b");

    let wrong_kind = vec![
        (s("evaluatorId"), s("x")),
        (s("requestId"), MsgValue::PosInt(1)),
        (s("uri"), s("a:b")),
    ];
    assert_eq!(request_fields(&wrong_kind).unwrap_err(), "Expected integer value");
    let too_large = vec![
        (s("evaluatorId"), MsgValue::PosInt(u64::MAX)),
        (s("requestId"), MsgValue::PosInt(1)),
        (s("uri"), s("a:b")),
    ];
    assert_eq!(request_fields(&too_large).unwrap_err(), "Failed to convert to i64");
    let bad_uri = vec![
        (s("evaluatorId"), MsgValue::PosInt(1)),
        (s("requestId"), MsgValue::PosInt(1)),
        (s("uri"), MsgValue::PosInt(3)),
    ];
    assert_eq!(request_fields(&bad_uri).unwrap_err(), "Expected string value");
    let invalid_utf8 = vec![
        (s("evaluatorId"), MsgValue::PosInt(1)),
        (s("requestId"), MsgValue::PosInt(1)),
        (s("uri"), MsgValue::String(vec![0xff])),
    ];
    assert_eq!(request_fields(&invalid_utf8).unwrap_err(), "Failed to get str from string");
    let ok = vec![
        (s("uri"), s("a:b")),
        (s("requestId"), MsgValue::PosInt(7)),
        (s("evaluatorId"), MsgValue::NegInt(-3)),
    ];
    let (e, r, u) = request_fields(&ok).unwrap();
    assert_eq!((e, r, u.as_str()), (-3, 7, "a:b"));
    let q = ReadResourceRequest::from_body(&ok).unwrap();
    assert_eq!((q.evaluator_id, q.request_id, q.uri.as_str()), (-3, 7, "a:b"));
}

#[test]
fn replies_echo_ids() {
    let r = read_resource_reply(1, 2, "x:y", None);
    assert_eq!(r.request_id, 1);
    assert_eq!(r.evaluator_id, 2);
    assert_eq!(r.contents, None);
    assert_eq!(r.error.as_deref(), Some("No reader found for scheme: \"x:y\""));

    let r = read_resource_reply(1, 2, "x:y", Some(Ok(vec![9])));
    assert_eq!(r.contents, Some(vec![9]));
    assert_eq!(r.error, None);

    let r = read_module_reply(3, 4, "m:q", Some(Err("boom".into())));
    assert_eq!(r.contents, None);
    assert_eq!(r.error.as_deref(), Some("boom"));

    let r = list_resources_reply(5, 6, "q:\"quoted\"", None);
    assert_eq!(r.error.as_deref(), Some("No reader found for scheme: \"q:\\\"quoted\\\"\""));

    let r = list_modules_reply(5, 6, "q:r", Some(Ok(vec![])));
    assert_eq!(r.path_elements, Some(vec![]));
    assert_eq!(r.error, None);
}

#[test]
fn handle_read_resource_with_readers() {
    let readers: Vec<Box<dyn PklResourceReader>> = vec![Box::new(LdapReader), Box::new(FailingReader)];
    let msg = request(codes::READ_RESOURCE_REQUEST, 11, 22, "ldap://host");
    let resp = handle_read_resource(&readers, &msg).unwrap();
    assert_eq!(
        resp,
        ReadResourceResponse {
            request_id: 22,
            evaluator_id: 11,
            contents: Some(b"ldap://host".to_vec()),
            error: None
        }
    );
    let msg = request(codes::READ_RESOURCE_REQUEST, 11, 23, "fail:x");
    let resp = handle_read_resource(&readers, &msg).unwrap();
    assert_eq!(resp.error.as_deref(), Some("cannot read"));
    let msg = request(codes::READ_RESOURCE_REQUEST, 11, 24, "other:x");
    let resp = handle_read_resource(&readers, &msg).unwrap();
    assert_eq!(resp.error.as_deref(), Some("No reader found for scheme: \"other:x\""));

    let msg = request(codes::LIST_RESOURCES_REQUEST, 1, 2, "ldap:/");
    let resp = handle_list_resources(&readers, &msg).unwrap();
    assert_eq!(resp.path_elements.unwrap()[0].name, "a");
    let msg = request(codes::LIST_RESOURCES_REQUEST, 1, 2, "fail:/");
    assert_eq!(handle_list_resources(&readers, &msg).unwrap().error.as_deref(), Some("cannot list"));

    let missing = PklServerMessage { header: codes::READ_RESOURCE_REQUEST, response: MsgValue::Pairs(vec![]) };
    assert_eq!(handle_read_resource(&readers, &missing).unwrap_err(), "Field not found: evaluatorId");
}

#[test]
fn handle_module_requests() {
    let readers: Vec<Box<dyn PklModuleReader>> = vec![Box::new(ModuleReader)];
    let msg = request(codes::READ_MODULE_REQUEST, 1, 2, "remote:a");
    let resp = handle_read_module(&readers, &msg).unwrap();
    assert_eq!(resp.contents.as_deref(), Some("x = 1"));
    let msg = request(codes::LIST_MODULES_REQUEST, 1, 2, "other:a");
    let resp = handle_list_modules(&readers, &msg).unwrap();
    assert_eq!(resp.path_elements, None);
    assert!(resp.error.is_some());
}

#[test]
fn decode_server_message() {
    let v = MsgValue::Array(vec![MsgValue::PosInt(0x24), s("body")]);
    let m = decode_pkl_message(v).unwrap();
    assert_eq!(m.header, 0x24);
    assert_eq!(m.response, s("body"));
    assert!(decode_pkl_message(MsgValue::Array(vec![MsgValue::PosInt(1)])).is_none());
    assert!(decode_pkl_message(MsgValue::Array(vec![s("x"), s("y")])).is_none());
    assert!(decode_pkl_message(MsgValue::Nil).is_none());
}

#[test]
fn evaluator_id_from_response_cases() {
    let ok = MsgValue::Pairs(vec![(s("requestId"), MsgValue::PosInt(135)), (s("evaluatorId"), MsgValue::NegInt(-5))]);
    assert_eq!(evaluator_id_from_response(&ok).unwrap(), -5);
    match evaluator_id_from_response(&MsgValue::Nil) {
        Err(Error::PklMalformedResponse { message }) => assert_eq!(message, "expected map in response"),
        other => panic!("unexpected {other:?}"),
    }
    match evaluator_id_from_response(&MsgValue::Pairs(vec![])) {
        Err(Error::PklMalformedResponse { message }) => {
            assert_eq!(message, "expected evaluatorId in CreateEvaluator response")
        }
        other => panic!("unexpected {other:?}"),
    }
}

#[test]
fn evaluate_result_cases() {
    let ok = MsgValue::Pairs(vec![(s("result"), MsgValue::Binary(vec![1, 2]))]);
    assert_eq!(evaluate_result(&ok).unwrap(), vec![1, 2]);
    let err = MsgValue::Pairs(vec![(s("error"), s("Cannot find module"))]);
    match evaluate_result(&err) {
        Err(Error::PklServerError { pkl_error }) => assert_eq!(pkl_error, "Cannot find module"),
        other => panic!("unexpected {other:?}"),
    }
    let neither = MsgValue::Pairs(vec![]);
    assert!(matches!(evaluate_result(&neither), Err(Error::PklMalformedResponse { .. })));
    let not_bytes = MsgValue::Pairs(vec![(s("result"), MsgValue::PosInt(1))]);
    assert!(matches!(evaluate_result(&not_bytes), Err(Error::Message(_))));
    assert!(matches!(evaluate_result(&MsgValue::Nil), Err(Error::PklMalformedResponse { .. })));
}

#[test]
fn evaluate_request_uri() {
    let r: EvaluateRequest = evaluate_request(7, "/tmp/a.pkl");
    assert_eq!(r.request_id, OUTGOING_MESSAGE_REQUEST_ID);
    assert_eq!(r.evaluator_id, 7);
    assert_eq!(r.module_uri, "file:///tmp/a.pkl");
    assert_eq!(<EvaluateRequest as PklMessage>::message_id(), codes::EVALUATE_REQUEST);
}

#[test]
fn evaluator_options_builders() {
    let o = EvaluatorOptions::new()
        .property("a", "1")
        .property("b", "2")
        .property("a", "3")
        .timeout_seconds(30)
        .http(HttpOptions::new().proxy(HttpProxy::new("http://proxy:8080").no_proxy(&["localhost", "127.0.0.1"])));
    let props = o.properties.as_ref().unwrap();
    assert_eq!(props.len(), 2);
    assert_eq!(props.get("a").map(|s| s.as_str()), Some("3"));
    assert_eq!(props.entries()[0].0, "a");
    assert_eq!(o.timeout_seconds, Some(30));
    let proxy = o.http.as_ref().unwrap().proxy.as_ref().unwrap();
    assert_eq!(proxy.address.as_deref(), Some("http://proxy:8080"));
    assert_eq!(proxy.no_proxy.as_ref().unwrap(), &vec!["localhost".to_string(), "127.0.0.1".to_string()]);

    let o = o.properties(&[("username", "root"), ("password", "password123")]);
    let props = o.properties.as_ref().unwrap();
    assert_eq!(props.len(), 2);
    assert_eq!(props.get("a"), None);
    assert_eq!(props.get("username").map(|s| s.as_str()), Some("root"));

    let o = EvaluatorOptions::default().external_resource_reader("ldap", "reader", &["--x"]).external_resource_reader("ldap", "other", &[]);
    let readers = o.external_resource_readers.as_ref().unwrap();
    assert_eq!(readers.len(), 1);
    assert_eq!(readers.get("ldap").unwrap().executable, "other");
}

#[test]
fn create_evaluator_allows_reader_schemes() {
    let opts = EvaluatorOptions::default()
        .property("name", "Ferris")
        .add_client_module_readers(ModuleReader)
        .add_client_resource_readers((LdapReader, LdapsReader))
        .external_module_reader("ext", "bin", &[]);
    let msg = CreateEvaluator::from_options(&opts, StringMap::new());
    assert_eq!(msg.request_id, CREATE_EVALUATOR_REQUEST_ID);
    assert_eq!(msg.allowed_modules, vec!["pkl:", "repl:", "file:", "https:", "package:", "remote", "ext"]);
    assert_eq!(
        msg.allowed_resources,
        vec!["env:", "prop:", "package:", "https:", "projectpackage:", "ldap", "ldaps"]
    );
    let modules = msg.client_module_readers.as_ref().unwrap();
    assert!(modules[0].is_local);
    let resources = msg.client_resource_readers.as_ref().unwrap();
    assert_eq!(resources.len(), 2);
    assert!(resources[1].has_hierarchical_uris);
    assert!(msg.properties.is_some());
    assert!(msg.external_resource_readers.is_none());

    let plain = CreateEvaluator::new(StringMap::new());
    assert!(plain.client_module_readers.is_none());
    assert_eq!(plain.allowed_modules.len(), 5);
}

#[test]
fn evaluator_state_answers_requests() {
    let opts = EvaluatorOptions::default().add_client_resource_readers(LdapReader);
    let state = EvaluatorState::new(9, opts);
    assert_eq!(state.id(), 9);
    let msg = request(codes::READ_RESOURCE_REQUEST, 9, 1, "ldap:abc");
    match state.handle_request(&msg).unwrap() {
        ServerReply::ReadResource(r) => assert_eq!(r.contents, Some(b"ldap:abc".to_vec())),
        _ => panic!("wrong reply"),
    }
    let msg = request(codes::LIST_MODULES_REQUEST, 9, 1, "remote:abc");
    match state.handle_request(&msg).unwrap() {
        ServerReply::ListModules(r) => assert!(r.error.is_some()),
        _ => panic!("wrong reply"),
    }
}

#[test]
fn external_runtime_registers_and_answers() {
    let mut rt = ExternalReaderRuntime::new();
    rt.add_resource_readers((LdapReader, LdapsReader)).add_module_readers(ModuleReader);
    let dup = rt.try_add_resource_readers(LdapReader);
    assert_eq!(dup.unwrap_err(), "Multiple resource readers sharing the same scheme: ldap");

    let init = PklServerMessage {
        header: codes::INITIALIZE_RESOURCE_READER_REQUEST,
        response: MsgValue::Pairs(vec![(s("requestId"), MsgValue::PosInt(4)), (s("scheme"), s("ldaps"))]),
    };
    match rt.handle_message(&init).unwrap() {
        ReaderStep::InitializeResourceReader(r) => {
            assert_eq!(r.request_id, 4);
            let spec = r.spec.unwrap();
            assert_eq!(spec.scheme, "ldaps");
            assert!(spec.has_hierarchical_uris);
        }
        _ => panic!("wrong step"),
    }
    let unknown = PklServerMessage {
        header: codes::INITIALIZE_MODULE_READER_REQUEST,
        response: MsgValue::Pairs(vec![(s("requestId"), MsgValue::PosInt(5)), (s("scheme"), s("nope"))]),
    };
    match rt.handle_message(&unknown).unwrap() {
        ReaderStep::InitializeModuleReader(r) => {
            assert_eq!(r.request_id, 5);
            assert!(r.spec.is_none());
        }
        _ => panic!("wrong step"),
    }
    let close = PklServerMessage { header: codes::CLOSE_EXTERNAL_PROCESS, response: MsgValue::Nil };
    assert!(matches!(rt.handle_message(&close).unwrap(), ReaderStep::Close));
    let other = PklServerMessage { header: 0x99, response: MsgValue::Nil };
    assert!(matches!(rt.handle_message(&other).unwrap(), ReaderStep::Ignore));
    let read = request(codes::READ_MODULE_REQUEST, 1, 2, "remote:x");
    match rt.handle_message(&read).unwrap() {
        ReaderStep::ReadModule(r) => assert_eq!(r.contents.as_deref(), Some("x = 1")),
        _ => panic!("wrong step"),
    }
}

#[test]
fn duplicate_scheme_in_one_call_is_refused() {
    let mut rt = ExternalReaderRuntime::new();
    assert!(rt.try_add_resource_readers((LdapReader, LdapReader)).is_err());
    assert!(rt.try_add_resource_readers(LdapReader).is_ok());
    assert!(rt.try_add_module_readers((ModuleReader, ModuleReader)).is_err());
    assert!(rt.try_add_module_readers(ModuleReader).is_ok());
}

#[test]
fn reader_codes_round_trip() {
    for code in [0x26u64, 0x28, 0x2a, 0x2c, 0x2e, 0x30, 0x32] {
        let c = ReaderCodes::try_from(code).unwrap();
        assert_eq!(c.code(), code);
    }
    assert!(ReaderCodes::try_from(0x24).is_err());
}

#[test]
fn reader_aliases_append() {
    let o = EvaluatorOptions::new()
        .client_resource_readers(LdapReader)
        .client_resource_readers((LdapsReader, FailingReader))
        .client_module_readers(ModuleReader);
    assert_eq!(o.client_resource_readers.as_ref().unwrap().len(), 3);
    assert_eq!(o.client_resource_readers.as_ref().unwrap()[1].scheme(), "ldaps");
    assert_eq!(o.client_module_readers.as_ref().unwrap().len(), 1);
}

struct OtherLdapReader;

impl PklResourceReader for OtherLdapReader {
    fn has_hierarchical_uris(&self) -> bool {
        false
    }
    fn is_globbable(&self) -> bool {
        false
    }
    fn scheme(&self) -> &str {
        "ldap"
    }
    fn read(&self, _uri: &str) -> Result<Vec<u8>, String> {
        Ok(b"second".to_vec())
    }
    fn list(&self, _uri: &str) -> Result<Vec<PathElements>, String> {
        Err("second".into())
    }
}

#[test]
fn first_reader_of_scheme_answers() {
    let readers: Vec<Box<dyn PklResourceReader>> =
        vec![Box::new(FailingReader), Box::new(LdapReader), Box::new(OtherLdapReader)];
    let msg = request(codes::READ_RESOURCE_REQUEST, 5, 6, "ldap:x");
    let resp = handle_read_resource(&readers, &msg).unwrap();
    assert_eq!(resp.contents, Some(b"ldap:x".to_vec()));
    assert_eq!(resp.error, None);
    let msg = request(codes::LIST_RESOURCES_REQUEST, 5, 7, "ldap:/");
    let resp = handle_list_resources(&readers, &msg).unwrap();
    assert_eq!(resp.path_elements.unwrap().len(), 1);
    assert_eq!(resp.error, None);

    let reversed: Vec<Box<dyn PklResourceReader>> = vec![Box::new(OtherLdapReader), Box::new(LdapReader)];
    let msg = request(codes::READ_RESOURCE_REQUEST, 5, 8, "ldap:x");
    assert_eq!(handle_read_resource(&reversed, &msg).unwrap().contents, Some(b"second".to_vec()));
}

#[test]
fn no_list_reader_reply() {
    let readers: Vec<Box<dyn PklResourceReader>> = vec![Box::new(LdapReader)];
    let msg = request(codes::LIST_RESOURCES_REQUEST, 3, 4, "other:/");
    let resp = handle_list_resources(&readers, &msg).unwrap();
    assert_eq!(resp.request_id, 4);
    assert_eq!(resp.evaluator_id, 3);
    assert_eq!(resp.path_elements, None);
    assert_eq!(resp.error.as_deref(), Some("No reader found for scheme: \"other:/\""));
}

#[test]
fn reader_descriptions_carry_flags() {
    let r: Box<dyn PklResourceReader> = Box::new(LdapsReader);
    let d = ClientResourceReader::from_reader(&r);
    assert_eq!(d.scheme, "ldaps");
    assert!(d.has_hierarchical_uris);
    assert!(!d.is_globbable);
    let m: Box<dyn PklModuleReader> = Box::new(ModuleReader);
    let d = ClientModuleReader::from_reader(&m);
    assert_eq!(d.scheme, "remote");
    assert!(d.is_local);
    assert!(!d.has_hierarchical_uris);
    assert!(!d.is_globbable);

    let mut rt = ExternalReaderRuntime::new();
    rt.add_module_readers(ModuleReader);
    let init = PklServerMessage {
        header: codes::INITIALIZE_MODULE_READER_REQUEST,
        response: MsgValue::Pairs(vec![(s("requestId"), MsgValue::PosInt(9)), (s("scheme"), s("remote"))]),
    };
    match rt.handle_message(&init).unwrap() {
        ReaderStep::InitializeModuleReader(r) => {
            assert_eq!(r.request_id, 9);
            assert!(r.spec.unwrap().is_local);
        }
        _ => panic!("wrong step"),
    }
}

#[test]
fn evaluate_steps_by_header() {
    assert_eq!(evaluate_step(0x24), EvaluateStep::Finish);
    for h in [0x26u64, 0x28, 0x2a, 0x2c] {
        assert_eq!(evaluate_step(h), EvaluateStep::Answer);
    }
    for h in [0x20u64, 0x23, 0x27, 0x2e, 0x30, 0x32] {
        assert_eq!(evaluate_step(h), EvaluateStep::Unexpected);
    }
}

#[test]
fn readers_added_one_by_one_or_as_pair() {
    let one_by_one = EvaluatorOptions::default()
        .add_client_resource_readers(LdapReader)
        .add_client_resource_readers(LdapsReader);
    let pair = EvaluatorOptions::default().add_client_resource_readers((LdapReader, LdapsReader));
    let schemes = |o: &EvaluatorOptions| -> Vec<String> {
        o.client_resource_readers.as_ref().unwrap().iter().map(|r| r.scheme().to_string()).collect()
    };
    assert_eq!(schemes(&one_by_one), vec!["ldap", "ldaps"]);
    assert_eq!(schemes(&one_by_one), schemes(&pair));
}
