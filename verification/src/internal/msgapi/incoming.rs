//! Messages received from the pkl server.
use vstd::prelude::*;

use crate::api::reader::{request_fields, spec_request_fields};
use crate::msgpack::MsgValue;

verus! {

/// A message received from the pkl server: its code and its body.
#[derive(Debug)]
pub struct PklServerMessage {
    pub header: u64,
    pub response: MsgValue,
}

/// The message that a value read from the server stands for: an array whose first
/// slot is the code and whose second slot is the body.
pub open spec fn spec_server_message(value: MsgValue) -> Option<PklServerMessage> {
    match value {
        MsgValue::Array(a) => if a@.len() >= 1 && a@[0].spec_as_u64() is Some && a@.len() >= 2 {
            Some(PklServerMessage { header: a@[0].spec_as_u64().unwrap(), response: a@[1] })
        } else {
            None
        },
        _ => None,
    }
}

/// Splits a value read from the server into its code and its body.
pub fn decode_pkl_message(value: MsgValue) -> (r: Option<PklServerMessage>)
    ensures
        r == spec_server_message(value),
{
    match value {
        MsgValue::Array(mut a) => {
            if a.len() == 0 {
                return None;
            }
            let header = match a[0].as_u64() {
                Some(h) => h,
                None => {
                    return None;
                },
            };
            if a.len() < 2 {
                return None;
            }
            let ghost before = a@;
            let response = a.swap_remove(1);
            assert(response == before[1]);
            Some(PklServerMessage { header, response })
        },
        _ => None,
    }
}

/// A request for a resource at a URI.
#[derive(Debug, PartialEq)]
pub struct ReadResourceRequest {
    pub request_id: i64,
    pub evaluator_id: i64,
    pub uri: String,
}

/// A request for a module at a URI, made while evaluating an import.
#[derive(Debug, PartialEq)]
pub struct ReadModuleRequest {
    pub request_id: i64,
    pub evaluator_id: i64,
    pub uri: String,
}

/// A request for the resources under a URI.
#[derive(Debug, PartialEq)]
pub struct ListResourcesRequest {
    pub request_id: i64,
    pub evaluator_id: i64,
    pub uri: String,
}

/// A request for the modules under a URI.
#[derive(Debug, PartialEq)]
pub struct ListModulesRequest {
    pub request_id: i64,
    pub evaluator_id: i64,
    pub uri: String,
}

/// A request to describe the reader of a resource scheme.
#[derive(Debug, PartialEq)]
pub struct InitializeResourceReaderRequest {
    pub request_id: i64,
    pub scheme: String,
}

/// The server's answer to the create-evaluator request.
#[derive(Debug, PartialEq)]
pub struct EvaluatorResponse {
    pub request_id: i64,
    pub evaluator_id: i64,
}

impl ReadResourceRequest {
    /// The request that a message's body holds; an error names a missing field or one of
    /// the wrong kind.
    pub fn from_body(map: &[(MsgValue, MsgValue)]) -> (r: Result<ReadResourceRequest, String>)
        ensures
            r matches Ok(q) ==> spec_request_fields(map@) == Ok::<
                (i64, i64, Seq<char>),
                Seq<char>,
            >((q.evaluator_id, q.request_id, q.uri@)),
            r matches Err(e) ==> spec_request_fields(map@) == Err::<
                (i64, i64, Seq<char>),
                Seq<char>,
            >(e@),
    {
        let (evaluator_id, request_id, uri) = request_fields(map)?;
        Ok(ReadResourceRequest { request_id, evaluator_id, uri })
    }
}

} // verus!
