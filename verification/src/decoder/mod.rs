//! Decoding the MessagePack form of an evaluated module.
pub mod primitive;
pub mod spec;
pub mod structs;

use vstd::prelude::*;

use crate::decoder::spec::{spec_module, Fault};
use crate::error::ErrorKind;
use crate::decoder::structs::{decode_members, fault_of, DecodeFailure};
use crate::error::Error;
use crate::msgpack::{msgpack_value, spec_msgpack_value, MsgValue};
use crate::pkl::pkl_mod::{PklMod, SpecModule};
use crate::utils::text::owned;

verus! {

fn module_error(msg: &str) -> (f: DecodeFailure)
    ensures
        fault_of(f) == Fault::Rejected(ErrorKind::Message, msg@),
{
    DecodeFailure::Rejected(Error::Message(owned(msg)))
}

/// Decodes a module: an array whose second and third slots are its name and URI
/// and whose last slot is the array of its members.
pub fn decode_module(decoded: &MsgValue) -> (r: Result<PklMod, DecodeFailure>)
    ensures
        r matches Ok(m) ==> spec_module(*decoded) == Ok::<SpecModule, Fault>(m@),
        r matches Err(f) ==> spec_module(*decoded) == Err::<SpecModule, Fault>(fault_of(f)),
{
    let root = match decoded.as_array() {
        Some(r) => r,
        None => {
            return Err(module_error("expected root array for pkl module"));
        },
    };
    if root.len() < 2 {
        return Err(module_error("expected root level module name"));
    }
    let module_name = match root[1].as_str() {
        Some(s) => s,
        None => {
            return Err(module_error("PklMod name is not valid utf8"));
        },
    };
    if root.len() < 3 {
        return Err(module_error("expected root level module uri"));
    }
    let module_uri = match root[2].as_str() {
        Some(s) => s,
        None => {
            return Err(module_error("PklMod uri is not valid utf8"));
        },
    };
    let last = root.len() - 1;
    let children = match root[last].as_array() {
        Some(c) => c,
        None => {
            return Err(module_error("expected array of children"));
        },
    };
    let members = decode_members(children.as_slice())?;
    Ok(PklMod::new(module_name, module_uri, members))
}

/// Decodes a module from the MessagePack bytes that the server sent: the error of reading
/// them, or else what decoding the value read gives.
pub fn decode_module_bytes(bytes: &[u8]) -> (r: Result<PklMod, DecodeFailure>)
    ensures
        match spec_msgpack_value(bytes@) {
            Err(m) => r matches Err(DecodeFailure::Rejected(Error::MsgpackDecodeError(e))) && e@
                == m,
            Ok(v) => match r {
                Ok(md) => spec_module(v) == Ok::<SpecModule, Fault>(md@),
                Err(f) => spec_module(v) == Err::<SpecModule, Fault>(fault_of(f)),
            },
        },
{
    match msgpack_value(bytes) {
        Ok(v) => decode_module(&v),
        Err(e) => Err(DecodeFailure::Rejected(Error::MsgpackDecodeError(e))),
    }
}

} // verus!
