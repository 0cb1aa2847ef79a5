//! Decoding an evaluated module for the library's callers.
use vstd::prelude::*;

use crate::decoder::decode_module;
use crate::decoder::spec::{spec_module, Fault};
use crate::decoder::structs::DecodeFailure;
use crate::error::{error_kind, spec_error_message, Error};
use crate::msgpack::MsgValue;
use crate::pkl::pkl_mod::{PklMod, SpecModule};
use crate::utils::text::owned;

verus! {

/// Decodes the MessagePack form of an evaluated module. Inputs on which decoding aborts
/// are left out.
pub fn pkl_eval_module(decoded: &MsgValue) -> (r: Result<PklMod, Error>)
    requires
        spec_module(*decoded) != Err::<SpecModule, Fault>(Fault::Aborts),
    ensures
        r matches Ok(m) ==> spec_module(*decoded) == Ok::<SpecModule, Fault>(m@),
        r matches Err(e) ==> spec_module(*decoded) == Err::<SpecModule, Fault>(
            Fault::Rejected(error_kind(e), spec_error_message(e)),
        ),
{
    match decode_module(decoded) {
        Ok(m) => Ok(m),
        Err(DecodeFailure::Rejected(e)) => Err(e),
        Err(DecodeFailure::Aborts) => Err(Error::Message(owned("unreachable"))),
    }
}

} // verus!
