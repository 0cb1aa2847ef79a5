//! Messages of the pkl message-passing API.
pub mod codes;
pub mod incoming;
pub mod outgoing;

pub use outgoing::PathElements;

use vstd::prelude::*;

verus! {

/// A message the client sends, known by its code.
pub trait PklMessage {
    fn message_id() -> u64;
}

} // verus!
