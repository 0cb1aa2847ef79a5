//! Attaching a message to a missing value or to an error.
use vstd::prelude::*;

use crate::error::{spec_error_message, Error};
use crate::utils::text::{concat, owned};

verus! {

/// Turns a missing value, or an error, into an [`Error::Message`] that carries `context`.
pub trait Context<T>: Sized {
    fn context(self, context: &str) -> Result<T, Error>;
}

impl<T> Context<T> for Option<T> {
    /// `Some(v)` gives `Ok(v)`; `None` gives an error whose message is `context`.
    fn context(self, context: &str) -> (r: Result<T, Error>)
        ensures
            self matches Some(v) ==> r == Ok::<T, Error>(v),
            self is None ==> (r matches Err(Error::Message(m)) && m@ == context@),
    {
        match self {
            Some(v) => Ok(v),
            None => Err(Error::Message(owned(context))),
        }
    }
}

impl<T> Context<T> for Error {
    /// Always an error, whose message is `context`, `": "` and this error's message.
    fn context(self, context: &str) -> (r: Result<T, Error>)
        ensures
            match r {
                Err::<T, Error>(Error::Message(m)) => m@ == context@ + ": "@ + spec_error_message(self),
                _ => false,
            },
    {
        let prefix = concat(context, ": ");
        let msg = self.to_message();
        Err(Error::Message(concat(prefix.as_str(), msg.as_str())))
    }
}

} // verus!
