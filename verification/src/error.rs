//! The library's error type.
use vstd::prelude::*;

use crate::utils::text::owned;

verus! {

/// Errors of evaluating, decoding and deserializing pkl modules.
#[derive(Debug, PartialEq)]
pub enum Error {
    Message(String),
    PklSend,
    PklRecv,
    PklMalformedResponse { message: String },
    PklProcessStart,
    PklServerError { pkl_error: String },
    SerializeAst,
    ParseError(String),
    DeserializeError(String),
    DecodeError(String),
    MsgpackDecodeError(String),
    Eof,
    Syntax,
    ExpectedBoolean,
    ExpectedInteger,
    ExpectedString,
    ExpectedNull,
    ExpectedArray,
    ExpectedArrayComma,
    ExpectedArrayEnd,
    ExpectedMap,
    ExpectedMapColon,
    ExpectedMapComma,
    ExpectedMapEnd,
    ExpectedEnum,
    TrailingCharacters,
}

/// The kind of an error, as decoding tells them apart.
pub enum ErrorKind {
    /// [`Error::Message`].
    Message,
    /// [`Error::DecodeError`].
    Decode,
    /// [`Error::ParseError`].
    Parse,
    /// Any other.
    Other,
}

/// The kind of an error.
pub open spec fn error_kind(e: Error) -> ErrorKind {
    match e {
        Error::Message(_) => ErrorKind::Message,
        Error::DecodeError(_) => ErrorKind::Decode,
        Error::ParseError(_) => ErrorKind::Parse,
        _ => ErrorKind::Other,
    }
}

/// The text an error displays as.
pub open spec fn spec_error_message(e: Error) -> Seq<char> {
    match e {
        Error::Message(m) => m@,
        Error::DeserializeError(m) => m@,
        Error::ParseError(m) => m@,
        Error::DecodeError(m) => m@,
        Error::PklServerError { pkl_error } => pkl_error@,
        Error::PklMalformedResponse { message } => message@,
        Error::MsgpackDecodeError(m) => m@,
        Error::Eof => "unexpected end of input"@,
        _ => "unknown error"@,
    }
}

impl Error {
    /// The text this error displays as.
    pub fn to_message(&self) -> (r: String)
        ensures
            r@ == spec_error_message(*self),
    {
        match self {
            Error::Message(m) => owned(m.as_str()),
            Error::DeserializeError(m) => owned(m.as_str()),
            Error::ParseError(m) => owned(m.as_str()),
            Error::DecodeError(m) => owned(m.as_str()),
            Error::PklServerError { pkl_error } => owned(pkl_error.as_str()),
            Error::PklMalformedResponse { message } => owned(message.as_str()),
            Error::MsgpackDecodeError(m) => owned(m.as_str()),
            Error::Eof => owned("unexpected end of input"),
            _ => owned("unknown error"),
        }
    }
}

} // verus!
