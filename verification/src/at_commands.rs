//! Errors of turning AT commands and responses into bytes and back, and the
//! trait that the command and response types implement for it.
use vstd::prelude::*;
use std::io;

verus! {

/// The error type of `std::io`; opaque here, only carried.
#[verifier::external_type_specification]
#[verifier::external_body]
pub struct ExIoError(io::Error);

/// Errors that can occur while deserializing AT commands into command and
/// response values. The unknown items are carried as their debug text, so
/// that clients need not know the parser's types.
#[derive(Debug)]
pub enum DeserializeError {
    /// The text did not parse; the parser's error as debug text.
    ParseError(String),
    /// Reading the source failed.
    IoError(io::Error),
    /// A command parsed but is not one that is known.
    UnknownCommand(String),
    /// A response parsed but is not one that is known.
    UnknownResponse(String),
    /// Parsed arguments do not match the argument definition.
    UnknownArguments(String),
}

impl From<io::Error> for DeserializeError {
    fn from(io_error: io::Error) -> (r: DeserializeError) {
        DeserializeError::IoError(io_error)
    }
}

impl vstd::std_specs::convert::FromSpecImpl<io::Error> for DeserializeError {
    open spec fn obeys_from_spec() -> bool {
        true
    }

    open spec fn from_spec(io_error: io::Error) -> DeserializeError {
        DeserializeError::IoError(io_error)
    }
}

/// Errors that can occur while serializing AT commands and responses.
#[derive(Debug)]
pub enum SerializeError {
    /// Writing to the sink failed.
    IoError(io::Error),
}

impl From<io::Error> for SerializeError {
    fn from(io_error: io::Error) -> (r: SerializeError) {
        SerializeError::IoError(io_error)
    }
}

impl vstd::std_specs::convert::FromSpecImpl<io::Error> for SerializeError {
    open spec fn obeys_from_spec() -> bool {
        true
    }

    open spec fn from_spec(io_error: io::Error) -> SerializeError {
        SerializeError::IoError(io_error)
    }
}

/// Implemented by the command and response types to convert back and forth
/// between them and byte streams.
pub trait SerDe {
    /// Reads a whole value from `source`.
    fn deserialize<R: io::Read>(source: &mut R) -> Result<Self, DeserializeError> where Self: Sized;

    /// Writes the value to `sink`.
    fn serialize<W: io::Write>(&self, sink: &mut W) -> Result<(), SerializeError>;
}

} // verus!
