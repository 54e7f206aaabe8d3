//! The failures that calls and dispatches report.
use vstd::prelude::*;
use crate::envelope::{DecodeError, EncodeError};

verus! {

/// Why a call to the host or the dispatch of an operation failed. Each class
/// of failure is its own variant, so that callers can tell them apart.
#[derive(Debug, Clone, PartialEq)]
pub enum Error {
    /// A record could not be written as an envelope.
    Encode(EncodeError),
    /// Bytes could not be read as the record expected.
    Decode(DecodeError),
    /// No handler is registered under the operation's name.
    UnknownOperation(String),
    /// The handler failed; its message is passed on unchanged.
    Handler(String),
    /// The host could not perform the call; its reason, as the host gave it.
    Call(String),
}

} // verus!
