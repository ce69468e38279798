//! The closed set of failures that a boundary call can surface.

use prost::DecodeError as ProstDecodeError;
use prost::EncodeError as ProstEncodeError;
use vstd::prelude::*;

verus! {

/// The error that `prost` reports for bytes that are no valid protobuf message.
/// Its contents are opaque here; it is only carried to the caller.
#[verifier::external_type_specification]
#[verifier::external_body]
pub struct ExProstDecodeError(ProstDecodeError);

/// The error that `prost` reports when a message cannot be written out.
/// Its contents are opaque here; it is only carried to the caller.
#[verifier::external_type_specification]
#[verifier::external_body]
pub struct ExProstEncodeError(ProstEncodeError);

/// Malformed protocol bytes at some decoding step.
#[derive(Debug, PartialEq, Eq)]
pub enum DecodeError {
    /// Bytes that were required to be text are not valid UTF-8.
    Utf8Error,
    /// Bytes that were required to be a protobuf message are malformed.
    ProtoDecodeError(ProstDecodeError),
}

/// A malformed outgoing message, found before any boundary call is made.
#[derive(Debug, PartialEq, Eq)]
pub enum EncodeError {
    /// The message could not be written in protobuf form.
    ProtoEncodeError(ProstEncodeError),
}

/// Everything a caller of the dispatch operations can get back in place of a result.
#[derive(Debug, PartialEq, Eq)]
pub enum RunnerError {
    EncodeError(EncodeError),
    DecodeError(DecodeError),
    /// The boundary reported that a query failed.
    QueryError { msg: String },
    /// The boundary reported that an execution failed, or it produced no message response.
    ExecuteError { msg: String },
}

/// What a `RunnerError` is in contracts: the same cases, with text as a sequence of characters.
pub enum RunnerErrorView {
    EncodeError(EncodeError),
    DecodeError(DecodeError),
    QueryError { msg: Seq<char> },
    ExecuteError { msg: Seq<char> },
}

impl View for RunnerError {
    type V = RunnerErrorView;

    open spec fn view(&self) -> RunnerErrorView {
        match *self {
            RunnerError::EncodeError(e) => RunnerErrorView::EncodeError(e),
            RunnerError::DecodeError(e) => RunnerErrorView::DecodeError(e),
            RunnerError::QueryError { msg } => RunnerErrorView::QueryError { msg: msg@ },
            RunnerError::ExecuteError { msg } => RunnerErrorView::ExecuteError { msg: msg@ },
        }
    }
}

} // verus!
