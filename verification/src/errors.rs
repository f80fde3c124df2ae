//! Error values surfaced by the retrieval layer.

use vstd::prelude::*;

verus! {

/// Why an engine-level operation failed.
#[derive(Clone, Copy, Debug, PartialEq, Eq, Structural)]
pub enum EngineErrorCause {
    /// Network or transport failure, a non-success provider response,
    /// filesystem trouble, or an exhausted retry budget.
    Internal,
    /// The selected backend does not implement the requested operation.
    Unimplemented,
}

/// The single error value callers of the retrieval layer receive.
#[derive(Debug)]
pub struct EngineError {
    pub cause: EngineErrorCause,
    pub message: String,
}

impl EngineError {
    pub fn new(cause: EngineErrorCause, message: String) -> (e: EngineError)
        ensures
            e.cause == cause,
            e.message == message,
    {
        EngineError { cause, message }
    }
}

/// Coarse classification used by the command-line fallback path.
#[derive(Clone, Copy, Debug, PartialEq, Eq, Structural)]
pub enum SimpleErrorKind {
    Command,
    Other,
}

/// A minimal error carrying an optional free-text cause.
#[derive(Debug)]
pub struct SimpleError {
    pub kind: SimpleErrorKind,
    pub message: Option<String>,
}

impl SimpleError {
    pub fn new(kind: SimpleErrorKind, message: Option<String>) -> (e: SimpleError)
        ensures
            e.kind == kind,
            e.message == message,
    {
        SimpleError { kind, message }
    }
}

} // verus!
