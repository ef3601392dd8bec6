//! The data model of a long-running operation: a named unit of asynchronous
//! work that the remote service tracks until it reports completion, together
//! with the status and payload types that describe its outcome.

use vstd::prelude::*;

verus! {

/// A machine-readable status reported by the service: a numeric code and a
/// human-readable message.
#[derive(Debug, Clone, PartialEq, Eq)]
pub struct Status {
    /// The numeric status code.
    pub code: i32,
    /// The human-readable description.
    pub message: String,
}

/// A type-tagged payload: raw encoded bytes together with a URI-like string
/// naming the concrete message schema the bytes encode.
#[derive(Debug, Clone, PartialEq, Eq)]
pub struct TypedPayload {
    /// The type identifier naming the schema of `value`.
    pub type_url: String,
    /// The raw encoded bytes.
    pub value: Vec<u8>,
}

/// The outcome of a completed operation: either an error status or a
/// type-tagged success payload, never both.
#[derive(Debug, Clone, PartialEq, Eq)]
pub enum OperationResult {
    /// The operation completed with an error.
    Error(Status),
    /// The operation completed with a success payload.
    Response(TypedPayload),
}

/// A snapshot of a long-running operation.
///
/// The service's protocol promises that `result` is absent while `done` is
/// false and present once `done` is true; [`Operation::wf`] states that
/// invariant. A snapshot is never mutated in place: polling replaces it
/// wholesale with a fresher one.
#[derive(Debug, Clone, PartialEq, Eq)]
pub struct Operation {
    /// The stable identifier used for subsequent queries.
    pub name: String,
    /// Whether the operation has reached a terminal state.
    pub done: bool,
    /// An opaque, type-tagged description of in-progress state, if any.
    pub metadata: Option<TypedPayload>,
    /// The terminal outcome; present exactly when `done` is true.
    pub result: Option<OperationResult>,
}

impl Operation {
    /// The protocol invariant: a result is present exactly when the
    /// operation is done.
    pub open spec fn wf(self) -> bool {
        self.done <==> self.result is Some
    }
}

/// A failure of the underlying call that queried or waited on an operation:
/// the service could not be reached or answered with a terminal status for
/// the call itself (not for the operation).
#[derive(Debug, Clone, PartialEq, Eq)]
pub struct TransportError {
    /// The numeric status code of the failed call.
    pub code: i32,
    /// The human-readable description of the failure.
    pub message: String,
}

} // verus!
