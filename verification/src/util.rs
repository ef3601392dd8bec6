//! Decoding a completed operation's outcome into a typed response.

use vstd::prelude::*;

use vstd::string::StringExecFns;

use crate::longrunning::OperationResult;
use crate::longrunning::Status;
use crate::wire::WireError;
use crate::wire::WireMessage;

verus! {

/// Why a completed operation's outcome did not yield the expected typed
/// response.
#[derive(Debug, Clone, PartialEq, Eq)]
pub enum Error {
    /// The payload's bytes do not parse as the expected schema.
    DecodeError(WireError),
    /// The operation itself completed with an error status, handed on
    /// opaquely for the caller to interpret.
    RPCStatus(Status),
    /// The payload's type identifier is not the expected one; carries the
    /// identifier that was found.
    InvalidType(String),
}

/// Decodes the outcome of a completed operation as a message of type `X`,
/// provided the payload's type identifier matches `type_url` byte for byte.
///
/// An error outcome is handed on unchanged as [`Error::RPCStatus`]. A
/// mismatched type identifier yields [`Error::InvalidType`] with the
/// identifier found, and no decode is attempted. Only a matching payload is
/// decoded, and only malformed bytes yield [`Error::DecodeError`].
pub fn decode_operation_result_as<X: WireMessage>(
    result: OperationResult,
    type_url: &str,
) -> (r: Result<X, Error>)
    ensures
        match result {
            OperationResult::Error(status) => r == Err::<X, Error>(Error::RPCStatus(status)),
            OperationResult::Response(payload) => {
                if payload.type_url@ != type_url@ {
                    r == Err::<X, Error>(Error::InvalidType(payload.type_url))
                } else {
                    match X::spec_parse(payload.value@) {
                        Some(v) => r matches Ok(w) && w@ == v,
                        None => r matches Err(e) && e matches Error::DecodeError(_),
                    }
                }
            },
        },
{
    match result {
        OperationResult::Error(status) => Err(Error::RPCStatus(status)),
        OperationResult::Response(payload) => {
            let expected = String::from_str(type_url);
            if payload.type_url == expected {
                match X::decode_wire(payload.value.as_slice()) {
                    Ok(v) => Ok(v),
                    Err(e) => Err(Error::DecodeError(e)),
                }
            } else {
                Err(Error::InvalidType(payload.type_url))
            }
        },
    }
}

} // verus!
