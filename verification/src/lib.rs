//! Client-side tracking of long-running operations for a remote optimization
//! (study / trial) service.
//!
//! The service accepts work that may take arbitrarily long and hands back an
//! operation snapshot; this crate polls or waits until the operation reports
//! completion — retrying transient wait failures with exponential backoff —
//! and decodes the completed operation's type-tagged payload into the typed
//! response the caller expects. Request builders for the service's study and
//! trial endpoints live under [`model`].
//!
//! The network itself is a collaborator: anything that can answer
//! [`OperationService`]'s wait and get queries can drive the loop, which is
//! how the transport layer — and any test double — plugs in.

use vstd::prelude::*;

pub mod longrunning;
pub mod messages;
pub mod model;
pub mod poller;
pub mod util;
pub mod wire;

use vstd::string::StringExecFns;

use crate::longrunning::Operation;
use crate::longrunning::OperationResult;
use crate::longrunning::TransportError;
use crate::poller::PollReaction;
use crate::poller::PollStep;
use crate::poller::Poller;
use crate::wire::WireMessage;

verus! {

/// The status code reported when the polling attempt budget is spent.
pub const CODE_DEADLINE_EXCEEDED: i32 = 4;

/// How many polling steps one loop may take before it gives up; far beyond
/// any real session, it exists so that every loop visibly terminates.
pub const POLL_ATTEMPT_BUDGET: u64 = u64::MAX;

/// The external collaborator that answers queries about an operation: the
/// transport layer in production, a scripted double in tests.
///
/// Every call is a suspension point of the polling loop; the collaborator
/// also provides the loop's pauses, so that the loop itself stays free of
/// timers.
pub trait OperationService {
    /// Waits server-side for the named operation to complete, up to the
    /// given per-attempt timeout, and returns a fresh snapshot of it — which
    /// may still be non-terminal if the server-side wait elapsed first.
    fn wait_operation(
        &mut self,
        name: &String,
        timeout_ms: Option<u64>,
    ) -> Result<Operation, TransportError>;

    /// Returns the current snapshot of the named operation at once, never
    /// blocking server-side.
    fn get_operation(&mut self, name: &String) -> Result<Operation, TransportError>;

    /// Pauses the caller for the given number of milliseconds.
    fn sleep_ms(&mut self, ms: u64);
}

/// Errors surfaced by [`run_to_completion`] and the polling loop.
#[derive(Debug, Clone, PartialEq, Eq)]
pub enum Error {
    /// The underlying wait or get call failed (after retry exhaustion, for
    /// wait-style polling).
    Status(TransportError),
    /// The operation completed, but its outcome could not be turned into
    /// the expected typed response; see [`util::Error`] for the cases.
    DecodingError(util::Error),
    /// The collaborator handed back a terminal operation with no result at
    /// all, which the protocol rules out.
    MissingResult,
}

/// Drives an operation to a terminal state by repeatedly querying the
/// collaborator, and hands back the terminal snapshot.
///
/// An operation that is already done is handed back at once, without any
/// call to the collaborator. With `per_attempt_timeout_ms` given, each query
/// is a wait-style call carrying that timeout, and a failed call is retried
/// up to [`poller::RETRY_LIMIT`] times with exponential backoff before its
/// error is handed back. With `None`, each query is a get-style call, the
/// loop pauses [`poller::GET_POLL_INTERVAL_MS`] between snapshots of a
/// still-running operation, and a failed call's error is handed back at
/// once.
pub fn poll_until_done<S: OperationService>(
    service: &mut S,
    operation: Operation,
    per_attempt_timeout_ms: Option<u64>,
) -> (r: Result<Operation, TransportError>)
    ensures
        r matches Ok(op) ==> op.done,
        operation.done ==> r == Ok::<Operation, TransportError>(operation),
{
    let mut poller = Poller::new(operation, per_attempt_timeout_ms);
    let mut fuel: u64 = POLL_ATTEMPT_BUDGET;
    loop
        invariant
            poller.wf(),
            operation.done ==> poller.operation == operation,
        decreases fuel,
    {
        match poller.next_step() {
            PollStep::Finished => {
                let Poller { operation: terminal, .. } = poller;
                return Ok(terminal);
            },
            PollStep::Wait => {
                match service.wait_operation(&poller.operation.name, poller.per_attempt_timeout_ms)
                {
                    Ok(snapshot) => {
                        match poller.on_snapshot(snapshot) {
                            PollReaction::Pause(ms) => service.sleep_ms(ms),
                            _ => {},
                        }
                    },
                    Err(error) => {
                        match poller.on_error(error) {
                            PollReaction::Pause(ms) => service.sleep_ms(ms),
                            PollReaction::GiveUp(last) => {
                                return Err(last);
                            },
                            PollReaction::Proceed => {},
                        }
                    },
                }
            },
            PollStep::Get => {
                match service.get_operation(&poller.operation.name) {
                    Ok(snapshot) => {
                        match poller.on_snapshot(snapshot) {
                            PollReaction::Pause(ms) => service.sleep_ms(ms),
                            _ => {},
                        }
                    },
                    Err(error) => {
                        match poller.on_error(error) {
                            PollReaction::Pause(ms) => service.sleep_ms(ms),
                            PollReaction::GiveUp(last) => {
                                return Err(last);
                            },
                            PollReaction::Proceed => {},
                        }
                    },
                }
            },
        }
        if fuel == 0 {
            return Err(TransportError {
                code: CODE_DEADLINE_EXCEEDED,
                message: String::from_str("polling attempt budget exhausted"),
            });
        }
        fuel = fuel - 1;
    }
}

/// Relates the outcome of the polling stage to the final outcome of
/// [`run_to_completion`]: a poll failure is handed back as it stands, and a
/// terminal operation's outcome goes to the decoder, whose verdict —
/// missing result, service error, wrong type identifier, malformed bytes,
/// or the decoded value — is mapped onto [`Error`] unchanged.
pub open spec fn resolves_to<T: WireMessage>(
    polled: Result<Operation, TransportError>,
    expected_type_url: Seq<char>,
    r: Result<T, Error>,
) -> bool {
    match polled {
        Err(e) => r == Err::<T, Error>(Error::Status(e)),
        Ok(op) => match op.result {
            None => r == Err::<T, Error>(Error::MissingResult),
            Some(OperationResult::Error(status)) => r == Err::<T, Error>(
                Error::DecodingError(util::Error::RPCStatus(status)),
            ),
            Some(OperationResult::Response(payload)) => {
                if payload.type_url@ != expected_type_url {
                    r == Err::<T, Error>(
                        Error::DecodingError(util::Error::InvalidType(payload.type_url)),
                    )
                } else {
                    match T::spec_parse(payload.value@) {
                        Some(v) => r matches Ok(w) && w@ == v,
                        None => r matches Err(e) && e matches Error::DecodingError(
                            util::Error::DecodeError(_),
                        ),
                    }
                }
            },
        },
    }
}

/// Error precedence: a failed poll settles the outcome by itself — whatever
/// the operation's payload may have held, the only outcome a poll failure
/// resolves to is that failure, so decoding never speaks.
pub proof fn lemma_poll_error_precedence<T: WireMessage>(
    error: TransportError,
    expected_type_url: Seq<char>,
    r: Result<T, Error>,
)
    ensures
        resolves_to::<T>(Err(error), expected_type_url, r) <==> r == Err::<T, Error>(
            Error::Status(error),
        ),
{
}

/// A collaborator that respects the protocol invariant — a result is
/// present exactly when an operation is done, [`Operation::wf`] — never has
/// a terminal snapshot resolve to [`Error::MissingResult`]: that outcome
/// marks a protocol violation and nothing else.
pub proof fn lemma_wf_terminal_never_misses_its_result<T: WireMessage>(
    op: Operation,
    expected_type_url: Seq<char>,
    r: Result<T, Error>,
)
    requires
        op.wf(),
        op.done,
        resolves_to::<T>(Ok(op), expected_type_url, r),
    ensures
        r != Err::<T, Error>(Error::MissingResult),
{
}

/// Drives an operation to completion and decodes its payload as a message
/// of type `T`, expecting the payload's type identifier to equal
/// `expected_type_url`.
///
/// Polling follows [`poll_until_done`] with the same timeout parameter.
/// Its outcome settles the result as [`resolves_to`] states: the poll's own
/// failure takes precedence and is handed back untouched; only a terminal
/// snapshot's outcome is decoded, exactly as
/// [`util::decode_operation_result_as`] decodes it. An operation that is
/// already done is resolved without any call to the collaborator.
pub fn run_to_completion<T: WireMessage, S: OperationService>(
    service: &mut S,
    operation: Operation,
    expected_type_url: &str,
    per_attempt_timeout_ms: Option<u64>,
) -> (r: Result<T, Error>)
    ensures
        exists|polled: Result<Operation, TransportError>|
            {
                &&& #[trigger] resolves_to::<T>(polled, expected_type_url@, r)
                &&& (polled matches Ok(op) ==> op.done)
                &&& (operation.done ==> polled == Ok::<Operation, TransportError>(operation))
            },
{
    let polled = poll_until_done(service, operation, per_attempt_timeout_ms);
    let ghost polled_outcome = polled;
    let r: Result<T, Error> = match polled {
        Err(e) => Err(Error::Status(e)),
        Ok(op) => match op.result {
            None => Err(Error::MissingResult),
            Some(outcome) => match util::decode_operation_result_as::<T>(
                outcome,
                expected_type_url,
            ) {
                Ok(v) => Ok(v),
                Err(e) => Err(Error::DecodingError(e)),
            },
        },
    };
    proof {
        assert(resolves_to::<T>(polled_outcome, expected_type_url@, r));
    }
    r
}

/// [`run_to_completion`] with the library's default cadence: get-style
/// polling with the default pause between snapshots, and no caller-visible
/// timeout.
pub fn run_to_completion_default<T: WireMessage, S: OperationService>(
    service: &mut S,
    operation: Operation,
    expected_type_url: &str,
) -> (r: Result<T, Error>)
    ensures
        exists|polled: Result<Operation, TransportError>|
            {
                &&& #[trigger] resolves_to::<T>(polled, expected_type_url@, r)
                &&& (polled matches Ok(op) ==> op.done)
                &&& (operation.done ==> polled == Ok::<Operation, TransportError>(operation))
            },
{
    run_to_completion::<T, S>(service, operation, expected_type_url, None)
}

/// Resolves the operation created by a suggest-trials request into the
/// suggested trials, as [`run_to_completion_default`] does with the
/// suggest-trials payload type identifier.
pub fn resolve_suggest_trials<S: OperationService>(
    service: &mut S,
    operation: Operation,
) -> (r: Result<messages::SuggestTrialsResponse, Error>)
    ensures
        exists|polled: Result<Operation, TransportError>|
            {
                &&& #[trigger] resolves_to::<messages::SuggestTrialsResponse>(
                    polled,
                    SUGGEST_TRIALS_RESPONSE_TYPE_URL@,
                    r,
                )
                &&& (polled matches Ok(op) ==> op.done)
                &&& (operation.done ==> polled == Ok::<Operation, TransportError>(operation))
            },
{
    run_to_completion_default::<messages::SuggestTrialsResponse, S>(
        service,
        operation,
        SUGGEST_TRIALS_RESPONSE_TYPE_URL,
    )
}

/// The type identifier of a suggest-trials operation's success payload.
pub const SUGGEST_TRIALS_RESPONSE_TYPE_URL: &'static str = "type.googleapis.com/google.cloud.aiplatform.v1.SuggestTrialsResponse";

} // verus!
