//! The polling state machine that drives a not-yet-done operation to a
//! terminal state.
//!
//! The machine is pure: it decides, from its state and the outcome of the
//! last call, which call to issue next, how long to pause, and when to give
//! up. The driver in the crate root performs the calls it asks for. Two
//! strategies are supported, selected by whether a per-attempt timeout is
//! given: *wait*-style calls (server-side blocking, retried with exponential
//! backoff on transport failure) and *get*-style calls (immediate snapshots,
//! separated by a fixed pause, with no retry on failure).

use vstd::prelude::*;

use crate::longrunning::Operation;
use crate::longrunning::TransportError;

verus! {

/// How many retries follow a failed wait attempt before the poller gives up,
/// so a wait attempt is tried `RETRY_LIMIT + 1` times in all.
pub const RETRY_LIMIT: u32 = 3;

/// Milliseconds of backoff before the first retry of a failed wait attempt;
/// each further retry doubles the pause.
pub const INITIAL_BACKOFF_MS: u64 = 500;

/// Milliseconds between successive get-style snapshots of an operation that
/// is not yet done.
pub const GET_POLL_INTERVAL_MS: u64 = 100;

/// The call the poller asks its driver to issue next.
#[derive(Debug, Clone, Copy, PartialEq, Eq)]
pub enum PollStep {
    /// The held snapshot is terminal: stop, no further call is needed.
    Finished,
    /// Issue one wait-style call for the held snapshot's name.
    Wait,
    /// Issue one get-style call for the held snapshot's name.
    Get,
}

/// How the poller reacts to the outcome of a call.
#[derive(Debug, Clone, PartialEq, Eq)]
pub enum PollReaction {
    /// Go on with the next step at once.
    Proceed,
    /// Pause for the given number of milliseconds, then go on.
    Pause(u64),
    /// Stop polling and report this error.
    GiveUp(TransportError),
}

/// The state of one polling loop: the freshest operation snapshot, the
/// chosen strategy, and the retry budget for the current wait attempt.
#[derive(Debug, Clone, PartialEq, Eq)]
pub struct Poller {
    /// The freshest snapshot of the operation being tracked.
    pub operation: Operation,
    /// `Some` selects wait-style polling and is handed to each wait call;
    /// `None` selects get-style polling.
    pub per_attempt_timeout_ms: Option<u64>,
    /// How many retries of the current wait attempt are left.
    pub retries_left: u32,
    /// The pause before the next retry of the current wait attempt.
    pub next_delay_ms: u64,
}

impl Poller {
    /// Whether the poller issues wait-style calls.
    pub open spec fn wait_style(self) -> bool {
        self.per_attempt_timeout_ms is Some
    }

    /// The retry budget only ever holds one of four states: a fresh budget
    /// at the initial backoff, or the state after one, two or three
    /// failures, each with the pause doubled.
    pub open spec fn wf(self) -> bool {
        ||| (self.retries_left == 3 && self.next_delay_ms == 500)
        ||| (self.retries_left == 2 && self.next_delay_ms == 1000)
        ||| (self.retries_left == 1 && self.next_delay_ms == 2000)
        ||| (self.retries_left == 0 && self.next_delay_ms == 4000)
    }

    /// The state a polling loop starts from.
    pub open spec fn spec_new(operation: Operation, per_attempt_timeout_ms: Option<u64>) -> Poller {
        Poller {
            operation,
            per_attempt_timeout_ms,
            retries_left: RETRY_LIMIT,
            next_delay_ms: INITIAL_BACKOFF_MS,
        }
    }

    /// The call to issue next: none once the held snapshot is terminal,
    /// otherwise one call in the chosen style.
    pub open spec fn spec_step(self) -> PollStep {
        if self.operation.done {
            PollStep::Finished
        } else if self.wait_style() {
            PollStep::Wait
        } else {
            PollStep::Get
        }
    }

    /// Adopting a fresh snapshot: it replaces the held one wholesale, the
    /// retry budget is reset, and get-style polling pauses before the next
    /// snapshot of a still-running operation.
    pub open spec fn spec_on_snapshot(self, operation: Operation) -> (Poller, PollReaction) {
        let next = Poller {
            operation,
            retries_left: RETRY_LIMIT,
            next_delay_ms: INITIAL_BACKOFF_MS,
            ..self
        };
        let reaction = if !operation.done && !self.wait_style() {
            PollReaction::Pause(GET_POLL_INTERVAL_MS)
        } else {
            PollReaction::Proceed
        };
        (next, reaction)
    }

    /// A failed call: wait-style polling retries after the current backoff
    /// pause, doubling it, until the budget is spent; get-style polling
    /// gives up at once, since its failures are not transient waits.
    pub open spec fn spec_on_error(self, error: TransportError) -> (Poller, PollReaction) {
        if self.wait_style() && self.retries_left > 0 {
            let next = Poller {
                retries_left: (self.retries_left - 1) as u32,
                next_delay_ms: (self.next_delay_ms * 2) as u64,
                ..self
            };
            (next, PollReaction::Pause(self.next_delay_ms))
        } else {
            (self, PollReaction::GiveUp(error))
        }
    }

    /// Starts a polling loop on the given operation snapshot.
    pub fn new(operation: Operation, per_attempt_timeout_ms: Option<u64>) -> (r: Poller)
        ensures
            r == Poller::spec_new(operation, per_attempt_timeout_ms),
            r.wf(),
    {
        Poller {
            operation,
            per_attempt_timeout_ms,
            retries_left: RETRY_LIMIT,
            next_delay_ms: INITIAL_BACKOFF_MS,
        }
    }

    /// The call the driver should issue next.
    pub fn next_step(&self) -> (r: PollStep)
        ensures
            r == self.spec_step(),
    {
        if self.operation.done {
            PollStep::Finished
        } else if self.per_attempt_timeout_ms.is_some() {
            PollStep::Wait
        } else {
            PollStep::Get
        }
    }

    /// Adopts a fresh snapshot of the operation.
    pub fn on_snapshot(&mut self, operation: Operation) -> (r: PollReaction)
        ensures
            *final(self) == old(self).spec_on_snapshot(operation).0,
            r == old(self).spec_on_snapshot(operation).1,
            final(self).wf(),
    {
        let reaction = if !operation.done && self.per_attempt_timeout_ms.is_none() {
            PollReaction::Pause(GET_POLL_INTERVAL_MS)
        } else {
            PollReaction::Proceed
        };
        self.operation = operation;
        self.retries_left = RETRY_LIMIT;
        self.next_delay_ms = INITIAL_BACKOFF_MS;
        reaction
    }

    /// Reacts to a failed call.
    pub fn on_error(&mut self, error: TransportError) -> (r: PollReaction)
        requires
            old(self).wf(),
        ensures
            *final(self) == old(self).spec_on_error(error).0,
            r == old(self).spec_on_error(error).1,
            final(self).wf(),
    {
        if self.per_attempt_timeout_ms.is_some() && self.retries_left > 0 {
            let pause = self.next_delay_ms;
            self.retries_left = self.retries_left - 1;
            self.next_delay_ms = self.next_delay_ms * 2;
            PollReaction::Pause(pause)
        } else {
            PollReaction::GiveUp(error)
        }
    }
}

/// A terminal operation needs no call at all: the very first step of a
/// polling loop started on a done snapshot finishes with that snapshot,
/// whichever strategy was chosen.
pub proof fn lemma_done_operation_needs_no_call(operation: Operation, timeout_ms: Option<u64>)
    requires
        operation.done,
    ensures
        Poller::spec_new(operation, timeout_ms).spec_step() == PollStep::Finished,
        Poller::spec_new(operation, timeout_ms).operation == operation,
{
}

/// One call suffices when the first snapshot handed back is terminal: a loop
/// started on a not-yet-done operation first asks for exactly one call, and
/// after adopting a terminal snapshot it finishes with that snapshot without
/// asking for another.
pub proof fn lemma_first_terminal_snapshot_finishes(
    operation: Operation,
    timeout_ms: Option<u64>,
    snapshot: Operation,
)
    requires
        !operation.done,
        snapshot.done,
    ensures
        ({
            let start = Poller::spec_new(operation, timeout_ms);
            &&& start.spec_step() == (if timeout_ms is Some {
                PollStep::Wait
            } else {
                PollStep::Get
            })
            &&& start.spec_on_snapshot(snapshot).0.spec_step() == PollStep::Finished
            &&& start.spec_on_snapshot(snapshot).0.operation == snapshot
            &&& start.spec_on_snapshot(snapshot).1 == PollReaction::Proceed
        }),
{
}

/// The backoff schedule: when the first two wait attempts fail and the
/// third is answered with a terminal snapshot, the loop makes three
/// attempts in all, pausing 500 ms before the second and 1000 ms before
/// the third, and finishes with that snapshot.
pub proof fn lemma_backoff_schedule(
    operation: Operation,
    timeout_ms: Option<u64>,
    first: TransportError,
    second: TransportError,
    snapshot: Operation,
)
    requires
        !operation.done,
        timeout_ms is Some,
        snapshot.done,
    ensures
        ({
            let start = Poller::spec_new(operation, timeout_ms);
            let after_first = start.spec_on_error(first);
            let after_second = after_first.0.spec_on_error(second);
            let after_success = after_second.0.spec_on_snapshot(snapshot);
            &&& start.spec_step() == PollStep::Wait
            &&& after_first.1 == PollReaction::Pause(INITIAL_BACKOFF_MS)
            &&& after_first.0.spec_step() == PollStep::Wait
            &&& after_second.1 == PollReaction::Pause((2 * INITIAL_BACKOFF_MS) as u64)
            &&& after_second.0.spec_step() == PollStep::Wait
            &&& after_success.0.spec_step() == PollStep::Finished
            &&& after_success.0.operation == snapshot
        }),
{
}

/// Retry exhaustion: a wait-style loop tries a failing collaborator four
/// times in all — the initial attempt and three retries, with pauses of
/// 500, 1000 and 2000 ms — and the fourth failure is given up with exactly
/// the error of that last attempt.
pub proof fn lemma_retry_exhaustion(
    operation: Operation,
    timeout_ms: Option<u64>,
    first: TransportError,
    second: TransportError,
    third: TransportError,
    last: TransportError,
)
    requires
        !operation.done,
        timeout_ms is Some,
    ensures
        ({
            let start = Poller::spec_new(operation, timeout_ms);
            let p1 = start.spec_on_error(first);
            let p2 = p1.0.spec_on_error(second);
            let p3 = p2.0.spec_on_error(third);
            let p4 = p3.0.spec_on_error(last);
            &&& p1.1 == PollReaction::Pause(500)
            &&& p2.1 == PollReaction::Pause(1000)
            &&& p3.1 == PollReaction::Pause(2000)
            &&& p3.0.retries_left == 0
            &&& p3.0.spec_step() == PollStep::Wait
            &&& p4.1 == PollReaction::GiveUp(last)
            &&& p4.0 == p3.0
        }),
{
}

} // verus!
