//! Polling behavior against scripted collaborators.

use vizier::longrunning::{Operation, OperationResult, Status, TransportError, TypedPayload};
use vizier::messages::{
    CheckTrialEarlyStoppingStateResponse, ParameterValue, SuggestTrialsResponse, Trial,
    TrialParameter,
};
use vizier::poller::{PollReaction, PollStep, Poller};
use vizier::util;
use vizier::wire::WireMessage;
use vizier::{
    poll_until_done, resolve_suggest_trials, run_to_completion, run_to_completion_default, Error,
    OperationService, SUGGEST_TRIALS_RESPONSE_TYPE_URL,
};

/// A collaborator that answers from a fixed script and records every call.
struct ScriptedService {
    script: Vec<Result<Operation, TransportError>>,
    cursor: usize,
    wait_calls: Vec<(String, Option<u64>)>,
    get_calls: Vec<String>,
    sleeps: Vec<u64>,
}

impl ScriptedService {
    fn new(script: Vec<Result<Operation, TransportError>>) -> Self {
        ScriptedService {
            script,
            cursor: 0,
            wait_calls: Vec::new(),
            get_calls: Vec::new(),
            sleeps: Vec::new(),
        }
    }

    fn next_answer(&mut self) -> Result<Operation, TransportError> {
        let answer = self.script[self.cursor].clone();
        self.cursor += 1;
        answer
    }

    fn calls(&self) -> usize {
        self.wait_calls.len() + self.get_calls.len()
    }
}

impl OperationService for ScriptedService {
    fn wait_operation(
        &mut self,
        name: &String,
        timeout_ms: Option<u64>,
    ) -> Result<Operation, TransportError> {
        self.wait_calls.push((name.clone(), timeout_ms));
        self.next_answer()
    }

    fn get_operation(&mut self, name: &String) -> Result<Operation, TransportError> {
        self.get_calls.push(name.clone());
        self.next_answer()
    }

    fn sleep_ms(&mut self, ms: u64) {
        self.sleeps.push(ms);
    }
}

fn running(name: &str) -> Operation {
    Operation {
        name: name.to_string(),
        done: false,
        metadata: None,
        result: None,
    }
}

fn completed(name: &str, result: Option<OperationResult>) -> Operation {
    Operation {
        name: name.to_string(),
        done: true,
        metadata: None,
        result,
    }
}

fn transport_error(code: i32, message: &str) -> TransportError {
    TransportError {
        code,
        message: message.to_string(),
    }
}

#[test]
fn done_operation_returns_immediately_without_any_call() {
    let response = OperationResult::Response(TypedPayload {
        type_url: "type/Unread".to_string(),
        value: vec![1, 2, 3],
    });
    let operation = completed("op-done", Some(response));

    let mut wait_style = ScriptedService::new(vec![]);
    let result = poll_until_done(&mut wait_style, operation.clone(), Some(4_000)).unwrap();
    assert_eq!(result, operation);
    assert_eq!(wait_style.calls(), 0);
    assert_eq!(wait_style.sleeps.len(), 0);

    let mut get_style = ScriptedService::new(vec![]);
    let result = poll_until_done(&mut get_style, operation.clone(), None).unwrap();
    assert_eq!(result, operation);
    assert_eq!(get_style.calls(), 0);
    assert_eq!(get_style.sleeps.len(), 0);
}

#[test]
fn first_terminal_snapshot_needs_exactly_one_call() {
    let terminal = completed("op-1", None);
    let mut service = ScriptedService::new(vec![Ok(terminal.clone())]);

    let result = poll_until_done(&mut service, running("op-1"), Some(4_000)).unwrap();

    assert_eq!(result, terminal);
    assert_eq!(service.wait_calls.len(), 1);
    assert_eq!(service.wait_calls[0], ("op-1".to_string(), Some(4_000)));
    assert_eq!(service.get_calls.len(), 0);
    assert_eq!(service.sleeps.len(), 0);
}

#[test]
fn two_transient_failures_back_off_500_then_1000() {
    let terminal = completed("op-2", None);
    let mut service = ScriptedService::new(vec![
        Err(transport_error(14, "first outage")),
        Err(transport_error(14, "second outage")),
        Ok(terminal.clone()),
    ]);

    let result = poll_until_done(&mut service, running("op-2"), Some(2_000)).unwrap();

    assert_eq!(result, terminal);
    assert_eq!(service.wait_calls.len(), 3);
    assert_eq!(service.sleeps, vec![500, 1000]);
}

#[test]
fn retry_exhaustion_returns_the_last_error_after_four_attempts() {
    let mut service = ScriptedService::new(vec![
        Err(transport_error(14, "attempt one")),
        Err(transport_error(14, "attempt two")),
        Err(transport_error(14, "attempt three")),
        Err(transport_error(13, "attempt four")),
    ]);

    let result = poll_until_done(&mut service, running("op-3"), Some(1_000));

    assert_eq!(result, Err(transport_error(13, "attempt four")));
    assert_eq!(service.wait_calls.len(), 4);
    assert_eq!(service.sleeps, vec![500, 1000, 2000]);
    assert_eq!(service.cursor, 4);
}

#[test]
fn get_style_failure_is_not_retried() {
    let mut service = ScriptedService::new(vec![Err(transport_error(14, "gone"))]);

    let result = poll_until_done(&mut service, running("op-4"), None);

    assert_eq!(result, Err(transport_error(14, "gone")));
    assert_eq!(service.get_calls.len(), 1);
    assert_eq!(service.sleeps.len(), 0);
}

#[test]
fn poll_error_takes_precedence_and_decoding_never_runs() {
    let mut service = ScriptedService::new(vec![
        Err(transport_error(14, "one")),
        Err(transport_error(14, "two")),
        Err(transport_error(14, "three")),
        Err(transport_error(4, "gave up")),
    ]);

    let result: Result<CheckTrialEarlyStoppingStateResponse, Error> = run_to_completion(
        &mut service,
        running("op-5"),
        "type.googleapis.com/google.cloud.aiplatform.v1.CheckTrialEarlyStoppingStateResponse",
        Some(500),
    );

    assert_eq!(result, Err(Error::Status(transport_error(4, "gave up"))));
    assert_eq!(service.cursor, 4);
}

#[test]
fn get_style_scenario_resolves_after_three_polls() {
    let type_url =
        "type.googleapis.com/google.cloud.aiplatform.v1.CheckTrialEarlyStoppingStateResponse";
    let expected = CheckTrialEarlyStoppingStateResponse { should_stop: true };
    let payload = TypedPayload {
        type_url: type_url.to_string(),
        value: expected.encode_wire(),
    };
    let terminal = completed("op-6", Some(OperationResult::Response(payload)));
    let mut service = ScriptedService::new(vec![
        Ok(running("op-6")),
        Ok(running("op-6")),
        Ok(terminal),
    ]);

    let result: Result<CheckTrialEarlyStoppingStateResponse, Error> =
        run_to_completion(&mut service, running("op-6"), type_url, None);

    assert_eq!(result, Ok(expected));
    assert_eq!(service.get_calls.len(), 3);
    assert_eq!(service.wait_calls.len(), 0);
    assert_eq!(service.sleeps, vec![100, 100]);
}

#[test]
fn default_variant_uses_get_style_polling() {
    let type_url =
        "type.googleapis.com/google.cloud.aiplatform.v1.CheckTrialEarlyStoppingStateResponse";
    let expected = CheckTrialEarlyStoppingStateResponse { should_stop: false };
    let payload = TypedPayload {
        type_url: type_url.to_string(),
        value: expected.encode_wire(),
    };
    let terminal = completed("op-7", Some(OperationResult::Response(payload)));
    let mut service = ScriptedService::new(vec![Ok(running("op-7")), Ok(terminal)]);

    let result: Result<CheckTrialEarlyStoppingStateResponse, Error> =
        run_to_completion_default(&mut service, running("op-7"), type_url);

    assert_eq!(result, Ok(expected));
    assert_eq!(service.get_calls.len(), 2);
    assert_eq!(service.sleeps, vec![100]);
}

#[test]
fn completed_operation_without_result_is_a_missing_result_error() {
    let mut service = ScriptedService::new(vec![]);
    let operation = completed("op-8", None);

    let result: Result<CheckTrialEarlyStoppingStateResponse, Error> =
        run_to_completion(&mut service, operation, "type/T", Some(100));

    assert_eq!(result, Err(Error::MissingResult));
    assert_eq!(service.calls(), 0);
}

#[test]
fn service_reported_failure_is_handed_on_opaquely() {
    let status = Status {
        code: 9,
        message: "precondition failed".to_string(),
    };
    let operation = completed("op-9", Some(OperationResult::Error(status.clone())));
    let mut service = ScriptedService::new(vec![]);

    let result: Result<CheckTrialEarlyStoppingStateResponse, Error> =
        run_to_completion(&mut service, operation, "type/T", None);

    assert_eq!(
        result,
        Err(Error::DecodingError(util::Error::RPCStatus(status)))
    );
}

#[test]
fn suggest_trials_resolution_decodes_the_suggested_trials() {
    let trial = Trial {
        name: "projects/p/locations/l/studies/s/trials/1".to_string(),
        id: "1".to_string(),
        state: 1,
        parameters: vec![TrialParameter {
            parameter_id: "a".to_string(),
            value: Some(ParameterValue::Number(2.0f64.to_bits())),
        }],
        client_id: "client".to_string(),
        infeasible_reason: String::new(),
    };
    let expected = SuggestTrialsResponse {
        trials: vec![trial],
    };
    let payload = TypedPayload {
        type_url: SUGGEST_TRIALS_RESPONSE_TYPE_URL.to_string(),
        value: expected.encode_wire(),
    };
    let terminal = completed("op-10", Some(OperationResult::Response(payload)));
    let mut service = ScriptedService::new(vec![Ok(running("op-10")), Ok(terminal)]);

    let result = resolve_suggest_trials(&mut service, running("op-10"));

    assert_eq!(result, Ok(expected));
    assert_eq!(service.get_calls.len(), 2);
}

#[test]
fn poller_machine_steps_match_the_polling_stories() {
    // A terminal snapshot asks for no call at all.
    let done = completed("op-m", None);
    let poller = Poller::new(done.clone(), Some(100));
    assert_eq!(poller.next_step(), PollStep::Finished);

    // One terminal answer ends a wait-style loop.
    let mut poller = Poller::new(running("op-m"), Some(100));
    assert_eq!(poller.next_step(), PollStep::Wait);
    assert_eq!(poller.on_snapshot(done.clone()), PollReaction::Proceed);
    assert_eq!(poller.next_step(), PollStep::Finished);

    // Wait-style failures back off 500, 1000, 2000, then give up.
    let mut poller = Poller::new(running("op-m"), Some(100));
    assert_eq!(
        poller.on_error(transport_error(14, "a")),
        PollReaction::Pause(500)
    );
    assert_eq!(
        poller.on_error(transport_error(14, "b")),
        PollReaction::Pause(1000)
    );
    assert_eq!(
        poller.on_error(transport_error(14, "c")),
        PollReaction::Pause(2000)
    );
    assert_eq!(
        poller.on_error(transport_error(14, "d")),
        PollReaction::GiveUp(transport_error(14, "d"))
    );

    // A get-style loop pauses between snapshots of a running operation.
    let mut poller = Poller::new(running("op-m"), None);
    assert_eq!(poller.next_step(), PollStep::Get);
    assert_eq!(
        poller.on_snapshot(running("op-m")),
        PollReaction::Pause(100)
    );
    // A get-style failure is never retried.
    assert_eq!(
        poller.on_error(transport_error(14, "e")),
        PollReaction::GiveUp(transport_error(14, "e"))
    );
}
