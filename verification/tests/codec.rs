//! The wire codec: round trips, exact encodings, and decode failures.

use vizier::longrunning::{OperationResult, Status, TypedPayload};
use vizier::messages::{
    parse_trial, parse_value, CheckTrialEarlyStoppingStateResponse, ParameterValue,
    SuggestTrialsResponse, Trial, TrialParameter,
};
use vizier::util;
use vizier::wire::{encode_varint, read_varint, WireMessage};

fn trial(name: &str, id: &str, state: i32, parameters: Vec<TrialParameter>) -> Trial {
    Trial {
        name: name.to_string(),
        id: id.to_string(),
        state,
        parameters,
        client_id: String::new(),
        infeasible_reason: String::new(),
    }
}

#[test]
fn varint_has_its_usual_little_endian_groups() {
    let mut out: Vec<u8> = Vec::new();
    encode_varint(&mut out, 0);
    encode_varint(&mut out, 1);
    encode_varint(&mut out, 127);
    encode_varint(&mut out, 128);
    encode_varint(&mut out, 300);
    assert_eq!(out, vec![0, 1, 127, 0x80, 0x01, 0xAC, 0x02]);

    assert_eq!(read_varint(&out, 0), Some((0, 1)));
    assert_eq!(read_varint(&out, 3), Some((128, 5)));
    assert_eq!(read_varint(&out, 5), Some((300, 7)));
    // A truncated varint does not parse.
    assert_eq!(read_varint(&[0x80], 0), None);
    // An eleven-group varint overflows sixty-four bits.
    let huge = [0xFF, 0xFF, 0xFF, 0xFF, 0xFF, 0xFF, 0xFF, 0xFF, 0xFF, 0xFF, 0x01];
    assert_eq!(read_varint(&huge, 0), None);
    // The largest value that fits.
    let mut max_bytes: Vec<u8> = Vec::new();
    encode_varint(&mut max_bytes, u64::MAX);
    assert_eq!(read_varint(&max_bytes, 0), Some((u64::MAX, 10)));
}

#[test]
fn early_stopping_response_has_one_boolean_field() {
    let yes = CheckTrialEarlyStoppingStateResponse { should_stop: true };
    let no = CheckTrialEarlyStoppingStateResponse { should_stop: false };

    assert_eq!(yes.encode_wire(), vec![8, 1]);
    assert_eq!(no.encode_wire(), Vec::<u8>::new());

    assert_eq!(
        CheckTrialEarlyStoppingStateResponse::decode_wire(&[8, 1]),
        Ok(yes)
    );
    assert_eq!(CheckTrialEarlyStoppingStateResponse::decode_wire(&[]), Ok(no));
    // A truncated field does not parse, nor does an unknown field.
    assert!(CheckTrialEarlyStoppingStateResponse::decode_wire(&[8]).is_err());
    assert!(CheckTrialEarlyStoppingStateResponse::decode_wire(&[16, 1]).is_err());
}

#[test]
fn trial_encoding_is_the_expected_bytes() {
    let t = trial(
        "ab",
        "1",
        1,
        vec![TrialParameter {
            parameter_id: "x".to_string(),
            value: Some(ParameterValue::Bool(true)),
        }],
    );
    let mut out: Vec<u8> = Vec::new();
    vizier::messages::encode_trial(&mut out, &t);
    assert_eq!(
        out,
        vec![
            10, 2, b'a', b'b', // name "ab"
            18, 1, b'1', // id "1"
            24, 1, // state 1
            34, 7, 10, 1, b'x', 18, 2, 32, 1, // parameter x = true
        ]
    );
    assert_eq!(parse_trial(&out), Some(t));
}

#[test]
fn decode_round_trips_every_parameter_value_kind() {
    let t = trial(
        "projects/p/locations/l/studies/s/trials/7",
        "7",
        2,
        vec![
            TrialParameter {
                parameter_id: "learning_rate".to_string(),
                value: Some(ParameterValue::Number(0.125f64.to_bits())),
            },
            TrialParameter {
                parameter_id: "optimizer".to_string(),
                value: Some(ParameterValue::Str("adám".to_string())),
            },
            TrialParameter {
                parameter_id: "nesterov".to_string(),
                value: Some(ParameterValue::Bool(false)),
            },
            TrialParameter {
                parameter_id: "unset".to_string(),
                value: None,
            },
        ],
    );
    let response = SuggestTrialsResponse {
        trials: vec![t.clone(), trial("", "", 0, vec![])],
    };

    let encoded = response.encode_wire();
    let decoded = SuggestTrialsResponse::decode_wire(&encoded).unwrap();
    assert_eq!(decoded, response);
    assert_eq!(decoded.trials[0].parameters[1].parameter_id, "optimizer");
}

#[test]
fn negative_state_numbers_survive_the_wire() {
    let t = trial("n", "", -3, vec![]);
    let mut out: Vec<u8> = Vec::new();
    vizier::messages::encode_trial(&mut out, &t);
    // A negative integer field travels sign-extended, as ten varint bytes.
    assert_eq!(out.len(), 3 + 1 + 10);
    assert_eq!(parse_trial(&out), Some(t));
}

#[test]
fn malformed_bytes_do_not_parse() {
    // A string field whose payload is not UTF-8.
    assert_eq!(parse_trial(&[10, 1, 0xFF]), None);
    // A length prefix pointing past the end.
    assert_eq!(parse_trial(&[10, 5, b'a']), None);
    // Fields out of their canonical order.
    assert_eq!(parse_trial(&[24, 1, 10, 1, b'a']), None);
    // Trailing bytes after the last field.
    assert_eq!(parse_trial(&[24, 1, 0]), None);
    // A parameter value with an unknown kind.
    assert_eq!(parse_value(&[40, 1]), None);
    // A parameter value with an empty payload.
    assert_eq!(parse_value(&[]), None);
}

#[test]
fn decode_as_round_trips_a_matching_payload() {
    let response = SuggestTrialsResponse {
        trials: vec![trial("t", "1", 1, vec![])],
    };
    let outcome = OperationResult::Response(TypedPayload {
        type_url: "type/T".to_string(),
        value: response.encode_wire(),
    });

    let decoded: Result<SuggestTrialsResponse, util::Error> =
        util::decode_operation_result_as(outcome, "type/T");

    assert_eq!(decoded, Ok(response));
}

#[test]
fn mismatched_type_identifier_is_rejected_without_decoding() {
    // The payload bytes are garbage that could never decode; InvalidType
    // must win because deserialization is never attempted.
    let outcome = OperationResult::Response(TypedPayload {
        type_url: "type/Other".to_string(),
        value: vec![0xFF, 0xFF, 0xFF],
    });

    let decoded: Result<SuggestTrialsResponse, util::Error> =
        util::decode_operation_result_as(outcome, "type/T");

    assert_eq!(decoded, Err(util::Error::InvalidType("type/Other".to_string())));
}

#[test]
fn malformed_matching_payload_is_a_decode_error() {
    let outcome = OperationResult::Response(TypedPayload {
        type_url: "type/T".to_string(),
        value: vec![0xFF, 0xFF, 0xFF],
    });

    let decoded: Result<SuggestTrialsResponse, util::Error> =
        util::decode_operation_result_as(outcome, "type/T");

    assert!(matches!(decoded, Err(util::Error::DecodeError(_))));
}

#[test]
fn error_outcome_is_handed_on_as_the_service_status() {
    let status = Status {
        code: 3,
        message: "invalid argument".to_string(),
    };
    let outcome = OperationResult::Error(status.clone());

    let decoded: Result<SuggestTrialsResponse, util::Error> =
        util::decode_operation_result_as(outcome, "type/T");

    assert_eq!(decoded, Err(util::Error::RPCStatus(status)));
}
