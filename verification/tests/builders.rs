//! Resource names and request builders.

use vizier::messages::{
    Algorithm, GoalType, Measurement, MeasurementMetric, MeasurementSelectionType, MetricSpec,
    ObservationNoise, Trial,
};
use vizier::model::study::create;
use vizier::model::study::get;
use vizier::model::study::lookup;
use vizier::model::study::spec::StudySpecBuilder;
use vizier::model::study::{StudyName, ToStudyName};
use vizier::model::trial::{
    add_measurement, complete, create as trial_create, list, optimal, stop, suggest, ToTrialName,
    TrialName,
};

fn study_name() -> StudyName {
    StudyName::new("p".to_string(), "us-central1".to_string(), "53316451264".to_string())
}

#[test]
fn study_and_trial_names_have_their_resource_form() {
    let study = study_name();
    assert_eq!(
        study.as_str(),
        "projects/p/locations/us-central1/studies/53316451264"
    );

    let trial = TrialName::new(
        "p".to_string(),
        "us-central1".to_string(),
        "53316451264".to_string(),
        "1".to_string(),
    );
    assert_eq!(
        trial.into_string(),
        "projects/p/locations/us-central1/studies/53316451264/trials/1"
    );

    let from_study = TrialName::from_study(&study, "2".to_string());
    assert_eq!(
        from_study.as_str(),
        "projects/p/locations/us-central1/studies/53316451264/trials/2"
    );
}

#[test]
fn reported_resources_convert_back_to_names() {
    let study = vizier::messages::Study {
        name: "projects/p/locations/l/studies/9".to_string(),
        display_name: "blah".to_string(),
        study_spec: None,
    };
    assert_eq!(study.to_study_name().as_str(), "projects/p/locations/l/studies/9");

    let trial = Trial {
        name: "projects/p/locations/l/studies/9/trials/3".to_string(),
        id: "3".to_string(),
        state: 1,
        parameters: vec![],
        client_id: String::new(),
        infeasible_reason: String::new(),
    };
    assert_eq!(
        trial.to_trial_name().as_str(),
        "projects/p/locations/l/studies/9/trials/3"
    );
}

#[test]
fn get_study_request_carries_the_name() {
    let request = get::RequestBuilder::new(study_name()).build();
    assert_eq!(request.name, "projects/p/locations/us-central1/studies/53316451264");
}

#[test]
fn lookup_request_carries_parent_and_display_name() {
    let request = lookup::RequestBuilder::new(
        "p".to_string(),
        "us-central1".to_string(),
        "blah".to_string(),
    )
    .build();
    assert_eq!(request.parent, "projects/p/locations/us-central1");
    assert_eq!(request.display_name, "blah");
}

#[test]
fn study_spec_builder_numbers_its_enumerations() {
    let spec = StudySpecBuilder::new(
        Algorithm::RandomSearch,
        ObservationNoise::Low,
        MeasurementSelectionType::LastMeasurement,
    )
    .with_metric_specs(vec![MetricSpec {
        metric_id: "m1".to_string(),
        goal: GoalType::Maximize.number(),
    }])
    .with_parameters(vec![])
    .build();

    assert_eq!(spec.algorithm, 3);
    assert_eq!(spec.observation_noise, 1);
    assert_eq!(spec.measurement_selection_type, 1);
    assert_eq!(spec.metrics.len(), 1);
    assert_eq!(spec.metrics[0].goal, 1);
    assert!(spec.automated_stopping_spec.is_none());
}

#[test]
fn every_enumeration_carries_its_protocol_number() {
    assert_eq!(Algorithm::Unspecified.number(), 0);
    assert_eq!(Algorithm::GridSearch.number(), 2);
    assert_eq!(Algorithm::RandomSearch.number(), 3);
    assert_eq!(ObservationNoise::Unspecified.number(), 0);
    assert_eq!(ObservationNoise::Low.number(), 1);
    assert_eq!(ObservationNoise::High.number(), 2);
    assert_eq!(MeasurementSelectionType::Unspecified.number(), 0);
    assert_eq!(MeasurementSelectionType::LastMeasurement.number(), 1);
    assert_eq!(MeasurementSelectionType::BestMeasurement.number(), 2);
    assert_eq!(GoalType::Unspecified.number(), 0);
    assert_eq!(GoalType::Maximize.number(), 1);
    assert_eq!(GoalType::Minimize.number(), 2);
}

#[test]
fn create_study_requires_both_display_name_and_spec() {
    let builder = create::RequestBuilder::new("p".to_string(), "l".to_string());
    assert_eq!(
        builder.clone().build(),
        Err(create::Error::StudySpecAndDisplayNameRequired)
    );

    let spec = StudySpecBuilder::new(
        Algorithm::RandomSearch,
        ObservationNoise::Unspecified,
        MeasurementSelectionType::Unspecified,
    )
    .build();

    assert_eq!(
        builder.clone().with_study_spec(spec.clone()).build(),
        Err(create::Error::DisplayNameRequired)
    );
    assert_eq!(
        builder
            .clone()
            .with_display_name("blah2".to_string())
            .build(),
        Err(create::Error::StudySpecRequired)
    );

    let request = builder
        .with_display_name("blah2".to_string())
        .with_study_spec(spec.clone())
        .build()
        .unwrap();
    assert_eq!(request.parent, "projects/p/locations/l");
    let study = request.study.unwrap();
    assert_eq!(study.display_name, "blah2");
    assert_eq!(study.name, "");
    assert_eq!(study.study_spec, Some(spec));
}

#[test]
fn create_study_rejects_ill_formed_display_names() {
    let spec = StudySpecBuilder::new(
        Algorithm::Unspecified,
        ObservationNoise::Unspecified,
        MeasurementSelectionType::Unspecified,
    )
    .build();
    for bad in ["", "Blah", "9x", "blah-2", "blah 2", "_x", "ünt"] {
        let result = create::RequestBuilder::new("p".to_string(), "l".to_string())
            .with_display_name(bad.to_string())
            .with_study_spec(spec.clone())
            .build();
        assert_eq!(result, Err(create::Error::InvalidDisplayName), "{bad}");
    }
    for good in ["a", "blah2", "a_b_c", "x0_"] {
        let result = create::RequestBuilder::new("p".to_string(), "l".to_string())
            .with_display_name(good.to_string())
            .with_study_spec(spec.clone())
            .build();
        assert!(result.is_ok(), "{good}");
    }
}

#[test]
fn suggest_trials_request_carries_count_and_client() {
    let request =
        suggest::RequestBuilder::new(study_name(), 2, "it_can_suggest_trials".to_string()).build();
    assert_eq!(request.parent, "projects/p/locations/us-central1/studies/53316451264");
    assert_eq!(request.suggestion_count, 2);
    assert_eq!(request.client_id, "it_can_suggest_trials");
}

#[test]
fn create_trial_request_wraps_the_trial() {
    let trial = Trial {
        name: String::new(),
        id: String::new(),
        state: 1,
        parameters: vec![],
        client_id: "c".to_string(),
        infeasible_reason: String::new(),
    };
    let request = trial_create::RequestBuilder::new(study_name(), trial.clone()).build();
    assert_eq!(request.parent, "projects/p/locations/us-central1/studies/53316451264");
    assert_eq!(request.trial, Some(trial));
}

#[test]
fn list_trials_request_defaults_its_paging() {
    let bare = list::RequestBuilder::new(study_name()).build();
    assert_eq!(bare.parent, "projects/p/locations/us-central1/studies/53316451264");
    assert_eq!(bare.page_size, 0);
    assert_eq!(bare.page_token, "");

    let paged = list::RequestBuilder::new(study_name())
        .with_page_size(2)
        .with_page_token("token".to_string())
        .build();
    assert_eq!(paged.page_size, 2);
    assert_eq!(paged.page_token, "token");
}

#[test]
fn optimal_and_stop_requests_carry_their_names() {
    let optimal_request = optimal::RequestBuilder::new(study_name()).build();
    assert_eq!(
        optimal_request.parent,
        "projects/p/locations/us-central1/studies/53316451264"
    );

    let trial = TrialName::from_study(&study_name(), "3".to_string());
    let stop_request = stop::RequestBuilder::new(trial).build();
    assert_eq!(
        stop_request.name,
        "projects/p/locations/us-central1/studies/53316451264/trials/3"
    );
}

#[test]
fn add_measurement_request_wraps_the_measurement() {
    let trial = TrialName::from_study(&study_name(), "1".to_string());
    let measurement = Measurement {
        elapsed_duration: Some(vizier::messages::DurationValue {
            seconds: 10,
            nanos: 0,
        }),
        step_count: 13,
        metrics: vec![MeasurementMetric {
            metric_id: "m1".to_string(),
            value_bits: 2.1f64.to_bits(),
        }],
    };
    let request = add_measurement::RequestBuilder::new(trial, measurement.clone()).build();
    assert_eq!(
        request.trial_name,
        "projects/p/locations/us-central1/studies/53316451264/trials/1"
    );
    assert_eq!(request.measurement, Some(measurement));
}

#[test]
fn complete_trial_request_takes_measurement_or_reason() {
    let measurement = Measurement {
        elapsed_duration: None,
        step_count: 14,
        metrics: vec![],
    };
    let trial = TrialName::from_study(&study_name(), "3".to_string());
    let with_measurement = complete::RequestBuilder::new(
        trial.clone(),
        complete::FinalMeasurementOrReason::FinalMeasurement(measurement.clone()),
    )
    .build();
    assert_eq!(with_measurement.final_measurement, Some(measurement));
    assert!(!with_measurement.trial_infeasible);
    assert_eq!(with_measurement.infeasible_reason, "");

    let with_reason = complete::RequestBuilder::new(
        trial,
        complete::FinalMeasurementOrReason::Reason("out of budget".to_string()),
    )
    .build();
    assert_eq!(with_reason.final_measurement, None);
    assert!(with_reason.trial_infeasible);
    assert_eq!(with_reason.infeasible_reason, "out of budget");
}
