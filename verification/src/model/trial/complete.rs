//! Trial complete request builder.

use vstd::prelude::*;

use crate::messages::CompleteTrialRequest;
use crate::messages::Measurement;
use crate::model::trial::TrialName;

verus! {

/// Final measurement or reason for a trial to have ended.
#[derive(Debug, Clone, PartialEq)]
pub enum FinalMeasurementOrReason {
    /// Final measurement of the trial.
    FinalMeasurement(Measurement),
    /// Reason for the trial to have ended without one: it was infeasible.
    Reason(String),
}

/// [`CompleteTrialRequest`] builder.
#[derive(Debug, Clone, PartialEq)]
pub struct RequestBuilder {
    /// The trial to complete.
    pub trial_name: TrialName,
    /// How the trial ended.
    pub final_measurement: FinalMeasurementOrReason,
}

impl RequestBuilder {
    /// Creates a new builder for the given trial and ending.
    pub fn new(trial_name: TrialName, final_measurement: FinalMeasurementOrReason) -> (r:
        RequestBuilder)
        ensures
            r == (RequestBuilder { trial_name, final_measurement }),
    {
        RequestBuilder { trial_name, final_measurement }
    }

    /// Builds the [`CompleteTrialRequest`]: a final measurement marks the
    /// trial feasible, a reason marks it infeasible.
    pub fn build(self) -> (r: CompleteTrialRequest)
        ensures
            r.name@ == self.trial_name@,
            match self.final_measurement {
                FinalMeasurementOrReason::FinalMeasurement(m) => {
                    &&& r.final_measurement == Some(m)
                    &&& !r.trial_infeasible
                    &&& r.infeasible_reason@ == Seq::<char>::empty()
                },
                FinalMeasurementOrReason::Reason(reason) => {
                    &&& r.final_measurement is None
                    &&& r.trial_infeasible
                    &&& r.infeasible_reason == reason
                },
            },
    {
        let RequestBuilder { trial_name, final_measurement } = self;
        match final_measurement {
            FinalMeasurementOrReason::FinalMeasurement(m) => CompleteTrialRequest {
                name: trial_name.into_string(),
                final_measurement: Some(m),
                trial_infeasible: false,
                infeasible_reason: String::new(),
            },
            FinalMeasurementOrReason::Reason(infeasible_reason) => CompleteTrialRequest {
                name: trial_name.into_string(),
                final_measurement: None,
                trial_infeasible: true,
                infeasible_reason,
            },
        }
    }
}

} // verus!
