//! Trial add-measurement request builder.

use vstd::prelude::*;

use crate::messages::AddTrialMeasurementRequest;
use crate::messages::Measurement;
use crate::model::trial::TrialName;

verus! {

/// [`AddTrialMeasurementRequest`] builder.
#[derive(Debug, Clone, PartialEq)]
pub struct RequestBuilder {
    /// The trial to report on.
    pub trial_name: TrialName,
    /// The measurement to add.
    pub measurement: Measurement,
}

impl RequestBuilder {
    /// Creates a new builder for the given trial and measurement.
    pub fn new(trial_name: TrialName, measurement: Measurement) -> (r: RequestBuilder)
        ensures
            r == (RequestBuilder { trial_name, measurement }),
    {
        RequestBuilder { trial_name, measurement }
    }

    /// Builds the [`AddTrialMeasurementRequest`].
    pub fn build(self) -> (r: AddTrialMeasurementRequest)
        ensures
            r.trial_name@ == self.trial_name@,
            r.measurement == Some(self.measurement),
    {
        let RequestBuilder { trial_name, measurement } = self;
        AddTrialMeasurementRequest {
            trial_name: trial_name.into_string(),
            measurement: Some(measurement),
        }
    }
}

} // verus!
