//! Study specification builder.

use vstd::prelude::*;

use crate::messages::Algorithm;
use crate::messages::AutomatedStoppingSpec;
use crate::messages::MeasurementSelectionType;
use crate::messages::MetricSpec;
use crate::messages::ObservationNoise;
use crate::messages::ParameterSpec;
use crate::messages::StudySpec;

verus! {

/// [`StudySpec`] builder.
#[derive(Debug, Clone, PartialEq, Eq)]
pub struct StudySpecBuilder {
    /// The metrics to optimize.
    pub metrics: Vec<MetricSpec>,
    /// The parameters to search over.
    pub parameters: Vec<ParameterSpec>,
    /// The search algorithm.
    pub algorithm: Algorithm,
    /// The assumed observation noise level.
    pub observation_noise: ObservationNoise,
    /// Which measurement stands for a trial.
    pub measurement_selection_type: MeasurementSelectionType,
    /// The early-stopping rule, if any.
    pub automated_stopping_spec: Option<AutomatedStoppingSpec>,
}

impl StudySpecBuilder {
    /// Creates a new builder with no metrics, no parameters and no
    /// early-stopping rule.
    pub fn new(
        algorithm: Algorithm,
        observation_noise: ObservationNoise,
        measurement_selection_type: MeasurementSelectionType,
    ) -> (r: StudySpecBuilder)
        ensures
            r.algorithm == algorithm,
            r.observation_noise == observation_noise,
            r.measurement_selection_type == measurement_selection_type,
            r.metrics@ == Seq::<MetricSpec>::empty(),
            r.parameters@ == Seq::<ParameterSpec>::empty(),
            r.automated_stopping_spec is None,
    {
        StudySpecBuilder {
            algorithm,
            observation_noise,
            metrics: Vec::new(),
            parameters: Vec::new(),
            measurement_selection_type,
            automated_stopping_spec: None,
        }
    }

    /// Sets the metrics of the specification.
    pub fn with_metric_specs(self, metrics: Vec<MetricSpec>) -> (r: StudySpecBuilder)
        ensures
            r == (StudySpecBuilder { metrics, ..self }),
    {
        StudySpecBuilder { metrics, ..self }
    }

    /// Sets the parameters of the specification.
    pub fn with_parameters(self, parameters: Vec<ParameterSpec>) -> (r: StudySpecBuilder)
        ensures
            r == (StudySpecBuilder { parameters, ..self }),
    {
        StudySpecBuilder { parameters, ..self }
    }

    /// Sets the early-stopping rule of the specification.
    pub fn with_automated_stopping_spec(
        self,
        automated_stopping_spec: AutomatedStoppingSpec,
    ) -> (r: StudySpecBuilder)
        ensures
            r == (StudySpecBuilder {
                automated_stopping_spec: Some(automated_stopping_spec),
                ..self
            }),
    {
        StudySpecBuilder { automated_stopping_spec: Some(automated_stopping_spec), ..self }
    }

    /// Builds the [`StudySpec`], turning each enumeration into the number
    /// the protocol assigns it.
    pub fn build(self) -> (r: StudySpec)
        ensures
            r == (StudySpec {
                metrics: self.metrics,
                parameters: self.parameters,
                algorithm: self.algorithm.spec_number(),
                observation_noise: self.observation_noise.spec_number(),
                measurement_selection_type: self.measurement_selection_type.spec_number(),
                automated_stopping_spec: self.automated_stopping_spec,
            }),
    {
        let StudySpecBuilder {
            metrics,
            parameters,
            algorithm,
            observation_noise,
            measurement_selection_type,
            automated_stopping_spec,
        } = self;
        StudySpec {
            metrics,
            parameters,
            algorithm: algorithm.number(),
            observation_noise: observation_noise.number(),
            measurement_selection_type: measurement_selection_type.number(),
            automated_stopping_spec,
        }
    }
}

} // verus!
