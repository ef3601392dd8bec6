//! Trial create request builder.

use vstd::prelude::*;

use crate::messages::CreateTrialRequest;
use crate::messages::Trial;
use crate::model::study::StudyName;

verus! {

/// [`CreateTrialRequest`] builder.
#[derive(Debug, Clone, PartialEq)]
pub struct RequestBuilder {
    /// The study the trial will belong to.
    pub study_name: StudyName,
    /// The trial to create.
    pub trial: Trial,
}

impl RequestBuilder {
    /// Creates a new builder for the given study and trial.
    pub fn new(study_name: StudyName, trial: Trial) -> (r: RequestBuilder)
        ensures
            r == (RequestBuilder { study_name, trial }),
    {
        RequestBuilder { study_name, trial }
    }

    /// Builds the [`CreateTrialRequest`].
    pub fn build(self) -> (r: CreateTrialRequest)
        ensures
            r.parent@ == self.study_name@,
            r.trial == Some(self.trial),
    {
        let RequestBuilder { study_name, trial } = self;
        CreateTrialRequest { parent: study_name.into_string(), trial: Some(trial) }
    }
}

} // verus!
