//! Trial list-optimal request builder.

use vstd::prelude::*;

use crate::messages::ListOptimalTrialsRequest;
use crate::model::study::StudyName;

verus! {

/// [`ListOptimalTrialsRequest`] builder.
#[derive(Debug, Clone, PartialEq)]
pub struct RequestBuilder {
    /// The study whose pareto-optimal trials to list.
    pub study_name: StudyName,
}

impl RequestBuilder {
    /// Creates a new builder for the given study.
    pub fn new(study_name: StudyName) -> (r: RequestBuilder)
        ensures
            r == (RequestBuilder { study_name }),
    {
        RequestBuilder { study_name }
    }

    /// Builds the [`ListOptimalTrialsRequest`].
    pub fn build(self) -> (r: ListOptimalTrialsRequest)
        ensures
            r.parent@ == self.study_name@,
    {
        ListOptimalTrialsRequest { parent: self.study_name.into_string() }
    }
}

} // verus!
