//! Trial stop request builder.

use vstd::prelude::*;

use crate::messages::StopTrialRequest;
use crate::model::trial::TrialName;

verus! {

/// [`StopTrialRequest`] builder.
#[derive(Debug, Clone, PartialEq)]
pub struct RequestBuilder {
    /// The trial to stop.
    pub trial_name: TrialName,
}

impl RequestBuilder {
    /// Creates a new builder for the given trial.
    pub fn new(trial_name: TrialName) -> (r: RequestBuilder)
        ensures
            r == (RequestBuilder { trial_name }),
    {
        RequestBuilder { trial_name }
    }

    /// Builds the [`StopTrialRequest`].
    pub fn build(self) -> (r: StopTrialRequest)
        ensures
            r.name@ == self.trial_name@,
    {
        StopTrialRequest { name: self.trial_name.into_string() }
    }
}

} // verus!
