//! Trial suggest request builder.

use vstd::prelude::*;

use crate::messages::SuggestTrialsRequest;
use crate::model::study::StudyName;

verus! {

/// [`SuggestTrialsRequest`] builder.
#[derive(Debug, Clone, PartialEq)]
pub struct RequestBuilder {
    /// The study to suggest trials for.
    pub study_name: StudyName,
    /// How many trials to suggest.
    pub suggestion_count: i32,
    /// The identifier of the requesting client.
    pub client_id: String,
}

impl RequestBuilder {
    /// Creates a new builder for the given study, count and client.
    pub fn new(study_name: StudyName, suggestion_count: i32, client_id: String) -> (r:
        RequestBuilder)
        ensures
            r == (RequestBuilder { study_name, suggestion_count, client_id }),
    {
        RequestBuilder { study_name, suggestion_count, client_id }
    }

    /// Builds the [`SuggestTrialsRequest`].
    pub fn build(self) -> (r: SuggestTrialsRequest)
        ensures
            r.parent@ == self.study_name@,
            r.suggestion_count == self.suggestion_count,
            r.client_id == self.client_id,
    {
        let RequestBuilder { study_name, suggestion_count, client_id } = self;
        SuggestTrialsRequest { parent: study_name.into_string(), suggestion_count, client_id }
    }
}

} // verus!
