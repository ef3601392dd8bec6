//! Study get request builder.

use vstd::prelude::*;

use crate::messages::GetStudyRequest;
use crate::model::study::StudyName;

verus! {

/// [`GetStudyRequest`] builder.
#[derive(Debug, Clone, PartialEq)]
pub struct RequestBuilder {
    /// The study to fetch.
    pub study_name: StudyName,
}

impl RequestBuilder {
    /// Creates a new builder for the given study.
    pub fn new(study_name: StudyName) -> (r: RequestBuilder)
        ensures
            r == (RequestBuilder { study_name }),
    {
        RequestBuilder { study_name }
    }

    /// Builds the [`GetStudyRequest`].
    pub fn build(self) -> (r: GetStudyRequest)
        ensures
            r.name@ == self.study_name@,
    {
        GetStudyRequest { name: self.study_name.into_string() }
    }
}

} // verus!
