//! Trial list request builder.

use vstd::prelude::*;

use crate::messages::ListTrialsRequest;
use crate::model::study::StudyName;

verus! {

/// [`ListTrialsRequest`] builder.
#[derive(Debug, Clone, PartialEq)]
pub struct RequestBuilder {
    /// The study whose trials to list.
    pub study_name: StudyName,
    /// How many trials one page may hold, if given.
    pub page_size: Option<i32>,
    /// Where to resume, from an earlier page's token, if given.
    pub page_token: Option<String>,
}

impl RequestBuilder {
    /// Creates a new builder for the given study.
    pub fn new(study_name: StudyName) -> (r: RequestBuilder)
        ensures
            r == (RequestBuilder { study_name, page_size: None, page_token: None }),
    {
        RequestBuilder { study_name, page_size: None, page_token: None }
    }

    /// Sets the page size.
    pub fn with_page_size(self, page_size: i32) -> (r: RequestBuilder)
        ensures
            r == (RequestBuilder { page_size: Some(page_size), ..self }),
    {
        RequestBuilder { page_size: Some(page_size), ..self }
    }

    /// Sets the page token to get a following page, from an earlier
    /// response's next-page token.
    pub fn with_page_token(self, page_token: String) -> (r: RequestBuilder)
        ensures
            r == (RequestBuilder { page_token: Some(page_token), ..self }),
    {
        RequestBuilder { page_token: Some(page_token), ..self }
    }

    /// Builds the [`ListTrialsRequest`]: an unset page size becomes zero,
    /// an unset page token becomes the empty token, both meaning the
    /// service's default.
    pub fn build(self) -> (r: ListTrialsRequest)
        ensures
            r.parent@ == self.study_name@,
            r.page_size == (match self.page_size {
                Some(n) => n,
                None => 0i32,
            }),
            match self.page_token {
                Some(token) => r.page_token == token,
                None => r.page_token@ == Seq::<char>::empty(),
            },
    {
        let RequestBuilder { study_name, page_size, page_token } = self;
        ListTrialsRequest {
            parent: study_name.into_string(),
            page_size: match page_size {
                Some(n) => n,
                None => 0,
            },
            page_token: match page_token {
                Some(token) => token,
                None => String::new(),
            },
        }
    }
}

} // verus!
