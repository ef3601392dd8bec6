//! Study lookup request builder.

use vstd::prelude::*;

use vstd::string::StringExecFns;

use crate::messages::LookupStudyRequest;
use crate::model::study::location_parent_seq;

verus! {

/// [`LookupStudyRequest`] builder.
#[derive(Debug, Clone, PartialEq, Eq)]
pub struct RequestBuilder {
    /// The project to look in.
    pub project: String,
    /// The location to look in.
    pub location: String,
    /// The display name to look up.
    pub display_name: String,
}

impl RequestBuilder {
    /// Creates a new builder for the given project, location and display
    /// name.
    pub fn new(project: String, location: String, display_name: String) -> (r: RequestBuilder)
        ensures
            r == (RequestBuilder { project, location, display_name }),
    {
        RequestBuilder { project, location, display_name }
    }

    /// Builds the [`LookupStudyRequest`].
    pub fn build(self) -> (r: LookupStudyRequest)
        ensures
            r.parent@ == location_parent_seq(self.project@, self.location@),
            r.display_name == self.display_name,
    {
        let RequestBuilder { project, location, display_name } = self;
        let mut parent = String::from_str("projects/");
        parent.append(project.as_str());
        parent.append("/locations/");
        parent.append(location.as_str());
        proof {
            assert(parent@ =~= location_parent_seq(project@, location@));
        }
        LookupStudyRequest { parent, display_name }
    }
}

} // verus!
