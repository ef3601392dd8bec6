//! Study create request builder.

use vstd::prelude::*;

use vstd::string::StringExecFns;
use vstd::string::StrSliceExecFns;

use crate::messages::CreateStudyRequest;
use crate::messages::Study;
use crate::messages::StudySpec;
use crate::model::study::location_parent_seq;

verus! {

/// Why a create-study request could not be built.
#[derive(Debug, Clone, Copy, PartialEq, Eq, Structural)]
pub enum Error {
    /// The display name does not match `[a-z][a-z0-9_]*`.
    InvalidDisplayName,
    /// The display name is missing.
    DisplayNameRequired,
    /// The study specification is missing.
    StudySpecRequired,
    /// Both the display name and the study specification are missing.
    StudySpecAndDisplayNameRequired,
}

/// Whether `c` may stand in a display name after the first character: a
/// lower-case letter, a digit, or an underscore.
pub open spec fn display_name_tail_char(c: char) -> bool {
    ||| ('a' as u32) <= (c as u32) && (c as u32) <= ('z' as u32)
    ||| ('0' as u32) <= (c as u32) && (c as u32) <= ('9' as u32)
    ||| (c as u32) == ('_' as u32)
}

/// Whether `s` is an admissible display name: one lower-case letter, then
/// any number of lower-case letters, digits and underscores.
pub open spec fn valid_display_name(s: Seq<char>) -> bool {
    &&& s.len() > 0
    &&& ('a' as u32) <= (s[0] as u32) && (s[0] as u32) <= ('z' as u32)
    &&& forall|i: int| 1 <= i < s.len() ==> display_name_tail_char(#[trigger] s[i])
}

/// Decides [`valid_display_name`].
pub fn is_valid_display_name(s: &String) -> (r: bool)
    ensures
        r == valid_display_name(s@),
{
    let len = s.as_str().unicode_len();
    if len == 0 {
        return false;
    }
    let first = s.as_str().get_char(0);
    let first_code = first as u32;
    if !(97 <= first_code && first_code <= 122) {
        return false;
    }
    let mut i: usize = 1;
    while i < len
        invariant
            1 <= i <= len,
            len == s@.len(),
            forall|j: int| 1 <= j < i ==> display_name_tail_char(#[trigger] s@[j]),
        decreases len - i,
    {
        let c = s.as_str().get_char(i);
        let code = c as u32;
        if !((97 <= code && code <= 122) || (48 <= code && code <= 57) || code == 95) {
            return false;
        }
        i = i + 1;
    }
    true
}

/// [`CreateStudyRequest`] builder.
#[derive(Debug, Clone, PartialEq, Eq)]
pub struct RequestBuilder {
    /// The project the study will belong to.
    pub project: String,
    /// The location the study will belong to.
    pub location: String,
    /// The study's display name; required.
    pub display_name: Option<String>,
    /// The study's specification; required.
    pub study_spec: Option<StudySpec>,
}

impl RequestBuilder {
    /// Creates a new builder for the given project and location.
    pub fn new(project: String, location: String) -> (r: RequestBuilder)
        ensures
            r == (RequestBuilder { project, location, display_name: None, study_spec: None }),
    {
        RequestBuilder { project, location, display_name: None, study_spec: None }
    }

    /// Sets the display name — required.
    pub fn with_display_name(self, display_name: String) -> (r: RequestBuilder)
        ensures
            r == (RequestBuilder { display_name: Some(display_name), ..self }),
    {
        RequestBuilder { display_name: Some(display_name), ..self }
    }

    /// Sets the study specification — required.
    pub fn with_study_spec(self, study_spec: StudySpec) -> (r: RequestBuilder)
        ensures
            r == (RequestBuilder { study_spec: Some(study_spec), ..self }),
    {
        RequestBuilder { study_spec: Some(study_spec), ..self }
    }

    /// Builds the [`CreateStudyRequest`].
    ///
    /// Both the display name and the study specification must have been
    /// given, and the display name must match `[a-z][a-z0-9_]*`; each
    /// omission or violation is reported as its own [`Error`].
    pub fn build(self) -> (r: Result<CreateStudyRequest, Error>)
        ensures
            match (self.display_name, self.study_spec) {
                (Some(display_name), Some(study_spec)) => {
                    if valid_display_name(display_name@) {
                        &&& r matches Ok(req)
                        &&& req.parent@ == location_parent_seq(self.project@, self.location@)
                        &&& req.study matches Some(study)
                        &&& study.name@ == Seq::<char>::empty()
                        &&& study.display_name == display_name
                        &&& study.study_spec == Some(study_spec)
                    } else {
                        r == Err::<CreateStudyRequest, Error>(Error::InvalidDisplayName)
                    }
                },
                (None, Some(_)) => r == Err::<CreateStudyRequest, Error>(
                    Error::DisplayNameRequired,
                ),
                (Some(_), None) => r == Err::<CreateStudyRequest, Error>(Error::StudySpecRequired),
                (None, None) => r == Err::<CreateStudyRequest, Error>(
                    Error::StudySpecAndDisplayNameRequired,
                ),
            },
    {
        let RequestBuilder { project, location, display_name, study_spec } = self;
        match (display_name, study_spec) {
            (Some(display_name), Some(study_spec)) => {
                if !is_valid_display_name(&display_name) {
                    return Err(Error::InvalidDisplayName);
                }
                let mut parent = String::from_str("projects/");
                parent.append(project.as_str());
                parent.append("/locations/");
                parent.append(location.as_str());
                proof {
                    assert(parent@ =~= location_parent_seq(project@, location@));
                }
                Ok(
                    CreateStudyRequest {
                        parent,
                        study: Some(
                            Study { name: String::new(), display_name, study_spec: Some(study_spec) },
                        ),
                    },
                )
            },
            (None, Some(_)) => Err(Error::DisplayNameRequired),
            (Some(_), None) => Err(Error::StudySpecRequired),
            (None, None) => Err(Error::StudySpecAndDisplayNameRequired),
        }
    }
}

} // verus!
