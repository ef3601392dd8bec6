//! Study resource names.

use vstd::prelude::*;

use vstd::string::StringExecFns;

use crate::messages::Study;

pub mod create;
pub mod get;
pub mod lookup;
pub mod spec;

verus! {

/// The characters of the resource name of the location that owns a study:
/// `projects/{project}/locations/{location}`.
pub open spec fn location_parent_seq(project: Seq<char>, location: Seq<char>) -> Seq<char> {
    "projects/"@ + project + "/locations/"@ + location
}

/// The characters of a study's resource name:
/// `projects/{project}/locations/{location}/studies/{study}`.
pub open spec fn study_name_seq(project: Seq<char>, location: Seq<char>, study: Seq<char>) -> Seq<
    char,
> {
    location_parent_seq(project, location) + "/studies/"@ + study
}

/// A study's resource name, of the form
/// `projects/{project}/locations/{location}/studies/{study}`.
#[derive(Clone, PartialEq, Debug)]
pub struct StudyName(String);

impl View for StudyName {
    type V = Seq<char>;

    closed spec fn view(&self) -> Seq<char> {
        self.0@
    }
}

impl StudyName {
    /// Assembles a study's resource name from its parts.
    pub fn new(project: String, location: String, study: String) -> (r: StudyName)
        ensures
            r@ == study_name_seq(project@, location@, study@),
    {
        let mut name = String::from_str("projects/");
        name.append(project.as_str());
        name.append("/locations/");
        name.append(location.as_str());
        name.append("/studies/");
        name.append(study.as_str());
        proof {
            assert(name@ =~= study_name_seq(project@, location@, study@));
        }
        StudyName(name)
    }

    /// The name's characters.
    pub fn as_str(&self) -> (r: &str)
        ensures
            r@ == self@,
    {
        self.0.as_str()
    }

    /// Gives the name up as a plain string.
    pub fn into_string(self) -> (r: String)
        ensures
            r@ == self@,
    {
        let StudyName(name) = self;
        name
    }
}

/// Can be converted to a [`StudyName`].
pub trait ToStudyName {
    /// The characters of the study name this object carries.
    spec fn spec_study_name(&self) -> Seq<char>;

    /// Creates a [`StudyName`] from this object.
    fn to_study_name(&self) -> (r: StudyName)
        ensures
            r@ == self.spec_study_name(),
    ;
}

impl ToStudyName for Study {
    open spec fn spec_study_name(&self) -> Seq<char> {
        self.name@
    }

    fn to_study_name(&self) -> (r: StudyName) {
        StudyName(self.name.clone())
    }
}

} // verus!
