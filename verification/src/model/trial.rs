//! Trial resource names.

use vstd::prelude::*;

use vstd::string::StringExecFns;

use crate::messages::Trial;
use crate::model::study::StudyName;
use crate::model::study::study_name_seq;

pub mod add_measurement;
pub mod complete;
pub mod create;
pub mod list;
pub mod optimal;
pub mod stop;
pub mod suggest;

verus! {

/// The characters of a trial's resource name:
/// `projects/{project}/locations/{location}/studies/{study}/trials/{trial}`.
pub open spec fn trial_name_seq(
    project: Seq<char>,
    location: Seq<char>,
    study: Seq<char>,
    trial: Seq<char>,
) -> Seq<char> {
    study_name_seq(project, location, study) + "/trials/"@ + trial
}

/// A trial's resource name, of the form
/// `projects/{project}/locations/{location}/studies/{study}/trials/{trial}`.
#[derive(Clone, PartialEq, Debug, Eq, Hash)]
pub struct TrialName(String);

impl View for TrialName {
    type V = Seq<char>;

    closed spec fn view(&self) -> Seq<char> {
        self.0@
    }
}

impl TrialName {
    /// Assembles a trial's resource name from its parts.
    pub fn new(project: String, location: String, study: String, trial: String) -> (r: TrialName)
        ensures
            r@ == trial_name_seq(project@, location@, study@, trial@),
    {
        let mut name = String::from_str("projects/");
        name.append(project.as_str());
        name.append("/locations/");
        name.append(location.as_str());
        name.append("/studies/");
        name.append(study.as_str());
        name.append("/trials/");
        name.append(trial.as_str());
        proof {
            assert(name@ =~= trial_name_seq(project@, location@, study@, trial@));
        }
        TrialName(name)
    }

    /// Assembles a trial's resource name from its study's name and the
    /// trial's number.
    pub fn from_study(study_name: &StudyName, trial: String) -> (r: TrialName)
        ensures
            r@ == study_name@ + "/trials/"@ + trial@,
    {
        let mut name = String::from_str(study_name.as_str());
        name.append("/trials/");
        name.append(trial.as_str());
        proof {
            assert(name@ =~= study_name@ + "/trials/"@ + trial@);
        }
        TrialName(name)
    }

    /// The name's characters.
    pub fn as_str(&self) -> (r: &str)
        ensures
            r@ == self@,
    {
        self.0.as_str()
    }

    /// Gives the name up as a plain string.
    pub fn into_string(self) -> (r: String)
        ensures
            r@ == self@,
    {
        let TrialName(name) = self;
        name
    }
}

/// Can be converted to a [`TrialName`].
pub trait ToTrialName {
    /// The characters of the trial name this object carries.
    spec fn spec_trial_name(&self) -> Seq<char>;

    /// Creates a [`TrialName`] from this object.
    fn to_trial_name(&self) -> (r: TrialName)
        ensures
            r@ == self.spec_trial_name(),
    ;
}

impl ToTrialName for Trial {
    open spec fn spec_trial_name(&self) -> Seq<char> {
        self.name@
    }

    fn to_trial_name(&self) -> (r: TrialName) {
        TrialName(self.name.clone())
    }
}

} // verus!
