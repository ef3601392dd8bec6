//! The service's message types: studies, trials, their specifications, and
//! the request and response envelopes of the study and trial endpoints.
//!
//! Every floating-point value a message carries on the wire — a parameter
//! value, a metric, a bound of a value specification — is held here as the
//! IEEE-754 bit pattern of the double, a plain 64-bit integer; the thin
//! layer around the transport converts at the boundary. Enumerations carry
//! no wire numbers of their own: [`Algorithm::number`] and its siblings map
//! each to the number the protocol assigns it.
//!
//! The two response types that arrive inside a completed operation's
//! payload, [`SuggestTrialsResponse`] and
//! [`CheckTrialEarlyStoppingStateResponse`], implement [`WireMessage`]: their
//! canonical encoding is specified, and encoding and decoding are proved to
//! be inverse.

use vstd::prelude::*;

use vstd::slice::slice_to_vec;
use vstd::utf8::decode_utf8;
use vstd::utf8::encode_utf8;
use vstd::utf8::valid_utf8;

use crate::wire::WireError;
use crate::wire::WireMessage;
use crate::wire::fixed64;
use crate::wire::len_prefixed;
use crate::wire::lemma_fixed64_round_trip;
use crate::wire::lemma_len_prefixed_round_trip;
use crate::wire::lemma_string_field_round_trip;
use crate::wire::lemma_take_len_prefixed_shrinks;
use crate::wire::lemma_varint_field_round_trip;
use crate::wire::lemma_varint_round_trip;
use crate::wire::read_len_prefixed;
use crate::wire::read_string_field;
use crate::wire::read_varint_field;
use crate::wire::string_field;
use crate::wire::take_fixed64;
use crate::wire::take_len_prefixed;
use crate::wire::take_string_field;
use crate::wire::take_varint;
use crate::wire::take_varint_field;
use crate::wire::varint;
use crate::wire::varint_field;
use crate::wire::write_len_prefixed;
use crate::wire::write_string_field;
use crate::wire::write_varint_field;

verus! {

// ------------------------------------------------------------------
// Study-side data
// ------------------------------------------------------------------

/// The search algorithm a study uses.
#[derive(Debug, Clone, Copy, PartialEq, Eq, Structural)]
pub enum Algorithm {
    /// Let the service choose.
    Unspecified,
    /// Exhaustive grid search.
    GridSearch,
    /// Random search.
    RandomSearch,
}

impl Algorithm {
    /// The number the protocol assigns this algorithm.
    pub open spec fn spec_number(self) -> i32 {
        match self {
            Algorithm::Unspecified => 0,
            Algorithm::GridSearch => 2,
            Algorithm::RandomSearch => 3,
        }
    }

    /// The number the protocol assigns this algorithm.
    pub fn number(self) -> (r: i32)
        ensures
            r == self.spec_number(),
    {
        match self {
            Algorithm::Unspecified => 0,
            Algorithm::GridSearch => 2,
            Algorithm::RandomSearch => 3,
        }
    }
}

/// How much observation noise the study should assume.
#[derive(Debug, Clone, Copy, PartialEq, Eq, Structural)]
pub enum ObservationNoise {
    /// Let the service choose.
    Unspecified,
    /// Low noise: measurements are taken as exact.
    Low,
    /// High noise: repeated measurements may differ.
    High,
}

impl ObservationNoise {
    /// The number the protocol assigns this noise level.
    pub open spec fn spec_number(self) -> i32 {
        match self {
            ObservationNoise::Unspecified => 0,
            ObservationNoise::Low => 1,
            ObservationNoise::High => 2,
        }
    }

    /// The number the protocol assigns this noise level.
    pub fn number(self) -> (r: i32)
        ensures
            r == self.spec_number(),
    {
        match self {
            ObservationNoise::Unspecified => 0,
            ObservationNoise::Low => 1,
            ObservationNoise::High => 2,
        }
    }
}

/// Which of a trial's measurements stands for the trial when trials are
/// compared.
#[derive(Debug, Clone, Copy, PartialEq, Eq, Structural)]
pub enum MeasurementSelectionType {
    /// Let the service choose.
    Unspecified,
    /// The last reported measurement.
    LastMeasurement,
    /// The best reported measurement.
    BestMeasurement,
}

impl MeasurementSelectionType {
    /// The number the protocol assigns this selection rule.
    pub open spec fn spec_number(self) -> i32 {
        match self {
            MeasurementSelectionType::Unspecified => 0,
            MeasurementSelectionType::LastMeasurement => 1,
            MeasurementSelectionType::BestMeasurement => 2,
        }
    }

    /// The number the protocol assigns this selection rule.
    pub fn number(self) -> (r: i32)
        ensures
            r == self.spec_number(),
    {
        match self {
            MeasurementSelectionType::Unspecified => 0,
            MeasurementSelectionType::LastMeasurement => 1,
            MeasurementSelectionType::BestMeasurement => 2,
        }
    }
}

/// Whether a metric is to be maximized or minimized.
#[derive(Debug, Clone, Copy, PartialEq, Eq, Structural)]
pub enum GoalType {
    /// Let the service choose.
    Unspecified,
    /// Larger is better.
    Maximize,
    /// Smaller is better.
    Minimize,
}

impl GoalType {
    /// The number the protocol assigns this goal.
    pub open spec fn spec_number(self) -> i32 {
        match self {
            GoalType::Unspecified => 0,
            GoalType::Maximize => 1,
            GoalType::Minimize => 2,
        }
    }

    /// The number the protocol assigns this goal.
    pub fn number(self) -> (r: i32)
        ensures
            r == self.spec_number(),
    {
        match self {
            GoalType::Unspecified => 0,
            GoalType::Maximize => 1,
            GoalType::Minimize => 2,
        }
    }
}

/// One metric a study optimizes: its identifier and its direction.
#[derive(Debug, Clone, PartialEq, Eq)]
pub struct MetricSpec {
    /// The metric's identifier.
    pub metric_id: String,
    /// The number of the goal, as [`GoalType::number`] gives it.
    pub goal: i32,
}

/// The admissible values of a double-valued study parameter, as IEEE-754
/// bit patterns.
#[derive(Debug, Clone, PartialEq, Eq)]
pub struct DoubleValueSpec {
    /// Bit pattern of the smallest admissible value.
    pub min_value_bits: u64,
    /// Bit pattern of the largest admissible value.
    pub max_value_bits: u64,
    /// Bit pattern of the suggested starting value, if any.
    pub default_value_bits: Option<u64>,
}

/// The admissible values of an integer-valued study parameter.
#[derive(Debug, Clone, PartialEq, Eq)]
pub struct IntegerValueSpec {
    /// The smallest admissible value.
    pub min_value: i64,
    /// The largest admissible value.
    pub max_value: i64,
    /// The suggested starting value, if any.
    pub default_value: Option<i64>,
}

/// The admissible values of a categorical study parameter.
#[derive(Debug, Clone, PartialEq, Eq)]
pub struct CategoricalValueSpec {
    /// The admissible categories.
    pub values: Vec<String>,
    /// The suggested starting category, if any.
    pub default_value: Option<String>,
}

/// The admissible values of a discrete study parameter, as IEEE-754 bit
/// patterns.
#[derive(Debug, Clone, PartialEq, Eq)]
pub struct DiscreteValueSpec {
    /// Bit patterns of the admissible values.
    pub values_bits: Vec<u64>,
    /// Bit pattern of the suggested starting value, if any.
    pub default_value_bits: Option<u64>,
}

/// Which kind of values a study parameter ranges over.
#[derive(Debug, Clone, PartialEq, Eq)]
pub enum ParameterValueSpec {
    /// A double in a closed interval.
    DoubleValueSpec(DoubleValueSpec),
    /// An integer in a closed interval.
    IntegerValueSpec(IntegerValueSpec),
    /// One of a set of categories.
    CategoricalValueSpec(CategoricalValueSpec),
    /// One of a set of discrete doubles.
    DiscreteValueSpec(DiscreteValueSpec),
}

/// One parameter a study searches over.
#[derive(Debug, Clone, PartialEq, Eq)]
pub struct ParameterSpec {
    /// The parameter's identifier.
    pub parameter_id: String,
    /// The number of the scaling applied to the parameter's range.
    pub scale_type: i32,
    /// The admissible values.
    pub parameter_value_spec: Option<ParameterValueSpec>,
}

/// A rule for stopping trials early, by the shape of their measurement
/// curve.
#[derive(Debug, Clone, PartialEq, Eq)]
pub enum AutomatedStoppingSpec {
    /// Stop by fitting a decay curve to the measurements.
    DecayCurve {
        /// Measure progress by elapsed time rather than step count.
        use_elapsed_duration: bool,
    },
    /// Stop trials that fall below the median of completed trials.
    MedianStopping {
        /// Measure progress by elapsed time rather than step count.
        use_elapsed_duration: bool,
    },
}

/// The specification of a study: what to optimize, over which parameters,
/// and how.
#[derive(Debug, Clone, PartialEq, Eq)]
pub struct StudySpec {
    /// The metrics to optimize.
    pub metrics: Vec<MetricSpec>,
    /// The parameters to search over.
    pub parameters: Vec<ParameterSpec>,
    /// The number of the search algorithm, as [`Algorithm::number`] gives
    /// it.
    pub algorithm: i32,
    /// The number of the assumed observation noise level.
    pub observation_noise: i32,
    /// The number of the measurement selection rule.
    pub measurement_selection_type: i32,
    /// The early-stopping rule, if any.
    pub automated_stopping_spec: Option<AutomatedStoppingSpec>,
}

/// A study as the service reports it.
#[derive(Debug, Clone, PartialEq, Eq)]
pub struct Study {
    /// The study's resource name.
    pub name: String,
    /// The study's display name.
    pub display_name: String,
    /// The study's specification.
    pub study_spec: Option<StudySpec>,
}

// ------------------------------------------------------------------
// Trial-side data
// ------------------------------------------------------------------

/// A span of time: whole seconds and a nanosecond remainder.
#[derive(Debug, Clone, Copy, PartialEq, Eq)]
pub struct DurationValue {
    /// Whole seconds.
    pub seconds: i64,
    /// Nanoseconds past the last whole second.
    pub nanos: i32,
}

/// One metric value inside a measurement.
#[derive(Debug, Clone, PartialEq, Eq)]
pub struct MeasurementMetric {
    /// The metric's identifier.
    pub metric_id: String,
    /// Bit pattern of the measured double.
    pub value_bits: u64,
}

/// One measurement reported for a trial.
#[derive(Debug, Clone, PartialEq, Eq)]
pub struct Measurement {
    /// How long the trial had been running when this was measured.
    pub elapsed_duration: Option<DurationValue>,
    /// How many steps the trial had taken when this was measured.
    pub step_count: i64,
    /// The measured metric values.
    pub metrics: Vec<MeasurementMetric>,
}

/// The value assigned to one trial parameter.
#[derive(Debug, Clone, PartialEq, Eq)]
pub enum ParameterValue {
    /// A double, as its IEEE-754 bit pattern.
    Number(u64),
    /// A string.
    Str(String),
    /// A boolean.
    Bool(bool),
}

/// The spec-level face of a [`ParameterValue`].
pub enum ParameterValueView {
    /// A double, as its IEEE-754 bit pattern.
    Number(u64),
    /// A string.
    Str(Seq<char>),
    /// A boolean.
    Bool(bool),
}

impl View for ParameterValue {
    type V = ParameterValueView;

    open spec fn view(&self) -> ParameterValueView {
        match self {
            ParameterValue::Number(bits) => ParameterValueView::Number(*bits),
            ParameterValue::Str(s) => ParameterValueView::Str(s@),
            ParameterValue::Bool(b) => ParameterValueView::Bool(*b),
        }
    }
}

/// One parameter of a trial: its identifier and its assigned value.
#[derive(Debug, Clone, PartialEq, Eq)]
pub struct TrialParameter {
    /// The parameter's identifier.
    pub parameter_id: String,
    /// The assigned value, if any.
    pub value: Option<ParameterValue>,
}

/// The spec-level face of a [`TrialParameter`].
pub struct TrialParameterView {
    /// The parameter's identifier.
    pub parameter_id: Seq<char>,
    /// The assigned value, if any.
    pub value: Option<ParameterValueView>,
}

impl View for TrialParameter {
    type V = TrialParameterView;

    open spec fn view(&self) -> TrialParameterView {
        TrialParameterView {
            parameter_id: self.parameter_id@,
            value: match self.value {
                Some(v) => Some(v@),
                None => None,
            },
        }
    }
}

/// A trial as the service reports it: one point of the search space,
/// assigned by the service, with its lifecycle state.
#[derive(Debug, Clone, PartialEq, Eq)]
pub struct Trial {
    /// The trial's resource name.
    pub name: String,
    /// The trial's identifier within its study.
    pub id: String,
    /// The number of the trial's lifecycle state.
    pub state: i32,
    /// The parameter values the service assigned.
    pub parameters: Vec<TrialParameter>,
    /// The identifier of the client the trial was suggested to.
    pub client_id: String,
    /// Why the trial was infeasible, when it was.
    pub infeasible_reason: String,
}

/// The spec-level face of a [`Trial`].
pub struct TrialView {
    /// The trial's resource name.
    pub name: Seq<char>,
    /// The trial's identifier within its study.
    pub id: Seq<char>,
    /// The number of the trial's lifecycle state.
    pub state: i32,
    /// The parameter values the service assigned.
    pub parameters: Seq<TrialParameterView>,
    /// The identifier of the client the trial was suggested to.
    pub client_id: Seq<char>,
    /// Why the trial was infeasible, when it was.
    pub infeasible_reason: Seq<char>,
}

impl View for Trial {
    type V = TrialView;

    open spec fn view(&self) -> TrialView {
        TrialView {
            name: self.name@,
            id: self.id@,
            state: self.state,
            parameters: self.parameters@.map_values(|p: TrialParameter| p@),
            client_id: self.client_id@,
            infeasible_reason: self.infeasible_reason@,
        }
    }
}

// ------------------------------------------------------------------
// Requests
// ------------------------------------------------------------------

/// Asks for one study by resource name.
#[derive(Debug, Clone, PartialEq, Eq)]
pub struct GetStudyRequest {
    /// The study's resource name.
    pub name: String,
}

/// Asks to delete one study by resource name.
#[derive(Debug, Clone, PartialEq, Eq)]
pub struct DeleteStudyRequest {
    /// The study's resource name.
    pub name: String,
}

/// Asks for the study with a given display name under a location.
#[derive(Debug, Clone, PartialEq, Eq)]
pub struct LookupStudyRequest {
    /// The owning location, `projects/{project}/locations/{location}`.
    pub parent: String,
    /// The display name to look up.
    pub display_name: String,
}

/// Asks to create a study under a location.
#[derive(Debug, Clone, PartialEq, Eq)]
pub struct CreateStudyRequest {
    /// The owning location, `projects/{project}/locations/{location}`.
    pub parent: String,
    /// The study to create.
    pub study: Option<Study>,
}

/// Asks for one trial by resource name.
#[derive(Debug, Clone, PartialEq, Eq)]
pub struct GetTrialRequest {
    /// The trial's resource name.
    pub name: String,
}

/// Asks to delete one trial by resource name.
#[derive(Debug, Clone, PartialEq, Eq)]
pub struct DeleteTrialRequest {
    /// The trial's resource name.
    pub name: String,
}

/// Asks the service to suggest trials; answered through a long-running
/// operation.
#[derive(Debug, Clone, PartialEq, Eq)]
pub struct SuggestTrialsRequest {
    /// The owning study's resource name.
    pub parent: String,
    /// How many trials to suggest.
    pub suggestion_count: i32,
    /// The identifier of the requesting client.
    pub client_id: String,
}

/// Asks to create a trial with caller-chosen parameters.
#[derive(Debug, Clone, PartialEq, Eq)]
pub struct CreateTrialRequest {
    /// The owning study's resource name.
    pub parent: String,
    /// The trial to create.
    pub trial: Option<Trial>,
}

/// Asks for a page of a study's trials.
#[derive(Debug, Clone, PartialEq, Eq)]
pub struct ListTrialsRequest {
    /// The owning study's resource name.
    pub parent: String,
    /// How many trials one page may hold; zero lets the service choose.
    pub page_size: i32,
    /// Where to resume, from an earlier page's token; empty starts over.
    pub page_token: String,
}

/// Asks for the study's pareto-optimal trials.
#[derive(Debug, Clone, PartialEq, Eq)]
pub struct ListOptimalTrialsRequest {
    /// The owning study's resource name.
    pub parent: String,
}

/// Adds a measurement to a running trial.
#[derive(Debug, Clone, PartialEq, Eq)]
pub struct AddTrialMeasurementRequest {
    /// The trial's resource name.
    pub trial_name: String,
    /// The measurement to add.
    pub measurement: Option<Measurement>,
}

/// Marks a trial complete, with either a final measurement or the reason
/// it was infeasible.
#[derive(Debug, Clone, PartialEq, Eq)]
pub struct CompleteTrialRequest {
    /// The trial's resource name.
    pub name: String,
    /// The final measurement, when the trial was feasible.
    pub final_measurement: Option<Measurement>,
    /// Whether the trial could not be run as parameterized.
    pub trial_infeasible: bool,
    /// Why the trial was infeasible, when it was.
    pub infeasible_reason: String,
}

/// Asks whether a trial should be stopped early; answered through a
/// long-running operation.
#[derive(Debug, Clone, PartialEq, Eq)]
pub struct CheckTrialEarlyStoppingStateRequest {
    /// The trial's resource name.
    pub trial_name: String,
}

/// Asks to stop a running trial.
#[derive(Debug, Clone, PartialEq, Eq)]
pub struct StopTrialRequest {
    /// The trial's resource name.
    pub name: String,
}

// ------------------------------------------------------------------
// The wire format of trial parameter values
// ------------------------------------------------------------------

/// The key byte of a numeric parameter value.
pub const KEY_NUMBER_VALUE: u8 = 17;

/// The key byte of a string parameter value.
pub const KEY_STRING_VALUE: u8 = 26;

/// The key byte of a boolean parameter value.
pub const KEY_BOOL_VALUE: u8 = 32;

/// The key byte of a trial parameter's identifier.
pub const KEY_PARAMETER_ID: u8 = 10;

/// The key byte of a trial parameter's value.
pub const KEY_PARAMETER_VALUE: u8 = 18;

/// The canonical encoding of a parameter value: exactly one of its fields
/// is on the wire, whichever the value holds, even at its default.
pub open spec fn value_enc(v: ParameterValueView) -> Seq<u8> {
    match v {
        ParameterValueView::Number(bits) => seq![KEY_NUMBER_VALUE] + fixed64(bits),
        ParameterValueView::Str(s) => seq![KEY_STRING_VALUE] + len_prefixed(encode_utf8(s)),
        ParameterValueView::Bool(flag) => seq![KEY_BOOL_VALUE] + varint(
            if flag {
                1u64
            } else {
                0u64
            },
        ),
    }
}

/// Parses a whole byte sequence as one parameter value.
pub open spec fn value_parse(b: Seq<u8>) -> Option<ParameterValueView> {
    if b.len() == 0 {
        None
    } else if b[0] == KEY_NUMBER_VALUE {
        match take_fixed64(b.drop_first()) {
            Some(t) => {
                if t.1.len() == 0 {
                    Some(ParameterValueView::Number(t.0))
                } else {
                    None
                }
            },
            None => None,
        }
    } else if b[0] == KEY_STRING_VALUE {
        match take_len_prefixed(b.drop_first()) {
            Some(t) => {
                if valid_utf8(t.0) && t.1.len() == 0 {
                    Some(ParameterValueView::Str(decode_utf8(t.0)))
                } else {
                    None
                }
            },
            None => None,
        }
    } else if b[0] == KEY_BOOL_VALUE {
        match take_varint(b.drop_first()) {
            Some(t) => {
                if t.1.len() == 0 {
                    Some(ParameterValueView::Bool(t.0 != 0))
                } else {
                    None
                }
            },
            None => None,
        }
    } else {
        None
    }
}

/// Parsing a parameter value undoes encoding one.
pub proof fn lemma_value_round_trip(v: ParameterValueView)
    requires
        value_enc(v).len() <= u64::MAX,
    ensures
        value_parse(value_enc(v)) == Some(v),
{
    let b = value_enc(v);
    match v {
        ParameterValueView::Number(bits) => {
            assert(b[0] == KEY_NUMBER_VALUE);
            assert(b.drop_first() =~= fixed64(bits) + Seq::<u8>::empty());
            lemma_fixed64_round_trip(bits, Seq::empty());
        },
        ParameterValueView::Str(s) => {
            broadcast use vstd::utf8::encode_utf8_valid_utf8;

            let payload = encode_utf8(s);
            assert(b.len() == 1 + len_prefixed(payload).len());
            assert(len_prefixed(payload).len() == varint(payload.len() as u64).len()
                + payload.len());
            assert(payload.len() <= u64::MAX);
            assert(b[0] == KEY_STRING_VALUE);
            assert(b.drop_first() =~= len_prefixed(payload) + Seq::<u8>::empty());
            lemma_len_prefixed_round_trip(payload, Seq::empty());
            vstd::utf8::encode_utf8_decode_utf8(s);
        },
        ParameterValueView::Bool(flag) => {
            let bit: u64 = if flag {
                1u64
            } else {
                0u64
            };
            assert(b[0] == KEY_BOOL_VALUE);
            assert(b.drop_first() =~= varint(bit) + Seq::<u8>::empty());
            lemma_varint_round_trip(bit, Seq::empty());
        },
    }
}

/// Appends the encoding of a parameter value to `out`.
pub fn encode_value(out: &mut Vec<u8>, v: &ParameterValue)
    ensures
        final(out)@ == old(out)@ + value_enc(v@),
{
    match v {
        ParameterValue::Number(bits) => {
            out.push(KEY_NUMBER_VALUE);
            crate::wire::encode_fixed64(out, *bits);
        },
        ParameterValue::Str(s) => {
            out.push(KEY_STRING_VALUE);
            write_len_prefixed(out, s.as_str().as_bytes());
        },
        ParameterValue::Bool(flag) => {
            out.push(KEY_BOOL_VALUE);
            let bit: u64 = if *flag {
                1u64
            } else {
                0u64
            };
            crate::wire::encode_varint(out, bit);
        },
    }
    proof {
        assert(out@ =~= old(out)@ + value_enc(v@));
    }
}

/// Parses a whole byte slice as one parameter value.
pub fn parse_value(bytes: &[u8]) -> (r: Option<ParameterValue>)
    ensures
        match r {
            Some(v) => value_parse(bytes@) == Some(v@),
            None => value_parse(bytes@) is None,
        },
{
    if bytes.len() == 0 {
        return None;
    }
    let x = bytes[0];
    proof {
        assert(bytes@.drop_first() =~= bytes@.skip(1));
    }
    if x == KEY_NUMBER_VALUE {
        match crate::wire::read_fixed64(bytes, 1) {
            Some((v, end)) => {
                if end == bytes.len() {
                    proof {
                        assert(bytes@.skip(end as int).len() == 0);
                    }
                    Some(ParameterValue::Number(v))
                } else {
                    proof {
                        assert(bytes@.skip(end as int).len() != 0);
                    }
                    None
                }
            },
            None => None,
        }
    } else if x == KEY_STRING_VALUE {
        match read_len_prefixed(bytes, 1) {
            Some((start, end)) => {
                let payload = slice_to_vec(&bytes[start..end]);
                match crate::wire::string_from_utf8(payload) {
                    Some(text) => {
                        if end == bytes.len() {
                            proof {
                                assert(bytes@.skip(end as int).len() == 0);
                            }
                            Some(ParameterValue::Str(text))
                        } else {
                            proof {
                                assert(bytes@.skip(end as int).len() != 0);
                            }
                            None
                        }
                    },
                    None => None,
                }
            },
            None => None,
        }
    } else if x == KEY_BOOL_VALUE {
        match crate::wire::read_varint(bytes, 1) {
            Some((v, end)) => {
                if end == bytes.len() {
                    proof {
                        assert(bytes@.skip(end as int).len() == 0);
                    }
                    Some(ParameterValue::Bool(v != 0))
                } else {
                    proof {
                        assert(bytes@.skip(end as int).len() != 0);
                    }
                    None
                }
            },
            None => None,
        }
    } else {
        None
    }
}

// ------------------------------------------------------------------
// The wire format of trial parameters
// ------------------------------------------------------------------

/// The canonical encoding of a trial parameter's value field: absent when
/// the parameter has no value.
pub open spec fn parameter_value_field_enc(v: Option<ParameterValueView>) -> Seq<u8> {
    match v {
        None => Seq::empty(),
        Some(pv) => seq![KEY_PARAMETER_VALUE] + len_prefixed(value_enc(pv)),
    }
}

/// The canonical encoding of a trial parameter.
pub open spec fn parameter_enc(p: TrialParameterView) -> Seq<u8> {
    string_field(p.parameter_id, KEY_PARAMETER_ID) + parameter_value_field_enc(p.value)
}

/// Parses a whole byte sequence as one trial parameter.
pub open spec fn parameter_parse(b: Seq<u8>) -> Option<TrialParameterView> {
    match take_string_field(b, KEY_PARAMETER_ID) {
        Some(t0) => {
            if t0.1.len() == 0 {
                Some(TrialParameterView { parameter_id: t0.0, value: None })
            } else if t0.1[0] == KEY_PARAMETER_VALUE {
                match take_len_prefixed(t0.1.drop_first()) {
                    Some(t1) => {
                        match value_parse(t1.0) {
                            Some(pv) => {
                                if t1.1.len() == 0 {
                                    Some(
                                        TrialParameterView {
                                            parameter_id: t0.0,
                                            value: Some(pv),
                                        },
                                    )
                                } else {
                                    None
                                }
                            },
                            None => None,
                        }
                    },
                    None => None,
                }
            } else {
                None
            }
        },
        None => None,
    }
}

/// Parsing a trial parameter undoes encoding one.
pub proof fn lemma_parameter_round_trip(p: TrialParameterView)
    requires
        parameter_enc(p).len() <= u64::MAX,
    ensures
        parameter_parse(parameter_enc(p)) == Some(p),
{
    let b = parameter_enc(p);
    let head = string_field(p.parameter_id, KEY_PARAMETER_ID);
    let rest = parameter_value_field_enc(p.value);
    if p.parameter_id.len() > 0 {
        let payload = encode_utf8(p.parameter_id);
        assert(head.len() == 1 + len_prefixed(payload).len());
        assert(len_prefixed(payload).len() == varint(payload.len() as u64).len() + payload.len());
        assert(payload.len() <= u64::MAX);
    } else {
        assert(encode_utf8(p.parameter_id).len() == 0);
    }
    match p.value {
        None => {
            assert(rest.len() == 0);
        },
        Some(pv) => {
            assert(rest[0] == KEY_PARAMETER_VALUE);
        },
    }
    lemma_string_field_round_trip(p.parameter_id, KEY_PARAMETER_ID, rest);
    match p.value {
        None => {},
        Some(pv) => {
            assert(rest.drop_first() =~= len_prefixed(value_enc(pv)) + Seq::<u8>::empty());
            assert(rest.len() == 1 + len_prefixed(value_enc(pv)).len());
            assert(len_prefixed(value_enc(pv)).len() == varint(value_enc(pv).len() as u64).len()
                + value_enc(pv).len());
            assert(value_enc(pv).len() <= u64::MAX);
            lemma_len_prefixed_round_trip(value_enc(pv), Seq::empty());
            lemma_value_round_trip(pv);
        },
    }
}

/// Appends the encoding of a trial parameter to `out`.
pub fn encode_parameter(out: &mut Vec<u8>, p: &TrialParameter)
    ensures
        final(out)@ == old(out)@ + parameter_enc(p@),
{
    write_string_field(out, &p.parameter_id, KEY_PARAMETER_ID);
    match &p.value {
        None => {},
        Some(v) => {
            out.push(KEY_PARAMETER_VALUE);
            let mut tmp: Vec<u8> = Vec::new();
            encode_value(&mut tmp, v);
            write_len_prefixed(out, tmp.as_slice());
        },
    }
    proof {
        assert(out@ =~= old(out)@ + parameter_enc(p@));
    }
}

/// Parses a whole byte slice as one trial parameter.
pub fn parse_parameter(bytes: &[u8]) -> (r: Option<TrialParameter>)
    ensures
        match r {
            Some(p) => parameter_parse(bytes@) == Some(p@),
            None => parameter_parse(bytes@) is None,
        },
{
    proof {
        assert(bytes@.skip(0) =~= bytes@);
    }
    match read_string_field(bytes, 0, KEY_PARAMETER_ID) {
        Some((pid, p1)) => {
            if p1 == bytes.len() {
                proof {
                    assert(bytes@.skip(p1 as int).len() == 0);
                }
                Some(TrialParameter { parameter_id: pid, value: None })
            } else if bytes[p1] == KEY_PARAMETER_VALUE {
                proof {
                    assert(bytes@.skip(p1 as int)[0] == bytes@[p1 as int]);
                    assert(bytes@.skip(p1 as int).drop_first() =~= bytes@.skip(p1 as int + 1));
                }
                match read_len_prefixed(bytes, p1 + 1) {
                    Some((start, end)) => {
                        match parse_value(&bytes[start..end]) {
                            Some(v) => {
                                if end == bytes.len() {
                                    proof {
                                        assert(bytes@.skip(end as int).len() == 0);
                                    }
                                    Some(TrialParameter { parameter_id: pid, value: Some(v) })
                                } else {
                                    proof {
                                        assert(bytes@.skip(end as int).len() != 0);
                                    }
                                    None
                                }
                            },
                            None => None,
                        }
                    },
                    None => None,
                }
            } else {
                proof {
                    assert(bytes@.skip(p1 as int)[0] == bytes@[p1 as int]);
                    assert(bytes@.skip(p1 as int).len() != 0);
                }
                None
            }
        },
        None => None,
    }
}

// ------------------------------------------------------------------
// The wire format of trials
// ------------------------------------------------------------------

/// The key byte of a trial's resource name.
pub const KEY_TRIAL_NAME: u8 = 10;

/// The key byte of a trial's identifier.
pub const KEY_TRIAL_ID: u8 = 18;

/// The key byte of a trial's lifecycle state.
pub const KEY_TRIAL_STATE: u8 = 24;

/// The key byte of a trial's parameters.
pub const KEY_TRIAL_PARAMETERS: u8 = 34;

/// The key byte of a trial's client identifier.
pub const KEY_TRIAL_CLIENT_ID: u8 = 74;

/// The key byte of a trial's infeasibility reason.
pub const KEY_TRIAL_INFEASIBLE_REASON: u8 = 82;

/// A trial's state as it travels: sign-extended to sixty-four bits, like
/// any negative integer field.
pub open spec fn state_wire(state: i32) -> u64 {
    (state as i64) as u64
}

/// Reading a state number back from the wire undoes sign extension, and
/// the wire value is zero exactly for the default state.
proof fn lemma_state_wire_inverse(state: i32)
    ensures
        state_wire(state) as i32 == state,
        (state_wire(state) == 0) <==> (state == 0),
{
    assert(((state as i64) as u64) as i32 == state) by (bit_vector);
    assert((((state as i64) as u64) == 0) <==> (state == 0)) by (bit_vector);
}

/// A concatenation opens with the byte its first non-empty part opens
/// with; if neither part opens with `key`, the whole does not either.
proof fn lemma_concat_opens(a: Seq<u8>, b: Seq<u8>, key: u8)
    requires
        a.len() == 0 || a[0] != key,
        b.len() == 0 || b[0] != key,
    ensures
        (a + b).len() == 0 || (a + b)[0] != key,
{
    if a.len() == 0 {
        assert(a + b =~= b);
    } else {
        assert((a + b)[0] == a[0]);
    }
}

/// The UTF-8 bytes of a string are no longer than the field that carries
/// them.
proof fn lemma_string_field_utf8_len(s: Seq<char>, key: u8)
    ensures
        encode_utf8(s).len() <= string_field(s, key).len(),
{
    if s.len() == 0 {
        assert(encode_utf8(s).len() == 0);
    } else {
        assert(string_field(s, key).len() == 1 + varint(encode_utf8(s).len() as u64).len()
            + encode_utf8(s).len());
    }
}

/// The canonical encoding of a sequence of trial parameters as a repeated
/// field: each element length-prefixed under its key, in order.
pub open spec fn params_enc(ps: Seq<TrialParameterView>) -> Seq<u8>
    decreases ps.len(),
{
    if ps.len() == 0 {
        Seq::empty()
    } else {
        seq![KEY_TRIAL_PARAMETERS] + len_prefixed(parameter_enc(ps[0])) + params_enc(
            ps.drop_first(),
        )
    }
}

/// Reads the repeated trial-parameter field off the front of `b`: every
/// consecutive occurrence of its key, each holding one whole parameter.
pub open spec fn take_params(b: Seq<u8>) -> Option<(Seq<TrialParameterView>, Seq<u8>)>
    decreases b.len(),
    via take_params_decreases
{
    if b.len() == 0 || b[0] != KEY_TRIAL_PARAMETERS {
        Some((Seq::empty(), b))
    } else {
        match take_len_prefixed(b.drop_first()) {
            Some(t) => {
                match parameter_parse(t.0) {
                    Some(p) => {
                        match take_params(t.1) {
                            Some(more) => Some((seq![p] + more.0, more.1)),
                            None => None,
                        }
                    },
                    None => None,
                }
            },
            None => None,
        }
    }
}

#[via_fn]
proof fn take_params_decreases(b: Seq<u8>) {
    if b.len() != 0 && b[0] == KEY_TRIAL_PARAMETERS {
        lemma_take_len_prefixed_shrinks(b.drop_first());
    }
}

/// Every element's encoding is no longer than the whole repeated field.
proof fn lemma_params_enc_elem_len(ps: Seq<TrialParameterView>, i: int)
    requires
        0 <= i < ps.len(),
    ensures
        parameter_enc(ps[i]).len() <= params_enc(ps).len(),
    decreases ps.len(),
{
    if i == 0 {
        assert(params_enc(ps).len() == 1 + len_prefixed(parameter_enc(ps[0])).len() + params_enc(
            ps.drop_first(),
        ).len());
        assert(len_prefixed(parameter_enc(ps[0])).len() == varint(
            parameter_enc(ps[0]).len() as u64,
        ).len() + parameter_enc(ps[0]).len());
    } else {
        lemma_params_enc_elem_len(ps.drop_first(), i - 1);
        assert(ps.drop_first()[i - 1] == ps[i]);
        assert(params_enc(ps).len() >= params_enc(ps.drop_first()).len());
    }
}

/// Reading the repeated trial-parameter field undoes writing one, as long
/// as what follows does not itself open with the field's key byte.
#[verifier::rlimit(100)]
pub proof fn lemma_params_round_trip(ps: Seq<TrialParameterView>, rest: Seq<u8>)
    requires
        forall|i: int| 0 <= i < ps.len() ==> (#[trigger] parameter_enc(ps[i])).len() <= u64::MAX,
        rest.len() == 0 || rest[0] != KEY_TRIAL_PARAMETERS,
    ensures
        take_params(params_enc(ps) + rest) == Some((ps, rest)),
    decreases ps.len(),
{
    if ps.len() == 0 {
        assert(params_enc(ps) + rest =~= rest);
        assert(ps =~= Seq::<TrialParameterView>::empty());
    } else {
        let head = ps[0];
        let tail = ps.drop_first();
        let b = params_enc(ps) + rest;
        assert(b[0] == KEY_TRIAL_PARAMETERS);
        assert(b.drop_first() =~= len_prefixed(parameter_enc(head)) + (params_enc(tail) + rest));
        assert(parameter_enc(head).len() <= u64::MAX);
        lemma_len_prefixed_round_trip(parameter_enc(head), params_enc(tail) + rest);
        lemma_parameter_round_trip(head);
        assert(forall|i: int|
            0 <= i < tail.len() ==> (#[trigger] parameter_enc(tail[i])).len() <= u64::MAX) by {
            assert forall|i: int|
                0 <= i < tail.len() implies (#[trigger] parameter_enc(tail[i])).len()
                <= u64::MAX by {
                assert(tail[i] == ps[i + 1]);
            }
        }
        lemma_params_round_trip(tail, rest);
        assert(seq![head] + tail =~= ps);
    }
}

/// The canonical encoding of a trial.
pub open spec fn trial_enc(t: TrialView) -> Seq<u8> {
    string_field(t.name, KEY_TRIAL_NAME) + string_field(t.id, KEY_TRIAL_ID) + varint_field(
        state_wire(t.state),
        KEY_TRIAL_STATE,
    ) + params_enc(t.parameters) + string_field(t.client_id, KEY_TRIAL_CLIENT_ID) + string_field(
        t.infeasible_reason,
        KEY_TRIAL_INFEASIBLE_REASON,
    )
}

/// Parses a whole byte sequence as one trial.
pub open spec fn trial_parse(b: Seq<u8>) -> Option<TrialView> {
    match take_string_field(b, KEY_TRIAL_NAME) {
        Some(t0) => match take_string_field(t0.1, KEY_TRIAL_ID) {
            Some(t1) => match take_varint_field(t1.1, KEY_TRIAL_STATE) {
                Some(t2) => match take_params(t2.1) {
                    Some(t3) => match take_string_field(t3.1, KEY_TRIAL_CLIENT_ID) {
                        Some(t4) => match take_string_field(t4.1, KEY_TRIAL_INFEASIBLE_REASON) {
                            Some(t5) => {
                                if t5.1.len() == 0 {
                                    Some(
                                        TrialView {
                                            name: t0.0,
                                            id: t1.0,
                                            state: t2.0 as i32,
                                            parameters: t3.0,
                                            client_id: t4.0,
                                            infeasible_reason: t5.0,
                                        },
                                    )
                                } else {
                                    None
                                }
                            },
                            None => None,
                        },
                        None => None,
                    },
                    None => None,
                },
                None => None,
            },
            None => None,
        },
        None => None,
    }
}

/// Parsing a trial undoes encoding one.
#[verifier::rlimit(100)]
pub proof fn lemma_trial_round_trip(t: TrialView)
    requires
        trial_enc(t).len() <= u64::MAX,
    ensures
        trial_parse(trial_enc(t)) == Some(t),
{
    let f1 = string_field(t.name, KEY_TRIAL_NAME);
    let f2 = string_field(t.id, KEY_TRIAL_ID);
    let f3 = varint_field(state_wire(t.state), KEY_TRIAL_STATE);
    let f4 = params_enc(t.parameters);
    let f5 = string_field(t.client_id, KEY_TRIAL_CLIENT_ID);
    let f6 = string_field(t.infeasible_reason, KEY_TRIAL_INFEASIBLE_REASON);
    let b = trial_enc(t);
    let r5 = f6 + Seq::<u8>::empty();
    let r4 = f5 + r5;
    let r3 = f4 + r4;
    let r2 = f3 + r3;
    let r1 = f2 + r2;
    assert(b =~= f1 + r1);
    assert(f6 =~= r5);
    // Each field is empty or opens with its own key byte.
    assert(f1.len() == 0 || f1[0] == KEY_TRIAL_NAME);
    assert(f2.len() == 0 || f2[0] == KEY_TRIAL_ID);
    assert(f3.len() == 0 || f3[0] == KEY_TRIAL_STATE);
    assert(f4.len() == 0 || f4[0] == KEY_TRIAL_PARAMETERS);
    assert(f5.len() == 0 || f5[0] == KEY_TRIAL_CLIENT_ID);
    assert(f6.len() == 0 || f6[0] == KEY_TRIAL_INFEASIBLE_REASON);
    // What follows each field never opens with that field's key byte.
    lemma_concat_opens(f5, r5, KEY_TRIAL_NAME);
    lemma_concat_opens(f4, r4, KEY_TRIAL_NAME);
    lemma_concat_opens(f3, r3, KEY_TRIAL_NAME);
    lemma_concat_opens(f2, r2, KEY_TRIAL_NAME);
    lemma_concat_opens(f5, r5, KEY_TRIAL_ID);
    lemma_concat_opens(f4, r4, KEY_TRIAL_ID);
    lemma_concat_opens(f3, r3, KEY_TRIAL_ID);
    lemma_concat_opens(f5, r5, KEY_TRIAL_STATE);
    lemma_concat_opens(f4, r4, KEY_TRIAL_STATE);
    lemma_concat_opens(f5, r5, KEY_TRIAL_PARAMETERS);
    assert(r5.len() == 0 || r5[0] != KEY_TRIAL_CLIENT_ID);
    // Length bounds for each piece, from the bound on the whole.
    assert(b.len() == f1.len() + f2.len() + f3.len() + f4.len() + f5.len() + f6.len());
    lemma_string_field_utf8_len(t.name, KEY_TRIAL_NAME);
    lemma_string_field_utf8_len(t.id, KEY_TRIAL_ID);
    lemma_string_field_utf8_len(t.client_id, KEY_TRIAL_CLIENT_ID);
    lemma_string_field_utf8_len(t.infeasible_reason, KEY_TRIAL_INFEASIBLE_REASON);
    assert(forall|i: int|
        0 <= i < t.parameters.len() ==> (#[trigger] parameter_enc(t.parameters[i])).len()
        <= u64::MAX) by {
        assert forall|i: int|
            0 <= i < t.parameters.len() implies (#[trigger] parameter_enc(t.parameters[i])).len()
            <= u64::MAX by {
            lemma_params_enc_elem_len(t.parameters, i);
        }
    }
    // Walk the fields in order.
    lemma_string_field_round_trip(t.name, KEY_TRIAL_NAME, r1);
    lemma_string_field_round_trip(t.id, KEY_TRIAL_ID, r2);
    lemma_varint_field_round_trip(state_wire(t.state), KEY_TRIAL_STATE, r3);
    lemma_params_round_trip(t.parameters, r4);
    lemma_string_field_round_trip(t.client_id, KEY_TRIAL_CLIENT_ID, r5);
    lemma_string_field_round_trip(t.infeasible_reason, KEY_TRIAL_INFEASIBLE_REASON, Seq::empty());
    lemma_state_wire_inverse(t.state);
}

/// Appends the encoding of the trials at `from` onward, each as one
/// occurrence of the repeated trial-parameter field, to `out`.
pub fn encode_params_from(out: &mut Vec<u8>, ps: &Vec<TrialParameter>, from: usize)
    requires
        from <= ps@.len(),
    ensures
        final(out)@ == old(out)@ + params_enc(
            ps@.map_values(|p: TrialParameter| p@).skip(from as int),
        ),
    decreases ps@.len() - from,
{
    let ghost views = ps@.map_values(|p: TrialParameter| p@);
    if from < ps.len() {
        out.push(KEY_TRIAL_PARAMETERS);
        let mut tmp: Vec<u8> = Vec::new();
        encode_parameter(&mut tmp, &ps[from]);
        write_len_prefixed(out, tmp.as_slice());
        encode_params_from(out, ps, from + 1);
        proof {
            assert(views.skip(from as int)[0] == views[from as int]);
            assert(views.skip(from as int).drop_first() =~= views.skip(from as int + 1));
            assert(views.skip(from as int).len() > 0);
            assert(out@ =~= old(out)@ + params_enc(views.skip(from as int)));
        }
    } else {
        proof {
            assert(views.skip(from as int) =~= Seq::<TrialParameterView>::empty());
            assert(out@ =~= old(out)@ + params_enc(views.skip(from as int)));
        }
    }
}

/// Appends the encoding of a trial to `out`.
#[verifier::rlimit(100)]
pub fn encode_trial(out: &mut Vec<u8>, t: &Trial)
    ensures
        final(out)@ == old(out)@ + trial_enc(t@),
{
    write_string_field(out, &t.name, KEY_TRIAL_NAME);
    write_string_field(out, &t.id, KEY_TRIAL_ID);
    let state64: i64 = t.state as i64;
    write_varint_field(out, state64 as u64, KEY_TRIAL_STATE);
    encode_params_from(out, &t.parameters, 0);
    write_string_field(out, &t.client_id, KEY_TRIAL_CLIENT_ID);
    write_string_field(out, &t.infeasible_reason, KEY_TRIAL_INFEASIBLE_REASON);
    proof {
        assert(t@.parameters.skip(0) =~= t@.parameters);
        assert(out@ =~= old(out)@ + trial_enc(t@));
    }
}

/// Reads the repeated trial-parameter field from `bytes` at `pos`.
pub fn read_params(bytes: &[u8], pos: usize) -> (r: Option<(Vec<TrialParameter>, usize)>)
    requires
        pos <= bytes@.len(),
    ensures
        match r {
            Some(t) => {
                &&& pos <= t.1 <= bytes@.len()
                &&& take_params(bytes@.skip(pos as int)) == Some(
                    (t.0@.map_values(|p: TrialParameter| p@), bytes@.skip(t.1 as int)),
                )
            },
            None => take_params(bytes@.skip(pos as int)) is None,
        },
    decreases bytes@.len() - pos,
{
    proof {
        assert(bytes@.skip(pos as int).len() == bytes@.len() - pos);
    }
    if pos == bytes.len() || bytes[pos] != KEY_TRIAL_PARAMETERS {
        proof {
            if pos < bytes@.len() {
                assert(bytes@.skip(pos as int)[0] == bytes@[pos as int]);
            }
        }
        let items: Vec<TrialParameter> = Vec::new();
        proof {
            assert(items@.map_values(|p: TrialParameter| p@) =~= Seq::<
                TrialParameterView,
            >::empty());
        }
        Some((items, pos))
    } else {
        proof {
            assert(bytes@.skip(pos as int)[0] == bytes@[pos as int]);
            assert(bytes@.skip(pos as int).drop_first() =~= bytes@.skip(pos as int + 1));
        }
        match read_len_prefixed(bytes, pos + 1) {
            Some((start, end)) => {
                match parse_parameter(&bytes[start..end]) {
                    Some(p) => {
                        match read_params(bytes, end) {
                            Some((more, fin)) => {
                                let ghost tail_views = more@.map_values(|q: TrialParameter| q@);
                                let mut items = more;
                                items.insert(0, p);
                                proof {
                                    assert(items@.map_values(|q: TrialParameter| q@) =~= seq![p@]
                                        + tail_views);
                                }
                                Some((items, fin))
                            },
                            None => None,
                        }
                    },
                    None => None,
                }
            },
            None => None,
        }
    }
}

/// Parses a whole byte slice as one trial.
pub fn parse_trial(bytes: &[u8]) -> (r: Option<Trial>)
    ensures
        match r {
            Some(t) => trial_parse(bytes@) == Some(t@),
            None => trial_parse(bytes@) is None,
        },
{
    proof {
        assert(bytes@.skip(0) =~= bytes@);
    }
    let name = match read_string_field(bytes, 0, KEY_TRIAL_NAME) {
        Some(t) => t,
        None => {
            return None;
        },
    };
    let id = match read_string_field(bytes, name.1, KEY_TRIAL_ID) {
        Some(t) => t,
        None => {
            return None;
        },
    };
    let state = match read_varint_field(bytes, id.1, KEY_TRIAL_STATE) {
        Some(t) => t,
        None => {
            return None;
        },
    };
    let params = match read_params(bytes, state.1) {
        Some(t) => t,
        None => {
            return None;
        },
    };
    let client_id = match read_string_field(bytes, params.1, KEY_TRIAL_CLIENT_ID) {
        Some(t) => t,
        None => {
            return None;
        },
    };
    let reason = match read_string_field(bytes, client_id.1, KEY_TRIAL_INFEASIBLE_REASON) {
        Some(t) => t,
        None => {
            return None;
        },
    };
    if reason.1 != bytes.len() {
        proof {
            assert(bytes@.skip(reason.1 as int).len() != 0);
        }
        return None;
    }
    proof {
        assert(bytes@.skip(reason.1 as int).len() == 0);
    }
    let state_number: u64 = state.0;
    let trial = Trial {
        name: name.0,
        id: id.0,
        state: #[verifier::truncate] (state_number as i32),
        parameters: params.0,
        client_id: client_id.0,
        infeasible_reason: reason.0,
    };
    Some(trial)
}

// ------------------------------------------------------------------
// Responses carried inside completed operations
// ------------------------------------------------------------------

/// The key byte of the repeated trial field of [`SuggestTrialsResponse`].
pub const KEY_RESPONSE_TRIALS: u8 = 10;

/// The answer to a suggest-trials request, carried inside the operation
/// the request creates: the trials the service suggests running.
#[derive(Debug, Clone, PartialEq, Eq)]
pub struct SuggestTrialsResponse {
    /// The suggested trials.
    pub trials: Vec<Trial>,
}

/// The spec-level face of a [`SuggestTrialsResponse`].
pub struct SuggestTrialsResponseView {
    /// The suggested trials.
    pub trials: Seq<TrialView>,
}

impl View for SuggestTrialsResponse {
    type V = SuggestTrialsResponseView;

    open spec fn view(&self) -> SuggestTrialsResponseView {
        SuggestTrialsResponseView { trials: self.trials@.map_values(|t: Trial| t@) }
    }
}

/// The canonical encoding of a sequence of trials as a repeated field:
/// each trial length-prefixed under its key, in order.
pub open spec fn trials_enc(ts: Seq<TrialView>) -> Seq<u8>
    decreases ts.len(),
{
    if ts.len() == 0 {
        Seq::empty()
    } else {
        seq![KEY_RESPONSE_TRIALS] + len_prefixed(trial_enc(ts[0])) + trials_enc(ts.drop_first())
    }
}

/// Reads the repeated trial field off the front of `b`: every consecutive
/// occurrence of its key, each holding one whole trial.
pub open spec fn take_trials(b: Seq<u8>) -> Option<(Seq<TrialView>, Seq<u8>)>
    decreases b.len(),
    via take_trials_decreases
{
    if b.len() == 0 || b[0] != KEY_RESPONSE_TRIALS {
        Some((Seq::empty(), b))
    } else {
        match take_len_prefixed(b.drop_first()) {
            Some(t) => {
                match trial_parse(t.0) {
                    Some(tv) => {
                        match take_trials(t.1) {
                            Some(more) => Some((seq![tv] + more.0, more.1)),
                            None => None,
                        }
                    },
                    None => None,
                }
            },
            None => None,
        }
    }
}

#[via_fn]
proof fn take_trials_decreases(b: Seq<u8>) {
    if b.len() != 0 && b[0] == KEY_RESPONSE_TRIALS {
        lemma_take_len_prefixed_shrinks(b.drop_first());
    }
}

/// Every trial's encoding is no longer than the whole repeated field.
proof fn lemma_trials_enc_elem_len(ts: Seq<TrialView>, i: int)
    requires
        0 <= i < ts.len(),
    ensures
        trial_enc(ts[i]).len() <= trials_enc(ts).len(),
    decreases ts.len(),
{
    if i == 0 {
        assert(trials_enc(ts).len() == 1 + len_prefixed(trial_enc(ts[0])).len() + trials_enc(
            ts.drop_first(),
        ).len());
        assert(len_prefixed(trial_enc(ts[0])).len() == varint(trial_enc(ts[0]).len() as u64).len()
            + trial_enc(ts[0]).len());
    } else {
        lemma_trials_enc_elem_len(ts.drop_first(), i - 1);
        assert(ts.drop_first()[i - 1] == ts[i]);
        assert(trials_enc(ts).len() >= trials_enc(ts.drop_first()).len());
    }
}

/// Reading the repeated trial field undoes writing one, as long as what
/// follows does not itself open with the field's key byte.
#[verifier::rlimit(100)]
pub proof fn lemma_trials_round_trip(ts: Seq<TrialView>, rest: Seq<u8>)
    requires
        forall|i: int| 0 <= i < ts.len() ==> (#[trigger] trial_enc(ts[i])).len() <= u64::MAX,
        rest.len() == 0 || rest[0] != KEY_RESPONSE_TRIALS,
    ensures
        take_trials(trials_enc(ts) + rest) == Some((ts, rest)),
    decreases ts.len(),
{
    if ts.len() == 0 {
        assert(trials_enc(ts) + rest =~= rest);
        assert(ts =~= Seq::<TrialView>::empty());
    } else {
        let head = ts[0];
        let tail = ts.drop_first();
        let b = trials_enc(ts) + rest;
        assert(b[0] == KEY_RESPONSE_TRIALS);
        assert(b.drop_first() =~= len_prefixed(trial_enc(head)) + (trials_enc(tail) + rest));
        assert(trial_enc(head).len() <= u64::MAX);
        lemma_len_prefixed_round_trip(trial_enc(head), trials_enc(tail) + rest);
        lemma_trial_round_trip(head);
        assert(forall|i: int|
            0 <= i < tail.len() ==> (#[trigger] trial_enc(tail[i])).len() <= u64::MAX) by {
            assert forall|i: int|
                0 <= i < tail.len() implies (#[trigger] trial_enc(tail[i])).len() <= u64::MAX by {
                assert(tail[i] == ts[i + 1]);
            }
        }
        lemma_trials_round_trip(tail, rest);
        assert(seq![head] + tail =~= ts);
    }
}

/// Appends the encoding of the trials at `from` onward to `out`.
fn encode_trials_from(out: &mut Vec<u8>, ts: &Vec<Trial>, from: usize)
    requires
        from <= ts@.len(),
    ensures
        final(out)@ == old(out)@ + trials_enc(ts@.map_values(|t: Trial| t@).skip(from as int)),
    decreases ts@.len() - from,
{
    let ghost views = ts@.map_values(|t: Trial| t@);
    if from < ts.len() {
        out.push(KEY_RESPONSE_TRIALS);
        let mut tmp: Vec<u8> = Vec::new();
        encode_trial(&mut tmp, &ts[from]);
        write_len_prefixed(out, tmp.as_slice());
        encode_trials_from(out, ts, from + 1);
        proof {
            assert(views.skip(from as int)[0] == views[from as int]);
            assert(views.skip(from as int).drop_first() =~= views.skip(from as int + 1));
            assert(views.skip(from as int).len() > 0);
            assert(out@ =~= old(out)@ + trials_enc(views.skip(from as int)));
        }
    } else {
        proof {
            assert(views.skip(from as int) =~= Seq::<TrialView>::empty());
            assert(out@ =~= old(out)@ + trials_enc(views.skip(from as int)));
        }
    }
}

/// Reads the repeated trial field from `bytes` at `pos`.
fn read_trials(bytes: &[u8], pos: usize) -> (r: Option<(Vec<Trial>, usize)>)
    requires
        pos <= bytes@.len(),
    ensures
        match r {
            Some(t) => {
                &&& pos <= t.1 <= bytes@.len()
                &&& take_trials(bytes@.skip(pos as int)) == Some(
                    (t.0@.map_values(|x: Trial| x@), bytes@.skip(t.1 as int)),
                )
            },
            None => take_trials(bytes@.skip(pos as int)) is None,
        },
    decreases bytes@.len() - pos,
{
    proof {
        assert(bytes@.skip(pos as int).len() == bytes@.len() - pos);
    }
    if pos == bytes.len() || bytes[pos] != KEY_RESPONSE_TRIALS {
        proof {
            if pos < bytes@.len() {
                assert(bytes@.skip(pos as int)[0] == bytes@[pos as int]);
            }
        }
        let items: Vec<Trial> = Vec::new();
        proof {
            assert(items@.map_values(|x: Trial| x@) =~= Seq::<TrialView>::empty());
        }
        Some((items, pos))
    } else {
        proof {
            assert(bytes@.skip(pos as int)[0] == bytes@[pos as int]);
            assert(bytes@.skip(pos as int).drop_first() =~= bytes@.skip(pos as int + 1));
        }
        match read_len_prefixed(bytes, pos + 1) {
            Some((start, end)) => {
                match parse_trial(&bytes[start..end]) {
                    Some(t) => {
                        match read_trials(bytes, end) {
                            Some((more, fin)) => {
                                let ghost tail_views = more@.map_values(|x: Trial| x@);
                                let mut items = more;
                                items.insert(0, t);
                                proof {
                                    assert(items@.map_values(|x: Trial| x@) =~= seq![t@]
                                        + tail_views);
                                }
                                Some((items, fin))
                            },
                            None => None,
                        }
                    },
                    None => None,
                }
            },
            None => None,
        }
    }
}

impl WireMessage for SuggestTrialsResponse {
    open spec fn spec_encode(v: SuggestTrialsResponseView) -> Seq<u8> {
        trials_enc(v.trials)
    }

    open spec fn spec_parse(bytes: Seq<u8>) -> Option<SuggestTrialsResponseView> {
        match take_trials(bytes) {
            Some(t) => {
                if t.1.len() == 0 {
                    Some(SuggestTrialsResponseView { trials: t.0 })
                } else {
                    None
                }
            },
            None => None,
        }
    }

    proof fn lemma_round_trip(v: SuggestTrialsResponseView) {
        assert(forall|i: int|
            0 <= i < v.trials.len() ==> (#[trigger] trial_enc(v.trials[i])).len() <= u64::MAX) by {
            assert forall|i: int|
                0 <= i < v.trials.len() implies (#[trigger] trial_enc(v.trials[i])).len()
                <= u64::MAX by {
                lemma_trials_enc_elem_len(v.trials, i);
            }
        }
        lemma_trials_round_trip(v.trials, Seq::empty());
        assert(trials_enc(v.trials) + Seq::<u8>::empty() =~= trials_enc(v.trials));
    }

    fn encode_wire(&self) -> (r: Vec<u8>) {
        let mut out: Vec<u8> = Vec::new();
        encode_trials_from(&mut out, &self.trials, 0);
        proof {
            assert(self@.trials.skip(0) =~= self@.trials);
        }
        let n = out.len();
        proof {
            assert(out@.len() == n as int);
            assert(Self::spec_encode(self@).len() <= u64::MAX);
        }
        out
    }

    fn decode_wire(bytes: &[u8]) -> (r: Result<Self, WireError>) {
        proof {
            assert(bytes@.skip(0) =~= bytes@);
        }
        match read_trials(bytes, 0) {
            Some((trials, end)) => {
                if end == bytes.len() {
                    proof {
                        assert(bytes@.skip(end as int).len() == 0);
                    }
                    Ok(SuggestTrialsResponse { trials })
                } else {
                    proof {
                        assert(bytes@.skip(end as int).len() != 0);
                    }
                    Err(WireError {})
                }
            },
            None => Err(WireError {}),
        }
    }
}

/// The key byte of the one field of
/// [`CheckTrialEarlyStoppingStateResponse`].
pub const KEY_SHOULD_STOP: u8 = 8;

/// The answer to a trial early-stopping check, carried inside the
/// operation the check creates.
#[derive(Debug, Clone, Copy, PartialEq, Eq, Structural)]
pub struct CheckTrialEarlyStoppingStateResponse {
    /// Whether the trial should be stopped.
    pub should_stop: bool,
}

impl View for CheckTrialEarlyStoppingStateResponse {
    type V = CheckTrialEarlyStoppingStateResponse;

    open spec fn view(&self) -> CheckTrialEarlyStoppingStateResponse {
        *self
    }
}

impl WireMessage for CheckTrialEarlyStoppingStateResponse {
    open spec fn spec_encode(v: CheckTrialEarlyStoppingStateResponse) -> Seq<u8> {
        varint_field(
            if v.should_stop {
                1u64
            } else {
                0u64
            },
            KEY_SHOULD_STOP,
        )
    }

    open spec fn spec_parse(bytes: Seq<u8>) -> Option<CheckTrialEarlyStoppingStateResponse> {
        match take_varint_field(bytes, KEY_SHOULD_STOP) {
            Some(t) => {
                if t.1.len() == 0 {
                    Some(CheckTrialEarlyStoppingStateResponse { should_stop: t.0 != 0 })
                } else {
                    None
                }
            },
            None => None,
        }
    }

    proof fn lemma_round_trip(v: CheckTrialEarlyStoppingStateResponse) {
        let bit: u64 = if v.should_stop {
            1u64
        } else {
            0u64
        };
        lemma_varint_field_round_trip(bit, KEY_SHOULD_STOP, Seq::empty());
        assert(varint_field(bit, KEY_SHOULD_STOP) + Seq::<u8>::empty() =~= varint_field(
            bit,
            KEY_SHOULD_STOP,
        ));
    }

    fn encode_wire(&self) -> (r: Vec<u8>) {
        let mut out: Vec<u8> = Vec::new();
        let bit: u64 = if self.should_stop {
            1u64
        } else {
            0u64
        };
        write_varint_field(&mut out, bit, KEY_SHOULD_STOP);
        proof {
            assert(out@ =~= Self::spec_encode(self@));
        }
        let n = out.len();
        proof {
            assert(out@.len() == n as int);
            assert(Self::spec_encode(self@).len() <= u64::MAX);
        }
        out
    }

    fn decode_wire(bytes: &[u8]) -> (r: Result<Self, WireError>) {
        proof {
            assert(bytes@.skip(0) =~= bytes@);
        }
        match read_varint_field(bytes, 0, KEY_SHOULD_STOP) {
            Some((v, end)) => {
                if end == bytes.len() {
                    proof {
                        assert(bytes@.skip(end as int).len() == 0);
                    }
                    Ok(CheckTrialEarlyStoppingStateResponse { should_stop: v != 0 })
                } else {
                    proof {
                        assert(bytes@.skip(end as int).len() != 0);
                    }
                    Err(WireError {})
                }
            },
            None => Err(WireError {}),
        }
    }
}

} // verus!
