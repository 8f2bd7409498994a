//! Stage and error records as the registry holds them, the immutable views a
//! response carries, and the projections between them.
//!
//! A projection is a deep copy: once a view is built it shares nothing with the
//! registry record it came from, so the registry may change freely afterwards.

use vstd::prelude::*;

verus! {

/// Mathematical model of an error attached to a stage: the erroring stage's
/// name, its position in the job's stage sequence, and a human-readable
/// description.
pub ghost struct ErrorData {
    pub name: Seq<char>,
    pub progress_index: usize,
    pub error_string: Seq<char>,
}

/// Mathematical model of one stage of a job.
pub ghost struct StageData {
    pub name: Seq<char>,
    pub index: usize,
    /// The completion percentage, as the IEEE 754 bit pattern of the number.
    pub percent_bits: u64,
    pub currently_processing: bool,
    pub errored: Option<ErrorData>,
}

/// An error as recorded inside the registry for one stage of a job.
#[derive(Debug, Clone, PartialEq, Eq)]
pub struct ErrorRecord {
    pub name: String,
    pub progress_index: usize,
    pub error_string: String,
}

impl View for ErrorRecord {
    type V = ErrorData;

    open spec fn view(&self) -> ErrorData {
        ErrorData {
            name: self.name@,
            progress_index: self.progress_index,
            error_string: self.error_string@,
        }
    }
}

/// One stage of a job as the registry holds it: name, position, completion
/// percentage, an in-flight flag, and an optional error. The percentage is
/// held as the bit pattern of the number; the core copies it through without
/// computing on it.
#[derive(Debug, Clone, PartialEq, Eq)]
pub struct StageRecord {
    pub name: String,
    pub index: usize,
    pub percent_bits: u64,
    pub currently_processing: bool,
    pub errored: Option<ErrorRecord>,
}

pub open spec fn error_data_of_record(e: Option<ErrorRecord>) -> Option<ErrorData> {
    match e {
        Some(r) => Some(r@),
        None => None,
    }
}

impl View for StageRecord {
    type V = StageData;

    open spec fn view(&self) -> StageData {
        StageData {
            name: self.name@,
            index: self.index,
            percent_bits: self.percent_bits,
            currently_processing: self.currently_processing,
            errored: error_data_of_record(self.errored),
        }
    }
}

/// The projection of an [`ErrorRecord`] carried by a response: the same three
/// fields, owned by the response alone.
#[derive(Debug, Clone, PartialEq, Eq)]
pub struct ErrorView {
    pub name: String,
    pub progress_index: usize,
    pub error_string: String,
}

impl View for ErrorView {
    type V = ErrorData;

    open spec fn view(&self) -> ErrorData {
        ErrorData {
            name: self.name@,
            progress_index: self.progress_index,
            error_string: self.error_string@,
        }
    }
}

/// The projection of a [`StageRecord`] carried by a response: the same fields,
/// with the error projected into an [`ErrorView`]. A view is solely owned by
/// the response being built and never aliases the registry.
#[derive(Debug, Clone, PartialEq, Eq)]
pub struct StageView {
    pub name: String,
    pub index: usize,
    pub percent_bits: u64,
    pub currently_processing: bool,
    pub errored: Option<ErrorView>,
}

pub open spec fn error_data_of_view(e: Option<ErrorView>) -> Option<ErrorData> {
    match e {
        Some(v) => Some(v@),
        None => None,
    }
}

impl View for StageView {
    type V = StageData;

    open spec fn view(&self) -> StageData {
        StageData {
            name: self.name@,
            index: self.index,
            percent_bits: self.percent_bits,
            currently_processing: self.currently_processing,
            errored: error_data_of_view(self.errored),
        }
    }
}

/// The stage sequence of a job record, as mathematical data.
pub open spec fn stages_data(s: Seq<StageRecord>) -> Seq<StageData> {
    s.map_values(|r: StageRecord| r@)
}

/// The stage sequence of a response entry, as mathematical data.
pub open spec fn views_data(s: Seq<StageView>) -> Seq<StageData> {
    s.map_values(|v: StageView| v@)
}

/// Projects an error record into an error view: a field-for-field copy.
pub fn project_error(e: &ErrorRecord) -> (v: ErrorView)
    ensures
        v@ == e@,
{
    ErrorView {
        name: e.name.clone(),
        progress_index: e.progress_index,
        error_string: e.error_string.clone(),
    }
}

/// Projects a stage record into a stage view: a field-for-field copy, with an
/// attached error projected and an absent error kept absent.
pub fn project_stage(r: &StageRecord) -> (v: StageView)
    ensures
        v@ == r@,
{
    StageView {
        name: r.name.clone(),
        index: r.index,
        percent_bits: r.percent_bits,
        currently_processing: r.currently_processing,
        errored: match &r.errored {
            Some(e) => Some(project_error(e)),
            None => None,
        },
    }
}

/// Projects every stage of a job record, in order.
pub fn project_stages(stages: &Vec<StageRecord>) -> (v: Vec<StageView>)
    ensures
        views_data(v@) == stages_data(stages@),
        v@.len() == stages@.len(),
{
    let mut out: Vec<StageView> = Vec::new();
    let mut i: usize = 0;
    while i < stages.len()
        invariant
            i <= stages.len(),
            out@.len() == i,
            forall|j: int| 0 <= j < i ==> out@[j]@ == stages@[j]@,
        decreases stages.len() - i,
    {
        out.push(project_stage(&stages[i]));
        i = i + 1;
    }
    proof {
        assert(views_data(out@) =~= stages_data(stages@)) by {
            assert(forall|j: int| 0 <= j < out@.len() ==> views_data(out@)[j] == out@[j]@);
            assert(forall|j: int|
                0 <= j < stages@.len() ==> stages_data(stages@)[j] == stages@[j]@);
        }
    }
    out
}

} // verus!
