//! The arrays under test by name, and a whole run for one of them.

use crate::aggregate::{trimmed_mean, TooFewValues, MIN_TRIALS};
use crate::bench::{run_fresh_trials, run_trials};
use crate::config::Config;
use crate::container::{Container, Violation};
use crate::phases::{lemma_workload_in_order, times_of, trial_times, Trial};
use crate::report::{append_decimal, average_times, column, decimal, Phase, Report};
use crate::tarjan_general::{general_with_r, DEFAULT_R, MAX_R, MIN_R};
use vstd::prelude::*;
use vstd::string::StringExecFns;

verus! {

/// An array design that the harness can measure.
#[derive(Clone, Copy, Debug, PartialEq, Eq, Structural)]
pub enum Variant {
    /// `Vec` of the standard library.
    Vector,
    /// The segment array of the `segment_array` crate.
    Segment,
    /// The resizable array of the `optarray` crate.
    Optimal,
    /// The extensible array of the `extarray` crate.
    Extensible,
    /// The general resizable array of the `tzarrays` crate, with blocks of
    /// `r - 1` sizes.
    General { r: usize },
    /// The simple resizable array of the `tzarrays` crate.
    Simple,
}

impl Variant {
    /// The variant names an array that can be made: a general array needs an
    /// `r` from `MIN_R` to `MAX_R`.
    pub open spec fn valid(&self) -> bool {
        self matches Variant::General { r } ==> MIN_R <= *r <= MAX_R
    }

    /// Whether the variant names an array that can be made.
    #[verifier::when_used_as_spec(valid)]
    pub fn is_valid(&self) -> (valid: bool)
        ensures
            valid == self.valid(),
    {
        match self {
            Variant::General { r } => MIN_R <= *r && *r <= MAX_R,
            _ => true,
        }
    }

    /// The name of the array's type.
    pub open spec fn spec_name(&self) -> Seq<char> {
        match self {
            Variant::Vector => "std::vec::Vec"@,
            Variant::Segment => "SegmentArray"@,
            Variant::Optimal => "OptimalArray"@,
            Variant::Extensible => "ExtensibleArray"@,
            Variant::General { .. } => "GeneralArray"@,
            Variant::Simple => "SimpleArray"@,
        }
    }

    /// The name of the array's type.
    pub fn name(&self) -> (name: &'static str)
        ensures
            name@ == self.spec_name(),
    {
        match self {
            Variant::Vector => "std::vec::Vec",
            Variant::Segment => "SegmentArray",
            Variant::Optimal => "OptimalArray",
            Variant::Extensible => "ExtensibleArray",
            Variant::General { .. } => "GeneralArray",
            Variant::Simple => "SimpleArray",
        }
    }

    /// The name by which a report speaks of the variant: the name of the
    /// type, and for a general array its `r`.
    pub open spec fn spec_label(&self) -> Seq<char> {
        match self {
            Variant::General { r } => self.spec_name() + " (r="@ + decimal(*r as nat) + ")"@,
            _ => self.spec_name(),
        }
    }

    /// The name by which a report speaks of the variant.
    pub fn label(&self) -> (label: String)
        ensures
            label@ == self.spec_label(),
    {
        let mut label = String::from_str(self.name());
        if let Variant::General { r } = self {
            label.append(" (r=");
            append_decimal(&mut label, *r as u64);
            label.append(")");
        }
        label
    }

    /// The line that says that the measuring of the variant starts.
    pub open spec fn spec_announcement(&self) -> Seq<char> {
        "measuring "@ + self.spec_label() + "..."@
    }

    /// The line that says that the measuring of the variant starts.
    pub fn announcement(&self) -> (line: String)
        ensures
            line@ == self.spec_announcement(),
    {
        let mut line = String::from_str("measuring ");
        let label = self.label();
        line.append(label.as_str());
        line.append("...");
        line
    }
}

/// The variants of a full comparison, in the order in which they are run.
pub open spec fn spec_standard_lineup() -> Seq<Variant> {
    seq![
        Variant::Vector,
        Variant::Segment,
        Variant::Optimal,
        Variant::Extensible,
        Variant::General { r: DEFAULT_R },
        Variant::General { r: 4 },
        Variant::Simple,
    ]
}

/// The variants of a full comparison, in the order in which they are run.
pub fn standard_lineup() -> (lineup: Vec<Variant>)
    ensures
        lineup@ == spec_standard_lineup(),
        forall|i: int| 0 <= i < lineup.len() ==> (#[trigger] lineup[i]).valid(),
{
    let mut lineup: Vec<Variant> = Vec::new();
    lineup.push(Variant::Vector);
    lineup.push(Variant::Segment);
    lineup.push(Variant::Optimal);
    lineup.push(Variant::Extensible);
    lineup.push(Variant::General { r: DEFAULT_R });
    lineup.push(Variant::General { r: 4 });
    lineup.push(Variant::Simple);
    lineup
}

/// The trials of one variant. An array of the standard library or of the
/// `segment_array`, `optarray` or `extarray` crate is made anew for each
/// trial; one of the `tzarrays` crate is made once and serves all trials.
/// Every trial reads as many values as the workload has, and removes as many.
pub fn measure(variant: &Variant, config: &Config) -> (outcome: Result<Vec<Trial>, Violation>)
    requires
        variant.valid(),
    ensures
        outcome matches Ok(trials) && trials.len() == config.trials() >= MIN_TRIALS && forall|
            i: int,
        |
            0 <= i < trials.len() ==> (#[trigger] trials[i]).scanned == config.size()
                && trials[i].removed == config.size(),
{
    let size = config.size();
    let count = config.trials();
    match variant {
        Variant::Vector => run_fresh_trials::<Vec<usize>>(size, count),
        Variant::Segment => run_fresh_trials::<segment_array::SegmentArray<usize>>(size, count),
        Variant::Optimal => run_fresh_trials::<optarray::OptimalArray<usize>>(size, count),
        Variant::Extensible => run_fresh_trials::<extarray::ExtensibleArray<usize>>(size, count),
        Variant::General { r } => {
            let mut array = general_with_r(*r);
            proof {
                lemma_workload_in_order(size as nat);
            }
            run_trials(&mut array, size, count)
        },
        Variant::Simple => {
            let mut array = tzarrays::simple::OptimalArray::<usize>::new_empty();
            proof {
                lemma_workload_in_order(size as nat);
            }
            run_trials(&mut array, size, count)
        },
    }
}

/// What is reported for one variant: which one it is, and the aggregated time
/// of each phase.
#[derive(Clone, Copy, Debug, PartialEq, Eq, Structural)]
pub struct Row {
    /// The variant that was measured.
    pub variant: Variant,
    /// The trimmed mean of each phase over the trials.
    pub report: Report,
}

/// Why a run gives no row.
#[derive(Clone, Copy, Debug, PartialEq, Eq, Structural)]
pub enum RunError {
    /// A scan found a value that does not equal its index.
    Misplaced(Violation),
    /// The trials are fewer than the aggregator needs.
    TooFewTrials(TooFewValues),
}

/// The row for the trials of one variant, or why there is none: fewer than
/// `MIN_TRIALS` trials are refused.
pub fn summarize(variant: &Variant, trials: &Vec<Trial>) -> (outcome: Result<Row, RunError>)
    ensures
        match outcome {
            Ok(row) => {
                &&& trials.len() >= MIN_TRIALS
                &&& row.variant == *variant
                &&& row.report.create == trimmed_mean(column(times_of(trials@), Phase::Create))
                &&& row.report.ordered == trimmed_mean(column(times_of(trials@), Phase::Ordered))
                &&& row.report.popall == trimmed_mean(column(times_of(trials@), Phase::PopAll))
            },
            Err(RunError::TooFewTrials(refusal)) => trials.len() < MIN_TRIALS && refusal.given
                == trials.len(),
            Err(RunError::Misplaced(_)) => false,
        },
{
    let times = trial_times(trials);
    match average_times(&times) {
        Ok(report) => Ok(Row { variant: *variant, report }),
        Err(refusal) => Err(RunError::TooFewTrials(refusal)),
    }
}

/// A whole run for one variant: its trials, and the row that is reported for
/// them.
pub fn evaluate(variant: &Variant, config: &Config) -> (outcome: Result<Row, RunError>)
    requires
        variant.valid(),
    ensures
        outcome matches Ok(row) && row.variant == *variant,
{
    match measure(variant, config) {
        Ok(trials) => summarize(variant, &trials),
        Err(violation) => Err(RunError::Misplaced(violation)),
    }
}

} // verus!
