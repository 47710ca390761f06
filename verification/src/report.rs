//! From the timings of the trials to the row that is reported for an array.

use crate::aggregate::{compute_average, trimmed_mean, TooFewValues, MIN_TRIALS};
use crate::phases::Times;
use vstd::prelude::*;
use vstd::string::StringExecFns;

verus! {

/// One of the three timed phases.
#[derive(Clone, Copy, Debug, PartialEq, Eq, Structural)]
pub enum Phase {
    /// Appending the workload.
    Create,
    /// Reading it back in order.
    Ordered,
    /// Removing the last value until none is left.
    PopAll,
}

impl Times {
    /// The time that the given phase took.
    pub open spec fn spec_of(&self, phase: Phase) -> u64 {
        match phase {
            Phase::Create => self.create,
            Phase::Ordered => self.ordered,
            Phase::PopAll => self.popall,
        }
    }

    /// The time that the given phase took.
    #[verifier::when_used_as_spec(spec_of)]
    pub fn of(&self, phase: Phase) -> (millis: u64)
        ensures
            millis == self.spec_of(phase),
    {
        match phase {
            Phase::Create => self.create,
            Phase::Ordered => self.ordered,
            Phase::PopAll => self.popall,
        }
    }
}

/// The times of one phase over all trials, in the order of the trials.
pub open spec fn column(times: Seq<Times>, phase: Phase) -> Seq<u64> {
    Seq::new(times.len(), |i: int| times[i].of(phase))
}

/// The times of one phase over all trials, in the order of the trials.
pub fn phase_column(times: &Vec<Times>, phase: Phase) -> (values: Vec<u64>)
    ensures
        values@ == column(times@, phase),
{
    let mut values: Vec<u64> = Vec::new();
    let mut index: usize = 0;
    while index < times.len()
        invariant
            index <= times.len(),
            values@ == column(times@.take(index as int), phase),
        decreases times.len() - index,
    {
        values.push(times[index].of(phase));
        index = index + 1;
    }
    values
}

/// The aggregated time of each phase for one array, in whole milliseconds.
#[derive(Clone, Copy, Debug, PartialEq, Eq, Structural)]
pub struct Report {
    /// Appending the workload.
    pub create: u64,
    /// Reading it back in order.
    pub ordered: u64,
    /// Removing the last value until none is left.
    pub popall: u64,
}

/// The row that is reported for the given trials: the trimmed mean of each
/// phase. Fewer than `MIN_TRIALS` trials are refused.
pub fn average_times(times: &Vec<Times>) -> (outcome: Result<Report, TooFewValues>)
    ensures
        match outcome {
            Ok(report) => {
                &&& times.len() >= MIN_TRIALS
                &&& report.create == trimmed_mean(column(times@, Phase::Create))
                &&& report.ordered == trimmed_mean(column(times@, Phase::Ordered))
                &&& report.popall == trimmed_mean(column(times@, Phase::PopAll))
            },
            Err(refusal) => times.len() < MIN_TRIALS && refusal.given == times.len(),
        },
{
    let create = match compute_average(phase_column(times, Phase::Create)) {
        Ok(average) => average,
        Err(refusal) => {
            return Err(refusal);
        },
    };
    let ordered = match compute_average(phase_column(times, Phase::Ordered)) {
        Ok(average) => average,
        Err(refusal) => {
            return Err(refusal);
        },
    };
    let popall = match compute_average(phase_column(times, Phase::PopAll)) {
        Ok(average) => average,
        Err(refusal) => {
            return Err(refusal);
        },
    };
    Ok(Report { create, ordered, popall })
}

/// The character for a digit.
pub open spec fn digit(d: nat) -> char {
    if d == 0 {
        '0'
    } else if d == 1 {
        '1'
    } else if d == 2 {
        '2'
    } else if d == 3 {
        '3'
    } else if d == 4 {
        '4'
    } else if d == 5 {
        '5'
    } else if d == 6 {
        '6'
    } else if d == 7 {
        '7'
    } else if d == 8 {
        '8'
    } else {
        '9'
    }
}

/// A number in decimal digits, without leading zeros.
pub open spec fn decimal(n: nat) -> Seq<char>
    decreases n,
{
    if n < 10 {
        seq![digit(n)]
    } else {
        decimal(n / 10).push(digit(n % 10))
    }
}

/// The text for a digit.
fn digit_text(d: u64) -> (text: &'static str)
    requires
        d < 10,
    ensures
        text@ == seq![digit(d as nat)],
{
    proof {
        reveal_strlit("0");
        reveal_strlit("1");
        reveal_strlit("2");
        reveal_strlit("3");
        reveal_strlit("4");
        reveal_strlit("5");
        reveal_strlit("6");
        reveal_strlit("7");
        reveal_strlit("8");
        reveal_strlit("9");
    }
    if d == 0 {
        "0"
    } else if d == 1 {
        "1"
    } else if d == 2 {
        "2"
    } else if d == 3 {
        "3"
    } else if d == 4 {
        "4"
    } else if d == 5 {
        "5"
    } else if d == 6 {
        "6"
    } else if d == 7 {
        "7"
    } else if d == 8 {
        "8"
    } else {
        "9"
    }
}

/// Writes `n` in decimal digits behind what `out` holds.
pub fn append_decimal(out: &mut String, n: u64)
    ensures
        final(out)@ == old(out)@ + decimal(n as nat),
    decreases n,
{
    if n >= 10 {
        append_decimal(out, n / 10);
    }
    out.append(digit_text(n % 10));
}

/// The text of a report row.
pub open spec fn report_line(report: Report) -> Seq<char> {
    "create: "@ + decimal(report.create as nat) + ", ordered: "@ + decimal(report.ordered as nat)
        + ", pop-all: "@ + decimal(report.popall as nat)
}

impl Report {
    /// The row as it is printed: the three times with their labels, in the
    /// order create, ordered, pop-all.
    pub fn line(&self) -> (text: String)
        ensures
            text@ == report_line(*self),
    {
        let mut text = String::from_str("create: ");
        append_decimal(&mut text, self.create);
        text.append(", ordered: ");
        append_decimal(&mut text, self.ordered);
        text.append(", pop-all: ");
        append_decimal(&mut text, self.popall);
        text
    }
}

} // verus!
