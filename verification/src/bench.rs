//! One trial for each array under test, and the runs of several trials.

use crate::container::{in_order, scan_reports, Container, Violation, MAX_LEN};
use crate::phases::{lemma_workload_in_order, run_phases, workload, Trial};
use vstd::prelude::*;

verus! {

/// One trial on an array that is made for it: the scan reads `size` values
/// and the drain removes `size` values.
pub fn benchmark_fresh<C: Container>(size: usize) -> (outcome: Result<Trial, Violation>)
    requires
        size <= C::limit(),
    ensures
        outcome matches Ok(trial) && trial.scanned == size && trial.removed == size,
{
    let mut array = C::new_empty();
    proof {
        lemma_workload_in_order(size as nat);
    }
    run_phases(&mut array, size)
}

/// One trial on a `Vec` of the standard library.
pub fn benchmark_vector(size: usize) -> (outcome: Result<Trial, Violation>)
    ensures
        outcome matches Ok(trial) && trial.scanned == size && trial.removed == size,
{
    benchmark_fresh::<Vec<usize>>(size)
}

/// One trial on a segment array.
pub fn benchmark_segarray(size: usize) -> (outcome: Result<Trial, Violation>)
    requires
        size <= MAX_LEN,
    ensures
        outcome matches Ok(trial) && trial.scanned == size && trial.removed == size,
{
    benchmark_fresh::<segment_array::SegmentArray<usize>>(size)
}

/// One trial on a resizable array of the `optarray` crate.
pub fn benchmark_optarray(size: usize) -> (outcome: Result<Trial, Violation>)
    requires
        size <= MAX_LEN,
    ensures
        outcome matches Ok(trial) && trial.scanned == size && trial.removed == size,
{
    benchmark_fresh::<optarray::OptimalArray<usize>>(size)
}

/// One trial on an extensible array.
pub fn benchmark_extarray(size: usize) -> (outcome: Result<Trial, Violation>)
    requires
        size <= MAX_LEN,
    ensures
        outcome matches Ok(trial) && trial.scanned == size && trial.removed == size,
{
    benchmark_fresh::<extarray::ExtensibleArray<usize>>(size)
}

/// One trial on the given general resizable array, which may have served
/// earlier trials.
pub fn benchmark_general_tarjan(
    coll: &mut tzarrays::general::OptimalArray<usize>,
    size: usize,
) -> (outcome: Result<Trial, Violation>)
    requires
        old(coll).valid(),
        old(coll).contents().len() + size <= MAX_LEN,
    ensures
        final(coll).valid(),
        outcome.is_ok() == in_order(old(coll).contents() + workload(size as nat)),
        outcome matches Ok(trial) ==> {
            &&& trial.scanned == old(coll).contents().len() + size
            &&& trial.removed == trial.scanned
            &&& final(coll).contents().len() == 0
        },
        outcome matches Err(violation) ==> {
            &&& scan_reports(old(coll).contents() + workload(size as nat), Err(violation))
            &&& final(coll).contents() == old(coll).contents() + workload(size as nat)
        },
{
    run_phases(coll, size)
}

/// One trial on the given simple resizable array, which may have served
/// earlier trials. The array has to be ready, as it is when it is new, after
/// an append, and when it holds no value.
pub fn benchmark_simple_tarjan(
    coll: &mut tzarrays::simple::OptimalArray<usize>,
    size: usize,
) -> (outcome: Result<Trial, Violation>)
    requires
        old(coll).valid(),
        old(coll).ready(),
        old(coll).contents().len() + size <= MAX_LEN,
    ensures
        final(coll).valid(),
        final(coll).ready(),
        outcome.is_ok() == in_order(old(coll).contents() + workload(size as nat)),
        outcome matches Ok(trial) ==> {
            &&& trial.scanned == old(coll).contents().len() + size
            &&& trial.removed == trial.scanned
            &&& final(coll).contents().len() == 0
        },
        outcome matches Err(violation) ==> {
            &&& scan_reports(old(coll).contents() + workload(size as nat), Err(violation))
            &&& final(coll).contents() == old(coll).contents() + workload(size as nat)
        },
{
    run_phases(coll, size)
}

/// The given number of trials, each on an array of its own. Every trial
/// reads `size` values and removes `size` values.
pub fn run_fresh_trials<C: Container>(size: usize, count: usize) -> (outcome: Result<
    Vec<Trial>,
    Violation,
>)
    requires
        size <= C::limit(),
    ensures
        outcome matches Ok(trials) && trials.len() == count && forall|i: int|
            0 <= i < trials.len() ==> (#[trigger] trials[i]).scanned == size && trials[i].removed
                == size,
{
    let mut trials: Vec<Trial> = Vec::new();
    for done in 0..count
        invariant
            size <= C::limit(),
            trials.len() == done,
            forall|i: int|
                0 <= i < trials.len() ==> (#[trigger] trials[i]).scanned == size
                    && trials[i].removed == size,
    {
        match benchmark_fresh::<C>(size) {
            Ok(trial) => trials.push(trial),
            Err(violation) => {
                return Err(violation);
            },
        }
    }
    Ok(trials)
}

/// The number of values that trial `i` of a run reads and removes, when the
/// array held `held` values at the start of the run: the first trial finds
/// them, every later one finds the array empty.
pub open spec fn trial_load(held: nat, size: usize, i: int) -> int {
    if i == 0 {
        held + size
    } else {
        size as int
    }
}

/// The given number of trials, one after the other on the given array.
///
/// The first trial finds the array as the caller hands it over, and every
/// later one finds it empty. A trial whose scan fails ends the run.
pub fn run_trials<C: Container>(array: &mut C, size: usize, count: usize) -> (outcome: Result<
    Vec<Trial>,
    Violation,
>)
    requires
        old(array).valid(),
        old(array).ready(),
        old(array).contents().len() + size <= C::limit(),
    ensures
        final(array).valid(),
        final(array).ready(),
        count == 0 ==> outcome.is_ok() && final(array).contents() == old(array).contents(),
        count > 0 ==> outcome.is_ok() == in_order(old(array).contents() + workload(size as nat)),
        count > 0 && outcome.is_ok() ==> final(array).contents().len() == 0,
        outcome matches Ok(trials) ==> trials.len() == count && forall|i: int|
            0 <= i < trials.len() ==> (#[trigger] trials[i]).scanned == trial_load(
                old(array).contents().len(),
                size,
                i,
            ) && trials[i].removed == trials[i].scanned,
        outcome matches Err(violation) ==> {
            &&& scan_reports(old(array).contents() + workload(size as nat), Err(violation))
            &&& final(array).contents() == old(array).contents() + workload(size as nat)
        },
{
    let mut trials: Vec<Trial> = Vec::new();
    for done in 0..count
        invariant
            array.valid(),
            array.ready(),
            old(array).contents().len() + size <= C::limit(),
            trials.len() == done,
            done == 0 ==> array.contents() == old(array).contents(),
            done > 0 ==> array.contents().len() == 0 && in_order(
                old(array).contents() + workload(size as nat),
            ),
            forall|i: int|
                0 <= i < trials.len() ==> (#[trigger] trials[i]).scanned == trial_load(
                    old(array).contents().len(),
                    size,
                    i,
                ) && trials[i].removed == trials[i].scanned,
    {
        proof {
            if done > 0 {
                lemma_workload_in_order(size as nat);
            }
        }
        match run_phases(array, size) {
            Ok(trial) => trials.push(trial),
            Err(violation) => {
                return Err(violation);
            },
        }
    }
    Ok(trials)
}

} // verus!
