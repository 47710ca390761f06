//! The three timed phases that every array goes through: create, ordered
//! scan, and drain.

use crate::clock::millis_since;
use crate::container::{in_order, scan_reports, Container, Violation};
use std::time::Instant;
use vstd::prelude::*;

verus! {

/// The time that each phase of one trial took, in whole milliseconds.
#[derive(Clone, Copy, Debug, PartialEq, Eq, Structural)]
pub struct Times {
    /// Appending the workload.
    pub create: u64,
    /// Reading it back in order.
    pub ordered: u64,
    /// Removing the last value until none is left.
    pub popall: u64,
}

/// What one trial did and how long it took.
#[derive(Clone, Copy, Debug, PartialEq, Eq, Structural)]
pub struct Trial {
    /// The time that each phase took.
    pub times: Times,
    /// The number of values that the scan read, each at its own index.
    pub scanned: usize,
    /// The number of values that the drain removed.
    pub removed: usize,
}

/// The workload of size `n`: the values `0, 1, .., n - 1` in this order.
pub open spec fn workload(n: nat) -> Seq<usize> {
    Seq::new(n, |i: int| i as usize)
}

/// The workload starts at zero and goes up by one from each value to the
/// next. Each value stands at its own index, so an ordered scan of the
/// workload finds nothing and counts all of it.
pub proof fn lemma_workload_in_order(n: nat)
    requires
        n <= usize::MAX,
    ensures
        workload(n).len() == n,
        n > 0 ==> workload(n)[0] == 0,
        forall|i: int| 0 < i < n ==> #[trigger] workload(n)[i] == workload(n)[i - 1] + 1,
        in_order(workload(n)),
        scan_reports(workload(n), Ok(n as usize)),
{
}

/// Create phase: appends the workload of the given size to `array`.
pub fn fill<C: Container>(array: &mut C, size: usize)
    requires
        old(array).valid(),
        old(array).ready(),
        old(array).contents().len() + size <= C::limit(),
    ensures
        final(array).valid(),
        final(array).ready(),
        final(array).contents() == old(array).contents() + workload(size as nat),
        final(array).contents().len() == old(array).contents().len() + size,
{
    for value in 0..size
        invariant
            array.valid(),
            array.ready(),
            old(array).contents().len() + size <= C::limit(),
            array.contents() == old(array).contents() + workload(value as nat),
    {
        array.append(value);
    }
}

/// Drain phase: removes the last value of `array` until it reports empty, and
/// returns how many values it removed.
pub fn drain<C: Container>(array: &mut C) -> (removed: usize)
    requires
        old(array).valid(),
    ensures
        final(array).valid(),
        final(array).ready(),
        final(array).contents().len() == 0,
        removed == old(array).contents().len(),
{
    proof {
        array.lemma_valid_len();
        C::lemma_limit();
    }
    let mut removed: usize = 0;
    while !array.is_empty()
        invariant
            array.valid(),
            removed + array.contents().len() == old(array).contents().len() <= usize::MAX,
        decreases array.contents().len(),
    {
        array.remove_last();
        removed = removed + 1;
    }
    proof {
        array.lemma_empty_is_ready();
    }
    removed
}

/// One trial: fills `array` with the workload of the given size, scans it,
/// and drains it, timing each phase.
///
/// The scan reads every value that the array holds after the filling, and
/// the drain removes as many. The scan fails when a value does not equal its
/// index. The trial ends there and the array keeps its values.
pub fn run_phases<C: Container>(array: &mut C, size: usize) -> (outcome: Result<Trial, Violation>)
    requires
        old(array).valid(),
        old(array).ready(),
        old(array).contents().len() + size <= C::limit(),
    ensures
        final(array).valid(),
        outcome.is_ok() == in_order(old(array).contents() + workload(size as nat)),
        outcome matches Ok(trial) ==> {
            &&& trial.scanned == old(array).contents().len() + size
            &&& trial.removed == trial.scanned
            &&& final(array).contents().len() == 0
            &&& final(array).ready()
        },
        outcome matches Err(violation) ==> {
            &&& scan_reports(old(array).contents() + workload(size as nat), Err(violation))
            &&& final(array).contents() == old(array).contents() + workload(size as nat)
            &&& final(array).ready()
        },
{
    let start = Instant::now();
    fill(array, size);
    let create = millis_since(&start);

    let start = Instant::now();
    let scan = array.scan();
    let ordered = millis_since(&start);
    match scan {
        Err(violation) => Err(violation),
        Ok(scanned) => {
            let start = Instant::now();
            let removed = drain(array);
            let popall = millis_since(&start);
            Ok(Trial { times: Times { create, ordered, popall }, scanned, removed })
        },
    }
}

/// The times of the given trials, in their order.
pub open spec fn times_of(trials: Seq<Trial>) -> Seq<Times> {
    Seq::new(trials.len(), |i: int| trials[i].times)
}

/// The times of the given trials, in their order.
pub fn trial_times(trials: &Vec<Trial>) -> (times: Vec<Times>)
    ensures
        times@ == times_of(trials@),
{
    let mut times: Vec<Times> = Vec::new();
    let mut index: usize = 0;
    while index < trials.len()
        invariant
            index <= trials.len(),
            times@ == times_of(trials@.take(index as int)),
        decreases trials.len() - index,
    {
        times.push(trials[index].times);
        index = index + 1;
    }
    times
}

} // verus!
