//! The trimmed aggregator: one representative value for a column of trial
//! timings, with the extremes left out.

use vstd::prelude::*;
use vstd::relations::{sorted_by, total_ordering};
use vstd::seq_lib::{lemma_sorted_unique, to_multiset_len};

verus! {

/// How many of the smallest values are left out of the sum.
pub const DROPPED_LOW: usize = 1;

/// How many of the largest values are left out of the sum.
pub const DROPPED_HIGH: usize = 2;

/// The sum of the kept values is divided by the number of values less this.
///
/// It is one less than the number of values that are dropped, so the divisor
/// is one more than the number of values in the sum, and the result is a
/// little lower than their mean. The number has a name of its own so that
/// this stays in plain sight.
pub const DIVISOR_SHORTFALL: usize = 2;

/// The smallest number of values that can be aggregated.
pub const MIN_TRIALS: usize = 4;

/// The order by which trial values are sorted.
pub open spec fn leq() -> spec_fn(u64, u64) -> bool {
    |a: u64, b: u64| a <= b
}

/// No value is followed by a smaller one.
pub open spec fn is_ascending(s: Seq<u64>) -> bool {
    forall|i: int, j: int| 0 <= i < j < s.len() ==> s[i] <= s[j]
}

/// The values of `s` in ascending order.
pub open spec fn ascending(s: Seq<u64>) -> Seq<u64> {
    s.sort_by(leq())
}

/// The sum of the values of `s`.
pub open spec fn total(s: Seq<u64>) -> nat
    decreases s.len(),
{
    if s.len() == 0 {
        0
    } else {
        total(s.drop_last()) + s.last() as nat
    }
}

/// The values that count: `s` in ascending order, without the lowest
/// `DROPPED_LOW` and the highest `DROPPED_HIGH`.
pub open spec fn kept(s: Seq<u64>) -> Seq<u64> {
    ascending(s).subrange(DROPPED_LOW as int, s.len() - DROPPED_HIGH)
}

/// The aggregate of a column of at least `MIN_TRIALS` values.
pub open spec fn trimmed_mean(s: Seq<u64>) -> nat {
    total(kept(s)) / ((s.len() - DIVISOR_SHORTFALL) as nat)
}

/// `ascending(s)` is the one ascending arrangement of the values of `s`.
pub proof fn lemma_ascending_is_unique(s: Seq<u64>, t: Seq<u64>)
    requires
        is_ascending(t),
        t.to_multiset() == s.to_multiset(),
    ensures
        t == ascending(s),
        t.len() == s.len(),
{
    assert(total_ordering(leq()));
    s.lemma_sort_by_ensures(leq());
    assert(sorted_by(t, leq()));
    lemma_sorted_unique(t, ascending(s), leq());
    to_multiset_len(s);
    to_multiset_len(t);
}

/// Sorts in place with `<[u64]>::sort` of the standard library, which is
/// documented to leave the slice in ascending order. Assumed: afterwards the
/// vector holds the values it held before, each as often as before, and none
/// is followed by a smaller one.
#[verifier::external_body]
fn sort_ascending(values: &mut Vec<u64>)
    ensures
        final(values)@.to_multiset() == old(values)@.to_multiset(),
        is_ascending(final(values)@),
{
    values.sort();
}

/// Why a column cannot be aggregated: it holds fewer than `MIN_TRIALS` values.
#[derive(Clone, Copy, Debug, PartialEq, Eq, Structural)]
pub struct TooFewValues {
    /// The number of values that the column holds.
    pub given: usize,
}

/// Drops the lowest and the two highest of `times`, and divides the sum of
/// the others by the number of values less two. A column of fewer than
/// `MIN_TRIALS` values is refused, whatever it holds.
pub fn compute_average(times: Vec<u64>) -> (outcome: Result<u64, TooFewValues>)
    ensures
        match outcome {
            Ok(average) => times.len() >= MIN_TRIALS && average == trimmed_mean(times@),
            Err(refusal) => times.len() < MIN_TRIALS && refusal.given == times.len(),
        },
{
    let count: usize = times.len();
    if count < MIN_TRIALS {
        return Err(TooFewValues { given: count });
    }
    let ghost given = times@;
    let mut sorted = times;
    sort_ascending(&mut sorted);
    proof {
        lemma_ascending_is_unique(given, sorted@);
    }
    let end: usize = count - DROPPED_HIGH;
    let mut sum: u128 = 0;
    let mut index: usize = DROPPED_LOW;
    while index < end
        invariant
            DROPPED_LOW <= index <= end,
            end == count - DROPPED_HIGH,
            count == sorted.len(),
            sum == total(sorted@.subrange(DROPPED_LOW as int, index as int)),
            sum <= (index - DROPPED_LOW) * u64::MAX,
        decreases end - index,
    {
        proof {
            let next = sorted@.subrange(DROPPED_LOW as int, index + 1);
            assert(next.drop_last() == sorted@.subrange(DROPPED_LOW as int, index as int));
        }
        sum = sum + sorted[index] as u128;
        index = index + 1;
    }
    let divisor: u128 = (count - DIVISOR_SHORTFALL) as u128;
    assert(sum / divisor <= u64::MAX) by (nonlinear_arith)
        requires
            sum <= (divisor - 1) * u64::MAX,
            divisor >= 2,
    ;
    Ok((sum / divisor) as u64)
}

} // verus!
