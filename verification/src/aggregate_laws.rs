//! What holds of the trimmed aggregator whatever the trial values are.

use crate::aggregate::{
    ascending, is_ascending, kept, leq, lemma_ascending_is_unique, total, trimmed_mean,
    DIVISOR_SHORTFALL, DROPPED_HIGH, DROPPED_LOW, MIN_TRIALS,
};
use vstd::prelude::*;
use vstd::relations::{sorted_by, total_ordering};
use vstd::seq_lib::{to_multiset_len, to_multiset_update};

verus! {

/// `ascending(s)` holds the values of `s`, each as often as `s` does, and no
/// value of it is followed by a smaller one.
pub proof fn lemma_ascending(s: Seq<u64>)
    ensures
        is_ascending(ascending(s)),
        ascending(s).to_multiset() == s.to_multiset(),
        ascending(s).len() == s.len(),
{
    assert(total_ordering(leq()));
    s.lemma_sort_by_ensures(leq());
    assert(sorted_by(ascending(s), leq()));
    assert forall|i: int, j: int| 0 <= i < j < ascending(s).len() implies ascending(s)[i]
        <= ascending(s)[j] by {
        assert(leq()(ascending(s)[i], ascending(s)[j]));
    }
    to_multiset_len(s);
    to_multiset_len(ascending(s));
}

/// Every value of `s` stands somewhere in `ascending(s)`, and the other way
/// round.
proof fn lemma_same_values(s: Seq<u64>)
    ensures
        forall|i: int| 0 <= i < s.len() ==> ascending(s).contains(#[trigger] s[i]),
        forall|i: int| 0 <= i < s.len() ==> s.contains(#[trigger] ascending(s)[i]),
{
    lemma_ascending(s);
    let a = ascending(s);
    assert forall|i: int| 0 <= i < s.len() implies a.contains(#[trigger] s[i]) by {
        assert(s.contains(s[i]));
        vstd::seq_lib::to_multiset_contains(s, s[i]);
        vstd::seq_lib::to_multiset_contains(a, s[i]);
    }
    assert forall|i: int| 0 <= i < s.len() implies s.contains(#[trigger] a[i]) by {
        assert(a.contains(a[i]));
        vstd::seq_lib::to_multiset_contains(s, a[i]);
        vstd::seq_lib::to_multiset_contains(a, a[i]);
    }
}

/// The aggregate depends on the values and on how often each occurs, not on
/// the order in which the trials produced them.
pub proof fn lemma_order_is_irrelevant(s: Seq<u64>, t: Seq<u64>)
    requires
        s.to_multiset() == t.to_multiset(),
    ensures
        trimmed_mean(s) == trimmed_mean(t),
{
    lemma_ascending(s);
    lemma_ascending(t);
    lemma_ascending_is_unique(s, ascending(t));
}

/// The value at `i` is a lowest value of `s`.
pub open spec fn is_lowest(s: Seq<u64>, i: int) -> bool {
    &&& 0 <= i < s.len()
    &&& forall|j: int| 0 <= j < s.len() ==> s[i] <= s[j]
}

/// The value at `i` is one of the two highest values of `s`: at most one
/// other place holds a larger one.
pub open spec fn is_among_two_highest(s: Seq<u64>, i: int) -> bool {
    &&& 0 <= i < s.len()
    &&& forall|j: int, k: int|
        0 <= j < k < s.len() && j != i && k != i ==> s[j] <= s[i] || s[k] <= s[i]
}

/// Making a lowest value lower still does not change the aggregate.
pub proof fn lemma_lowest_is_irrelevant(s: Seq<u64>, i: int, v: u64)
    requires
        s.len() >= MIN_TRIALS,
        is_lowest(s, i),
        v <= s[i],
    ensures
        trimmed_mean(s.update(i, v)) == trimmed_mean(s),
{
    let a = ascending(s);
    let changed = s.update(i, v);
    lemma_ascending(s);
    lemma_same_values(s);
    // The lowest value stands first in the ascending order.
    assert(a[0] == s[i]) by {
        assert(a.contains(s[i]));
        let at = choose|m: int| 0 <= m < a.len() && a[m] == s[i];
        assert(a[0] <= a[at]);
        assert(s.contains(a[0]));
        let back = choose|m: int| 0 <= m < s.len() && s[m] == a[0];
        assert(s[i] <= s[back]);
    }
    let b = a.update(0, v);
    assert(is_ascending(b)) by {
        assert forall|x: int, y: int| 0 <= x < y < b.len() implies b[x] <= b[y] by {
            if x == 0 {
                assert(a[0] <= a[y]);
            } else {
                assert(a[x] <= a[y]);
            }
        }
    }
    to_multiset_update(a, 0, v);
    to_multiset_update(s, i, v);
    lemma_ascending_is_unique(changed, b);
    assert(kept(changed) == kept(s));
}

/// A value that is one of the two highest is not below the value that stands
/// last but one in the ascending order.
proof fn lemma_two_highest_stand_last(s: Seq<u64>, i: int)
    requires
        s.len() >= 2,
        is_among_two_highest(s, i),
    ensures
        ascending(s)[s.len() - 2] <= s[i],
{
    let a = ascending(s);
    let n = s.len() as int;
    lemma_ascending(s);
    lemma_same_values(s);
    if a[n - 2] > s[i] {
        let x = a[n - 2];
        let y = a[n - 1];
        assert(x <= y);
        assert(s.contains(x));
        let j = choose|m: int| 0 <= m < s.len() && s[m] == x;
        // A second place of `s`, other than `j`, holds a value above `s[i]`.
        let rest = s.remove(j);
        let a_rest = a.remove(n - 2);
        vstd::seq_lib::to_multiset_remove(s, j);
        vstd::seq_lib::to_multiset_remove(a, n - 2);
        assert(rest.to_multiset() == a_rest.to_multiset());
        assert(a_rest[n - 2] == y);
        assert(a_rest.contains(y));
        vstd::seq_lib::to_multiset_contains(a_rest, y);
        vstd::seq_lib::to_multiset_contains(rest, y);
        assert(rest.contains(y));
        let m = choose|m: int| 0 <= m < rest.len() && rest[m] == y;
        let k = if m < j {
            m
        } else {
            m + 1
        };
        assert(s[k] == y);
        assert(k != j);
        assert(j != i && k != i);
        if j < k {
            assert(s[j] <= s[i] || s[k] <= s[i]);
        } else {
            assert(s[k] <= s[i] || s[j] <= s[i]);
        }
        assert(false);
    }
}

/// Making one of the two highest values higher still does not change the
/// aggregate.
pub proof fn lemma_highest_is_irrelevant(s: Seq<u64>, i: int, v: u64)
    requires
        s.len() >= MIN_TRIALS,
        is_among_two_highest(s, i),
        v >= s[i],
    ensures
        trimmed_mean(s.update(i, v)) == trimmed_mean(s),
{
    let a = ascending(s);
    let n = s.len() as int;
    let changed = s.update(i, v);
    lemma_ascending(s);
    lemma_same_values(s);
    lemma_two_highest_stand_last(s, i);
    // One of the last two places of the ascending order holds `s[i]`.
    assert(a.contains(s[i]));
    let at = choose|m: int| 0 <= m < a.len() && a[m] == s[i];
    let p = if a[n - 1] == s[i] {
        n - 1
    } else {
        n - 2
    };
    assert(a[p] == s[i]) by {
        if a[n - 1] != s[i] {
            assert(at <= n - 2);
            if at < n - 2 {
                assert(a[at] <= a[n - 2]);
            }
        }
    }
    // The ascending order of the changed values.
    let b = if p == n - 1 || v <= a[n - 1] {
        a.update(p, v)
    } else {
        a.update(n - 2, a[n - 1]).update(n - 1, v)
    };
    assert(is_ascending(b)) by {
        assert forall|x: int, y: int| 0 <= x < y < b.len() implies b[x] <= b[y] by {
            assert(a[x] <= a[y]);
            if x < p {
                assert(a[x] <= a[p]);
            }
            if y < n - 1 {
                assert(a[y] <= a[n - 1]);
            }
        }
    }
    assert(b.to_multiset() == changed.to_multiset()) by {
        to_multiset_update(s, i, v);
        to_multiset_update(a, p, v);
        if !(p == n - 1 || v <= a[n - 1]) {
            let mid = a.update(n - 2, a[n - 1]);
            to_multiset_update(a, n - 2, a[n - 1]);
            to_multiset_update(mid, n - 1, v);
            assert(mid[n - 1] == a[n - 1]);
            assert(b.to_multiset() =~= a.to_multiset().insert(v).remove(a[p]));
        }
    }
    lemma_ascending_is_unique(changed, b);
    assert(kept(changed) == kept(s));
}

/// The values at `first` and `second` are the two highest values of `s`: no
/// other place holds a larger value than either.
pub open spec fn are_two_highest(s: Seq<u64>, first: int, second: int) -> bool {
    &&& 0 <= first < s.len()
    &&& 0 <= second < s.len()
    &&& first != second
    &&& forall|j: int|
        0 <= j < s.len() && j != first && j != second ==> s[j] <= s[first] && s[j] <= s[second]
}

/// The aggregate does not feel the extremes: when the lowest value is made
/// lower and the two highest are made higher, all at once and by any amount,
/// it stays what it was.
pub proof fn lemma_extremes_are_irrelevant(
    s: Seq<u64>,
    lowest: int,
    first: int,
    second: int,
    lower: u64,
    higher_first: u64,
    higher_second: u64,
)
    requires
        s.len() >= MIN_TRIALS,
        is_lowest(s, lowest),
        are_two_highest(s, first, second),
        lowest != first,
        lowest != second,
        lower <= s[lowest],
        higher_first >= s[first],
        higher_second >= s[second],
    ensures
        trimmed_mean(
            s.update(lowest, lower).update(first, higher_first).update(second, higher_second),
        ) == trimmed_mean(s),
{
    let s1 = s.update(lowest, lower);
    lemma_lowest_is_irrelevant(s, lowest, lower);
    assert(is_among_two_highest(s1, first)) by {
        assert forall|j: int, k: int|
            0 <= j < k < s1.len() && j != first && k != first implies s1[j] <= s1[first] || s1[k]
            <= s1[first] by {
            if j != second {
                assert(s1[j] <= s[j]);
            } else {
                assert(s1[k] <= s[k]);
            }
        }
    }
    let s2 = s1.update(first, higher_first);
    lemma_highest_is_irrelevant(s1, first, higher_first);
    assert(is_among_two_highest(s2, second)) by {
        assert forall|j: int, k: int|
            0 <= j < k < s2.len() && j != second && k != second implies s2[j] <= s2[second]
            || s2[k] <= s2[second] by {
            if j != first {
                assert(s2[j] <= s[j]);
            } else {
                assert(s2[k] <= s[k]);
            }
        }
    }
    lemma_highest_is_irrelevant(s2, second, higher_second);
}

/// The values that count are three fewer than the values, and the divisor is
/// one more than their number.
pub proof fn lemma_kept_count(s: Seq<u64>)
    requires
        s.len() >= MIN_TRIALS,
    ensures
        kept(s).len() == s.len() - DROPPED_LOW - DROPPED_HIGH,
        s.len() - DIVISOR_SHORTFALL == kept(s).len() + 1,
        forall|i: int| 0 <= i < kept(s).len() ==> kept(s)[i] == ascending(s)[i + DROPPED_LOW],
{
    lemma_ascending(s);
}

/// Of seven trial values, the second to the fifth in ascending order are
/// summed, and the sum is divided by five.
pub proof fn lemma_seven_trials(s: Seq<u64>)
    requires
        s.len() == 7,
    ensures
        kept(s).len() == 4,
        trimmed_mean(s) == (ascending(s)[1] + ascending(s)[2] + ascending(s)[3] + ascending(
            s,
        )[4]) / 5,
{
    lemma_ascending(s);
    let a = ascending(s);
    let k = kept(s);
    assert(k.len() == 4);
    let k3 = k.drop_last();
    let k2 = k3.drop_last();
    let k1 = k2.drop_last();
    let k0 = k1.drop_last();
    assert(total(k0) == 0);
    assert(total(k1) == a[1]);
    assert(total(k2) == a[1] + a[2]);
    assert(total(k3) == a[1] + a[2] + a[3]);
    assert(total(k) == a[1] + a[2] + a[3] + a[4]);
}

/// The aggregate of at least `MIN_TRIALS` values is not above the highest
/// value that counts, so it fits the type of the values.
pub proof fn lemma_mean_is_bounded(s: Seq<u64>)
    requires
        s.len() >= MIN_TRIALS,
    ensures
        trimmed_mean(s) <= ascending(s)[s.len() - DROPPED_HIGH - 1],
        trimmed_mean(s) <= u64::MAX,
{
    lemma_ascending(s);
    let a = ascending(s);
    let k = kept(s);
    let top = a[s.len() - DROPPED_HIGH - 1];
    assert forall|j: int| 0 <= j < k.len() implies k[j] <= top by {
        if j + DROPPED_LOW < s.len() - DROPPED_HIGH - 1 {
            assert(a[j + DROPPED_LOW] <= a[s.len() - DROPPED_HIGH - 1]);
        }
    }
    lemma_total_is_bounded(k, top);
    let d = (s.len() - DIVISOR_SHORTFALL) as int;
    let t = total(k) as int;
    assert(t / d <= top) by (nonlinear_arith)
        requires
            0 <= t <= (d - 1) * top,
            d >= 2,
            top >= 0,
    ;
}

/// The sum of values that are all at most `bound` is at most their number
/// times `bound`.
pub proof fn lemma_total_is_bounded(s: Seq<u64>, bound: u64)
    requires
        forall|j: int| 0 <= j < s.len() ==> s[j] <= bound,
    ensures
        total(s) <= s.len() * bound,
    decreases s.len(),
{
    if s.len() > 0 {
        lemma_total_is_bounded(s.drop_last(), bound);
        assert(s.drop_last().len() * bound + bound == s.len() * bound) by (nonlinear_arith)
            requires
                s.drop_last().len() + 1 == s.len(),
        ;
    } else {
        assert(s.len() * bound == 0) by (nonlinear_arith)
            requires
                s.len() == 0,
        ;
    }
}

} // verus!
