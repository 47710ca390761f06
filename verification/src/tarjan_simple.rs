//! The simple resizable array of the `tzarrays` crate as an array under test.
//!
//! Verus does not look into the crate. What the harness relies on is written
//! down here, one declaration for each function of the crate that is called.

use crate::container::{item_at, scan_cursor, Container, Cursor, Violation, MAX_LEN};
use tzarrays::simple::{OptArrayIter, OptimalArray};
use vstd::prelude::*;

verus! {

/// `tzarrays::simple::OptimalArray`, an array of small and large blocks.
#[verifier::external_type_specification]
#[verifier::external_body]
#[verifier::reject_recursive_types(T)]
pub struct ExSimpleArray<T>(OptimalArray<T>);

/// `tzarrays::simple::OptArrayIter`, the iterator that `OptimalArray::iter`
/// returns: a reference to the array and the index to read next.
#[verifier::external_type_specification]
#[verifier::external_body]
#[verifier::reject_recursive_types(T)]
pub struct ExSimpleIter<'a, T>(OptArrayIter<'a, T>);

/// The values that a simple resizable array holds, first to last.
pub uninterp spec fn simple_contents(array: OptimalArray<usize>) -> Seq<usize>;

/// The array puts the next value where it will read it. The crate writes a
/// new value by its block counters and reads by the index. The two agree when
/// the array keeps no spare block, and when it keeps one and the count for the
/// block before it stands at the block size. By the crate's fields:
/// `empty == 0 || (n1 > 0 && n0 == 1 << little_b)`.
pub uninterp spec fn simple_ready(array: OptimalArray<usize>) -> bool;

/// The values of the array that an iterator reads from.
pub uninterp spec fn simple_iter_items(iter: OptArrayIter<'_, usize>) -> Seq<usize>;

/// The index that an iterator reads next. It starts at zero and goes up by
/// one with each call of `next`, also after the last value.
pub uninterp spec fn simple_iter_position(iter: OptArrayIter<'_, usize>) -> nat;

/// `OptimalArray::new`. Assumed: the new array holds no value and keeps no
/// spare block, so it is ready.
#[verifier::external_body]
fn simple_new() -> (array: OptimalArray<usize>)
    ensures
        simple_contents(array) == Seq::<usize>::empty(),
        simple_ready(array),
{
    OptimalArray::new()
}

/// `OptimalArray::push`. Assumed of a ready array: `value` is put behind the
/// last value, the others stay, and the array is ready again, as `push` keeps
/// no spare block. On an array that is not ready the crate writes into the
/// spare block, or panics when there is none. The crate rebuilds the array
/// when its length reaches a power of two that it computes by a shift; the
/// harness relies on `push` below `MAX_LEN` values only, where the shift stays
/// in range.
#[verifier::external_body]
fn simple_push(array: &mut OptimalArray<usize>, value: usize)
    requires
        simple_ready(*old(array)),
        simple_contents(*old(array)).len() < MAX_LEN,
    ensures
        simple_contents(*final(array)) == simple_contents(*old(array)).push(value),
        simple_ready(*final(array)),
{
    array.push(value)
}

/// `OptimalArray::pop`. Assumed: the last value is taken out and returned and
/// the others stay; an array without values stays as it is and gives `None`.
/// An array that is left without values is ready: it keeps no spare block, or
/// its one block is the spare one and counts as full.
#[verifier::external_body]
fn simple_pop(array: &mut OptimalArray<usize>) -> (value: Option<usize>)
    ensures
        simple_contents(*final(array)).len() == 0 ==> simple_ready(*final(array)),
        simple_contents(*old(array)).len() == 0 ==> value.is_none() && simple_contents(
            *final(array),
        ) == simple_contents(*old(array)),
        simple_contents(*old(array)).len() > 0 ==> value == Some(
            simple_contents(*old(array)).last(),
        ) && simple_contents(*final(array)) == simple_contents(*old(array)).drop_last(),
{
    array.pop()
}

/// `OptimalArray::is_empty`. Assumed: true exactly when the array holds no
/// value.
#[verifier::external_body]
fn simple_is_empty(array: &OptimalArray<usize>) -> (empty: bool)
    ensures
        empty == (simple_contents(*array).len() == 0),
{
    array.is_empty()
}

/// `OptimalArray::iter`. Assumed: the iterator reads from the values of
/// `array` and starts at the first.
#[verifier::external_body]
fn simple_iter(array: &OptimalArray<usize>) -> (iter: OptArrayIter<'_, usize>)
    ensures
        simple_iter_items(iter) == simple_contents(*array),
        simple_iter_position(iter) == 0,
{
    array.iter()
}

/// `Iterator::next` of `OptArrayIter`. Assumed: it returns the value at the
/// iterator's index, `None` when the index is past the last value, and adds
/// one to the index in both cases. The addition overflows at `usize::MAX`.
#[verifier::external_body]
fn simple_iter_next(iter: &mut OptArrayIter<'_, usize>) -> (item: Option<usize>)
    requires
        simple_iter_position(*old(iter)) < usize::MAX,
    ensures
        simple_iter_items(*final(iter)) == simple_iter_items(*old(iter)),
        simple_iter_position(*final(iter)) == simple_iter_position(*old(iter)) + 1,
        item == item_at(simple_iter_items(*old(iter)), simple_iter_position(*old(iter))),
{
    iter.next().copied()
}

impl<'a> Cursor for OptArrayIter<'a, usize> {
    open spec fn items(&self) -> Seq<usize> {
        simple_iter_items(*self)
    }

    open spec fn position(&self) -> nat {
        simple_iter_position(*self)
    }

    fn advance(&mut self) -> (item: Option<usize>) {
        simple_iter_next(self)
    }
}

impl Container for OptimalArray<usize> {
    open spec fn contents(&self) -> Seq<usize> {
        simple_contents(*self)
    }

    open spec fn valid(&self) -> bool {
        &&& simple_contents(*self).len() <= MAX_LEN
        &&& simple_contents(*self).len() == 0 ==> simple_ready(*self)
    }

    open spec fn ready(&self) -> bool {
        simple_ready(*self)
    }

    open spec fn limit() -> nat {
        MAX_LEN as nat
    }

    proof fn lemma_limit() {
    }

    proof fn lemma_valid_len(&self) {
    }

    proof fn lemma_empty_is_ready(&self) {
    }

    fn new_empty() -> (array: Self) {
        simple_new()
    }

    fn append(&mut self, value: usize) {
        simple_push(self, value)
    }

    fn remove_last(&mut self) -> (value: Option<usize>) {
        simple_pop(self)
    }

    fn is_empty(&self) -> (empty: bool) {
        simple_is_empty(self)
    }

    fn scan(&self) -> (outcome: Result<usize, Violation>) {
        let mut cursor = simple_iter(self);
        scan_cursor(&mut cursor)
    }
}

} // verus!
