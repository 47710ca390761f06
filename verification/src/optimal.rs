//! The resizable array of the `optarray` crate as an array under test.
//!
//! Verus does not look into the crate. What the harness relies on is written
//! down here, one declaration for each function of the crate that is called.

use crate::container::{item_at, scan_cursor, Container, Cursor, Violation, MAX_LEN};
use optarray::{OptArrayIter, OptimalArray};
use vstd::prelude::*;

verus! {

/// `optarray::OptimalArray`, an array of data blocks grouped in superblocks.
#[verifier::external_type_specification]
#[verifier::external_body]
#[verifier::reject_recursive_types(T)]
pub struct ExOptimalArray<T>(OptimalArray<T>);

/// `optarray::OptArrayIter`, the iterator that `OptimalArray::iter` returns:
/// a reference to the array and the index to read next.
#[verifier::external_type_specification]
#[verifier::external_body]
#[verifier::reject_recursive_types(T)]
pub struct ExOptimalIter<'a, T>(OptArrayIter<'a, T>);

/// The values that a resizable array holds, first to last.
pub uninterp spec fn optimal_contents(array: OptimalArray<usize>) -> Seq<usize>;

/// The values of the array that an iterator reads from.
pub uninterp spec fn optimal_iter_items(iter: OptArrayIter<'_, usize>) -> Seq<usize>;

/// The index that an iterator reads next. It starts at zero and goes up by
/// one with each call of `next`, also after the last value.
pub uninterp spec fn optimal_iter_position(iter: OptArrayIter<'_, usize>) -> nat;

/// `OptimalArray::new`. Assumed: the new array holds no value.
#[verifier::external_body]
fn optimal_new() -> (array: OptimalArray<usize>)
    ensures
        optimal_contents(array) == Seq::<usize>::empty(),
{
    OptimalArray::new()
}

/// `OptimalArray::push`. Assumed: `value` is put behind the last value and the
/// others stay. The harness relies on this below `MAX_LEN` values only.
#[verifier::external_body]
fn optimal_push(array: &mut OptimalArray<usize>, value: usize)
    requires
        optimal_contents(*old(array)).len() < MAX_LEN,
    ensures
        optimal_contents(*final(array)) == optimal_contents(*old(array)).push(value),
{
    array.push(value)
}

/// `OptimalArray::pop`. Assumed: the last value is taken out and returned and
/// the others stay; an array without values stays as it is and gives `None`.
#[verifier::external_body]
fn optimal_pop(array: &mut OptimalArray<usize>) -> (value: Option<usize>)
    ensures
        optimal_contents(*old(array)).len() == 0 ==> value.is_none() && optimal_contents(
            *final(array),
        ) == optimal_contents(*old(array)),
        optimal_contents(*old(array)).len() > 0 ==> value == Some(
            optimal_contents(*old(array)).last(),
        ) && optimal_contents(*final(array)) == optimal_contents(*old(array)).drop_last(),
{
    array.pop()
}

/// `OptimalArray::is_empty`. Assumed: true exactly when the array holds no
/// value.
#[verifier::external_body]
fn optimal_is_empty(array: &OptimalArray<usize>) -> (empty: bool)
    ensures
        empty == (optimal_contents(*array).len() == 0),
{
    array.is_empty()
}

/// `OptimalArray::iter`. Assumed: the iterator reads from the values of
/// `array` and starts at the first.
#[verifier::external_body]
fn optimal_iter(array: &OptimalArray<usize>) -> (iter: OptArrayIter<'_, usize>)
    ensures
        optimal_iter_items(iter) == optimal_contents(*array),
        optimal_iter_position(iter) == 0,
{
    array.iter()
}

/// `Iterator::next` of `OptArrayIter`. Assumed: it returns the value at the
/// iterator's index, `None` when the index is past the last value, and adds
/// one to the index in both cases. The addition overflows at `usize::MAX`.
#[verifier::external_body]
fn optimal_iter_next(iter: &mut OptArrayIter<'_, usize>) -> (item: Option<usize>)
    requires
        optimal_iter_position(*old(iter)) < usize::MAX,
    ensures
        optimal_iter_items(*final(iter)) == optimal_iter_items(*old(iter)),
        optimal_iter_position(*final(iter)) == optimal_iter_position(*old(iter)) + 1,
        item == item_at(optimal_iter_items(*old(iter)), optimal_iter_position(*old(iter))),
{
    iter.next().copied()
}

impl<'a> Cursor for OptArrayIter<'a, usize> {
    open spec fn items(&self) -> Seq<usize> {
        optimal_iter_items(*self)
    }

    open spec fn position(&self) -> nat {
        optimal_iter_position(*self)
    }

    fn advance(&mut self) -> (item: Option<usize>) {
        optimal_iter_next(self)
    }
}

impl Container for OptimalArray<usize> {
    open spec fn contents(&self) -> Seq<usize> {
        optimal_contents(*self)
    }

    open spec fn valid(&self) -> bool {
        optimal_contents(*self).len() <= MAX_LEN
    }

    open spec fn ready(&self) -> bool {
        true
    }

    open spec fn limit() -> nat {
        MAX_LEN as nat
    }

    proof fn lemma_limit() {
    }

    proof fn lemma_valid_len(&self) {
    }

    proof fn lemma_empty_is_ready(&self) {
    }

    fn new_empty() -> (array: Self) {
        optimal_new()
    }

    fn append(&mut self, value: usize) {
        optimal_push(self, value)
    }

    fn remove_last(&mut self) -> (value: Option<usize>) {
        optimal_pop(self)
    }

    fn is_empty(&self) -> (empty: bool) {
        optimal_is_empty(self)
    }

    fn scan(&self) -> (outcome: Result<usize, Violation>) {
        let mut cursor = optimal_iter(self);
        scan_cursor(&mut cursor)
    }
}

} // verus!
