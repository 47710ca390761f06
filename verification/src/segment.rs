//! The segment array of the `segment_array` crate as an array under test.
//!
//! Verus does not look into the crate. What the harness relies on is written
//! down here, one declaration for each function of the crate that is called.

use crate::container::{item_at, scan_cursor, Container, Cursor, Violation, MAX_LEN};
use segment_array::{SegArrayIter, SegmentArray};
use vstd::prelude::*;

verus! {

/// `segment_array::SegmentArray`, an array that grows by whole segments.
#[verifier::external_type_specification]
#[verifier::external_body]
#[verifier::reject_recursive_types(T)]
pub struct ExSegmentArray<T>(SegmentArray<T>);

/// `segment_array::SegArrayIter`, the iterator that `SegmentArray::iter`
/// returns: a reference to the array and the index to read next.
#[verifier::external_type_specification]
#[verifier::external_body]
#[verifier::reject_recursive_types(T)]
pub struct ExSegArrayIter<'a, T>(SegArrayIter<'a, T>);

/// The values that a segment array holds, first to last.
pub uninterp spec fn segment_contents(array: SegmentArray<usize>) -> Seq<usize>;

/// The values of the array that an iterator reads from.
pub uninterp spec fn segment_iter_items(iter: SegArrayIter<'_, usize>) -> Seq<usize>;

/// The index that an iterator reads next. It starts at zero and goes up by
/// one with each call of `next`, also after the last value.
pub uninterp spec fn segment_iter_position(iter: SegArrayIter<'_, usize>) -> nat;

/// `SegmentArray::new`. Assumed: the new array holds no value.
#[verifier::external_body]
fn segment_new() -> (array: SegmentArray<usize>)
    ensures
        segment_contents(array) == Seq::<usize>::empty(),
{
    SegmentArray::new()
}

/// `SegmentArray::push`. Assumed: `value` is put behind the last value and the
/// others stay. The crate panics when all its segments are full, which is at
/// `MAX_LEN` values.
#[verifier::external_body]
fn segment_push(array: &mut SegmentArray<usize>, value: usize)
    requires
        segment_contents(*old(array)).len() < MAX_LEN,
    ensures
        segment_contents(*final(array)) == segment_contents(*old(array)).push(value),
{
    array.push(value)
}

/// `SegmentArray::pop`. Assumed: the last value is taken out and returned and
/// the others stay; an array without values stays as it is and gives `None`.
#[verifier::external_body]
fn segment_pop(array: &mut SegmentArray<usize>) -> (value: Option<usize>)
    ensures
        segment_contents(*old(array)).len() == 0 ==> value.is_none() && segment_contents(
            *final(array),
        ) == segment_contents(*old(array)),
        segment_contents(*old(array)).len() > 0 ==> value == Some(
            segment_contents(*old(array)).last(),
        ) && segment_contents(*final(array)) == segment_contents(*old(array)).drop_last(),
{
    array.pop()
}

/// `SegmentArray::is_empty`. Assumed: true exactly when the array holds no
/// value.
#[verifier::external_body]
fn segment_is_empty(array: &SegmentArray<usize>) -> (empty: bool)
    ensures
        empty == (segment_contents(*array).len() == 0),
{
    array.is_empty()
}

/// `SegmentArray::iter`. Assumed: the iterator reads from the values of
/// `array` and starts at the first.
#[verifier::external_body]
fn segment_iter(array: &SegmentArray<usize>) -> (iter: SegArrayIter<'_, usize>)
    ensures
        segment_iter_items(iter) == segment_contents(*array),
        segment_iter_position(iter) == 0,
{
    array.iter()
}

/// `Iterator::next` of `SegArrayIter`. Assumed: it returns the value at the
/// iterator's index, `None` when the index is past the last value, and adds
/// one to the index in both cases. The addition overflows at `usize::MAX`.
#[verifier::external_body]
fn segment_iter_next(iter: &mut SegArrayIter<'_, usize>) -> (item: Option<usize>)
    requires
        segment_iter_position(*old(iter)) < usize::MAX,
    ensures
        segment_iter_items(*final(iter)) == segment_iter_items(*old(iter)),
        segment_iter_position(*final(iter)) == segment_iter_position(*old(iter)) + 1,
        item == item_at(segment_iter_items(*old(iter)), segment_iter_position(*old(iter))),
{
    iter.next().copied()
}

impl<'a> Cursor for SegArrayIter<'a, usize> {
    open spec fn items(&self) -> Seq<usize> {
        segment_iter_items(*self)
    }

    open spec fn position(&self) -> nat {
        segment_iter_position(*self)
    }

    fn advance(&mut self) -> (item: Option<usize>) {
        segment_iter_next(self)
    }
}

impl Container for SegmentArray<usize> {
    open spec fn contents(&self) -> Seq<usize> {
        segment_contents(*self)
    }

    open spec fn valid(&self) -> bool {
        segment_contents(*self).len() <= MAX_LEN
    }

    open spec fn ready(&self) -> bool {
        true
    }

    open spec fn limit() -> nat {
        MAX_LEN as nat
    }

    proof fn lemma_limit() {
    }

    proof fn lemma_valid_len(&self) {
    }

    proof fn lemma_empty_is_ready(&self) {
    }

    fn new_empty() -> (array: Self) {
        segment_new()
    }

    fn append(&mut self, value: usize) {
        segment_push(self, value)
    }

    fn remove_last(&mut self) -> (value: Option<usize>) {
        segment_pop(self)
    }

    fn is_empty(&self) -> (empty: bool) {
        segment_is_empty(self)
    }

    fn scan(&self) -> (outcome: Result<usize, Violation>) {
        let mut cursor = segment_iter(self);
        scan_cursor(&mut cursor)
    }
}

} // verus!
