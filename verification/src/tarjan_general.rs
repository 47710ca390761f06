//! The general resizable array of the `tzarrays` crate as an array under test.
//!
//! Verus does not look into the crate. What the harness relies on is written
//! down here, one declaration for each function of the crate that is called.

use crate::container::{item_at, scan_cursor, Container, Cursor, Violation, MAX_LEN};
use tzarrays::general::{OptArrayIter, OptimalArray};
use vstd::prelude::*;

verus! {

/// The smallest `r` that the crate takes.
pub const MIN_R: usize = 2;

/// The largest `r` that the harness uses. The crate computes `1 << (2 * r)`
/// when it makes an array, which is in range while `2 * r` is below the 64
/// bits of a `usize`.
pub const MAX_R: usize = 31;

/// The `r` of an array that is made without one.
pub const DEFAULT_R: usize = 3;

/// `tzarrays::general::OptimalArray`, an array of blocks of `r - 1` sizes.
#[verifier::external_type_specification]
#[verifier::external_body]
#[verifier::reject_recursive_types(T)]
pub struct ExGeneralArray<T>(OptimalArray<T>);

/// `tzarrays::general::OptArrayIter`, the iterator that `OptimalArray::iter`
/// returns: a reference to the array and the index to read next.
#[verifier::external_type_specification]
#[verifier::external_body]
#[verifier::reject_recursive_types(T)]
pub struct ExGeneralIter<'a, T>(OptArrayIter<'a, T>);

/// The values that a general resizable array holds, first to last.
pub uninterp spec fn general_contents(array: OptimalArray<usize>) -> Seq<usize>;

/// The `r` that a general resizable array was made with.
pub uninterp spec fn general_r(array: OptimalArray<usize>) -> nat;

/// The values of the array that an iterator reads from.
pub uninterp spec fn general_iter_items(iter: OptArrayIter<'_, usize>) -> Seq<usize>;

/// The index that an iterator reads next. It starts at zero and goes up by
/// one with each call of `next`, also after the last value.
pub uninterp spec fn general_iter_position(iter: OptArrayIter<'_, usize>) -> nat;

/// `OptimalArray::new`. Assumed: the new array holds no value and has the
/// crate's default `r`, which is 3.
#[verifier::external_body]
fn general_new() -> (array: OptimalArray<usize>)
    ensures
        general_contents(array) == Seq::<usize>::empty(),
        general_r(array) == DEFAULT_R,
{
    OptimalArray::new()
}

/// `OptimalArray::with_r`. Assumed: the new array holds no value and has the
/// given `r`. The crate panics below `MIN_R`.
#[verifier::external_body]
pub(crate) fn general_with_r(r: usize) -> (array: OptimalArray<usize>)
    requires
        MIN_R <= r <= MAX_R,
    ensures
        general_contents(array) == Seq::<usize>::empty(),
        general_r(array) == r,
{
    OptimalArray::with_r(r)
}

/// `OptimalArray::push`. Assumed: `value` is put behind the last value, the
/// others stay, and `r` stays. The crate rebuilds the array when its length
/// reaches a power of two that it computes by a shift; the harness relies on
/// `push` below `MAX_LEN` values and for `r` up to `MAX_R` only, where the
/// shift stays in range.
#[verifier::external_body]
fn general_push(array: &mut OptimalArray<usize>, value: usize)
    requires
        general_contents(*old(array)).len() < MAX_LEN,
        MIN_R <= general_r(*old(array)) <= MAX_R,
    ensures
        general_contents(*final(array)) == general_contents(*old(array)).push(value),
        general_r(*final(array)) == general_r(*old(array)),
{
    array.push(value)
}

/// `OptimalArray::pop`. Assumed: the last value is taken out and returned and
/// the others stay; an array without values stays as it is and gives `None`.
/// `r` stays. The harness relies on this for the arrays that it relies on
/// `push` for.
#[verifier::external_body]
fn general_pop(array: &mut OptimalArray<usize>) -> (value: Option<usize>)
    requires
        general_contents(*old(array)).len() <= MAX_LEN,
        MIN_R <= general_r(*old(array)) <= MAX_R,
    ensures
        general_r(*final(array)) == general_r(*old(array)),
        general_contents(*old(array)).len() == 0 ==> value.is_none() && general_contents(
            *final(array),
        ) == general_contents(*old(array)),
        general_contents(*old(array)).len() > 0 ==> value == Some(
            general_contents(*old(array)).last(),
        ) && general_contents(*final(array)) == general_contents(*old(array)).drop_last(),
{
    array.pop()
}

/// `OptimalArray::is_empty`. Assumed: true exactly when the array holds no
/// value.
#[verifier::external_body]
fn general_is_empty(array: &OptimalArray<usize>) -> (empty: bool)
    ensures
        empty == (general_contents(*array).len() == 0),
{
    array.is_empty()
}

/// `OptimalArray::iter`. Assumed: the iterator reads from the values of
/// `array` and starts at the first. The iterator finds a value by the sizes
/// of the blocks, so the harness relies on it for the arrays that it relies
/// on `push` for.
#[verifier::external_body]
fn general_iter(array: &OptimalArray<usize>) -> (iter: OptArrayIter<'_, usize>)
    requires
        general_contents(*array).len() <= MAX_LEN,
        MIN_R <= general_r(*array) <= MAX_R,
    ensures
        general_iter_items(iter) == general_contents(*array),
        general_iter_position(iter) == 0,
{
    array.iter()
}

/// `Iterator::next` of `OptArrayIter`. Assumed: it returns the value at the
/// iterator's index, `None` when the index is past the last value, and adds
/// one to the index in both cases. The addition overflows at `usize::MAX`.
#[verifier::external_body]
fn general_iter_next(iter: &mut OptArrayIter<'_, usize>) -> (item: Option<usize>)
    requires
        general_iter_position(*old(iter)) < usize::MAX,
    ensures
        general_iter_items(*final(iter)) == general_iter_items(*old(iter)),
        general_iter_position(*final(iter)) == general_iter_position(*old(iter)) + 1,
        item == item_at(general_iter_items(*old(iter)), general_iter_position(*old(iter))),
{
    iter.next().copied()
}

/// An array without values that has the given `r`; `None` when the crate or
/// the harness does not take that `r`.
pub fn general_array(r: usize) -> (made: Option<OptimalArray<usize>>)
    ensures
        made.is_some() == (MIN_R <= r <= MAX_R),
        made matches Some(array) ==> array.valid() && array.contents() == Seq::<usize>::empty()
            && general_r(array) == r,
{
    if MIN_R <= r && r <= MAX_R {
        Some(general_with_r(r))
    } else {
        None
    }
}

impl<'a> Cursor for OptArrayIter<'a, usize> {
    open spec fn items(&self) -> Seq<usize> {
        general_iter_items(*self)
    }

    open spec fn position(&self) -> nat {
        general_iter_position(*self)
    }

    fn advance(&mut self) -> (item: Option<usize>) {
        general_iter_next(self)
    }
}

impl Container for OptimalArray<usize> {
    open spec fn contents(&self) -> Seq<usize> {
        general_contents(*self)
    }

    open spec fn valid(&self) -> bool {
        &&& general_contents(*self).len() <= MAX_LEN
        &&& MIN_R <= general_r(*self) <= MAX_R
    }

    open spec fn ready(&self) -> bool {
        true
    }

    open spec fn limit() -> nat {
        MAX_LEN as nat
    }

    proof fn lemma_limit() {
    }

    proof fn lemma_valid_len(&self) {
    }

    proof fn lemma_empty_is_ready(&self) {
    }

    fn new_empty() -> (array: Self) {
        general_new()
    }

    fn append(&mut self, value: usize) {
        general_push(self, value)
    }

    fn remove_last(&mut self) -> (value: Option<usize>) {
        general_pop(self)
    }

    fn is_empty(&self) -> (empty: bool) {
        general_is_empty(self)
    }

    fn scan(&self) -> (outcome: Result<usize, Violation>) {
        let mut cursor = general_iter(self);
        scan_cursor(&mut cursor)
    }
}

} // verus!
