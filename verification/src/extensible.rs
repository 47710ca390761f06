//! The extensible array of the `extarray` crate as an array under test.
//!
//! Verus does not look into the crate. What the harness relies on is written
//! down here, one declaration for each function of the crate that is called.

use crate::container::{item_at, scan_cursor, Container, Cursor, Violation, MAX_LEN};
use extarray::{ExtArrayIter, ExtensibleArray};
use vstd::prelude::*;

verus! {

/// `extarray::ExtensibleArray`, an array of data blocks behind a dope vector.
#[verifier::external_type_specification]
#[verifier::external_body]
#[verifier::reject_recursive_types(T)]
pub struct ExExtensibleArray<T>(ExtensibleArray<T>);

/// `extarray::ExtArrayIter`, the iterator that `ExtensibleArray::iter`
/// returns: a reference to the array and the index to read next.
#[verifier::external_type_specification]
#[verifier::external_body]
#[verifier::reject_recursive_types(T)]
pub struct ExExtensibleIter<'a, T>(ExtArrayIter<'a, T>);

/// The values that an extensible array holds, first to last.
pub uninterp spec fn extensible_contents(array: ExtensibleArray<usize>) -> Seq<usize>;

/// The values of the array that an iterator reads from.
pub uninterp spec fn extensible_iter_items(iter: ExtArrayIter<'_, usize>) -> Seq<usize>;

/// The index that an iterator reads next. It starts at zero and goes up by
/// one with each call of `next`, also after the last value.
pub uninterp spec fn extensible_iter_position(iter: ExtArrayIter<'_, usize>) -> nat;

/// `ExtensibleArray::new`. Assumed: the new array holds no value.
#[verifier::external_body]
fn extensible_new() -> (array: ExtensibleArray<usize>)
    ensures
        extensible_contents(array) == Seq::<usize>::empty(),
{
    ExtensibleArray::new()
}

/// `ExtensibleArray::push`. Assumed: `value` is put behind the last value and
/// the others stay. The harness relies on this below `MAX_LEN` values only.
#[verifier::external_body]
fn extensible_push(array: &mut ExtensibleArray<usize>, value: usize)
    requires
        extensible_contents(*old(array)).len() < MAX_LEN,
    ensures
        extensible_contents(*final(array)) == extensible_contents(*old(array)).push(value),
{
    array.push(value)
}

/// `ExtensibleArray::pop`. Assumed: the last value is taken out and returned and
/// the others stay; an array without values stays as it is and gives `None`.
#[verifier::external_body]
fn extensible_pop(array: &mut ExtensibleArray<usize>) -> (value: Option<usize>)
    ensures
        extensible_contents(*old(array)).len() == 0 ==> value.is_none() && extensible_contents(
            *final(array),
        ) == extensible_contents(*old(array)),
        extensible_contents(*old(array)).len() > 0 ==> value == Some(
            extensible_contents(*old(array)).last(),
        ) && extensible_contents(*final(array)) == extensible_contents(*old(array)).drop_last(),
{
    array.pop()
}

/// `ExtensibleArray::is_empty`. Assumed: true exactly when the array holds no
/// value.
#[verifier::external_body]
fn extensible_is_empty(array: &ExtensibleArray<usize>) -> (empty: bool)
    ensures
        empty == (extensible_contents(*array).len() == 0),
{
    array.is_empty()
}

/// `ExtensibleArray::iter`. Assumed: the iterator reads from the values of
/// `array` and starts at the first.
#[verifier::external_body]
fn extensible_iter(array: &ExtensibleArray<usize>) -> (iter: ExtArrayIter<'_, usize>)
    ensures
        extensible_iter_items(iter) == extensible_contents(*array),
        extensible_iter_position(iter) == 0,
{
    array.iter()
}

/// `Iterator::next` of `ExtArrayIter`. Assumed: it returns the value at the
/// iterator's index, `None` when the index is past the last value, and adds
/// one to the index in both cases. The addition overflows at `usize::MAX`.
#[verifier::external_body]
fn extensible_iter_next(iter: &mut ExtArrayIter<'_, usize>) -> (item: Option<usize>)
    requires
        extensible_iter_position(*old(iter)) < usize::MAX,
    ensures
        extensible_iter_items(*final(iter)) == extensible_iter_items(*old(iter)),
        extensible_iter_position(*final(iter)) == extensible_iter_position(*old(iter)) + 1,
        item == item_at(extensible_iter_items(*old(iter)), extensible_iter_position(*old(iter))),
{
    iter.next().copied()
}

impl<'a> Cursor for ExtArrayIter<'a, usize> {
    open spec fn items(&self) -> Seq<usize> {
        extensible_iter_items(*self)
    }

    open spec fn position(&self) -> nat {
        extensible_iter_position(*self)
    }

    fn advance(&mut self) -> (item: Option<usize>) {
        extensible_iter_next(self)
    }
}

impl Container for ExtensibleArray<usize> {
    open spec fn contents(&self) -> Seq<usize> {
        extensible_contents(*self)
    }

    open spec fn valid(&self) -> bool {
        extensible_contents(*self).len() <= MAX_LEN
    }

    open spec fn ready(&self) -> bool {
        true
    }

    open spec fn limit() -> nat {
        MAX_LEN as nat
    }

    proof fn lemma_limit() {
    }

    proof fn lemma_valid_len(&self) {
    }

    proof fn lemma_empty_is_ready(&self) {
    }

    fn new_empty() -> (array: Self) {
        extensible_new()
    }

    fn append(&mut self, value: usize) {
        extensible_push(self, value)
    }

    fn remove_last(&mut self) -> (value: Option<usize>) {
        extensible_pop(self)
    }

    fn is_empty(&self) -> (empty: bool) {
        extensible_is_empty(self)
    }

    fn scan(&self) -> (outcome: Result<usize, Violation>) {
        let mut cursor = extensible_iter(self);
        scan_cursor(&mut cursor)
    }
}

} // verus!
