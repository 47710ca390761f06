//! What the harness asks of an array under test.

use vstd::prelude::*;

verus! {

/// The largest workload of a run, which is the same for every array: the
/// capacity of the segment array, whose table of segments has a fixed size.
/// Every array under test takes at least as many values.
pub const MAX_LEN: usize = 4_294_967_232;

/// A value that a scan found at a place where it does not belong.
#[derive(Clone, Copy, Debug, PartialEq, Eq, Structural)]
pub struct Violation {
    /// The place, counted from zero.
    pub index: usize,
    /// The value found there.
    pub found: usize,
}

/// Every value of `s` equals its own index.
pub open spec fn in_order(s: Seq<usize>) -> bool {
    forall|i: int| 0 <= i < s.len() ==> s[i] == i
}

/// `outcome` is what an ordered scan of `s` reports: the number of values when
/// each equals its index, else the first one that does not.
pub open spec fn scan_reports(s: Seq<usize>, outcome: Result<usize, Violation>) -> bool {
    match outcome {
        Ok(seen) => seen == s.len() && in_order(s),
        Err(v) => {
            &&& v.index < s.len()
            &&& s[v.index as int] == v.found
            &&& v.found != v.index
            &&& in_order(s.take(v.index as int))
        },
    }
}

/// An ordered scan of given values can report one thing only.
pub proof fn lemma_scan_report_is_unique(
    s: Seq<usize>,
    first: Result<usize, Violation>,
    second: Result<usize, Violation>,
)
    requires
        scan_reports(s, first),
        scan_reports(s, second),
    ensures
        first == second,
{
    if let (Err(v), Err(w)) = (first, second) {
        // The earlier of two different places would lie in the ordered part
        // before the later one.
        if v.index < w.index {
            assert(s.take(w.index as int)[v.index as int] == v.index);
        } else if w.index < v.index {
            assert(s.take(v.index as int)[w.index as int] == w.index);
        }
    }
}

/// What a cursor hands out when it stands at `position` of `items`.
pub open spec fn item_at(items: Seq<usize>, position: nat) -> Option<usize> {
    if position < items.len() {
        Some(items[position as int])
    } else {
        None
    }
}

/// A forward walk over the values of an array.
pub trait Cursor {
    /// The values of the array that is walked, first to last.
    spec fn items(&self) -> Seq<usize>;

    /// How often `advance` was called.
    spec fn position(&self) -> nat;

    /// Hands out the value at the current position, if there is one, and
    /// moves on.
    fn advance(&mut self) -> (item: Option<usize>)
        requires
            old(self).position() < usize::MAX,
        ensures
            final(self).items() == old(self).items(),
            final(self).position() == old(self).position() + 1,
            item == item_at(old(self).items(), old(self).position()),
    ;
}

/// An array under test: values are appended and removed at its end, and read
/// from first to last.
pub trait Container: Sized {
    /// The values that the array holds, first to last.
    spec fn contents(&self) -> Seq<usize>;

    /// The array is one that the harness can work with. The constructor gives
    /// such an array and every operation keeps it one.
    spec fn valid(&self) -> bool;

    /// The array is in a state in which a value that is appended comes to
    /// stand behind the last value. A new array is, appending keeps it so,
    /// and removing may end it until no value is left.
    spec fn ready(&self) -> bool;

    /// The largest number of values that an array of this type takes.
    spec fn limit() -> nat;

    /// The number of values of any array fits a `usize`.
    proof fn lemma_limit()
        ensures
            Self::limit() <= usize::MAX,
    ;

    /// A valid array holds at most `limit()` values.
    proof fn lemma_valid_len(&self)
        requires
            self.valid(),
        ensures
            self.contents().len() <= Self::limit(),
    ;

    /// A valid array without values is ready.
    proof fn lemma_empty_is_ready(&self)
        requires
            self.valid(),
            self.contents().len() == 0,
        ensures
            self.ready(),
    ;

    /// An array without values.
    fn new_empty() -> (array: Self)
        ensures
            array.valid(),
            array.ready(),
            array.contents() == Seq::<usize>::empty(),
    ;

    /// Puts `value` behind the last value.
    fn append(&mut self, value: usize)
        requires
            old(self).valid(),
            old(self).ready(),
            old(self).contents().len() < Self::limit(),
        ensures
            final(self).valid(),
            final(self).ready(),
            final(self).contents() == old(self).contents().push(value),
    ;

    /// Takes the last value out and returns it; `None` when there is none.
    fn remove_last(&mut self) -> (value: Option<usize>)
        requires
            old(self).valid(),
        ensures
            final(self).valid(),
            old(self).contents().len() == 0 ==> value.is_none() && final(self).contents() == old(
                self,
            ).contents(),
            old(self).contents().len() > 0 ==> value == Some(old(self).contents().last())
                && final(self).contents() == old(self).contents().drop_last(),
    ;

    /// Whether the array holds no value.
    fn is_empty(&self) -> (empty: bool)
        requires
            self.valid(),
        ensures
            empty == (self.contents().len() == 0),
    ;

    /// Reads the values from first to last and compares each with its index.
    fn scan(&self) -> (outcome: Result<usize, Violation>)
        requires
            self.valid(),
        ensures
            scan_reports(self.contents(), outcome),
    ;
}

/// Walks `cursor` from its start and compares each value with its index.
pub fn scan_cursor<C: Cursor>(cursor: &mut C) -> (outcome: Result<usize, Violation>)
    requires
        old(cursor).position() == 0,
        old(cursor).items().len() < usize::MAX,
    ensures
        scan_reports(old(cursor).items(), outcome),
        final(cursor).items() == old(cursor).items(),
        final(cursor).position() == match outcome {
            Ok(seen) => seen + 1,
            Err(violation) => violation.index + 1,
        },
{
    let mut index: usize = 0;
    loop
        invariant
            cursor.items() == old(cursor).items(),
            cursor.position() == index,
            index <= cursor.items().len() < usize::MAX,
            in_order(cursor.items().take(index as int)),
        decreases cursor.items().len() - index,
    {
        match cursor.advance() {
            None => {
                assert(cursor.items().take(index as int) == cursor.items());
                return Ok(index);
            },
            Some(value) => {
                if value != index {
                    return Err(Violation { index, found: value });
                }
                index = index + 1;
            },
        }
    }
}

} // verus!
