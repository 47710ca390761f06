//! `Vec` of the standard library as an array under test.

use crate::container::{in_order, Container, Violation};
use vstd::prelude::*;

verus! {

impl Container for Vec<usize> {
    open spec fn contents(&self) -> Seq<usize> {
        self@
    }

    open spec fn valid(&self) -> bool {
        self@.len() <= usize::MAX
    }

    open spec fn ready(&self) -> bool {
        true
    }

    open spec fn limit() -> nat {
        usize::MAX as nat
    }

    proof fn lemma_limit() {
    }

    proof fn lemma_valid_len(&self) {
    }

    proof fn lemma_empty_is_ready(&self) {
    }

    fn new_empty() -> (array: Self) {
        Vec::new()
    }

    fn append(&mut self, value: usize) {
        self.push(value);
    }

    fn remove_last(&mut self) -> (value: Option<usize>) {
        self.pop()
    }

    fn is_empty(&self) -> (empty: bool) {
        Vec::is_empty(self)
    }

    fn scan(&self) -> (outcome: Result<usize, Violation>) {
        let mut index: usize = 0;
        for value in iter: self.iter()
            invariant
                index == iter.index(),
                iter.seq() == self@.as_ref(),
                self@.len() <= usize::MAX,
                in_order(self@.take(index as int)),
        {
            if *value != index {
                return Err(Violation { index, found: *value });
            }
            index = index + 1;
        }
        assert(self@.take(index as int) == self@);
        Ok(index)
    }
}

} // verus!
