use vstd::prelude::*;

use crate::access::CheckIndex;
use crate::access::GetUnchecked;
use crate::access::GetUncheckedMut;
use crate::bounds::OutOfBoundsAccess;
use crate::shape::SliceRange;
use crate::shape::SliceRangeFrom;
use crate::shape::SliceRangeFull;
use crate::shape::SliceRangeTo;

verus! {

impl<T> CheckIndex<usize> for Vec<T> {
    open spec fn valid_index(&self, index: &usize) -> bool {
        (*index as nat) < self@.len()
    }

    open spec fn oob_error(&self, index: &usize) -> OutOfBoundsAccess {
        OutOfBoundsAccess::Scalar { index: *index, len: self@.len() as usize }
    }

    fn assert_indexable_with(&self, index: &usize) -> (r: Result<(), OutOfBoundsAccess>) {
        if *index < self.len() {
            Ok(())
        } else {
            Err(OutOfBoundsAccess::Scalar { index: *index, len: self.len() })
        }
    }
}

impl<T> GetUnchecked<usize> for Vec<T> {
    type Output = T;

    open spec fn accessible(&self, index: &usize) -> bool {
        (*index as nat) < self@.len()
    }

    open spec fn is_get(&self, index: &usize, out: &T) -> bool {
        *out == self@[*index as int]
    }

    proof fn valid_implies_accessible(&self, index: &usize) {
    }

    fn get_unchecked(&self, index: usize) -> (out: &T) {
        &self[index]
    }
}

impl<T> GetUncheckedMut<usize> for Vec<T> {
    open spec fn writeback(pre: &Self, index: &usize, written: &T, post: &Self) -> bool {
        post@ == pre@.update(*index as int, *written)
    }

    fn get_unchecked_mut(&mut self, index: usize) -> (out: &mut T) {
        &mut self[index]
    }
}

impl<T> CheckIndex<SliceRange> for Vec<T> {
    open spec fn valid_index(&self, index: &SliceRange) -> bool {
        index.start <= index.end && (index.end as nat) <= self@.len()
    }

    open spec fn oob_error(&self, index: &SliceRange) -> OutOfBoundsAccess {
        OutOfBoundsAccess::Bounded {
            start: index.start,
            end: index.end,
            len: self@.len() as usize,
        }
    }

    fn assert_indexable_with(&self, index: &SliceRange) -> (r: Result<(), OutOfBoundsAccess>) {
        if index.start <= index.end && index.end <= self.len() {
            Ok(())
        } else {
            Err(OutOfBoundsAccess::Bounded { start: index.start, end: index.end, len: self.len() })
        }
    }
}

impl<T> GetUnchecked<SliceRange> for Vec<T> {
    type Output = [T];

    open spec fn accessible(&self, index: &SliceRange) -> bool {
        index.start <= index.end && (index.end as nat) <= self@.len()
    }

    open spec fn is_get(&self, index: &SliceRange, out: &[T]) -> bool {
        out@ == self@.subrange(index.start as int, index.end as int)
    }

    proof fn valid_implies_accessible(&self, index: &SliceRange) {
    }

    fn get_unchecked(&self, index: SliceRange) -> (out: &[T]) {
        vstd::slice::slice_subrange(self.as_slice(), index.start, index.end)
    }
}

impl<T> GetUncheckedMut<SliceRange> for Vec<T> {
    open spec fn writeback(pre: &Self, index: &SliceRange, written: &[T], post: &Self) -> bool {
        post@ == pre@.subrange(0, index.start as int) + written@ + pre@.subrange(
            index.end as int,
            pre@.len() as int,
        )
    }

    fn get_unchecked_mut(&mut self, index: SliceRange) -> (out: &mut [T]) {
        let ghost pre = self@;
        proof {
            assert forall|a: Seq<T>, b: Seq<T>, c: Seq<T>| #[trigger] ((a + b) + c) == a + (b
                + c) by {
                vstd::seq_lib::lemma_concat_associative(a, b, c);
            }
        }
        let whole = self.as_mut_slice();
        let (head, tail) = whole.split_at_mut(index.start);
        let (mid, rest) = tail.split_at_mut(index.end - index.start);
        proof {
            assert(head@ =~= pre.subrange(0, index.start as int));
            assert(mid@ =~= pre.subrange(index.start as int, index.end as int));
            assert(rest@ =~= pre.subrange(index.end as int, pre.len() as int));
        }
        mid
    }
}

impl<T> CheckIndex<SliceRangeTo> for Vec<T> {
    open spec fn valid_index(&self, index: &SliceRangeTo) -> bool {
        (index.end as nat) <= self@.len()
    }

    open spec fn oob_error(&self, index: &SliceRangeTo) -> OutOfBoundsAccess {
        OutOfBoundsAccess::ToOpen { end: index.end, len: self@.len() as usize }
    }

    fn assert_indexable_with(&self, index: &SliceRangeTo) -> (r: Result<(), OutOfBoundsAccess>) {
        if index.end <= self.len() {
            Ok(())
        } else {
            Err(OutOfBoundsAccess::ToOpen { end: index.end, len: self.len() })
        }
    }
}

impl<T> GetUnchecked<SliceRangeTo> for Vec<T> {
    type Output = [T];

    open spec fn accessible(&self, index: &SliceRangeTo) -> bool {
        (index.end as nat) <= self@.len()
    }

    open spec fn is_get(&self, index: &SliceRangeTo, out: &[T]) -> bool {
        out@ == self@.subrange(0, index.end as int)
    }

    proof fn valid_implies_accessible(&self, index: &SliceRangeTo) {
    }

    fn get_unchecked(&self, index: SliceRangeTo) -> (out: &[T]) {
        vstd::slice::slice_subrange(self.as_slice(), 0, index.end)
    }
}

impl<T> GetUncheckedMut<SliceRangeTo> for Vec<T> {
    open spec fn writeback(pre: &Self, index: &SliceRangeTo, written: &[T], post: &Self) -> bool {
        post@ == written@ + pre@.subrange(index.end as int, pre@.len() as int)
    }

    fn get_unchecked_mut(&mut self, index: SliceRangeTo) -> (out: &mut [T]) {
        let whole = self.as_mut_slice();
        let (head, tail) = whole.split_at_mut(index.end);
        head
    }
}

impl<T> CheckIndex<SliceRangeFrom> for Vec<T> {
    open spec fn valid_index(&self, index: &SliceRangeFrom) -> bool {
        (index.start as nat) <= self@.len()
    }

    open spec fn oob_error(&self, index: &SliceRangeFrom) -> OutOfBoundsAccess {
        OutOfBoundsAccess::FromOpen { start: index.start, len: self@.len() as usize }
    }

    fn assert_indexable_with(&self, index: &SliceRangeFrom) -> (r: Result<(), OutOfBoundsAccess>) {
        if index.start <= self.len() {
            Ok(())
        } else {
            Err(OutOfBoundsAccess::FromOpen { start: index.start, len: self.len() })
        }
    }
}

impl<T> GetUnchecked<SliceRangeFrom> for Vec<T> {
    type Output = [T];

    open spec fn accessible(&self, index: &SliceRangeFrom) -> bool {
        (index.start as nat) <= self@.len()
    }

    open spec fn is_get(&self, index: &SliceRangeFrom, out: &[T]) -> bool {
        out@ == self@.subrange(index.start as int, self@.len() as int)
    }

    proof fn valid_implies_accessible(&self, index: &SliceRangeFrom) {
    }

    fn get_unchecked(&self, index: SliceRangeFrom) -> (out: &[T]) {
        let n: usize = self.len();
        vstd::slice::slice_subrange(self.as_slice(), index.start, n)
    }
}

impl<T> GetUncheckedMut<SliceRangeFrom> for Vec<T> {
    open spec fn writeback(pre: &Self, index: &SliceRangeFrom, written: &[T], post: &Self) -> bool {
        post@ == pre@.subrange(0, index.start as int) + written@
    }

    fn get_unchecked_mut(&mut self, index: SliceRangeFrom) -> (out: &mut [T]) {
        let whole = self.as_mut_slice();
        let (head, tail) = whole.split_at_mut(index.start);
        tail
    }
}

impl<T> CheckIndex<SliceRangeFull> for Vec<T> {
    open spec fn valid_index(&self, index: &SliceRangeFull) -> bool {
        true
    }

    open spec fn oob_error(&self, index: &SliceRangeFull) -> OutOfBoundsAccess {
        OutOfBoundsAccess::Bounded { start: 0, end: self@.len() as usize, len: self@.len() as usize }
    }

    fn assert_indexable_with(&self, index: &SliceRangeFull) -> (r: Result<(), OutOfBoundsAccess>) {
        Ok(())
    }
}

impl<T> GetUnchecked<SliceRangeFull> for Vec<T> {
    type Output = [T];

    open spec fn accessible(&self, index: &SliceRangeFull) -> bool {
        true
    }

    open spec fn is_get(&self, index: &SliceRangeFull, out: &[T]) -> bool {
        out@ == self@
    }

    proof fn valid_implies_accessible(&self, index: &SliceRangeFull) {
    }

    fn get_unchecked(&self, index: SliceRangeFull) -> (out: &[T]) {
        self.as_slice()
    }
}

impl<T> GetUncheckedMut<SliceRangeFull> for Vec<T> {
    open spec fn writeback(pre: &Self, index: &SliceRangeFull, written: &[T], post: &Self) -> bool {
        post@ == written@
    }

    fn get_unchecked_mut(&mut self, index: SliceRangeFull) -> (out: &mut [T]) {
        self.as_mut_slice()
    }
}

} // verus!
