use vstd::prelude::*;

use crate::access::CheckIndex;
use crate::access::GetUnchecked;
use crate::access::GetUncheckedMut;
use crate::bounds::OutOfBoundsAccess;
use crate::shape::SliceRange;
use crate::shape::SliceRangeFrom;
use crate::shape::SliceRangeFull;
use crate::shape::SliceRangeTo;

verus! {

/// A container restricted to a leading window of a longer backing store.
///
/// A `Window` owns a backing vector and presents only its first
/// [`Window::view_len`] elements as its extent: the validity predicate is held
/// to the window, while the unchecked access primitives may address any
/// position the backing store can serve. The window therefore restricts what
/// is *valid*, not what is *reachable* — an unchecked access past the window
/// but within the backing store is honest, observable behaviour.
pub struct Window<T> {
    data: Vec<T>,
    len: usize,
}

impl<T> Window<T> {
    /// The whole backing store, window and remainder alike.
    pub closed spec fn backing(&self) -> Seq<T> {
        self.data@
    }

    /// The requested window extent, before capping by the backing length.
    pub closed spec fn limit(&self) -> nat {
        self.len as nat
    }

    /// The window's extent: the requested limit, capped by the backing
    /// length so that every valid position is backed.
    pub open spec fn view_len(&self) -> nat {
        if self.limit() <= self.backing().len() {
            self.limit()
        } else {
            self.backing().len()
        }
    }

    /// Lay a window of extent `len` over the backing store `data`.
    pub fn new(data: Vec<T>, len: usize) -> (w: Window<T>)
        requires
            len as nat <= data@.len(),
        ensures
            w.backing() == data@,
            w.view_len() == len as nat,
    {
        Window { data, len }
    }

    /// The window's extent.
    pub fn len(&self) -> (n: usize)
        ensures
            n as nat == self.view_len(),
    {
        if self.len <= self.data.len() {
            self.len
        } else {
            self.data.len()
        }
    }

    /// Give the backing store back, discarding the window.
    pub fn into_vec(self) -> (v: Vec<T>)
        ensures
            v@ == self.backing(),
    {
        self.data
    }
}

impl<T> CheckIndex<usize> for Window<T> {
    open spec fn valid_index(&self, index: &usize) -> bool {
        (*index as nat) < self.view_len()
    }

    open spec fn oob_error(&self, index: &usize) -> OutOfBoundsAccess {
        OutOfBoundsAccess::Scalar { index: *index, len: self.view_len() as usize }
    }

    fn assert_indexable_with(&self, index: &usize) -> (r: Result<(), OutOfBoundsAccess>) {
        let n: usize = self.len();
        if *index < n {
            Ok(())
        } else {
            Err(OutOfBoundsAccess::Scalar { index: *index, len: n })
        }
    }
}

impl<T> GetUnchecked<usize> for Window<T> {
    type Output = T;

    open spec fn accessible(&self, index: &usize) -> bool {
        (*index as nat) < self.backing().len()
    }

    open spec fn is_get(&self, index: &usize, out: &T) -> bool {
        *out == self.backing()[*index as int]
    }

    proof fn valid_implies_accessible(&self, index: &usize) {
    }

    fn get_unchecked(&self, index: usize) -> (out: &T) {
        &self.data[index]
    }
}

impl<T> GetUncheckedMut<usize> for Window<T> {
    open spec fn writeback(pre: &Self, index: &usize, written: &T, post: &Self) -> bool {
        &&& post.backing() == pre.backing().update(*index as int, *written)
        &&& post.limit() == pre.limit()
    }

    fn get_unchecked_mut(&mut self, index: usize) -> (out: &mut T) {
        &mut self.data[index]
    }
}

impl<T> CheckIndex<SliceRange> for Window<T> {
    open spec fn valid_index(&self, index: &SliceRange) -> bool {
        index.start <= index.end && (index.end as nat) <= self.view_len()
    }

    open spec fn oob_error(&self, index: &SliceRange) -> OutOfBoundsAccess {
        OutOfBoundsAccess::Bounded {
            start: index.start,
            end: index.end,
            len: self.view_len() as usize,
        }
    }

    fn assert_indexable_with(&self, index: &SliceRange) -> (r: Result<(), OutOfBoundsAccess>) {
        let n: usize = self.len();
        if index.start <= index.end && index.end <= n {
            Ok(())
        } else {
            Err(OutOfBoundsAccess::Bounded { start: index.start, end: index.end, len: n })
        }
    }
}

impl<T> GetUnchecked<SliceRange> for Window<T> {
    type Output = [T];

    open spec fn accessible(&self, index: &SliceRange) -> bool {
        index.start <= index.end && (index.end as nat) <= self.backing().len()
    }

    open spec fn is_get(&self, index: &SliceRange, out: &[T]) -> bool {
        out@ == self.backing().subrange(index.start as int, index.end as int)
    }

    proof fn valid_implies_accessible(&self, index: &SliceRange) {
    }

    fn get_unchecked(&self, index: SliceRange) -> (out: &[T]) {
        vstd::slice::slice_subrange(self.data.as_slice(), index.start, index.end)
    }
}

impl<T> GetUncheckedMut<SliceRange> for Window<T> {
    open spec fn writeback(pre: &Self, index: &SliceRange, written: &[T], post: &Self) -> bool {
        &&& post.backing() == pre.backing().subrange(0, index.start as int) + written@
            + pre.backing().subrange(index.end as int, pre.backing().len() as int)
        &&& post.limit() == pre.limit()
    }

    fn get_unchecked_mut(&mut self, index: SliceRange) -> (out: &mut [T]) {
        let ghost pre = self.data@;
        proof {
            assert forall|a: Seq<T>, b: Seq<T>, c: Seq<T>| #[trigger] ((a + b) + c) == a + (b
                + c) by {
                vstd::seq_lib::lemma_concat_associative(a, b, c);
            }
        }
        let whole = self.data.as_mut_slice();
        let (head, tail) = whole.split_at_mut(index.start);
        let (mid, rest) = tail.split_at_mut(index.end - index.start);
        proof {
            assert(head@ =~= pre.subrange(0, index.start as int));
            assert(mid@ =~= pre.subrange(index.start as int, index.end as int));
            assert(rest@ =~= pre.subrange(index.end as int, pre.len() as int));
        }
        mid
    }
}

impl<T> CheckIndex<SliceRangeTo> for Window<T> {
    open spec fn valid_index(&self, index: &SliceRangeTo) -> bool {
        (index.end as nat) <= self.view_len()
    }

    open spec fn oob_error(&self, index: &SliceRangeTo) -> OutOfBoundsAccess {
        OutOfBoundsAccess::ToOpen { end: index.end, len: self.view_len() as usize }
    }

    fn assert_indexable_with(&self, index: &SliceRangeTo) -> (r: Result<(), OutOfBoundsAccess>) {
        let n: usize = self.len();
        if index.end <= n {
            Ok(())
        } else {
            Err(OutOfBoundsAccess::ToOpen { end: index.end, len: n })
        }
    }
}

impl<T> GetUnchecked<SliceRangeTo> for Window<T> {
    type Output = [T];

    open spec fn accessible(&self, index: &SliceRangeTo) -> bool {
        (index.end as nat) <= self.backing().len()
    }

    open spec fn is_get(&self, index: &SliceRangeTo, out: &[T]) -> bool {
        out@ == self.backing().subrange(0, index.end as int)
    }

    proof fn valid_implies_accessible(&self, index: &SliceRangeTo) {
    }

    fn get_unchecked(&self, index: SliceRangeTo) -> (out: &[T]) {
        vstd::slice::slice_subrange(self.data.as_slice(), 0, index.end)
    }
}

impl<T> GetUncheckedMut<SliceRangeTo> for Window<T> {
    open spec fn writeback(pre: &Self, index: &SliceRangeTo, written: &[T], post: &Self) -> bool {
        &&& post.backing() == written@ + pre.backing().subrange(
            index.end as int,
            pre.backing().len() as int,
        )
        &&& post.limit() == pre.limit()
    }

    fn get_unchecked_mut(&mut self, index: SliceRangeTo) -> (out: &mut [T]) {
        let whole = self.data.as_mut_slice();
        let (head, tail) = whole.split_at_mut(index.end);
        head
    }
}

impl<T> CheckIndex<SliceRangeFrom> for Window<T> {
    open spec fn valid_index(&self, index: &SliceRangeFrom) -> bool {
        (index.start as nat) <= self.view_len()
    }

    open spec fn oob_error(&self, index: &SliceRangeFrom) -> OutOfBoundsAccess {
        OutOfBoundsAccess::FromOpen { start: index.start, len: self.view_len() as usize }
    }

    fn assert_indexable_with(&self, index: &SliceRangeFrom) -> (r: Result<(), OutOfBoundsAccess>) {
        let n: usize = self.len();
        if index.start <= n {
            Ok(())
        } else {
            Err(OutOfBoundsAccess::FromOpen { start: index.start, len: n })
        }
    }
}

impl<T> GetUnchecked<SliceRangeFrom> for Window<T> {
    type Output = [T];

    open spec fn accessible(&self, index: &SliceRangeFrom) -> bool {
        (index.start as nat) <= self.view_len()
    }

    open spec fn is_get(&self, index: &SliceRangeFrom, out: &[T]) -> bool {
        out@ == self.backing().subrange(index.start as int, self.view_len() as int)
    }

    proof fn valid_implies_accessible(&self, index: &SliceRangeFrom) {
    }

    fn get_unchecked(&self, index: SliceRangeFrom) -> (out: &[T]) {
        let n: usize = self.len();
        vstd::slice::slice_subrange(self.data.as_slice(), index.start, n)
    }
}

impl<T> GetUncheckedMut<SliceRangeFrom> for Window<T> {
    open spec fn writeback(pre: &Self, index: &SliceRangeFrom, written: &[T], post: &Self) -> bool {
        &&& post.backing() == pre.backing().subrange(0, index.start as int) + written@
            + pre.backing().subrange(pre.view_len() as int, pre.backing().len() as int)
        &&& post.limit() == pre.limit()
    }

    fn get_unchecked_mut(&mut self, index: SliceRangeFrom) -> (out: &mut [T]) {
        let ghost pre = self.data@;
        proof {
            assert forall|a: Seq<T>, b: Seq<T>, c: Seq<T>| #[trigger] ((a + b) + c) == a + (b
                + c) by {
                vstd::seq_lib::lemma_concat_associative(a, b, c);
            }
        }
        let n: usize = self.len();
        let whole = self.data.as_mut_slice();
        let (head, tail) = whole.split_at_mut(index.start);
        let (mid, rest) = tail.split_at_mut(n - index.start);
        proof {
            assert(head@ =~= pre.subrange(0, index.start as int));
            assert(mid@ =~= pre.subrange(index.start as int, n as int));
            assert(rest@ =~= pre.subrange(n as int, pre.len() as int));
        }
        mid
    }
}

impl<T> CheckIndex<SliceRangeFull> for Window<T> {
    open spec fn valid_index(&self, index: &SliceRangeFull) -> bool {
        true
    }

    open spec fn oob_error(&self, index: &SliceRangeFull) -> OutOfBoundsAccess {
        OutOfBoundsAccess::Bounded {
            start: 0,
            end: self.view_len() as usize,
            len: self.view_len() as usize,
        }
    }

    fn assert_indexable_with(&self, index: &SliceRangeFull) -> (r: Result<(), OutOfBoundsAccess>) {
        Ok(())
    }
}

impl<T> GetUnchecked<SliceRangeFull> for Window<T> {
    type Output = [T];

    open spec fn accessible(&self, index: &SliceRangeFull) -> bool {
        true
    }

    open spec fn is_get(&self, index: &SliceRangeFull, out: &[T]) -> bool {
        out@ == self.backing().subrange(0, self.view_len() as int)
    }

    proof fn valid_implies_accessible(&self, index: &SliceRangeFull) {
    }

    fn get_unchecked(&self, index: SliceRangeFull) -> (out: &[T]) {
        let n: usize = self.len();
        vstd::slice::slice_subrange(self.data.as_slice(), 0, n)
    }
}

impl<T> GetUncheckedMut<SliceRangeFull> for Window<T> {
    open spec fn writeback(pre: &Self, index: &SliceRangeFull, written: &[T], post: &Self) -> bool {
        &&& post.backing() == written@ + pre.backing().subrange(
            pre.view_len() as int,
            pre.backing().len() as int,
        )
        &&& post.limit() == pre.limit()
    }

    fn get_unchecked_mut(&mut self, index: SliceRangeFull) -> (out: &mut [T]) {
        let n: usize = self.len();
        let whole = self.data.as_mut_slice();
        let (head, tail) = whole.split_at_mut(n);
        head
    }
}

} // verus!
