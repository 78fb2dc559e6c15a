use vstd::prelude::*;

use crate::access::CheckIndex;
use crate::access::GetUnchecked;
use crate::access::GetUncheckedMut;
use crate::bounds::OutOfBoundsAccess;
use crate::shape::SliceRange;
use crate::shape::SliceRangeFrom;
use crate::shape::SliceRangeFull;
use crate::shape::SliceRangeTo;
use crate::window::Window;
use crate::wrapper::UncheckedIndex;

verus! {

/// Validated scalar access succeeds exactly on positions below the
/// container's length. Any result meeting the contract of a validated read
/// at position `i` — on a plain vector of length `n`, or on a window of
/// extent `n` — is `Ok` with the element at `i` when `i < n`, and otherwise
/// the report naming `i` and `n`.
pub proof fn lemma_validated_scalar_access<T>(
    v: UncheckedIndex<Vec<T>>,
    w: UncheckedIndex<Window<T>>,
    i: usize,
    rv: Result<&T, OutOfBoundsAccess>,
    rw: Result<&T, OutOfBoundsAccess>,
)
    requires
        rv is Ok <==> v@.valid_index(&i),
        rv matches Ok(out) ==> v@.is_get(&i, out),
        rv is Err ==> rv->Err_0 == v@.oob_error(&i),
        rw is Ok <==> w@.valid_index(&i),
        rw matches Ok(out) ==> w@.is_get(&i, out),
        rw is Err ==> rw->Err_0 == w@.oob_error(&i),
    ensures
        rv is Ok <==> (i as nat) < v@@.len(),
        rv matches Ok(out) ==> *out == v@@[i as int],
        rv is Err ==> rv->Err_0 == (OutOfBoundsAccess::Scalar {
            index: i,
            len: v@@.len() as usize,
        }),
        rw is Ok <==> (i as nat) < w@.view_len(),
        rw matches Ok(out) ==> *out == w@.backing()[i as int],
        rw is Err ==> rw->Err_0 == (OutOfBoundsAccess::Scalar {
            index: i,
            len: w@.view_len() as usize,
        }),
{
}

/// Validated access with a bounded range `[start, end)` succeeds exactly
/// when `start <= end` and `end` does not pass the container's length.
pub proof fn lemma_validated_bounded_range_access<T>(
    v: UncheckedIndex<Vec<T>>,
    w: UncheckedIndex<Window<T>>,
    r: SliceRange,
    rv: Result<&[T], OutOfBoundsAccess>,
    rw: Result<&[T], OutOfBoundsAccess>,
)
    requires
        rv is Ok <==> v@.valid_index(&r),
        rv matches Ok(out) ==> v@.is_get(&r, out),
        rw is Ok <==> w@.valid_index(&r),
    ensures
        rv is Ok <==> r.start <= r.end && (r.end as nat) <= v@@.len(),
        rv matches Ok(out) ==> out@ == v@@.subrange(r.start as int, r.end as int),
        rw is Ok <==> r.start <= r.end && (r.end as nat) <= w@.view_len(),
{
}

/// Validated access with a to-open range `[0, end)` succeeds exactly when
/// `end` does not pass the container's length.
pub proof fn lemma_validated_to_open_access<T>(
    v: UncheckedIndex<Vec<T>>,
    w: UncheckedIndex<Window<T>>,
    r: SliceRangeTo,
    rv: Result<&[T], OutOfBoundsAccess>,
    rw: Result<&[T], OutOfBoundsAccess>,
)
    requires
        rv is Ok <==> v@.valid_index(&r),
        rv matches Ok(out) ==> v@.is_get(&r, out),
        rw is Ok <==> w@.valid_index(&r),
    ensures
        rv is Ok <==> (r.end as nat) <= v@@.len(),
        rv matches Ok(out) ==> out@ == v@@.subrange(0, r.end as int),
        rw is Ok <==> (r.end as nat) <= w@.view_len(),
{
}

/// Validated access with a from-open range `[start, len)` succeeds exactly
/// when `start` does not pass the container's length.
pub proof fn lemma_validated_from_open_access<T>(
    v: UncheckedIndex<Vec<T>>,
    w: UncheckedIndex<Window<T>>,
    r: SliceRangeFrom,
    rv: Result<&[T], OutOfBoundsAccess>,
    rw: Result<&[T], OutOfBoundsAccess>,
)
    requires
        rv is Ok <==> v@.valid_index(&r),
        rv matches Ok(out) ==> v@.is_get(&r, out),
        rw is Ok <==> w@.valid_index(&r),
    ensures
        rv is Ok <==> (r.start as nat) <= v@@.len(),
        rv matches Ok(out) ==> out@ == v@@.subrange(r.start as int, v@@.len() as int),
        rw is Ok <==> (r.start as nat) <= w@.view_len(),
{
}

/// Full-range access always succeeds: the full shape meets the validity
/// predicate of both containers on every value, so a validated access with
/// it is always `Ok`.
pub proof fn lemma_full_range_always_valid<T>(
    v: UncheckedIndex<Vec<T>>,
    w: UncheckedIndex<Window<T>>,
    rv: Result<&[T], OutOfBoundsAccess>,
    rw: Result<&[T], OutOfBoundsAccess>,
)
    requires
        rv is Ok <==> v@.valid_index(&SliceRangeFull),
        rw is Ok <==> w@.valid_index(&SliceRangeFull),
    ensures
        rv is Ok,
        rw is Ok,
{
}

/// A write through the wrapper is observable through the underlying
/// container once the wrapper is discarded: the containers before and after
/// a scalar write at `i` differ exactly at `i`, which now holds the written
/// value — there is no hidden copy for it to land in instead. The same holds
/// of a window: the write lands in the backing store that the window gives
/// back.
pub proof fn lemma_write_through_wrapper_observable<T>(
    pre: UncheckedIndex<Vec<T>>,
    post: UncheckedIndex<Vec<T>>,
    wpre: UncheckedIndex<Window<T>>,
    wpost: UncheckedIndex<Window<T>>,
    i: usize,
    x: T,
)
    requires
        (i as nat) < pre@@.len(),
        <Vec<T> as GetUncheckedMut<usize>>::writeback(&pre@, &i, &x, &post@),
        (i as nat) < wpre@.backing().len(),
        <Window<T> as GetUncheckedMut<usize>>::writeback(&wpre@, &i, &x, &wpost@),
    ensures
        post@@ == pre@@.update(i as int, x),
        post@@.len() == pre@@.len(),
        post@@[i as int] == x,
        forall|j: int| 0 <= j < pre@@.len() && j != i ==> post@@[j] == pre@@[j],
        wpost@.backing() == wpre@.backing().update(i as int, x),
        wpost@.backing()[i as int] == x,
        wpost@.view_len() == wpre@.view_len(),
{
}

/// A range write through the wrapper is observable the same way: after a
/// write of `xs` over `[start, end)`, the container is the old prefix, then
/// `xs`, then the old suffix.
pub proof fn lemma_range_write_through_wrapper_observable<T>(
    pre: UncheckedIndex<Vec<T>>,
    post: UncheckedIndex<Vec<T>>,
    r: SliceRange,
    xs: Seq<T>,
    written: &[T],
)
    requires
        r.start <= r.end,
        (r.end as nat) <= pre@@.len(),
        written@ == xs,
        xs.len() == r.end - r.start,
        <Vec<T> as GetUncheckedMut<SliceRange>>::writeback(&pre@, &r, written, &post@),
    ensures
        post@@.len() == pre@@.len(),
        forall|j: int| 0 <= j < r.start ==> post@@[j] == pre@@[j],
        forall|j: int| r.start <= j < r.end ==> post@@[j] == xs[j - r.start],
        forall|j: int| r.end <= j < pre@@.len() ==> post@@[j] == pre@@[j],
{
}

/// Repeated validated reads at one index are idempotent: a read borrows the
/// container immutably, so it cannot change the contents or the validity
/// outcome, and any two results of a read at the same index are the same
/// element, or the same sub-sequence for a range.
pub proof fn lemma_validated_read_idempotent<T>(
    v: UncheckedIndex<Vec<T>>,
    w: UncheckedIndex<Window<T>>,
    i: usize,
    r: SliceRange,
    first_v: &T,
    second_v: &T,
    first_w: &T,
    second_w: &T,
    first_range: &[T],
    second_range: &[T],
)
    requires
        v@.is_get(&i, first_v),
        v@.is_get(&i, second_v),
        w@.is_get(&i, first_w),
        w@.is_get(&i, second_w),
        v@.is_get(&r, first_range),
        v@.is_get(&r, second_range),
    ensures
        first_v == second_v,
        first_w == second_w,
        first_range@ == second_range@,
{
}

} // verus!
