use vstd::prelude::*;

use crate::access::CheckIndex;
use crate::access::GetUnchecked;
use crate::access::GetUncheckedMut;
use crate::bounds::OutOfBoundsAccess;

verus! {

/// Wrapper type routing subscript operations through the capability pair of
/// the held container: a validity predicate ([`CheckIndex`]) and an unchecked
/// access primitive ([`GetUnchecked`] / [`GetUncheckedMut`]).
///
/// The unchecked subscripts ([`UncheckedIndex::index`],
/// [`UncheckedIndex::index_mut`]) run no test at all: the shape-specific
/// bounds rule stands in their `requires`, so the caller discharges it once,
/// statically, and pays nothing at run time. The validated subscripts
/// ([`UncheckedIndex::index_checked`], [`UncheckedIndex::index_mut_checked`])
/// decide the same rule on every access and report a violation as an
/// [`OutOfBoundsAccess`] value.
#[derive(Clone, Copy)]
pub struct UncheckedIndex<S>(S);

impl<S> View for UncheckedIndex<S> {
    type V = S;

    closed spec fn view(&self) -> S {
        self.0
    }
}

/// Create a new unchecked indexing wrapper.
///
/// Calling this transfers a proof obligation to the caller: every subsequent
/// unchecked subscript through the wrapper carries the container's bounds
/// rule as a `requires`, and no run-time validation stands behind it.
pub fn unchecked_index<T>(v: T) -> (w: UncheckedIndex<T>)
    ensures
        w@ == v,
{
    UncheckedIndex(v)
}

/// Access the element(s) at `index`, without bounds checks.
///
/// The shape-specific bounds rule is the caller's proof obligation, stated
/// as the `requires`; nothing is validated at run time.
pub fn get_unchecked<T, I>(v: &T, index: I) -> (out: &T::Output) where T: GetUnchecked<I>
    requires
        v.accessible(&index),
    ensures
        v.is_get(&index, out),
{
    v.get_unchecked(index)
}

/// Access the element(s) at `index` mutably, without bounds checks.
///
/// The shape-specific bounds rule is the caller's proof obligation, stated
/// as the `requires`; nothing is validated at run time.
pub fn get_unchecked_mut<T, I>(v: &mut T, index: I) -> (out: &mut T::Output) where
    T: GetUncheckedMut<I>,

    requires
        old(v).accessible(&index),
    ensures
        old(v).is_get(&index, out),
        T::writeback(&*old(v), &index, &*final(out), &*final(v)),
{
    v.get_unchecked_mut(index)
}

impl<S> UncheckedIndex<S> {
    /// The read-subscript, unchecked: the bounds rule is discharged at the
    /// call site, and no validation runs.
    pub fn index<I>(&self, index: I) -> (out: &S::Output) where S: GetUnchecked<I>
        requires
            self@.accessible(&index),
        ensures
            self@.is_get(&index, out),
    {
        self.0.get_unchecked(index)
    }

    /// The write-subscript, unchecked: as [`UncheckedIndex::index`], but
    /// yielding a mutable reference into the held container.
    pub fn index_mut<I>(&mut self, index: I) -> (out: &mut S::Output) where S: GetUncheckedMut<I>
        requires
            old(self)@.accessible(&index),
        ensures
            old(self)@.is_get(&index, out),
            S::writeback(&old(self)@, &index, &*final(out), &final(self)@),
    {
        self.0.get_unchecked_mut(index)
    }

    /// The read-subscript, validated: decide the bounds rule, then access.
    /// A violation is reported, with the attempted index and the container's
    /// length, and nothing is accessed.
    pub fn index_checked<I>(&self, index: I) -> (r: Result<
        &S::Output,
        OutOfBoundsAccess,
    >) where S: GetUnchecked<I>
        ensures
            r is Ok <==> self@.valid_index(&index),
            r matches Ok(out) ==> self@.is_get(&index, out),
            r is Err ==> r->Err_0 == self@.oob_error(&index),
    {
        match self.0.assert_indexable_with(&index) {
            Ok(()) => {
                proof {
                    self.0.valid_implies_accessible(&index);
                }
                Ok(self.0.get_unchecked(index))
            },
            Err(e) => Err(e),
        }
    }

    /// The write-subscript, validated: decide the bounds rule, then access
    /// mutably. A violation is reported and the container is left untouched.
    pub fn index_mut_checked<I>(&mut self, index: I) -> (r: Result<
        &mut S::Output,
        OutOfBoundsAccess,
    >) where S: GetUncheckedMut<I>
        ensures
            r is Ok <==> old(self)@.valid_index(&index),
            r matches Ok(out) ==> old(self)@.is_get(&index, out) && S::writeback(
                &old(self)@,
                &index,
                &*final(out),
                &final(self)@,
            ),
            r is Err ==> r->Err_0 == old(self)@.oob_error(&index) && *final(self) == *old(self),
    {
        match self.0.assert_indexable_with(&index) {
            Ok(()) => {
                proof {
                    self.0.valid_implies_accessible(&index);
                }
                Ok(self.0.get_unchecked_mut(index))
            },
            Err(e) => Err(e),
        }
    }

    /// Shared pass-through to the held container, for everything that is not
    /// a subscript: length, iteration, the container's own methods.
    pub fn as_inner(&self) -> (r: &S)
        ensures
            *r == self@,
    {
        &self.0
    }

    /// Mutable pass-through to the held container.
    pub fn as_inner_mut(&mut self) -> (r: &mut S)
        ensures
            *r == old(self)@,
            final(self)@ == *final(r),
    {
        &mut self.0
    }

    /// Give the held container back, discarding the wrapper.
    pub fn into_inner(self) -> (r: S)
        ensures
            r == self@,
    {
        self.0
    }
}

} // verus!
