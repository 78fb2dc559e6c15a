use vstd::prelude::*;

use crate::bounds::OutOfBoundsAccess;

verus! {

/// The validity-predicate capability: a container that can decide, for one
/// index shape `I`, whether an index lies within its extent.
///
/// `valid_index` is the shape-specific bounds rule itself; the executable
/// `assert_indexable_with` decides it and reports a violation as an
/// [`OutOfBoundsAccess`] value carrying the attempted index and the length
/// it was held against.
pub trait CheckIndex<I> {
    /// The shape-specific bounds rule: `index` addresses only positions
    /// within this container's extent.
    spec fn valid_index(&self, index: &I) -> bool;

    /// The report owed when `index` breaks the bounds rule: the attempted
    /// index together with this container's length.
    spec fn oob_error(&self, index: &I) -> OutOfBoundsAccess;

    /// Decide the bounds rule for `index`: `Ok(())` exactly when the rule
    /// holds, and otherwise the report that names the index and the length.
    fn assert_indexable_with(&self, index: &I) -> (r: Result<(), OutOfBoundsAccess>)
        ensures
            r is Ok <==> self.valid_index(index),
            r is Err ==> r == Err::<(), OutOfBoundsAccess>(self.oob_error(index)),
    ;
}

/// The unchecked read-access capability: a container that hands out a shared
/// reference to the element (scalar shape) or contiguous sub-sequence (range
/// shapes) addressed by an index of shape `I`, without testing the index.
///
/// The bounds rule is not re-validated here: it is a proof obligation on the
/// caller, stated as the `requires` of [`GetUnchecked::get_unchecked`].
pub trait GetUnchecked<I>: CheckIndex<I> {
    /// A single element for the scalar shape, a contiguous sub-sequence for
    /// the range shapes.
    type Output: ?Sized;

    /// What the unchecked access itself needs of `index`: the positions it
    /// reaches lie within the container's backing storage. Every valid index
    /// is accessible ([`GetUnchecked::valid_implies_accessible`]), but a
    /// restricted view may leave indices accessible beyond its own extent.
    spec fn accessible(&self, index: &I) -> bool;

    /// `out` is exactly the element or sub-sequence that `index` addresses
    /// in this container.
    spec fn is_get(&self, index: &I, out: &Self::Output) -> bool;

    /// The bounds rule admits only indices the backing storage can serve:
    /// whatever a validated access accepts, the unchecked access may perform.
    proof fn valid_implies_accessible(&self, index: &I)
        requires
            self.valid_index(index),
        ensures
            self.accessible(index),
    ;

    /// Return the element or sub-sequence at `index` without any validation.
    fn get_unchecked(&self, index: I) -> (out: &Self::Output)
        requires
            self.accessible(&index),
        ensures
            self.is_get(&index, out),
    ;
}

/// The unchecked write-access capability: as [`GetUnchecked`], but yielding a
/// mutable reference, so it asks for exclusive access to the container.
pub trait GetUncheckedMut<I>: GetUnchecked<I> {
    /// How a container looks after a write through the reference that
    /// [`GetUncheckedMut::get_unchecked_mut`] handed out: `post` is `pre`
    /// with the positions addressed by `index` replaced by `written`, and
    /// nothing else changed.
    spec fn writeback(pre: &Self, index: &I, written: &Self::Output, post: &Self) -> bool;

    /// Return a mutable reference to the element or sub-sequence at `index`
    /// without any validation. The reference initially holds what a read
    /// would have returned; once the caller is done with it, the container
    /// holds the written value at `index` and is elsewhere unchanged.
    fn get_unchecked_mut(&mut self, index: I) -> (out: &mut Self::Output)
        requires
            old(self).accessible(&index),
        ensures
            old(self).is_get(&index, out),
            Self::writeback(&*old(self), &index, &*final(out), &*final(self)),
    ;
}

impl<'a, T: CheckIndex<I>, I> CheckIndex<I> for &'a T {
    open spec fn valid_index(&self, index: &I) -> bool {
        (**self).valid_index(index)
    }

    open spec fn oob_error(&self, index: &I) -> OutOfBoundsAccess {
        (**self).oob_error(index)
    }

    fn assert_indexable_with(&self, index: &I) -> (r: Result<(), OutOfBoundsAccess>) {
        (**self).assert_indexable_with(index)
    }
}

impl<'a, T: GetUnchecked<I>, I> GetUnchecked<I> for &'a T {
    type Output = T::Output;

    open spec fn accessible(&self, index: &I) -> bool {
        (**self).accessible(index)
    }

    open spec fn is_get(&self, index: &I, out: &T::Output) -> bool {
        (**self).is_get(index, out)
    }

    proof fn valid_implies_accessible(&self, index: &I) {
        (**self).valid_implies_accessible(index);
    }

    fn get_unchecked(&self, index: I) -> (out: &T::Output) {
        (**self).get_unchecked(index)
    }
}

impl<'a, T: CheckIndex<I>, I> CheckIndex<I> for &'a mut T {
    open spec fn valid_index(&self, index: &I) -> bool {
        (**self).valid_index(index)
    }

    open spec fn oob_error(&self, index: &I) -> OutOfBoundsAccess {
        (**self).oob_error(index)
    }

    fn assert_indexable_with(&self, index: &I) -> (r: Result<(), OutOfBoundsAccess>) {
        (**self).assert_indexable_with(index)
    }
}

impl<'a, T: GetUnchecked<I>, I> GetUnchecked<I> for &'a mut T {
    type Output = T::Output;

    open spec fn accessible(&self, index: &I) -> bool {
        (**self).accessible(index)
    }

    open spec fn is_get(&self, index: &I, out: &T::Output) -> bool {
        (**self).is_get(index, out)
    }

    proof fn valid_implies_accessible(&self, index: &I) {
        (**self).valid_implies_accessible(index);
    }

    fn get_unchecked(&self, index: I) -> (out: &T::Output) {
        (**self).get_unchecked(index)
    }
}

impl<'a, T: GetUncheckedMut<I>, I> GetUncheckedMut<I> for &'a mut T {
    open spec fn writeback(pre: &Self, index: &I, written: &T::Output, post: &Self) -> bool {
        T::writeback(&**pre, index, written, &**post)
    }

    fn get_unchecked_mut(&mut self, index: I) -> (out: &mut T::Output) {
        (**self).get_unchecked_mut(index)
    }
}

} // verus!
