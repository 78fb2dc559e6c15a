//! Unchecked indexing through a capability-dispatched wrapper.
//!
//! A container is wrapped once through [`unchecked_index`]; every subscript
//! made through the wrapper afterwards is either *validated* (the index is
//! tested against the shape-specific bounds rule and a violation is reported
//! as an [`OutOfBoundsAccess`] value) or *unchecked* (the bounds rule is a
//! proof obligation discharged statically at the call site, and no test runs
//! at all, so the access costs nothing beyond the access itself).
//!
//! The dispatch is a capability pair per (container, index shape):
//! [`CheckIndex`] decides validity, [`GetUnchecked`] and [`GetUncheckedMut`]
//! perform the access. Five index shapes are supported — a scalar position
//! and the four range forms [`SliceRange`], [`SliceRangeTo`],
//! [`SliceRangeFrom`] and [`SliceRangeFull`] — against a plain vector, a
//! borrowed container, or a length-restricted [`Window`] over a longer
//! backing store. Adding a container kind means implementing the capability
//! pair for it; the wrapper itself never changes.

mod access;
mod bounds;
mod laws;
mod shape;
mod vec_access;
mod window;
mod wrapper;

pub use access::CheckIndex;
pub use access::GetUnchecked;
pub use access::GetUncheckedMut;
pub use bounds::OutOfBoundsAccess;
pub use laws::lemma_full_range_always_valid;
pub use laws::lemma_range_write_through_wrapper_observable;
pub use laws::lemma_validated_bounded_range_access;
pub use laws::lemma_validated_from_open_access;
pub use laws::lemma_validated_read_idempotent;
pub use laws::lemma_validated_scalar_access;
pub use laws::lemma_validated_to_open_access;
pub use laws::lemma_write_through_wrapper_observable;
pub use shape::SliceRange;
pub use shape::SliceRangeFrom;
pub use shape::SliceRangeFull;
pub use shape::SliceRangeTo;
pub use window::Window;
pub use wrapper::UncheckedIndex;
pub use wrapper::get_unchecked;
pub use wrapper::get_unchecked_mut;
pub use wrapper::unchecked_index;
