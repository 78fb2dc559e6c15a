use vstd::prelude::*;

verus! {

/// The single error kind of the library: a validated access found its index
/// outside the container's extent. The value carries the attempted index and
/// the length that the index was held against, one variant per index shape.
#[derive(Clone, Copy, Debug, PartialEq, Eq, Structural)]
pub enum OutOfBoundsAccess {
    /// A scalar position `index` was not below `len`.
    Scalar { index: usize, len: usize },
    /// A bounded range `[start, end)` had `start > end` or `end > len`.
    Bounded { start: usize, end: usize, len: usize },
    /// A to-open range `[0, end)` had `end > len`.
    ToOpen { end: usize, len: usize },
    /// A from-open range `[start, len)` had `start > len`.
    FromOpen { start: usize, len: usize },
}

} // verus!
