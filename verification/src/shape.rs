use vstd::prelude::*;

verus! {

/// A bounded range `[start, end)`: the sub-sequence from `start` up to,
/// and not including, `end`.
#[derive(Clone, Copy, Debug, PartialEq, Eq, Structural)]
pub struct SliceRange {
    pub start: usize,
    pub end: usize,
}

/// A to-open range `[0, end)`: the leading sub-sequence up to `end`.
#[derive(Clone, Copy, Debug, PartialEq, Eq, Structural)]
pub struct SliceRangeTo {
    pub end: usize,
}

/// A from-open range `[start, len)`: the trailing sub-sequence from `start`
/// to the container's own extent.
#[derive(Clone, Copy, Debug, PartialEq, Eq, Structural)]
pub struct SliceRangeFrom {
    pub start: usize,
}

/// The full range `[0, len)`: the whole container.
#[derive(Clone, Copy, Debug, PartialEq, Eq, Structural)]
pub struct SliceRangeFull;

} // verus!
