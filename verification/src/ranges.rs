//! Range descriptions: bounds, the kind of each bound, and a range that
//! carries both.

use vstd::prelude::*;

verus! {

/// A pair of bounds delimiting a range.
pub struct Bounds<T> {
    pub lower_bound: T,
    pub upper_bound: T,
}

/// How one end of a range is delimited.
#[derive(PartialEq, Eq)]
pub enum BoundKind {
    Open,
    Closed,
    Unbounded,
}

/// The kinds of the two ends of a range.
#[derive(PartialEq, Eq)]
pub struct BoundsKinds {
    pub lower_bound_kind: BoundKind,
    pub upper_bound_kind: BoundKind,
}

/// A range: a pair of bounds together with the kind of each bound.
pub struct Range<T> {
    pub bounds: Bounds<T>,
    pub bounds_kinds: BoundsKinds,
}

} // verus!
