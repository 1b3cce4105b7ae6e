//! Estimates of a quantity: absent, exact, or confined to a closed interval.

use vstd::prelude::*;

verus! {

/// A pair of bounds delimiting a closed interval.
pub struct Bounds<T> {
    pub lower_bound: T,
    pub upper_bound: T,
}

/// An estimate that is either absent, exact, or a closed interval.
pub enum OptionalClosedIntvlEstimate<T> {
    Absent,
    Exact(T),
    ClosedIntvl(Bounds<T>),
}

} // verus!
