//! Classification of integer representations.
//!
//! A type models some computer-representable subset of the integers either
//! with a size fixed at compile time ([`FixedSizeIntSubset`]) or with storage
//! that grows with the magnitude ([`ArbitrarySizeIntSubset`]). Every such
//! type carries a specification-level interpretation of its values as
//! mathematical integers, through which all digit contracts are stated.

use vstd::prelude::*;

verus! {

/// A type that models some subset of the integers representable on the
/// computer. The spec-level interpretation `spec_int_value` says which
/// integer a value stands for; every digit operation's contract is phrased
/// over it.
pub trait IntSubset {
    /// The mathematical integer that this value stands for.
    spec fn spec_int_value(&self) -> int;
}

/// An [`IntSubset`] whose values all have the same size, known at compile
/// time.
pub trait FixedSizeIntSubset: IntSubset + Sized {

}

/// An [`IntSubset`] whose values' size is unknown at compile time and grows
/// with the magnitude.
pub trait ArbitrarySizeIntSubset: IntSubset {

}

impl IntSubset for u8 {
    open spec fn spec_int_value(&self) -> int {
        *self as int
    }
}

impl FixedSizeIntSubset for u8 {

}

impl IntSubset for u16 {
    open spec fn spec_int_value(&self) -> int {
        *self as int
    }
}

impl FixedSizeIntSubset for u16 {

}

impl IntSubset for u32 {
    open spec fn spec_int_value(&self) -> int {
        *self as int
    }
}

impl FixedSizeIntSubset for u32 {

}

impl IntSubset for u64 {
    open spec fn spec_int_value(&self) -> int {
        *self as int
    }
}

impl FixedSizeIntSubset for u64 {

}

impl IntSubset for u128 {
    open spec fn spec_int_value(&self) -> int {
        *self as int
    }
}

impl FixedSizeIntSubset for u128 {

}

impl IntSubset for usize {
    open spec fn spec_int_value(&self) -> int {
        *self as int
    }
}

impl FixedSizeIntSubset for usize {

}

impl IntSubset for i8 {
    open spec fn spec_int_value(&self) -> int {
        *self as int
    }
}

impl FixedSizeIntSubset for i8 {

}

impl IntSubset for i16 {
    open spec fn spec_int_value(&self) -> int {
        *self as int
    }
}

impl FixedSizeIntSubset for i16 {

}

impl IntSubset for i32 {
    open spec fn spec_int_value(&self) -> int {
        *self as int
    }
}

impl FixedSizeIntSubset for i32 {

}

impl IntSubset for i64 {
    open spec fn spec_int_value(&self) -> int {
        *self as int
    }
}

impl FixedSizeIntSubset for i64 {

}

impl IntSubset for i128 {
    open spec fn spec_int_value(&self) -> int {
        *self as int
    }
}

impl FixedSizeIntSubset for i128 {

}

impl IntSubset for isize {
    open spec fn spec_int_value(&self) -> int {
        *self as int
    }
}

impl FixedSizeIntSubset for isize {

}

} // verus!
