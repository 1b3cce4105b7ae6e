//! Compile-time classification of integer representations (fixed-size versus
//! arbitrary-size) together with base-10 digit operations on them: last digit,
//! digit sum, little-endian digit vector, and canonical decimal string.

pub mod digits;
pub mod est;
pub mod ints;
pub mod num_sys;
pub mod ranges;
