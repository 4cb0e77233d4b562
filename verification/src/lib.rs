//! Complex numbers over IEEE 754 binary64 components.
//!
//! The components of a value are held as bit patterns, and the library
//! provides every operation that is exact on patterns, with its proof:
//! construction and access, conjugation, the identity elements and their
//! tests, equality, and the textual form.

pub mod binary64;
pub mod complex;
pub mod laws;

pub use crate::complex::{Complex, Components};
