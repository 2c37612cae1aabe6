//! Quaternions over IEEE 754 single-precision components, held as bit patterns.
//!
//! The library owns everything about a quaternion that is exact: how the four
//! components are stored and taken apart, sign changes, the layout of the
//! left-multiplication matrix, comparisons, and the normalization policy.
//! Rounded arithmetic (sums, products, quotients, square roots) is the
//! caller's; where an operation depends on it, the caller passes the rounded
//! results in as bit patterns.

pub mod exact;
pub mod layout;
pub mod quaternion;
pub mod scalar;

pub use quaternion::Quaternion;
