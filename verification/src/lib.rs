//! Scattered-data interpolation with radial basis functions (RBF): given
//! irregularly placed sample points, each carrying a scalar value, fit a
//! smooth surface that reproduces the samples and evaluate it anywhere in a
//! two-dimensional domain, typically over a regular grid.
//!
//! Every scalar is a double-precision value carried by its bit pattern (see
//! [`scalar::Scalar`]); the scalar width is fixed at 64 bits, the library is
//! not generic over it. Each floating-point operation is named by an
//! uninterpreted function of the operand bits, and any NaN result is
//! canonicalized to one quiet NaN, so the contracts pin every result down to
//! the exact bit pattern that the computation produces.

pub mod bbox;
pub mod errors;
pub mod rbf;
pub mod scalar;
pub mod utils;

pub use bbox::Bbox;
pub use errors::RbfError;
pub use rbf::{Kernel, Rbf, rbf_interpolation};
pub use scalar::Scalar;
pub use utils::PtValue;
