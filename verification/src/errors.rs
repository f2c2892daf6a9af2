//! The error cases of model construction and grid interpolation.

use vstd::prelude::*;

verus! {

/// Why a model could not be built or a grid could not be interpolated.
#[derive(Clone, Copy, Debug, PartialEq, Eq, Structural, Hash)]
pub enum RbfError {
    /// The kernel name is not one of the supported kernels.
    UnknownKernel,
    /// Automatic epsilon derivation was asked for with fewer than two
    /// observation points.
    DegenerateEpsilon,
    /// The dense linear system has no unique solution (coincident points or a
    /// pathological kernel/epsilon choice).
    SingularSystem,
    /// A grid resolution of zero was requested on some axis.
    InvalidResolution,
}

impl RbfError {
    /// A short name of the error, for reporting.
    pub fn describe(&self) -> (r: &'static str)
        ensures
            (*self is UnknownKernel) ==> r@ == "unknown kernel name"@,
            (*self is DegenerateEpsilon) ==> r@ == "cannot derive epsilon from fewer than two points"@,
            (*self is SingularSystem) ==> r@ == "singular system: no unique weight vector"@,
            (*self is InvalidResolution) ==> r@ == "grid resolution must be positive on both axes"@,
    {
        match self {
            RbfError::UnknownKernel => "unknown kernel name",
            RbfError::DegenerateEpsilon => "cannot derive epsilon from fewer than two points",
            RbfError::SingularSystem => "singular system: no unique weight vector",
            RbfError::InvalidResolution => "grid resolution must be positive on both axes",
        }
    }
}

} // verus!
