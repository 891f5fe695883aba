use vstd::prelude::*;

verus! {

/// Contract violations reported by the store and the geometry operations.
#[derive(Debug, Clone, Copy, PartialEq, Eq, Structural)]
pub enum CubeError {
    /// A facelet index at or beyond the number of facelets.
    IndexOutOfRange,
    /// A local index outside the nine positions of a face.
    InvalidLocalIndex,
    /// An axis selector outside the three spatial axes.
    InvalidAxis,
}

} // verus!
