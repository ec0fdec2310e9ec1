use vstd::prelude::*;

verus! {

/// Why a mesh was not built.
#[derive(Copy, Clone, Debug, PartialEq, Eq, Structural)]
pub enum MeshError {
    /// The detail level asked for is finer than `MAX_DETAIL`.
    InvalidDetail,
    /// A coordinate list does not have one entry per vertex.
    LengthMismatch,
}

} // verus!
