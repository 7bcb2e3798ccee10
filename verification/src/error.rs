//! Failure kinds reported by the palette engine.

use vstd::prelude::*;

verus! {

/// Why an engine operation was refused.  A refused operation leaves the
/// engine exactly as it was.
#[derive(Clone, Copy, Debug, PartialEq, Eq, Structural)]
pub enum PolineError {
    /// Fewer than two anchor colors were supplied, or an operation would
    /// leave fewer than two behind.
    InsufficientAnchors,
    /// A points-per-segment count too small to describe a segment (a segment
    /// carries both of its endpoints, so at least two points are needed).
    InvalidPointsPerSegment,
    /// An anchor index at or past the end of the anchor list.
    IndexOutOfRange,
}

impl PolineError {
    /// A short description of the failure.
    pub fn message(&self) -> (r: &'static str)
        ensures
            (*self is InsufficientAnchors) ==> r@ == "at least two anchor colors are required"@,
            (*self is InvalidPointsPerSegment) ==> r@ == "points per segment must be at least two"@,
            (*self is IndexOutOfRange) ==> r@ == "anchor index out of range"@,
    {
        match self {
            PolineError::InsufficientAnchors => "at least two anchor colors are required",
            PolineError::InvalidPointsPerSegment => "points per segment must be at least two",
            PolineError::IndexOutOfRange => "anchor index out of range",
        }
    }
}

} // verus!
