use vstd::prelude::*;

verus! {

/// Failure conditions surfaced by the sampling operations.
///
/// A range request with an upper bound that is not strictly greater than
/// the lower bound is a caller error, reported rather than clamped.
#[derive(Clone, Copy, Debug, PartialEq, Eq, Structural)]
pub enum RngError {
    InvalidRange,
}

} // verus!
