//! The ways in which a decomposition can fail.

use vstd::prelude::*;

verus! {

/// Why no result could be produced.
#[derive(Clone, Copy, Debug, PartialEq, Eq, Structural)]
pub enum ProjectionError {
    /// Two operands do not share the ambient dimension, or a matrix was
    /// described with a number of entries that does not fit its shape.
    ShapeMismatch,
    /// The least-squares solve produced no coefficients at the configured
    /// tolerance: the spanning set is degenerate or spans nothing.
    SingularSystem,
    /// The collaborator answered with something other than what was asked
    /// for: a reply of the wrong kind, or a matrix of the wrong shape.
    UnexpectedReply,
}

} // verus!
