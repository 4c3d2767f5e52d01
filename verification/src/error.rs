//! The ways in which solving ends without an answer.
use vstd::prelude::*;

verus! {

/// Why no roots were computed. Each of these ends a run at once: nothing is
/// reported after it.
#[derive(Clone, Copy, Debug, PartialEq, Eq, Structural)]
pub enum SolveError {
    /// One of the arguments is not a number.
    MalformedArgument,
    /// There are fewer or more than three arguments.
    WrongArgumentCount,
    /// The discriminant is not strictly positive: the equation has one
    /// repeated root or no real root, and neither is computed.
    NoTwoRoots,
}

} // verus!
