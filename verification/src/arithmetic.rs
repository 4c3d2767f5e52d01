//! The arithmetic unit: the caller's double-precision arithmetic.
//!
//! A function of this library that needs a sum, a product or a square root
//! asks the unit for it, one operation at a time. Its contract names the
//! operations that were asked for and how the result of one became the operand
//! of the next; what a result is, the unit alone says.
use vstd::prelude::*;
use crate::double::Double;

verus! {

/// One operation of double-precision arithmetic, with its operands in the
/// order in which they are written: `Subtract(x, y)` is `x - y`, `Divide(x, y)`
/// is `x / y`.
#[derive(Clone, Copy, Debug, PartialEq, Eq, Structural)]
pub enum Operation {
    /// `-x`
    Negate(Double),
    /// `x + y`
    Add(Double, Double),
    /// `x - y`
    Subtract(Double, Double),
    /// `x * y`
    Multiply(Double, Double),
    /// `x / y`
    Divide(Double, Double),
    /// The square root of `x`.
    SquareRoot(Double),
}

/// The unit performs every operation on every operand: it has no precondition.
pub open spec fn is_total<U: Fn(Operation) -> Double>(unit: &U) -> bool {
    forall|operation: Operation| #[trigger] unit.requires((operation,))
}

/// `result` is what the unit gives for `operation`.
pub open spec fn computes<U: Fn(Operation) -> Double>(
    unit: &U,
    operation: Operation,
    result: Double,
) -> bool {
    unit.ensures((operation,), result)
}

/// The unit gives one result for each operation: asked twice for the same, it
/// answers the same. Machine arithmetic does.
pub open spec fn is_deterministic<U: Fn(Operation) -> Double>(unit: &U) -> bool {
    forall|operation: Operation, first: Double, second: Double|
        #[trigger] computes(unit, operation, first) && #[trigger] computes(unit, operation, second)
            ==> first == second
}

} // verus!
