//! The discriminant `b^2 - 4*a*c`, and what its sign tells.
use vstd::prelude::*;
use crate::arithmetic::{computes, is_deterministic, is_total, Operation};
use crate::double::{Double, Number};
use crate::polynome::SecondPolynome;

verus! {

/// The discriminant of a polynomial. It is computed once and never changed.
#[derive(Clone, Copy, Debug, PartialEq, Eq, Structural)]
pub struct Delta(pub Double);

impl View for Delta {
    type V = Number;

    open spec fn view(&self) -> Number {
        self.0@
    }
}

/// `delta` is what the unit gives for `b*b - 4*a*c`, computed as
/// `b*b - (4*a)*c`.
pub open spec fn is_discriminant<U: Fn(Operation) -> Double>(
    unit: &U,
    polynome: SecondPolynome,
    delta: Delta,
) -> bool {
    exists|square: Double, four_a: Double, four_a_c: Double|
        {
            &&& computes(unit, Operation::Multiply(polynome.b, polynome.b), square)
            &&& computes(unit, Operation::Multiply(Double::four(), polynome.a), four_a)
            &&& #[trigger] computes(unit, Operation::Multiply(four_a, polynome.c), four_a_c)
            &&& #[trigger] computes(unit, Operation::Subtract(square, four_a_c), delta.0)
        }
}

/// With a unit that gives one result for each operation, a polynomial has one
/// discriminant.
pub proof fn lemma_discriminant_is_unique<U: Fn(Operation) -> Double>(
    unit: &U,
    polynome: SecondPolynome,
    first: Delta,
    second: Delta,
)
    requires
        is_deterministic(unit),
        is_discriminant(unit, polynome, first),
        is_discriminant(unit, polynome, second),
    ensures
        first == second,
{
}

impl Delta {
    /// The discriminant of `polynome`.
    pub fn new<U>(polynome: &SecondPolynome, unit: &U) -> (delta: Delta) where
        U: Fn(Operation) -> Double,
        requires
            is_total(unit),
        ensures
            is_discriminant(unit, *polynome, delta),
    {
        let square = unit(Operation::Multiply(polynome.b, polynome.b));
        let four_a = unit(Operation::Multiply(Double::four(), polynome.a));
        let four_a_c = unit(Operation::Multiply(four_a, polynome.c));
        let delta = Delta(unit(Operation::Subtract(square, four_a_c)));
        proof {
            // The intermediate results are the witnesses.
            assert(computes(unit, Operation::Multiply(polynome.b, polynome.b), square));
            assert(computes(unit, Operation::Multiply(Double::four(), polynome.a), four_a));
            assert(computes(unit, Operation::Multiply(four_a, polynome.c), four_a_c));
            assert(computes(unit, Operation::Subtract(square, four_a_c), delta.0));
        }
        delta
    }

    /// The square root of the discriminant.
    pub fn sqrt<U>(&self, unit: &U) -> (root: Double) where
        U: Fn(Operation) -> Double,
        requires
            is_total(unit),
        ensures
            computes(unit, Operation::SquareRoot(self.0), root),
    {
        unit(Operation::SquareRoot(self.0))
    }

    /// Strictly positive: the equation has two distinct real roots.
    pub fn is_positive(&self) -> (r: bool)
        ensures
            r == self@.is_positive(),
    {
        self.0.is_positive()
    }

    /// Zero, of either sign: the equation has one repeated root.
    pub fn is_equal_zero(&self) -> (r: bool)
        ensures
            r == self@.is_zero(),
    {
        self.0.is_zero()
    }

    /// Strictly negative: the equation has no real root.
    pub fn is_negative(&self) -> (r: bool)
        ensures
            r == self@.is_negative(),
    {
        self.0.is_negative()
    }
}

} // verus!
