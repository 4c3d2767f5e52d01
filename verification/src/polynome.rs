//! The polynomial `a*x^2 + b*x + c` and the validation of its roots.
use vstd::prelude::*;
use crate::arithmetic::{computes, is_deterministic, is_total, Operation};
use crate::double::{Double, Number};
use crate::error::SolveError;

verus! {

/// The coefficients of `a*x^2 + b*x + c`. The leading coefficient is taken to
/// be different from zero; nothing here tests it.
#[derive(Clone, Copy, Debug, PartialEq, Eq, Structural)]
pub struct SecondPolynome {
    pub a: Double,
    pub b: Double,
    pub c: Double,
}

/// `residue` is what the unit gives for `a*x*x + b*x + c`, computed as
/// `((a*x)*x + b*x) + c`.
pub open spec fn is_residue<U: Fn(Operation) -> Double>(
    unit: &U,
    polynome: SecondPolynome,
    x: Double,
    residue: Double,
) -> bool {
    exists|a_x: Double, a_x_x: Double, b_x: Double, sum: Double|
        {
            &&& computes(unit, Operation::Multiply(polynome.a, x), a_x)
            &&& #[trigger] computes(unit, Operation::Multiply(a_x, x), a_x_x)
            &&& computes(unit, Operation::Multiply(polynome.b, x), b_x)
            &&& #[trigger] computes(unit, Operation::Add(a_x_x, b_x), sum)
            &&& computes(unit, Operation::Add(sum, polynome.c), residue)
        }
}

/// Substituting `x` into the polynomial gives `0.0`, bit for bit.
pub open spec fn leaves_no_residue<U: Fn(Operation) -> Double>(
    unit: &U,
    polynome: SecondPolynome,
    x: Double,
) -> bool {
    exists|residue: Double| #[trigger]
        is_residue(unit, polynome, x, residue) && residue@ == Number::zero()
}

/// `valid` is the verdict on `roots`: both were substituted into the
/// polynomial, and the verdict is that both residues are `0.0` bit for bit.
pub open spec fn is_validation<U: Fn(Operation) -> Double>(
    unit: &U,
    polynome: SecondPolynome,
    roots: (Double, Double),
    valid: bool,
) -> bool {
    exists|first: Double, second: Double|
        {
            &&& #[trigger] is_residue(unit, polynome, roots.0, first)
            &&& #[trigger] is_residue(unit, polynome, roots.1, second)
            &&& valid == (first@ == Number::zero() && second@ == Number::zero())
        }
}

/// Whenever a pair of roots passes validation, substituting either of them
/// into the polynomial gave `0.0`, bit for bit.
pub proof fn lemma_valid_roots_leave_no_residue<U: Fn(Operation) -> Double>(
    unit: &U,
    polynome: SecondPolynome,
    roots: (Double, Double),
)
    requires
        is_validation(unit, polynome, roots, true),
    ensures
        leaves_no_residue(unit, polynome, roots.0),
        leaves_no_residue(unit, polynome, roots.1),
{
}

/// With a unit that gives one result for each operation, a polynomial has one
/// residue at each point.
pub proof fn lemma_residue_is_unique<U: Fn(Operation) -> Double>(
    unit: &U,
    polynome: SecondPolynome,
    x: Double,
    first: Double,
    second: Double,
)
    requires
        is_deterministic(unit),
        is_residue(unit, polynome, x, first),
        is_residue(unit, polynome, x, second),
    ensures
        first == second,
{
}

/// With a unit that gives one result for each operation, a pair of roots has
/// one verdict.
pub proof fn lemma_validation_is_unique<U: Fn(Operation) -> Double>(
    unit: &U,
    polynome: SecondPolynome,
    roots: (Double, Double),
    first: bool,
    second: bool,
)
    requires
        is_deterministic(unit),
        is_validation(unit, polynome, roots, first),
        is_validation(unit, polynome, roots, second),
    ensures
        first == second,
{
    let (a, b) = choose|a: Double, b: Double|
        {
            &&& #[trigger] is_residue(unit, polynome, roots.0, a)
            &&& #[trigger] is_residue(unit, polynome, roots.1, b)
            &&& first == (a@ == Number::zero() && b@ == Number::zero())
        };
    let (c, d) = choose|c: Double, d: Double|
        {
            &&& #[trigger] is_residue(unit, polynome, roots.0, c)
            &&& #[trigger] is_residue(unit, polynome, roots.1, d)
            &&& second == (c@ == Number::zero() && d@ == Number::zero())
        };
    lemma_residue_is_unique(unit, polynome, roots.0, a, c);
    lemma_residue_is_unique(unit, polynome, roots.1, b, d);
}

impl SecondPolynome {
    /// What a list of arguments stands for. Each argument is the number that
    /// it was read as, or `None` where it could not be read as one. Three
    /// numbers are the coefficients `a`, `b`, `c`, in this order. An argument
    /// that is no number is reported before a wrong count is.
    pub open spec fn of_arguments(arguments: Seq<Option<Double>>) -> Result<
        SecondPolynome,
        SolveError,
    > {
        if exists|i: int| 0 <= i < arguments.len() && arguments[i] is None {
            Err(SolveError::MalformedArgument)
        } else if arguments.len() != 3 {
            Err(SolveError::WrongArgumentCount)
        } else {
            Ok(
                SecondPolynome {
                    a: arguments[0]->Some_0,
                    b: arguments[1]->Some_0,
                    c: arguments[2]->Some_0,
                },
            )
        }
    }

    /// The polynomial `a*x^2 + b*x + c`.
    pub fn new(a: Double, b: Double, c: Double) -> (polynome: SecondPolynome)
        ensures
            polynome == (SecondPolynome { a, b, c }),
    {
        SecondPolynome { a, b, c }
    }

    /// The polynomial that the arguments of a run name, or the reason why they
    /// name none.
    pub fn from_arguments(arguments: &Vec<Option<Double>>) -> (r: Result<SecondPolynome, SolveError>)
        ensures
            r == Self::of_arguments(arguments@),
    {
        let mut numbers: Vec<Double> = Vec::new();
        let mut i: usize = 0;
        while i < arguments.len()
            invariant
                i <= arguments.len(),
                numbers@.len() == i,
                forall|j: int| 0 <= j < i ==> #[trigger] arguments@[j] == Some(numbers@[j]),
            decreases arguments.len() - i,
        {
            match arguments[i] {
                Some(number) => {
                    numbers.push(number);
                },
                None => {
                    return Err(SolveError::MalformedArgument);
                },
            }
            i += 1;
        }
        if numbers.len() != 3 {
            return Err(SolveError::WrongArgumentCount);
        }
        Ok(SecondPolynome::new(numbers[0], numbers[1], numbers[2]))
    }

    /// The value of the polynomial at `x`.
    pub fn residue<U>(&self, x: Double, unit: &U) -> (residue: Double) where
        U: Fn(Operation) -> Double,
        requires
            is_total(unit),
        ensures
            is_residue(unit, *self, x, residue),
    {
        let a_x = unit(Operation::Multiply(self.a, x));
        let a_x_x = unit(Operation::Multiply(a_x, x));
        let b_x = unit(Operation::Multiply(self.b, x));
        let sum = unit(Operation::Add(a_x_x, b_x));
        let residue = unit(Operation::Add(sum, self.c));
        proof {
            // The intermediate results are the witnesses.
            assert(computes(unit, Operation::Multiply(self.a, x), a_x));
            assert(computes(unit, Operation::Multiply(a_x, x), a_x_x));
            assert(computes(unit, Operation::Multiply(self.b, x), b_x));
            assert(computes(unit, Operation::Add(a_x_x, b_x), sum));
            assert(computes(unit, Operation::Add(sum, self.c), residue));
        }
        residue
    }

    /// Substitutes each of the two roots into the polynomial and accepts the
    /// pair only if both residues are `0.0` bit for bit. Nothing is allowed for
    /// rounding: roots that are right up to the last bit are refused when the
    /// residue is not exactly zero, and so is a residue of negative zero.
    pub fn is_two_roots_valid<U>(&self, roots: (Double, Double), unit: &U) -> (valid: bool) where
        U: Fn(Operation) -> Double,
        requires
            is_total(unit),
        ensures
            is_validation(unit, *self, roots, valid),
            valid ==> leaves_no_residue(unit, *self, roots.0),
            valid ==> leaves_no_residue(unit, *self, roots.1),
    {
        let first_solution = self.residue(roots.0, unit);
        let second_solution = self.residue(roots.1, unit);
        first_solution.is_exactly_zero() && second_solution.is_exactly_zero()
    }
}

} // verus!
