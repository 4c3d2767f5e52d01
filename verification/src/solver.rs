//! The two roots of a polynomial with a strictly positive discriminant, and a
//! whole run from the arguments to the solution.
use vstd::prelude::*;
use crate::arithmetic::{computes, is_deterministic, is_total, Operation};
use crate::delta::{is_discriminant, lemma_discriminant_is_unique, Delta};
use crate::double::Double;
use crate::error::SolveError;
use crate::polynome::{
    is_validation, leaves_no_residue, lemma_validation_is_unique, SecondPolynome,
};

verus! {

/// `roots` is what the unit gives for `(-b - sqrt(delta)) / (2*a)` and
/// `(-b + sqrt(delta)) / (2*a)`, in this order. The square root and the divisor
/// `2*a` are computed once and serve both roots.
pub open spec fn are_roots<U: Fn(Operation) -> Double>(
    unit: &U,
    polynome: SecondPolynome,
    delta: Delta,
    roots: (Double, Double),
) -> bool {
    exists|
        divider: Double,
        delta_sqrt: Double,
        minus_b_1: Double,
        x1_numerator: Double,
        minus_b_2: Double,
        x2_numerator: Double,
    |
        {
            &&& #[trigger] computes(unit, Operation::Multiply(Double::two(), polynome.a), divider)
            &&& computes(unit, Operation::SquareRoot(delta.0), delta_sqrt)
            &&& computes(unit, Operation::Negate(polynome.b), minus_b_1)
            &&& #[trigger] computes(unit, Operation::Subtract(minus_b_1, delta_sqrt), x1_numerator)
            &&& computes(unit, Operation::Divide(x1_numerator, divider), roots.0)
            &&& computes(unit, Operation::Negate(polynome.b), minus_b_2)
            &&& #[trigger] computes(unit, Operation::Add(minus_b_2, delta_sqrt), x2_numerator)
            &&& computes(unit, Operation::Divide(x2_numerator, divider), roots.1)
        }
}

/// The two roots of `polynome`, whose discriminant is `delta`: first the one
/// with `- sqrt(delta)`, then the one with `+ sqrt(delta)`. They are computed
/// only where the discriminant is strictly positive. Where it is zero,
/// negative or NaN the answer is `SolveError::NoTwoRoots`: the repeated root
/// is not computed either.
pub fn two_root<U>(delta: &Delta, polynome: &SecondPolynome, unit: &U) -> (r: Result<
    (Double, Double),
    SolveError,
>) where
    U: Fn(Operation) -> Double,
    requires
        is_total(unit),
    ensures
        match r {
            Ok(roots) => delta@.is_positive() && are_roots(unit, *polynome, *delta, roots),
            Err(error) => !delta@.is_positive() && error == SolveError::NoTwoRoots,
        },
{
    if !delta.is_positive() {
        return Err(SolveError::NoTwoRoots);
    }
    let divider = unit(Operation::Multiply(Double::two(), polynome.a));
    let delta_sqrt = delta.sqrt(unit);

    let minus_b_1 = unit(Operation::Negate(polynome.b));
    let x1_numerator = unit(Operation::Subtract(minus_b_1, delta_sqrt));
    let x1 = unit(Operation::Divide(x1_numerator, divider));

    let minus_b_2 = unit(Operation::Negate(polynome.b));
    let x2_numerator = unit(Operation::Add(minus_b_2, delta_sqrt));
    let x2 = unit(Operation::Divide(x2_numerator, divider));

    proof {
        // The intermediate results are the witnesses.
        assert(computes(unit, Operation::Multiply(Double::two(), polynome.a), divider));
        assert(computes(unit, Operation::SquareRoot(delta.0), delta_sqrt));
        assert(computes(unit, Operation::Negate(polynome.b), minus_b_1));
        assert(computes(unit, Operation::Subtract(minus_b_1, delta_sqrt), x1_numerator));
        assert(computes(unit, Operation::Divide(x1_numerator, divider), x1));
        assert(computes(unit, Operation::Negate(polynome.b), minus_b_2));
        assert(computes(unit, Operation::Add(minus_b_2, delta_sqrt), x2_numerator));
        assert(computes(unit, Operation::Divide(x2_numerator, divider), x2));
    }
    Ok((x1, x2))
}

/// What a run reports: the polynomial, its discriminant and its two roots,
/// which passed validation.
#[derive(Clone, Copy, Debug, PartialEq, Eq, Structural)]
pub struct Solution {
    pub polynome: SecondPolynome,
    pub delta: Delta,
    pub x1: Double,
    pub x2: Double,
}

/// `outcome` is how a run on a polynomial with the discriminant `delta` ends:
/// with `SolveError::NoTwoRoots` unless `delta` is strictly positive; else with
/// the solution where the roots pass validation, and with nothing where they do
/// not.
pub open spec fn is_verdict<U: Fn(Operation) -> Double>(
    unit: &U,
    polynome: SecondPolynome,
    delta: Delta,
    outcome: Result<Option<Solution>, SolveError>,
) -> bool {
    if delta@.is_positive() {
        exists|roots: (Double, Double), valid: bool|
            {
                &&& #[trigger] are_roots(unit, polynome, delta, roots)
                &&& #[trigger] is_validation(unit, polynome, roots, valid)
                &&& outcome == Ok::<Option<Solution>, SolveError>(
                    if valid {
                        Some(Solution { polynome, delta, x1: roots.0, x2: roots.1 })
                    } else {
                        None
                    },
                )
            }
    } else {
        outcome == Err::<Option<Solution>, SolveError>(SolveError::NoTwoRoots)
    }
}

/// `outcome` is how a run on `arguments` ends: with the error of the arguments
/// where they name no polynomial; else as the discriminant decides.
pub open spec fn is_outcome<U: Fn(Operation) -> Double>(
    unit: &U,
    arguments: Seq<Option<Double>>,
    outcome: Result<Option<Solution>, SolveError>,
) -> bool {
    match SecondPolynome::of_arguments(arguments) {
        Err(error) => outcome == Err::<Option<Solution>, SolveError>(error),
        Ok(polynome) => exists|delta: Delta| #[trigger]
            is_discriminant(unit, polynome, delta) && is_verdict(unit, polynome, delta, outcome),
    }
}

/// With a unit that gives one result for each operation, a polynomial with a
/// given discriminant has one pair of roots.
pub proof fn lemma_roots_are_unique<U: Fn(Operation) -> Double>(
    unit: &U,
    polynome: SecondPolynome,
    delta: Delta,
    first: (Double, Double),
    second: (Double, Double),
)
    requires
        is_deterministic(unit),
        are_roots(unit, polynome, delta, first),
        are_roots(unit, polynome, delta, second),
    ensures
        first == second,
{
}

/// With a unit that gives one result for each operation, a run on given
/// arguments has one outcome: the contract of `solve` leaves nothing open.
pub proof fn lemma_outcome_is_unique<U: Fn(Operation) -> Double>(
    unit: &U,
    arguments: Seq<Option<Double>>,
    first: Result<Option<Solution>, SolveError>,
    second: Result<Option<Solution>, SolveError>,
)
    requires
        is_deterministic(unit),
        is_outcome(unit, arguments, first),
        is_outcome(unit, arguments, second),
    ensures
        first == second,
{
    if let Ok(polynome) = SecondPolynome::of_arguments(arguments) {
        let d1 = choose|delta: Delta| #[trigger]
            is_discriminant(unit, polynome, delta) && is_verdict(unit, polynome, delta, first);
        let d2 = choose|delta: Delta| #[trigger]
            is_discriminant(unit, polynome, delta) && is_verdict(unit, polynome, delta, second);
        lemma_discriminant_is_unique(unit, polynome, d1, d2);
        if d1@.is_positive() {
            let (r1, v1) = choose|roots: (Double, Double), valid: bool|
                {
                    &&& #[trigger] are_roots(unit, polynome, d1, roots)
                    &&& #[trigger] is_validation(unit, polynome, roots, valid)
                    &&& first == Ok::<Option<Solution>, SolveError>(
                        if valid {
                            Some(Solution { polynome, delta: d1, x1: roots.0, x2: roots.1 })
                        } else {
                            None
                        },
                    )
                };
            let (r2, v2) = choose|roots: (Double, Double), valid: bool|
                {
                    &&& #[trigger] are_roots(unit, polynome, d1, roots)
                    &&& #[trigger] is_validation(unit, polynome, roots, valid)
                    &&& second == Ok::<Option<Solution>, SolveError>(
                        if valid {
                            Some(Solution { polynome, delta: d1, x1: roots.0, x2: roots.1 })
                        } else {
                            None
                        },
                    )
                };
            lemma_roots_are_unique(unit, polynome, d1, r1, r2);
            lemma_validation_is_unique(unit, polynome, r1, v1, v2);
        }
    }
}

/// A whole run: reads the polynomial from the arguments, computes its
/// discriminant, then its two roots, and validates them.
///
/// `Ok(Some(solution))` is to be reported. `Ok(None)` says that the roots did
/// not pass validation: the run ends normally and reports nothing. An error
/// ends the run at once.
pub fn solve<U>(arguments: &Vec<Option<Double>>, unit: &U) -> (outcome: Result<
    Option<Solution>,
    SolveError,
>) where
    U: Fn(Operation) -> Double,
    requires
        is_total(unit),
    ensures
        is_outcome(unit, arguments@, outcome),
        outcome matches Ok(Some(solution)) ==> {
            &&& solution.delta@.is_positive()
            &&& leaves_no_residue(unit, solution.polynome, solution.x1)
            &&& leaves_no_residue(unit, solution.polynome, solution.x2)
        },
{
    let polynome = match SecondPolynome::from_arguments(arguments) {
        Ok(polynome) => polynome,
        Err(error) => {
            return Err(error);
        },
    };
    let delta = Delta::new(&polynome, unit);
    let roots = match two_root(&delta, &polynome, unit) {
        Ok(roots) => roots,
        Err(error) => {
            return Err(error);
        },
    };
    let valid = polynome.is_two_roots_valid(roots, unit);
    if valid {
        Ok(Some(Solution { polynome, delta, x1: roots.0, x2: roots.1 }))
    } else {
        Ok(None)
    }
}

} // verus!
