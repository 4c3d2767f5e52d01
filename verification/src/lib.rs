//! The two real roots of `a*x^2 + b*x + c = 0` by the discriminant, in double
//! precision.
//!
//! A run reads three coefficients, computes the discriminant `b^2 - 4*a*c`,
//! refuses to go on unless it is strictly positive, computes the two roots
//! `(-b - sqrt(delta)) / (2*a)` and `(-b + sqrt(delta)) / (2*a)`, substitutes
//! them into the polynomial, and reports them only where both residues are
//! `0.0` bit for bit.
//!
//! The library holds a double as its 64 bits ([`double`]) and decides from the
//! bits alone how a number compares with zero. It does no arithmetic on
//! doubles: every sum, product, quotient and square root is asked of the
//! caller's arithmetic unit ([`arithmetic`]), and the contracts say which
//! operations were asked for and what was decided from their results.
//!
//! - [`polynome`]: the coefficients, reading them from arguments, validation
//! - [`delta`]: the discriminant and its sign
//! - [`solver`]: the two roots, and a whole run
//! - [`report`]: the text of a solution
//! - [`error`]: why a run ends without roots
pub mod arithmetic;
pub mod delta;
pub mod double;
pub mod error;
pub mod polynome;
pub mod report;
pub mod solver;
