//! Double-precision numbers, held by their bits.
//!
//! The library never computes with a double. It carries one around as the 64
//! bits of its IEEE 754 binary64 encoding, reads from those bits how the number
//! compares with zero, and leaves every arithmetic operation to the caller's
//! arithmetic unit.
use vstd::prelude::*;

verus! {

/// The sign bit: the highest of the 64.
pub const SIGN_BIT: u64 = 0x8000_0000_0000_0000;

/// The bits of positive infinity: the eleven exponent bits set, nothing else.
pub const INFINITY_BITS: u64 = 0x7ff0_0000_0000_0000;

/// Two to the power 52: the number of values that the fraction field can take,
/// and the bit that a normal number's significand has above its fraction.
pub const HIDDEN_BIT: u64 = 0x0010_0000_0000_0000;

/// A double-precision number as its IEEE 754 binary64 encoding: from the top,
/// one sign bit, eleven exponent bits and fifty-two fraction bits.
#[derive(Clone, Copy, Debug, PartialEq, Eq, Structural)]
pub struct Double {
    pub bits: u64,
}

/// What the bits of a double stand for.
pub enum Number {
    /// Not a number: the result of an operation that has none, such as the
    /// square root of a negative number.
    Nan,
    /// Positive or negative infinity.
    Infinite { negative: bool },
    /// The number `significand * 2^exponent`, or its opposite where `negative`
    /// holds. Zero has a sign too.
    Finite { negative: bool, significand: nat, exponent: int },
}

impl Number {
    /// Positive zero, the number that the literal `0.0` denotes.
    pub open spec fn zero() -> Number {
        Number::Finite { negative: false, significand: 0, exponent: -1074 }
    }

    /// Strictly greater than zero. Infinity is; neither zero nor NaN is.
    pub open spec fn is_positive(self) -> bool {
        match self {
            Number::Nan => false,
            Number::Infinite { negative } => !negative,
            Number::Finite { negative, significand, exponent } => !negative && significand > 0,
        }
    }

    /// Strictly less than zero.
    pub open spec fn is_negative(self) -> bool {
        match self {
            Number::Nan => false,
            Number::Infinite { negative } => negative,
            Number::Finite { negative, significand, exponent } => negative && significand > 0,
        }
    }

    /// Equal to zero, as numbers are compared: zero of either sign is.
    pub open spec fn is_zero(self) -> bool {
        match self {
            Number::Nan => false,
            Number::Infinite { negative } => false,
            Number::Finite { negative, significand, exponent } => significand == 0,
        }
    }
}

/// The sign field: whether the highest bit is set.
pub open spec fn sign_field(bits: u64) -> bool {
    bits >= SIGN_BIT
}

/// The exponent field: the eleven bits below the sign bit, as a number.
pub open spec fn exponent_field(bits: u64) -> nat {
    ((bits / HIDDEN_BIT) % 2048) as nat
}

/// The fraction field: the lowest fifty-two bits, as a number.
pub open spec fn fraction_field(bits: u64) -> nat {
    (bits % HIDDEN_BIT) as nat
}

impl View for Double {
    type V = Number;

    /// Decodes the bits. An exponent field of all ones marks infinity and NaN;
    /// one of zero marks zero and the subnormal numbers, which have no hidden
    /// bit; every other encodes a normal number.
    open spec fn view(&self) -> Number {
        let negative = sign_field(self.bits);
        let exponent = exponent_field(self.bits);
        let fraction = fraction_field(self.bits);
        if exponent == 2047 {
            if fraction == 0 {
                Number::Infinite { negative }
            } else {
                Number::Nan
            }
        } else if exponent == 0 {
            Number::Finite { negative, significand: fraction, exponent: -1074 }
        } else {
            Number::Finite {
                negative,
                significand: HIDDEN_BIT as nat + fraction,
                exponent: exponent - 1075,
            }
        }
    }
}

impl Double {
    /// The double `2.0`.
    pub open spec fn spec_two() -> Double {
        Double { bits: 0x4000_0000_0000_0000 }
    }

    /// The double `4.0`.
    pub open spec fn spec_four() -> Double {
        Double { bits: 0x4010_0000_0000_0000 }
    }

    /// The double `2.0`, which is `2^52 * 2^-51`.
    #[verifier::when_used_as_spec(spec_two)]
    pub fn two() -> (r: Double)
        ensures
            r == Double::spec_two(),
            r@ == (Number::Finite { negative: false, significand: HIDDEN_BIT as nat, exponent: -51 }),
    {
        Double { bits: 0x4000_0000_0000_0000 }
    }

    /// The double `4.0`, which is `2^52 * 2^-50`.
    #[verifier::when_used_as_spec(spec_four)]
    pub fn four() -> (r: Double)
        ensures
            r == Double::spec_four(),
            r@ == (Number::Finite { negative: false, significand: HIDDEN_BIT as nat, exponent: -50 }),
    {
        Double { bits: 0x4010_0000_0000_0000 }
    }

    /// Whether the number is strictly greater than zero, as `> 0.0` tells of a
    /// double.
    pub fn is_positive(&self) -> (r: bool)
        ensures
            r == self@.is_positive(),
    {
        0 < self.bits && self.bits <= INFINITY_BITS
    }

    /// Whether the number is strictly less than zero, as `< 0.0` tells of a
    /// double.
    pub fn is_negative(&self) -> (r: bool)
        ensures
            r == self@.is_negative(),
    {
        SIGN_BIT < self.bits && self.bits - SIGN_BIT <= INFINITY_BITS
    }

    /// Whether the number equals zero, as `== 0.0` tells of a double: true of
    /// positive and of negative zero.
    pub fn is_zero(&self) -> (r: bool)
        ensures
            r == self@.is_zero(),
    {
        self.bits == 0 || self.bits == SIGN_BIT
    }

    /// Whether the double is `0.0` bit for bit. Negative zero equals zero and is
    /// not exactly zero.
    pub fn is_exactly_zero(&self) -> (r: bool)
        ensures
            r == (self@ == Number::zero()),
    {
        self.bits == 0
    }
}

/// Of a double that is a number, exactly one of positive, zero and negative
/// holds; of NaN none does.
pub proof fn lemma_sign_trichotomy(x: Double)
    ensures
        x@ is Nan ==> !x@.is_positive() && !x@.is_zero() && !x@.is_negative(),
        !(x@ is Nan) ==> (x@.is_positive() || x@.is_zero() || x@.is_negative()),
        !(x@.is_positive() && x@.is_zero()),
        !(x@.is_positive() && x@.is_negative()),
        !(x@.is_zero() && x@.is_negative()),
{
}

} // verus!
