//! Reals, and the arithmetic on them that the library is handed.
//!
//! A real is an IEEE-754 double, held as its bit pattern. What can be read off
//! the bits is decided here: sign, order, clamping to the finite range and the
//! integer part. Everything that has to round is done by the caller's
//! arithmetic, a function from an [`Operation`] and two reals to a real.

use vstd::prelude::*;
use vstd::arithmetic::power2::{
    lemma2_to64, lemma2_to64_rest, lemma_pow2_strictly_increases, lemma_pow2_unfold, pow2,
};

verus! {

/// The bit that holds the sign.
pub const SIGN: u64 = 0x8000_0000_0000_0000;

/// The bits of positive infinity; the magnitudes above it are not numbers.
pub const INFINITY: u64 = 0x7FF0_0000_0000_0000;

/// The bits of the largest finite real.
pub const LARGEST: u64 = 0x7FEF_FFFF_FFFF_FFFF;

/// The bits of 1.
pub const ONE: u64 = 0x3FF0_0000_0000_0000;

/// The bits of the ratio of a circle's circumference to its diameter.
pub const PI: u64 = 0x4009_21FB_5444_2D18;

/// The bits of the ratio of a circle's circumference to its radius.
pub const TAU: u64 = 0x4019_21FB_5444_2D18;

/// The bits of the base of the natural logarithm.
pub const E: u64 = 0x4005_BF0A_8B14_5769;

/// The bits of one millionth: how far apart two reals may lie and still
/// count as equal.
pub const TOLERANCE: u64 = 0x3EB0_C6F7_A0B5_ED8D;

/// The number of fraction bits of a double.
pub const FRACTION_BITS: u64 = 52;

/// Two to the power of [`FRACTION_BITS`].
pub const HIDDEN_BIT: u64 = 0x0010_0000_0000_0000;

/// The exponent field of 1.
pub const BIAS: u64 = 1023;

/// A real number: the bit pattern of an IEEE-754 double.
#[derive(Debug, Clone, Copy, PartialEq, Eq, Structural)]
pub struct Real {
    pub bits: u64,
}

/// What the caller's arithmetic is asked to compute. The operations of one
/// operand ignore the second.
#[derive(Debug, Clone, Copy, PartialEq, Eq, Structural)]
pub enum Operation {
    /// The real nearest to a 64-bit integer; the bits of the first operand
    /// are the integer in two's complement.
    FromInteger,
    Reciprocal,
    Add,
    Subtract,
    Multiply,
    Divide,
    Remainder,
    Power,
    Sqrt,
    Sin,
    Cos,
    Tan,
    Exp,
    Log,
    Max,
    Min,
}

impl Real {
    /// The bits without the sign.
    pub open spec fn magnitude(self) -> u64 {
        if self.bits >= SIGN {
            (self.bits - SIGN) as u64
        } else {
            self.bits
        }
    }

    pub open spec fn is_negative(self) -> bool {
        self.bits >= SIGN
    }

    pub open spec fn is_nan(self) -> bool {
        self.magnitude() > INFINITY
    }

    pub open spec fn is_infinite(self) -> bool {
        self.magnitude() == INFINITY
    }

    pub open spec fn is_finite(self) -> bool {
        self.magnitude() < INFINITY
    }

    /// The place of a number in the order of the reals: of two numbers the
    /// smaller has the smaller ordinal, and the two zeros share one.
    pub open spec fn ordinal(self) -> int {
        if self.is_negative() {
            -(self.magnitude() as int)
        } else {
            self.magnitude() as int
        }
    }

    /// Whether both are numbers and `self` is the smaller.
    pub open spec fn below(self, other: Real) -> bool {
        !self.is_nan() && !other.is_nan() && self.ordinal() < other.ordinal()
    }

    /// Whether both are numbers and `self` is not the larger.
    pub open spec fn not_above(self, other: Real) -> bool {
        !self.is_nan() && !other.is_nan() && self.ordinal() <= other.ordinal()
    }

    /// The real with the other sign.
    pub open spec fn negated(self) -> Real {
        if self.bits >= SIGN {
            Real { bits: (self.bits - SIGN) as u64 }
        } else {
            Real { bits: (self.bits + SIGN) as u64 }
        }
    }

    /// The real without its sign.
    pub open spec fn absolute(self) -> Real {
        Real { bits: self.magnitude() }
    }

    /// The nearest real of the finite range; what is not a number stays.
    pub open spec fn clamped(self) -> Real {
        if self.is_infinite() {
            if self.is_negative() {
                Real { bits: (SIGN + LARGEST) as u64 }
            } else {
                Real { bits: LARGEST }
            }
        } else {
            self
        }
    }

    /// The exponent field.
    pub open spec fn exponent(self) -> int {
        self.magnitude() as int / HIDDEN_BIT as int
    }

    /// The fraction field.
    pub open spec fn fraction(self) -> int {
        self.magnitude() as int % HIDDEN_BIT as int
    }

    /// The integer part of the absolute value, for a finite real: the
    /// significand scaled by the power of two that the exponent names, and
    /// what lies behind the binary point cut off.
    pub open spec fn whole_magnitude(self) -> int {
        let shift = self.exponent() - BIAS as int - FRACTION_BITS as int;
        let significand = HIDDEN_BIT as int + self.fraction();
        if self.exponent() < BIAS as int {
            0
        } else if shift >= 0 {
            significand * pow2(shift as nat) as int
        } else {
            significand / pow2((-shift) as nat) as int
        }
    }

    /// The integer part as a 64-bit integer: rounded toward zero, the nearest
    /// bound where it does not fit, and zero for what is not a number.
    pub open spec fn whole(self) -> int {
        if self.is_nan() {
            0
        } else if self.exponent() >= BIAS as int + 63 {
            if self.is_negative() {
                i64::MIN as int
            } else {
                i64::MAX as int
            }
        } else if self.is_negative() {
            -self.whole_magnitude()
        } else {
            self.whole_magnitude()
        }
    }

    pub fn from_bits(bits: u64) -> (value: Real)
        ensures
            value.bits == bits,
    {
        Real { bits }
    }

    pub fn to_bits(self) -> (bits: u64)
        ensures
            bits == self.bits,
    {
        self.bits
    }

    pub fn zero() -> (value: Real)
        ensures
            value.bits == 0,
    {
        Real { bits: 0 }
    }

    pub fn one() -> (value: Real)
        ensures
            value.bits == ONE,
    {
        Real { bits: ONE }
    }

    fn sign_free(self) -> (bits: u64)
        ensures
            bits == self.magnitude(),
    {
        if self.bits >= SIGN {
            self.bits - SIGN
        } else {
            self.bits
        }
    }

    pub fn is_not_a_number(self) -> (yes: bool)
        ensures
            yes == self.is_nan(),
    {
        self.sign_free() > INFINITY
    }

    pub fn negate(self) -> (value: Real)
        ensures
            value == self.negated(),
    {
        if self.bits >= SIGN {
            Real { bits: self.bits - SIGN }
        } else {
            Real { bits: self.bits + SIGN }
        }
    }

    pub fn abs(self) -> (value: Real)
        ensures
            value == self.absolute(),
    {
        Real { bits: self.sign_free() }
    }

    /// Brings an infinity back to the largest finite real of its sign.
    pub fn clamp(self) -> (value: Real)
        ensures
            value == self.clamped(),
            value.is_finite() || value.is_nan(),
            self.is_finite() ==> value == self,
    {
        if self.sign_free() == INFINITY {
            if self.bits >= SIGN {
                Real { bits: SIGN + LARGEST }
            } else {
                Real { bits: LARGEST }
            }
        } else {
            self
        }
    }

    pub fn less(self, other: Real) -> (yes: bool)
        ensures
            yes == self.below(other),
    {
        let a: u64 = self.sign_free();
        let b: u64 = other.sign_free();
        if a > INFINITY || b > INFINITY {
            false
        } else if self.bits >= SIGN {
            if other.bits >= SIGN {
                a > b
            } else {
                a > 0 || b > 0
            }
        } else {
            if other.bits >= SIGN {
                false
            } else {
                a < b
            }
        }
    }

    pub fn greater(self, other: Real) -> (yes: bool)
        ensures
            yes == other.below(self),
    {
        other.less(self)
    }

    pub fn at_most(self, other: Real) -> (yes: bool)
        ensures
            yes == self.not_above(other),
    {
        let a: u64 = self.sign_free();
        let b: u64 = other.sign_free();
        if a > INFINITY || b > INFINITY {
            false
        } else if self.bits >= SIGN {
            if other.bits >= SIGN {
                a >= b
            } else {
                true
            }
        } else {
            if other.bits >= SIGN {
                a == 0 && b == 0
            } else {
                a <= b
            }
        }
    }
}

/// Two to the power of `e`, for an `e` up to 62.
fn power_of_two(e: u64) -> (p: u64)
    requires
        e <= 62,
    ensures
        p == pow2(e as nat),
        1 <= p <= 0x4000_0000_0000_0000,
{
    let mut p: u64 = 1;
    let mut i: u64 = 0;
    proof {
        lemma2_to64();
        lemma2_to64_rest();
    }
    while i < e
        invariant
            i <= e <= 62,
            p == pow2(i as nat),
            pow2(62) == 0x4000_0000_0000_0000,
            1 <= p,
        decreases e - i,
    {
        proof {
            lemma_pow2_unfold((i + 1) as nat);
            if i + 1 < 62 {
                lemma_pow2_strictly_increases((i + 1) as nat, 62);
            }
        }
        p = p * 2;
        i = i + 1;
    }
    p
}

impl Real {
    /// The integer part as a 64-bit integer: rounded toward zero, the
    /// nearest bound where it does not fit, and zero for what is not a
    /// number.
    pub fn to_integer(self) -> (n: i64)
        ensures
            n == self.whole(),
    {
        let magnitude: u64 = self.sign_free();
        let negative: bool = self.bits >= SIGN;
        if magnitude > INFINITY {
            return 0;
        }
        let exponent: u64 = magnitude / HIDDEN_BIT;
        let fraction: u64 = magnitude % HIDDEN_BIT;
        if exponent < BIAS {
            return 0;
        }
        if exponent >= BIAS + 63 {
            return if negative {
                i64::MIN
            } else {
                i64::MAX
            };
        }
        let significand: u64 = HIDDEN_BIT + fraction;
        let whole: u64 = if exponent >= BIAS + FRACTION_BITS {
            let scale: u64 = power_of_two(exponent - BIAS - FRACTION_BITS);
            proof {
                lemma2_to64();
                if exponent - BIAS - FRACTION_BITS < 10 {
                    lemma_pow2_strictly_increases((exponent - BIAS - FRACTION_BITS) as nat, 10);
                }
                assert(scale <= 1024);
                assert(significand * scale < 0x8000_0000_0000_0000) by (nonlinear_arith)
                    requires
                        significand < 0x0020_0000_0000_0000,
                        scale <= 1024,
                ;
            }
            significand * scale
        } else {
            let scale: u64 = power_of_two(BIAS + FRACTION_BITS - exponent);
            significand / scale
        };
        if negative {
            -(whole as i64)
        } else {
            whole as i64
        }
    }
}

/// Of two numbers at most one lies below the other, and none below itself.
pub proof fn below_is_strict(a: Real, b: Real)
    ensures
        !a.below(a),
        a.below(b) ==> !b.below(a),
{
}

/// Clamping leaves nothing infinite, and changes nothing that is clamped.
pub proof fn clamped_is_idempotent(a: Real)
    ensures
        !a.clamped().is_infinite(),
        a.clamped().clamped() == a.clamped(),
{
}

/// Negating twice gives the real back, and keeps the magnitude.
pub proof fn negated_twice(a: Real)
    ensures
        a.negated().negated() == a,
        a.negated().magnitude() == a.magnitude(),
        a.negated().is_negative() != a.is_negative(),
{
}

/// What the arithmetic `calc` gives for an operation and its operands.
pub open spec fn result_of<F: Fn(Operation, Real, Real) -> Real>(
    calc: F,
    op: Operation,
    a: Real,
    b: Real,
) -> Real {
    choose|r: Real| calc.ensures((op, a, b), r)
}

/// Whether `calc` can stand for an arithmetic: it takes every operation on
/// every pair of reals, and gives one result for each.
pub open spec fn lawful<F: Fn(Operation, Real, Real) -> Real>(calc: F) -> bool {
    &&& forall|op: Operation, a: Real, b: Real| #[trigger] calc.requires((op, a, b))
    &&& forall|op: Operation, a: Real, b: Real, r: Real| #[trigger]
        calc.ensures((op, a, b), r) ==> r == result_of(calc, op, a, b)
}

/// Has `calc` compute one operation.
pub fn apply<F: Fn(Operation, Real, Real) -> Real>(calc: &F, op: Operation, a: Real, b: Real) -> (r:
    Real)
    requires
        lawful(*calc),
    ensures
        r == result_of(*calc, op, a, b),
        calc.ensures((op, a, b), r),
{
    calc(op, a, b)
}

/// The real nearest to a 64-bit integer, as `calc` gives it.
pub open spec fn real_of_integer<F: Fn(Operation, Real, Real) -> Real>(calc: F, n: i64) -> Real {
    result_of(calc, Operation::FromInteger, Real { bits: n as u64 }, Real { bits: 0 })
}

/// Has `calc` turn a 64-bit integer into a real.
pub fn convert<F: Fn(Operation, Real, Real) -> Real>(calc: &F, n: i64) -> (r: Real)
    requires
        lawful(*calc),
    ensures
        r == real_of_integer(*calc, n),
{
    apply(calc, Operation::FromInteger, Real { bits: n as u64 }, Real { bits: 0 })
}

/// Whether `a` and `b` lie within the tolerance of each other.
pub open spec fn close<F: Fn(Operation, Real, Real) -> Real>(calc: F, a: Real, b: Real) -> bool {
    result_of(calc, Operation::Subtract, a, b).absolute().not_above(Real { bits: TOLERANCE })
}

/// Whether `a` and `b` are numbers that lie further apart than the tolerance.
pub open spec fn apart<F: Fn(Operation, Real, Real) -> Real>(calc: F, a: Real, b: Real) -> bool {
    Real { bits: TOLERANCE }.below(result_of(calc, Operation::Subtract, a, b).absolute())
}

/// Equality of reals: their difference is at most the tolerance.
pub fn nearly_equal<F: Fn(Operation, Real, Real) -> Real>(calc: &F, a: Real, b: Real) -> (yes: bool)
    requires
        lawful(*calc),
    ensures
        yes == close(*calc, a, b),
{
    apply(calc, Operation::Subtract, a, b).abs().at_most(Real { bits: TOLERANCE })
}

/// Inequality of reals: their difference is more than the tolerance.
pub fn clearly_apart<F: Fn(Operation, Real, Real) -> Real>(calc: &F, a: Real, b: Real) -> (yes:
    bool)
    requires
        lawful(*calc),
    ensures
        yes == apart(*calc, a, b),
{
    Real { bits: TOLERANCE }.less(apply(calc, Operation::Subtract, a, b).abs())
}

/// Where the difference of a real and itself is a zero, the real equals
/// itself; where the difference of two reals changes only its sign when they
/// change places, equality does not depend on their order.
pub proof fn equality_within_tolerance<F: Fn(Operation, Real, Real) -> Real>(
    calc: F,
    a: Real,
    b: Real,
)
    ensures
        result_of(calc, Operation::Subtract, a, a).magnitude() == 0 ==> close(calc, a, a),
        result_of(calc, Operation::Subtract, a, b).magnitude() == result_of(
            calc,
            Operation::Subtract,
            b,
            a,
        ).magnitude() ==> close(calc, a, b) == close(calc, b, a),
{
}

/// Where the difference of two reals is a number, they are unequal exactly
/// when they are not equal.
pub proof fn inequality_is_negation<F: Fn(Operation, Real, Real) -> Real>(
    calc: F,
    a: Real,
    b: Real,
)
    requires
        !result_of(calc, Operation::Subtract, a, b).is_nan(),
    ensures
        apart(calc, a, b) == !close(calc, a, b),
{
}

} // verus!
