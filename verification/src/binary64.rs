//! IEEE 754 binary64 numbers, handled as their 64-bit patterns.
//!
//! A pattern is a `u64`: one sign bit, eleven exponent bits, fifty-two
//! fraction bits. This module says which number each pattern denotes and
//! provides the operations on patterns that need no rounding: the tests for
//! NaN and for zero, the comparison for equality, and the change of sign.

use vstd::arithmetic::mul::*;
use vstd::arithmetic::power2::*;
use vstd::prelude::*;

verus! {

/// The pattern whose only set bit is the sign bit (negative zero).
pub const SIGN_BIT: u64 = 0x8000_0000_0000_0000;

/// The pattern of positive infinity: every exponent bit set, no fraction bit.
pub const INFINITY: u64 = 0x7ff0_0000_0000_0000;

/// The pattern of the number one.
pub const ONE: u64 = 0x3ff0_0000_0000_0000;

/// Two to the power 52: the weight of the lowest exponent bit, and the
/// leading bit that a normal number's significand has without storing it.
pub const HIDDEN_BIT: u64 = 0x0010_0000_0000_0000;

/// What a pattern denotes.
pub enum Value {
    /// Not a number.
    Nan,
    /// Positive or negative infinity.
    Infinite { negative: bool },
    /// The number `units * 2^-1074`. Every finite binary64 number is such a
    /// multiple of the smallest positive one; both zeros have `units == 0`.
    Finite { units: int },
}

impl Value {
    /// The value with the opposite sign.
    pub open spec fn negated(self) -> Value {
        match self {
            Value::Nan => Value::Nan,
            Value::Infinite { negative } => Value::Infinite { negative: !negative },
            Value::Finite { units } => Value::Finite { units: -units },
        }
    }
}

/// Whether the sign bit is set.
pub open spec fn is_negative(bits: u64) -> bool {
    bits >= SIGN_BIT
}

/// The pattern without its sign bit.
pub open spec fn magnitude(bits: u64) -> u64 {
    if bits >= SIGN_BIT {
        (bits - SIGN_BIT) as u64
    } else {
        bits
    }
}

/// The exponent field, between 0 and 2047.
pub open spec fn exponent(bits: u64) -> nat {
    (magnitude(bits) / HIDDEN_BIT) as nat
}

/// The fraction field, below two to the power 52.
pub open spec fn fraction(bits: u64) -> nat {
    (magnitude(bits) % HIDDEN_BIT) as nat
}

/// The absolute value that a finite pattern denotes, in units of `2^-1074`.
/// With exponent field 0 the number is subnormal and the fraction counts the
/// units; otherwise the significand has the hidden bit in front and is scaled
/// by the exponent.
pub open spec fn units(bits: u64) -> nat {
    if exponent(bits) == 0 {
        fraction(bits)
    } else {
        ((HIDDEN_BIT + fraction(bits)) * pow2((exponent(bits) - 1) as nat)) as nat
    }
}

/// The value that a pattern denotes.
pub open spec fn value(bits: u64) -> Value {
    if magnitude(bits) > INFINITY {
        Value::Nan
    } else if magnitude(bits) == INFINITY {
        Value::Infinite { negative: is_negative(bits) }
    } else if is_negative(bits) {
        Value::Finite { units: -units(bits) }
    } else {
        Value::Finite { units: units(bits) as int }
    }
}

/// Whether the pattern denotes zero, of either sign.
pub open spec fn denotes_zero(bits: u64) -> bool {
    value(bits) == (Value::Finite { units: 0 })
}

/// Equality of two patterns as numbers: neither is NaN and both denote the
/// same value. NaN equals nothing, itself included; the two zeros are equal.
pub open spec fn same_number(a: u64, b: u64) -> bool {
    !(value(a) is Nan) && value(a) == value(b)
}

/// The pattern with the sign bit flipped and all other bits kept.
pub open spec fn negation(bits: u64) -> u64 {
    if bits >= SIGN_BIT {
        (bits - SIGN_BIT) as u64
    } else {
        (bits + SIGN_BIT) as u64
    }
}

/// Among finite patterns, a larger magnitude denotes a larger absolute value.
pub proof fn lemma_units_increase(a: u64, b: u64)
    requires
        magnitude(a) < magnitude(b) < INFINITY,
    ensures
        units(a) < units(b),
{
    let ea = exponent(a);
    let eb = exponent(b);
    let fa = fraction(a);
    let fb = fraction(b);
    assert(ea <= eb);
    if ea == eb {
        if ea != 0 {
            lemma_pow2_pos((ea - 1) as nat);
            lemma_mul_strict_inequality(
                HIDDEN_BIT + fa,
                HIDDEN_BIT + fb,
                pow2((ea - 1) as nat) as int,
            );
        }
    } else {
        let pb = pow2((eb - 1) as nat);
        lemma_pow2_pos((eb - 1) as nat);
        // The smallest value with exponent field `eb`.
        assert(HIDDEN_BIT * pb <= units(b)) by {
            lemma_mul_inequality(HIDDEN_BIT as int, HIDDEN_BIT + fb, pb as int);
        }
        if ea == 0 {
            assert(HIDDEN_BIT * 1 <= HIDDEN_BIT * pb) by {
                lemma_mul_left_inequality(HIDDEN_BIT as int, 1, pb as int);
            }
        } else {
            let pa = pow2((ea - 1) as nat);
            lemma_pow2_pos((ea - 1) as nat);
            assert(units(a) < 2 * HIDDEN_BIT * pa) by {
                lemma_mul_strict_inequality(HIDDEN_BIT + fa, 2 * HIDDEN_BIT, pa as int);
            }
            assert(2 * pa == pow2(ea)) by {
                lemma_pow2_unfold(ea);
            }
            assert(2 * HIDDEN_BIT * pa == HIDDEN_BIT * pow2(ea)) by {
                lemma_mul_is_associative(HIDDEN_BIT as int, 2, pa as int);
            }
            assert(pow2(ea) <= pb) by {
                if ea < eb - 1 {
                    lemma_pow2_strictly_increases(ea, (eb - 1) as nat);
                }
            }
            assert(HIDDEN_BIT * pow2(ea) <= HIDDEN_BIT * pb) by {
                lemma_mul_left_inequality(HIDDEN_BIT as int, pow2(ea) as int, pb as int);
            }
        }
    }
}

/// Only the two zero patterns denote zero.
pub proof fn lemma_denotes_zero(bits: u64)
    ensures
        denotes_zero(bits) <==> magnitude(bits) == 0,
{
    if 0 < magnitude(bits) < INFINITY {
        lemma_units_increase(0, bits);
    }
}

/// Two patterns denote the same number only if they are the same pattern or
/// are both zeros.
pub proof fn lemma_same_number(a: u64, b: u64)
    ensures
        same_number(a, b) <==> magnitude(a) <= INFINITY && magnitude(b) <= INFINITY && (a == b
            || (magnitude(a) == 0 && magnitude(b) == 0)),
{
    lemma_denotes_zero(a);
    lemma_denotes_zero(b);
    if magnitude(a) < INFINITY && magnitude(b) < INFINITY {
        if magnitude(a) < magnitude(b) {
            lemma_units_increase(a, b);
        }
        if magnitude(b) < magnitude(a) {
            lemma_units_increase(b, a);
        }
    }
}

/// Flipping the sign bit negates the value denoted.
pub proof fn lemma_negation_value(bits: u64)
    ensures
        value(negation(bits)) == value(bits).negated(),
        negation(negation(bits)) == bits,
{
    assert(magnitude(negation(bits)) == magnitude(bits));
}

/// The pattern `ONE` denotes one, which is `2^1074` units.
pub proof fn lemma_one_value()
    ensures
        value(ONE) == (Value::Finite { units: pow2(1074) as int }),
{
    assert(exponent(ONE) == 1023);
    assert(fraction(ONE) == 0);
    lemma2_to64_rest();
    lemma_pow2_adds(52, 1022);
}

/// Whether the pattern denotes no number.
pub fn is_nan(bits: u64) -> (r: bool)
    ensures
        r == (value(bits) is Nan),
{
    assert(bits & 0x7fff_ffff_ffff_ffff == if bits >= 0x8000_0000_0000_0000 {
        (bits - 0x8000_0000_0000_0000) as u64
    } else {
        bits
    }) by (bit_vector);
    (bits & 0x7fff_ffff_ffff_ffff) > INFINITY
}

/// Whether the pattern denotes zero, of either sign.
pub fn is_zero(bits: u64) -> (r: bool)
    ensures
        r == denotes_zero(bits),
{
    proof {
        lemma_denotes_zero(bits);
    }
    bits == 0 || bits == SIGN_BIT
}

/// Compares two patterns as numbers.
pub fn equal(a: u64, b: u64) -> (r: bool)
    ensures
        r == same_number(a, b),
{
    proof {
        lemma_same_number(a, b);
    }
    if is_nan(a) || is_nan(b) {
        false
    } else {
        a == b || (is_zero(a) && is_zero(b))
    }
}

/// Changes the sign of the number denoted, by flipping the sign bit. This is
/// exact for every pattern, NaN included.
pub fn negate(bits: u64) -> (r: u64)
    ensures
        r == negation(bits),
        value(r) == value(bits).negated(),
{
    proof {
        lemma_negation_value(bits);
    }
    assert(bits ^ 0x8000_0000_0000_0000 == if bits >= 0x8000_0000_0000_0000 {
        (bits - 0x8000_0000_0000_0000) as u64
    } else {
        (bits + 0x8000_0000_0000_0000) as u64
    }) by (bit_vector);
    bits ^ SIGN_BIT
}

} // verus!
