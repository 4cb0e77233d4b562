//! What holds of every complex value, proved over the components that the
//! operations of [`crate::complex`] are specified with.

use crate::binary64::{lemma_denotes_zero, lemma_negation_value, lemma_one_value};
use crate::binary64::{lemma_same_number, magnitude, same_number, value, Value, ONE};
use crate::complex::{Complex, Components};
use vstd::arithmetic::power2::pow2;
use vstd::prelude::*;

verus! {

/// A value built from two patterns holds exactly these two: reading the real
/// and the imaginary component gives each back bit for bit, whatever the
/// patterns are.
pub proof fn accessors_round_trip(c: Complex, re: u64, im: u64)
    requires
        c@ == (Components { re, im }),
    ensures
        c@.re == re,
        c@.im == im,
{
}

/// The additive identity passes the test for zero, the multiplicative
/// identity passes the test for one, and neither passes the other's.
pub proof fn identities_pass_their_tests()
    ensures
        Components::zero().is_zero(),
        Components::one().is_one(),
        !Components::zero().is_one(),
        !Components::one().is_zero(),
{
    lemma_same_number(ONE, ONE);
    lemma_same_number(0, ONE);
    lemma_denotes_zero(ONE);
}

/// The identity elements and the imaginary unit denote the numbers they are
/// named after. One is `2^1074` of the units in which finite values are
/// counted.
pub proof fn identities_denote_their_numbers()
    ensures
        value(Components::zero().re) == (Value::Finite { units: 0 }),
        value(Components::zero().im) == (Value::Finite { units: 0 }),
        value(Components::one().re) == (Value::Finite { units: pow2(1074) as int }),
        value(Components::one().im) == (Value::Finite { units: 0 }),
        value(Components::i().re) == (Value::Finite { units: 0 }),
        value(Components::i().im) == (Value::Finite { units: pow2(1074) as int }),
{
    lemma_one_value();
}

/// The test for zero is equality with the additive identity: both components
/// compare equal to zero.
pub proof fn zero_test_is_equality(x: Components)
    ensures
        x.is_zero() <==> x.equals(Components::zero()),
{
}

/// The test for one in terms of patterns: the real component is the pattern
/// of one and the imaginary component is a zero of either sign.
pub proof fn one_test_on_patterns(x: Components)
    ensures
        x.is_one() <==> x.re == ONE && magnitude(x.im) == 0,
{
    lemma_same_number(x.re, ONE);
    lemma_same_number(x.im, 0);
}

/// Conjugating twice gives the value back bit for bit. Under the equality of
/// numbers this holds as well, unless a component is NaN, which equals
/// nothing.
pub proof fn conjugate_is_involution(x: Components)
    ensures
        x.conjugate().conjugate() == x,
        !x.has_nan() ==> x.conjugate().conjugate().equals(x),
{
    lemma_negation_value(x.im);
}

/// Conjugation keeps the real component and negates the number that the
/// imaginary component denotes.
pub proof fn conjugate_negates_imaginary(x: Components)
    ensures
        value(x.conjugate().re) == value(x.re),
        value(x.conjugate().im) == value(x.im).negated(),
        x.conjugate().is_zero() == x.is_zero(),
        x.conjugate().has_nan() == x.has_nan(),
{
    lemma_negation_value(x.im);
}

/// Equality of complex values is symmetric, and a value equals itself unless
/// a component is NaN.
pub proof fn equality_is_symmetric(x: Components, y: Components)
    ensures
        x.equals(y) == y.equals(x),
        x.equals(x) == !x.has_nan(),
{
    assert(same_number(x.re, y.re) == same_number(y.re, x.re));
    assert(same_number(x.im, y.im) == same_number(y.im, x.im));
}

/// Equality of complex values is transitive.
pub proof fn equality_is_transitive(x: Components, y: Components, z: Components)
    requires
        x.equals(y),
        y.equals(z),
    ensures
        x.equals(z),
{
}

/// Values that are equal as numbers differ at most in the signs of zero
/// components.
pub proof fn equal_values_share_patterns(x: Components, y: Components)
    requires
        x.equals(y),
    ensures
        x.re == y.re || (magnitude(x.re) == 0 && magnitude(y.re) == 0),
        x.im == y.im || (magnitude(x.im) == 0 && magnitude(y.im) == 0),
{
    lemma_same_number(x.re, y.re);
    lemma_same_number(x.im, y.im);
}

} // verus!
