//! The complex value type.
//!
//! A `Complex` holds its real and imaginary components as binary64 bit
//! patterns (see [`crate::binary64`]). Everything here is exact on patterns:
//! building and reading values, conjugation, the tests for the additive and
//! the multiplicative identity, equality, and the choice of textual form.

use crate::binary64::{denotes_zero, equal, negate, negation, same_number, value, Value, ONE};
use vstd::prelude::*;
use vstd::std_specs::cmp::PartialEqSpecImpl;

verus! {

/// The mathematical content of a [`Complex`]: the patterns of its two
/// components.
pub struct Components {
    pub re: u64,
    pub im: u64,
}

impl Components {
    /// The additive identity, `0 + 0i`.
    pub open spec fn zero() -> Components {
        Components { re: 0, im: 0 }
    }

    /// The multiplicative identity, `1 + 0i`.
    pub open spec fn one() -> Components {
        Components { re: ONE, im: 0 }
    }

    /// The imaginary unit, `0 + 1i`.
    pub open spec fn i() -> Components {
        Components { re: 0, im: ONE }
    }

    /// The same real component and the imaginary component with its sign
    /// flipped.
    pub open spec fn conjugate(self) -> Components {
        Components { re: self.re, im: negation(self.im) }
    }

    /// Whether either component is NaN.
    pub open spec fn has_nan(self) -> bool {
        value(self.re) is Nan || value(self.im) is Nan
    }

    /// Component-wise equality as numbers: exact, with no tolerance. A value
    /// with a NaN component equals nothing; zeros of either sign are equal.
    pub open spec fn equals(self, other: Components) -> bool {
        same_number(self.re, other.re) && same_number(self.im, other.im)
    }

    /// Whether both components are zero, of either sign.
    pub open spec fn is_zero(self) -> bool {
        denotes_zero(self.re) && denotes_zero(self.im)
    }

    /// Whether the value equals `1 + 0i`.
    pub open spec fn is_one(self) -> bool {
        self.equals(Components::one())
    }

    /// The textual form, given the decimal texts of the two components. A
    /// zero imaginary component leaves the real text alone; otherwise a zero
    /// real component leaves the imaginary text with the marker `i`;
    /// otherwise both are joined by `" + "`. A negative imaginary component
    /// keeps its own sign behind the `+`.
    pub open spec fn rendering(self, re_text: Seq<char>, im_text: Seq<char>) -> Seq<char> {
        if denotes_zero(self.im) {
            re_text
        } else if denotes_zero(self.re) {
            im_text + seq!['i']
        } else {
            re_text + seq![' ', '+', ' '] + im_text + seq!['i']
        }
    }
}

/// A complex number with binary64 components, each held as its bit pattern.
#[derive(Clone, Copy, Debug)]
pub struct Complex {
    re: u64,
    im: u64,
}

impl View for Complex {
    type V = Components;

    closed spec fn view(&self) -> Components {
        Components { re: self.re, im: self.im }
    }
}

impl Complex {
    /// Builds a value from the patterns of its real and imaginary components.
    pub fn new(re: u64, im: u64) -> (c: Complex)
        ensures
            c@ == (Components { re, im }),
    {
        Complex { re, im }
    }

    /// The pattern of the real component.
    pub fn re(&self) -> (r: u64)
        ensures
            r == self@.re,
    {
        self.re
    }

    /// The pattern of the imaginary component.
    pub fn im(&self) -> (r: u64)
        ensures
            r == self@.im,
    {
        self.im
    }

    /// Overwrites the real component.
    pub fn set_re(&mut self, re: u64)
        ensures
            final(self)@ == (Components { re, im: old(self)@.im }),
    {
        self.re = re;
    }

    /// Overwrites the imaginary component.
    pub fn set_im(&mut self, im: u64)
        ensures
            final(self)@ == (Components { re: old(self)@.re, im }),
    {
        self.im = im;
    }

    /// The complex conjugate. The receiver is left as it is.
    pub fn conjugate(&self) -> (c: Complex)
        ensures
            c@ == self@.conjugate(),
    {
        Complex::new(self.re, negate(self.im))
    }

    /// The imaginary unit.
    pub fn i() -> (c: Complex)
        ensures
            c@ == Components::i(),
    {
        Complex { re: 0, im: ONE }
    }

    /// The imaginary unit, as a constant that lives for the whole program.
    pub fn i_ref() -> (c: &'static Complex)
        ensures
            c@ == Components::i(),
    {
        &Complex { re: 0, im: ONE }
    }

    /// The additive identity.
    pub fn zero() -> (c: Complex)
        ensures
            c@ == Components::zero(),
            c@.is_zero(),
    {
        Complex { re: 0, im: 0 }
    }

    /// Whether the value is the additive identity: both components are zero.
    pub fn is_zero(&self) -> (r: bool)
        ensures
            r == self@.is_zero(),
    {
        crate::binary64::is_zero(self.re) && crate::binary64::is_zero(self.im)
    }

    /// Makes the value the additive identity, whatever it was.
    pub fn set_zero(&mut self)
        ensures
            final(self)@ == Components::zero(),
            final(self)@.is_zero(),
    {
        self.re = 0;
        self.im = 0;
    }

    /// The multiplicative identity.
    pub fn one() -> (c: Complex)
        ensures
            c@ == Components::one(),
            c@.is_one(),
    {
        Complex { re: ONE, im: 0 }
    }

    /// Whether the value equals the multiplicative identity.
    pub fn is_one(&self) -> (r: bool)
        ensures
            r == self@.is_one(),
    {
        *self == Complex::one()
    }

    /// Makes the value the multiplicative identity, whatever it was.
    pub fn set_one(&mut self)
        ensures
            final(self)@ == Components::one(),
            final(self)@.is_one(),
    {
        self.re = ONE;
        self.im = 0;
    }

    /// The textual form of the value. The caller supplies the decimal text of
    /// each component; this function chooses which of them appear and joins
    /// them.
    pub fn render(&self, re_text: &str, im_text: &str) -> (text: String)
        ensures
            text@ == self@.rendering(re_text@, im_text@),
    {
        proof {
            reveal_strlit("i");
            reveal_strlit(" + ");
        }
        if crate::binary64::is_zero(self.im) {
            String::from_str(re_text)
        } else if crate::binary64::is_zero(self.re) {
            let mut text = String::from_str(im_text);
            text.append("i");
            assert("i"@ =~= seq!['i']);
            text
        } else {
            let mut text = String::from_str(re_text);
            text.append(" + ");
            text.append(im_text);
            text.append("i");
            assert("i"@ =~= seq!['i']);
            assert(" + "@ =~= seq![' ', '+', ' ']);
            text
        }
    }
}

impl Default for Complex {
    /// The default value is the additive identity.
    fn default() -> (c: Complex)
        ensures
            c@ == Components::zero(),
    {
        Complex { re: 0, im: 0 }
    }
}

impl PartialEq for Complex {
    /// Component-wise equality as numbers.
    fn eq(&self, other: &Complex) -> (r: bool) {
        equal(self.re, other.re) && equal(self.im, other.im)
    }
}

impl PartialEqSpecImpl for Complex {
    open spec fn obeys_eq_spec() -> bool {
        true
    }

    open spec fn eq_spec(&self, other: &Complex) -> bool {
        self@.equals(other@)
    }
}

} // verus!
