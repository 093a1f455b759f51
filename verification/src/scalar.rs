//! The numeric capability that a differentiable formula is written against.
//!
//! A function that only uses the operations of [`Scalar`] can be instantiated
//! with a plain scalar (producing a value alone) or with a derivative-carrying
//! number such as [`crate::Dual`] (producing the value together with its exact
//! derivatives), without changing the function's text.  That substitutability
//! is the central property of this crate.
//!
//! Every executable operation is tied to a specification-level counterpart
//! (`spec_add` for `add`, and so on), so that contracts over generic code can
//! speak about results exactly.  An implementation that is not verified
//! leaves the `spec_` functions at their defaults, about which nothing is
//! known.  [`obeys_scalar_laws`] states the small amount of algebra that the
//! derivative-propagation lemmas rely on; it is proved for each of the
//! crate's own implementations.

use vstd::prelude::*;
use vstd::pervasive::arbitrary;

verus! {

/// A value that supports the field operations and the elementary functions of
/// the engine: addition, subtraction, multiplication, division, negation,
/// `exp`, `ln`, `ln_1p`, `sin`, `cos`, `sqrt`, integer power and reciprocal,
/// together with the zero and one elements and a lift from small integers.
///
/// Values are copied, never aliased or mutated in place.  Each executable
/// operation returns exactly what its `spec_` counterpart describes; what the
/// `spec_` functions mean is up to the implementing type (for a
/// derivative-carrying type they encode the chain rule, see [`crate::Dual`]).
///
/// Domain violations (division by zero, roots or logarithms outside their
/// domain) are not errors of this interface: every operation is total, and an
/// implementation chooses what such a result is, exactly as unchecked
/// floating-point arithmetic would propagate an infinity or a NaN.
pub trait Scalar: Sized + Copy {
    /// The additive identity.
    open spec fn spec_zero() -> Self {
        arbitrary()
    }

    /// The multiplicative identity.
    open spec fn spec_one() -> Self {
        arbitrary()
    }

    /// The lift of a small integer into this numeric domain.
    open spec fn spec_from_i32(k: int) -> Self {
        arbitrary()
    }

    /// What `add` returns.
    open spec fn spec_add(self, o: Self) -> Self {
        arbitrary()
    }

    /// What `sub` returns.
    open spec fn spec_sub(self, o: Self) -> Self {
        arbitrary()
    }

    /// What `mul` returns.
    open spec fn spec_mul(self, o: Self) -> Self {
        arbitrary()
    }

    /// What `div` returns.
    open spec fn spec_div(self, o: Self) -> Self {
        arbitrary()
    }

    /// What `neg` returns.
    open spec fn spec_neg(self) -> Self {
        arbitrary()
    }

    /// What `recip` returns.
    open spec fn spec_recip(self) -> Self {
        arbitrary()
    }

    /// What `powi` returns.
    open spec fn spec_powi(self, k: int) -> Self {
        arbitrary()
    }

    /// What `exp` returns.
    open spec fn spec_exp(self) -> Self {
        arbitrary()
    }

    /// What `ln` returns.
    open spec fn spec_ln(self) -> Self {
        arbitrary()
    }

    /// What `ln_1p` returns.
    open spec fn spec_ln_1p(self) -> Self {
        arbitrary()
    }

    /// What `sin` returns.
    open spec fn spec_sin(self) -> Self {
        arbitrary()
    }

    /// What `cos` returns.
    open spec fn spec_cos(self) -> Self {
        arbitrary()
    }

    /// What `sqrt` returns.
    open spec fn spec_sqrt(self) -> Self {
        arbitrary()
    }

    /// The zero element, the constant a formula starts an accumulation from.
    fn zero() -> (r: Self)
        ensures
            r == Self::spec_zero(),
    ;

    /// The one element.
    fn one() -> (r: Self)
        ensures
            r == Self::spec_one(),
    ;

    /// Lifts a small integer into the domain as a constant.
    fn from_i32(k: i32) -> (r: Self)
        ensures
            r == Self::spec_from_i32(k as int),
    ;

    /// Addition.
    fn add(self, o: Self) -> (r: Self)
        ensures
            r == self.spec_add(o),
    ;

    /// Subtraction.
    fn sub(self, o: Self) -> (r: Self)
        ensures
            r == self.spec_sub(o),
    ;

    /// Multiplication.
    fn mul(self, o: Self) -> (r: Self)
        ensures
            r == self.spec_mul(o),
    ;

    /// Division.
    fn div(self, o: Self) -> (r: Self)
        ensures
            r == self.spec_div(o),
    ;

    /// Negation.
    fn neg(self) -> (r: Self)
        ensures
            r == self.spec_neg(),
    ;

    /// Reciprocal.
    fn recip(self) -> (r: Self)
        ensures
            r == self.spec_recip(),
    ;

    /// Integer power.  The two lowest exponents are excluded so that
    /// derivative-carrying implementations can rewrite a negative exponent
    /// through the reciprocal (`x^k == (1/x)^(1-k) * x` needs `1 - k` to be
    /// representable).
    fn powi(self, k: i32) -> (r: Self)
        requires
            i32::MIN + 1 < k,
        ensures
            r == self.spec_powi(k as int),
    ;

    /// The exponential function.
    fn exp(self) -> (r: Self)
        ensures
            r == self.spec_exp(),
    ;

    /// The natural logarithm.
    fn ln(self) -> (r: Self)
        ensures
            r == self.spec_ln(),
    ;

    /// The natural logarithm of one plus the value.
    fn ln_1p(self) -> (r: Self)
        ensures
            r == self.spec_ln_1p(),
    ;

    /// The sine.
    fn sin(self) -> (r: Self)
        ensures
            r == self.spec_sin(),
    ;

    /// The cosine.
    fn cos(self) -> (r: Self)
        ensures
            r == self.spec_cos(),
    ;

    /// The square root.
    fn sqrt(self) -> (r: Self)
        ensures
            r == self.spec_sqrt(),
    ;
}

/// The small amount of algebra that the derivative-propagation laws rely on:
/// zero is neutral for addition, addition commutes and associates, a value
/// subtracted from itself gives zero, negating zero gives zero,
/// multiplication commutes and absorbs zero, and a zero numerator gives a
/// zero quotient.
///
/// The crate's own scalars satisfy it exactly ([`crate::modint_obeys_laws`],
/// [`crate::dual_obeys_laws`], [`crate::hyper_obeys_laws`]).  A
/// floating-point instance satisfies it only away from NaN and infinities
/// (`x - x` and `0 / x` are not zero there), which is why the lemmas that
/// need algebra state it as a hypothesis.
pub open spec fn obeys_scalar_laws<T: Scalar>() -> bool {
    &&& forall|a: T| #[trigger] a.spec_add(T::spec_zero()) == a
    &&& forall|a: T, b: T| #[trigger] a.spec_add(b) == b.spec_add(a)
    &&& forall|a: T, b: T, c: T|
        #[trigger] a.spec_add(b).spec_add(c) == a.spec_add(b.spec_add(c))
    &&& forall|a: T| #[trigger] a.spec_sub(a) == T::spec_zero()
    &&& T::spec_zero().spec_neg() == T::spec_zero()
    &&& forall|a: T, b: T| #[trigger] a.spec_mul(b) == b.spec_mul(a)
    &&& forall|a: T| #[trigger] a.spec_mul(T::spec_zero()) == T::spec_zero()
    &&& forall|a: T| #[trigger] T::spec_zero().spec_div(a) == T::spec_zero()
}

} // verus!
