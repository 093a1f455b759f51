//! First-order dual numbers: a value and one derivative component.
//!
//! Arithmetic on [`Dual`] propagates the derivative by the forward-mode chain
//! rule, exactly and without finite differencing.  The propagation rules are
//! the `spec_` definitions of the [`Scalar`] implementation below; each
//! executable operation returns precisely what its `spec_` counterpart
//! states, so the chain rule is part of every operation's contract.

use vstd::prelude::*;
use crate::scalar::Scalar;
use crate::scalar::obeys_scalar_laws;

verus! {

/// A first-order dual number over the scalar `T`.
///
/// `value` is the real part, the function's value at the evaluation point;
/// `derivative` is the tangent part, the accumulated directional derivative
/// with respect to the seeded direction.  Instances are immutable values:
/// every operation produces a new instance.
#[derive(Clone, Copy, Debug)]
pub struct Dual<T> {
    /// The real part.
    pub value: T,
    /// The tangent part.
    pub derivative: T,
}

impl<T: Scalar> Dual<T> {
    /// Builds a dual number from a value and an explicit seed derivative.
    /// A seed of one marks the variable being differentiated.
    pub fn new(value: T, derivative: T) -> (r: Self)
        ensures
            r.value == value,
            r.derivative == derivative,
    {
        Dual { value, derivative }
    }

    /// Lifts a plain scalar into a constant: its derivative is zero.
    pub fn from_value(value: T) -> (r: Self)
        ensures
            r.value == value,
            r.derivative == T::spec_zero(),
    {
        Dual { value, derivative: T::zero() }
    }

    /// Builds the variable being differentiated: the derivative is seeded
    /// to one.
    pub fn seeded(value: T) -> (r: Self)
        ensures
            r.value == value,
            r.derivative == T::spec_one(),
    {
        Dual { value, derivative: T::one() }
    }

    /// The real part.  A pure read: calling it any number of times on the
    /// same instance returns the same scalar.
    pub fn value(self) -> (r: T)
        ensures
            r == self.value,
    {
        self.value
    }

    /// The tangent part.  A pure read, like [`Dual::value`].
    pub fn derivative(self) -> (r: T)
        ensures
            r == self.derivative,
    {
        self.derivative
    }

    /// Adds a plain scalar, treated as a constant with zero derivative.
    pub fn add_real(self, c: T) -> (r: Self)
        ensures
            r == self.spec_add((Dual { value: c, derivative: T::spec_zero() })),
    {
        self.add(Self::from_value(c))
    }

    /// Subtracts a plain scalar, treated as a constant with zero derivative.
    pub fn sub_real(self, c: T) -> (r: Self)
        ensures
            r == self.spec_sub((Dual { value: c, derivative: T::spec_zero() })),
    {
        self.sub(Self::from_value(c))
    }

    /// Multiplies by a plain scalar, treated as a constant with zero
    /// derivative.
    pub fn mul_real(self, c: T) -> (r: Self)
        ensures
            r == self.spec_mul((Dual { value: c, derivative: T::spec_zero() })),
    {
        self.mul(Self::from_value(c))
    }

    /// Divides by a plain scalar, treated as a constant with zero derivative.
    pub fn div_real(self, c: T) -> (r: Self)
        ensures
            r == self.spec_div((Dual { value: c, derivative: T::spec_zero() })),
    {
        self.div(Self::from_value(c))
    }
}

impl<T: Scalar> Scalar for Dual<T> {
    open spec fn spec_zero() -> Self {
        Dual { value: T::spec_zero(), derivative: T::spec_zero() }
    }

    open spec fn spec_one() -> Self {
        Dual { value: T::spec_one(), derivative: T::spec_zero() }
    }

    open spec fn spec_from_i32(k: int) -> Self {
        Dual { value: T::spec_from_i32(k), derivative: T::spec_zero() }
    }

    open spec fn spec_add(self, o: Self) -> Self {
        Dual {
            value: self.value.spec_add(o.value),
            derivative: self.derivative.spec_add(o.derivative),
        }
    }

    open spec fn spec_sub(self, o: Self) -> Self {
        Dual {
            value: self.value.spec_sub(o.value),
            derivative: self.derivative.spec_sub(o.derivative),
        }
    }

    open spec fn spec_mul(self, o: Self) -> Self {
        Dual {
            value: self.value.spec_mul(o.value),
            derivative: self.derivative.spec_mul(o.value).spec_add(
                self.value.spec_mul(o.derivative),
            ),
        }
    }

    open spec fn spec_div(self, o: Self) -> Self {
        Dual {
            value: self.value.spec_div(o.value),
            derivative: self.derivative.spec_mul(o.value).spec_sub(
                self.value.spec_mul(o.derivative),
            ).spec_div(o.value.spec_mul(o.value)),
        }
    }

    open spec fn spec_neg(self) -> Self {
        Dual { value: self.value.spec_neg(), derivative: self.derivative.spec_neg() }
    }

    open spec fn spec_recip(self) -> Self {
        Dual {
            value: self.value.spec_recip(),
            derivative: self.derivative.spec_neg().spec_div(self.value.spec_mul(self.value)),
        }
    }

    open spec fn spec_powi(self, k: int) -> Self {
        let factor = if k >= 1 {
            self.value.spec_powi(k - 1)
        } else {
            self.value.spec_recip().spec_powi(1 - k)
        };
        Dual {
            value: self.value.spec_powi(k),
            derivative: T::spec_from_i32(k).spec_mul(factor).spec_mul(self.derivative),
        }
    }

    open spec fn spec_exp(self) -> Self {
        Dual {
            value: self.value.spec_exp(),
            derivative: self.value.spec_exp().spec_mul(self.derivative),
        }
    }

    open spec fn spec_ln(self) -> Self {
        Dual {
            value: self.value.spec_ln(),
            derivative: self.derivative.spec_div(self.value),
        }
    }

    open spec fn spec_ln_1p(self) -> Self {
        Dual {
            value: self.value.spec_ln_1p(),
            derivative: self.derivative.spec_div(T::spec_one().spec_add(self.value)),
        }
    }

    open spec fn spec_sin(self) -> Self {
        Dual {
            value: self.value.spec_sin(),
            derivative: self.value.spec_cos().spec_mul(self.derivative),
        }
    }

    open spec fn spec_cos(self) -> Self {
        Dual {
            value: self.value.spec_cos(),
            derivative: self.value.spec_sin().spec_neg().spec_mul(self.derivative),
        }
    }

    open spec fn spec_sqrt(self) -> Self {
        Dual {
            value: self.value.spec_sqrt(),
            derivative: self.derivative.spec_div(
                T::spec_from_i32(2).spec_mul(self.value.spec_sqrt()),
            ),
        }
    }

    fn zero() -> (r: Self) {
        Dual { value: T::zero(), derivative: T::zero() }
    }

    fn one() -> (r: Self) {
        Dual { value: T::one(), derivative: T::zero() }
    }

    fn from_i32(k: i32) -> (r: Self) {
        Dual { value: T::from_i32(k), derivative: T::zero() }
    }

    fn add(self, o: Self) -> (r: Self) {
        Dual {
            value: self.value.add(o.value),
            derivative: self.derivative.add(o.derivative),
        }
    }

    fn sub(self, o: Self) -> (r: Self) {
        Dual {
            value: self.value.sub(o.value),
            derivative: self.derivative.sub(o.derivative),
        }
    }

    fn mul(self, o: Self) -> (r: Self) {
        Dual {
            value: self.value.mul(o.value),
            derivative: self.derivative.mul(o.value).add(self.value.mul(o.derivative)),
        }
    }

    fn div(self, o: Self) -> (r: Self) {
        Dual {
            value: self.value.div(o.value),
            derivative: self.derivative.mul(o.value).sub(self.value.mul(o.derivative)).div(
                o.value.mul(o.value),
            ),
        }
    }

    fn neg(self) -> (r: Self) {
        Dual { value: self.value.neg(), derivative: self.derivative.neg() }
    }

    fn recip(self) -> (r: Self) {
        Dual {
            value: self.value.recip(),
            derivative: self.derivative.neg().div(self.value.mul(self.value)),
        }
    }

    fn powi(self, k: i32) -> (r: Self) {
        let factor = if k >= 1 {
            self.value.powi(k - 1)
        } else {
            self.value.recip().powi(1 - k)
        };
        Dual {
            value: self.value.powi(k),
            derivative: T::from_i32(k).mul(factor).mul(self.derivative),
        }
    }

    fn exp(self) -> (r: Self) {
        let e = self.value.exp();
        Dual { value: e, derivative: e.mul(self.derivative) }
    }

    fn ln(self) -> (r: Self) {
        Dual { value: self.value.ln(), derivative: self.derivative.div(self.value) }
    }

    fn ln_1p(self) -> (r: Self) {
        Dual {
            value: self.value.ln_1p(),
            derivative: self.derivative.div(T::one().add(self.value)),
        }
    }

    fn sin(self) -> (r: Self) {
        Dual {
            value: self.value.sin(),
            derivative: self.value.cos().mul(self.derivative),
        }
    }

    fn cos(self) -> (r: Self) {
        Dual {
            value: self.value.cos(),
            derivative: self.value.sin().neg().mul(self.derivative),
        }
    }

    fn sqrt(self) -> (r: Self) {
        Dual {
            value: self.value.sqrt(),
            derivative: self.derivative.div(T::from_i32(2).mul(self.value.sqrt())),
        }
    }

}

/// A dual number over a law-abiding scalar is itself a law-abiding scalar:
/// the algebra needed by the propagation lemmas lifts through both channels.
pub proof fn dual_obeys_laws<T: Scalar>()
    requires
        obeys_scalar_laws::<T>(),
    ensures
        obeys_scalar_laws::<Dual<T>>(),
{
    assert forall|a: Dual<T>| #[trigger] a.spec_add(Dual::<T>::spec_zero()) == a by {}
    assert forall|a: Dual<T>, b: Dual<T>| #[trigger] a.spec_add(b) == b.spec_add(a) by {}
    assert forall|a: Dual<T>, b: Dual<T>, c: Dual<T>|
        #[trigger] a.spec_add(b).spec_add(c) == a.spec_add(b.spec_add(c)) by {}
    assert forall|a: Dual<T>| #[trigger] a.spec_sub(a) == Dual::<T>::spec_zero() by {}
    assert forall|a: Dual<T>, b: Dual<T>| #[trigger] a.spec_mul(b) == b.spec_mul(a) by {}
    assert forall|a: Dual<T>|
        #[trigger] a.spec_mul(Dual::<T>::spec_zero()) == Dual::<T>::spec_zero() by {}
    assert forall|a: Dual<T>|
        #[trigger] Dual::<T>::spec_zero().spec_div(a) == Dual::<T>::spec_zero() by {}
}

} // verus!
