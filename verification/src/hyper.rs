//! Second-order hyper-dual numbers: a value, two independent tangents, and a
//! mixed second derivative.
//!
//! Arithmetic on [`HyperDual`] propagates the two first-order channels by the
//! same rules as [`Dual`], and the `eps1eps2` channel by the second-order
//! chain rule: for a composition `f(g(x))` the mixed term accumulates
//! `f'(g) * g_eps1eps2 + f''(g) * g_eps1 * g_eps2`, truncated Taylor algebra
//! to second order.  Seeding both channels of one variable yields a pure
//! second derivative; seeding each channel with a different variable yields
//! the mixed partial.

use vstd::prelude::*;
use crate::scalar::Scalar;
use crate::scalar::obeys_scalar_laws;
use crate::dual::Dual;

verus! {

/// A second-order hyper-dual number over the scalar `T`.
///
/// `value` is the real part; `eps1` and `eps2` are the two independent
/// first-order tangents; `eps1eps2` is the second-order term for the pair of
/// seeded directions.  Instances are immutable values: every operation
/// produces a new instance.
#[derive(Clone, Copy, Debug)]
pub struct HyperDual<T> {
    /// The real part.
    pub value: T,
    /// The first tangent.
    pub eps1: T,
    /// The second tangent.
    pub eps2: T,
    /// The mixed second-order term.
    pub eps1eps2: T,
}

impl<T: Scalar> HyperDual<T> {
    /// Builds a hyper-dual number from all four components.
    pub fn new(value: T, eps1: T, eps2: T, eps1eps2: T) -> (r: Self)
        ensures
            r.value == value,
            r.eps1 == eps1,
            r.eps2 == eps2,
            r.eps1eps2 == eps1eps2,
    {
        HyperDual { value, eps1, eps2, eps1eps2 }
    }

    /// Lifts a plain scalar into a constant: every derivative component is
    /// zero.
    pub fn from_value(value: T) -> (r: Self)
        ensures
            r.value == value,
            r.eps1 == T::spec_zero(),
            r.eps2 == T::spec_zero(),
            r.eps1eps2 == T::spec_zero(),
    {
        HyperDual { value, eps1: T::zero(), eps2: T::zero(), eps1eps2: T::zero() }
    }

    /// Seeds the first tangent channel to one.
    pub fn seeded1(value: T) -> (r: Self)
        ensures
            r.value == value,
            r.eps1 == T::spec_one(),
            r.eps2 == T::spec_zero(),
            r.eps1eps2 == T::spec_zero(),
    {
        HyperDual { value, eps1: T::one(), eps2: T::zero(), eps1eps2: T::zero() }
    }

    /// Seeds the second tangent channel to one.
    pub fn seeded2(value: T) -> (r: Self)
        ensures
            r.value == value,
            r.eps1 == T::spec_zero(),
            r.eps2 == T::spec_one(),
            r.eps1eps2 == T::spec_zero(),
    {
        HyperDual { value, eps1: T::zero(), eps2: T::one(), eps1eps2: T::zero() }
    }

    /// Seeds both tangent channels to one, for a pure second derivative with
    /// respect to a single variable.
    pub fn seeded_both(value: T) -> (r: Self)
        ensures
            r.value == value,
            r.eps1 == T::spec_one(),
            r.eps2 == T::spec_one(),
            r.eps1eps2 == T::spec_zero(),
    {
        HyperDual { value, eps1: T::one(), eps2: T::one(), eps1eps2: T::zero() }
    }

    /// The real part.  A pure read: calling it any number of times on the
    /// same instance returns the same scalar.
    pub fn value(self) -> (r: T)
        ensures
            r == self.value,
    {
        self.value
    }

    /// The first tangent.  A pure read.
    pub fn eps1(self) -> (r: T)
        ensures
            r == self.eps1,
    {
        self.eps1
    }

    /// The second tangent.  A pure read.
    pub fn eps2(self) -> (r: T)
        ensures
            r == self.eps2,
    {
        self.eps2
    }

    /// The mixed second-order term.  A pure read.
    pub fn eps1eps2(self) -> (r: T)
        ensures
            r == self.eps1eps2,
    {
        self.eps1eps2
    }

    /// Adds a plain scalar, treated as a constant with zero derivatives.
    pub fn add_real(self, c: T) -> (r: Self)
        ensures
            r == self.spec_add(HyperDual::<T>::spec_constant(c)),
    {
        self.add(Self::from_value(c))
    }

    /// Subtracts a plain scalar, treated as a constant with zero derivatives.
    pub fn sub_real(self, c: T) -> (r: Self)
        ensures
            r == self.spec_sub(HyperDual::<T>::spec_constant(c)),
    {
        self.sub(Self::from_value(c))
    }

    /// Multiplies by a plain scalar, treated as a constant with zero
    /// derivatives.
    pub fn mul_real(self, c: T) -> (r: Self)
        ensures
            r == self.spec_mul(HyperDual::<T>::spec_constant(c)),
    {
        self.mul(Self::from_value(c))
    }

    /// Divides by a plain scalar, treated as a constant with zero
    /// derivatives.
    pub fn div_real(self, c: T) -> (r: Self)
        ensures
            r == self.spec_div(HyperDual::<T>::spec_constant(c)),
    {
        self.div(Self::from_value(c))
    }

    /// The constant with the given value: every derivative component is zero.
    pub open spec fn spec_constant(value: T) -> Self {
        HyperDual {
            value,
            eps1: T::spec_zero(),
            eps2: T::spec_zero(),
            eps1eps2: T::spec_zero(),
        }
    }

    /// The same number with the roles of the two tangent channels exchanged.
    pub open spec fn swap_channels(self) -> Self {
        HyperDual {
            value: self.value,
            eps1: self.eps2,
            eps2: self.eps1,
            eps1eps2: self.eps1eps2,
        }
    }

    /// The first-order content of the first tangent channel.
    pub open spec fn first_channel(self) -> Dual<T> {
        Dual { value: self.value, derivative: self.eps1 }
    }

    /// The first-order content of the second tangent channel.
    pub open spec fn second_channel(self) -> Dual<T> {
        Dual { value: self.value, derivative: self.eps2 }
    }
}

impl<T: Scalar> Scalar for HyperDual<T> {
    open spec fn spec_zero() -> Self {
        HyperDual {
            value: T::spec_zero(),
            eps1: T::spec_zero(),
            eps2: T::spec_zero(),
            eps1eps2: T::spec_zero(),
        }
    }

    open spec fn spec_one() -> Self {
        HyperDual {
            value: T::spec_one(),
            eps1: T::spec_zero(),
            eps2: T::spec_zero(),
            eps1eps2: T::spec_zero(),
        }
    }

    open spec fn spec_from_i32(k: int) -> Self {
        HyperDual {
            value: T::spec_from_i32(k),
            eps1: T::spec_zero(),
            eps2: T::spec_zero(),
            eps1eps2: T::spec_zero(),
        }
    }

    open spec fn spec_add(self, o: Self) -> Self {
        HyperDual {
            value: self.value.spec_add(o.value),
            eps1: self.eps1.spec_add(o.eps1),
            eps2: self.eps2.spec_add(o.eps2),
            eps1eps2: self.eps1eps2.spec_add(o.eps1eps2),
        }
    }

    open spec fn spec_sub(self, o: Self) -> Self {
        HyperDual {
            value: self.value.spec_sub(o.value),
            eps1: self.eps1.spec_sub(o.eps1),
            eps2: self.eps2.spec_sub(o.eps2),
            eps1eps2: self.eps1eps2.spec_sub(o.eps1eps2),
        }
    }

    open spec fn spec_mul(self, o: Self) -> Self {
        HyperDual {
            value: self.value.spec_mul(o.value),
            eps1: self.eps1.spec_mul(o.value).spec_add(self.value.spec_mul(o.eps1)),
            eps2: self.eps2.spec_mul(o.value).spec_add(self.value.spec_mul(o.eps2)),
            eps1eps2: self.eps1eps2.spec_mul(o.value).spec_add(self.eps1.spec_mul(o.eps2))
                .spec_add(self.eps2.spec_mul(o.eps1)).spec_add(self.value.spec_mul(o.eps1eps2)),
        }
    }

    open spec fn spec_div(self, o: Self) -> Self {
        let q = self.value.spec_div(o.value);
        let d1 = self.eps1.spec_mul(o.value).spec_sub(self.value.spec_mul(o.eps1)).spec_div(
            o.value.spec_mul(o.value),
        );
        let d2 = self.eps2.spec_mul(o.value).spec_sub(self.value.spec_mul(o.eps2)).spec_div(
            o.value.spec_mul(o.value),
        );
        let d12 = self.eps1eps2.spec_sub(
            d1.spec_mul(o.eps2).spec_add(d2.spec_mul(o.eps1)).spec_add(q.spec_mul(o.eps1eps2)),
        ).spec_div(o.value);
        HyperDual { value: q, eps1: d1, eps2: d2, eps1eps2: d12 }
    }

    open spec fn spec_neg(self) -> Self {
        HyperDual {
            value: self.value.spec_neg(),
            eps1: self.eps1.spec_neg(),
            eps2: self.eps2.spec_neg(),
            eps1eps2: self.eps1eps2.spec_neg(),
        }
    }

    open spec fn spec_recip(self) -> Self {
        let vv = self.value.spec_mul(self.value);
        HyperDual {
            value: self.value.spec_recip(),
            eps1: self.eps1.spec_neg().spec_div(vv),
            eps2: self.eps2.spec_neg().spec_div(vv),
            eps1eps2: self.eps1eps2.spec_neg().spec_div(vv).spec_add(
                T::spec_from_i32(2).spec_mul(self.eps1.spec_mul(self.eps2)).spec_div(
                    vv.spec_mul(self.value),
                ),
            ),
        }
    }

    open spec fn spec_powi(self, k: int) -> Self {
        let factor1 = if k >= 1 {
            self.value.spec_powi(k - 1)
        } else {
            self.value.spec_recip().spec_powi(1 - k)
        };
        let factor2 = if k >= 2 {
            self.value.spec_powi(k - 2)
        } else {
            self.value.spec_recip().spec_powi(1 - k).spec_mul(self.value.spec_recip())
        };
        let f1 = T::spec_from_i32(k).spec_mul(factor1);
        let f2 = T::spec_from_i32(k).spec_mul(T::spec_from_i32(k - 1)).spec_mul(factor2);
        HyperDual {
            value: self.value.spec_powi(k),
            eps1: f1.spec_mul(self.eps1),
            eps2: f1.spec_mul(self.eps2),
            eps1eps2: f1.spec_mul(self.eps1eps2).spec_add(
                f2.spec_mul(self.eps1.spec_mul(self.eps2)),
            ),
        }
    }

    open spec fn spec_exp(self) -> Self {
        let e = self.value.spec_exp();
        HyperDual {
            value: e,
            eps1: e.spec_mul(self.eps1),
            eps2: e.spec_mul(self.eps2),
            eps1eps2: e.spec_mul(self.eps1eps2).spec_add(
                e.spec_mul(self.eps1.spec_mul(self.eps2)),
            ),
        }
    }

    open spec fn spec_ln(self) -> Self {
        HyperDual {
            value: self.value.spec_ln(),
            eps1: self.eps1.spec_div(self.value),
            eps2: self.eps2.spec_div(self.value),
            eps1eps2: self.eps1eps2.spec_div(self.value).spec_sub(
                self.eps1.spec_mul(self.eps2).spec_div(self.value.spec_mul(self.value)),
            ),
        }
    }

    open spec fn spec_ln_1p(self) -> Self {
        let u = T::spec_one().spec_add(self.value);
        HyperDual {
            value: self.value.spec_ln_1p(),
            eps1: self.eps1.spec_div(u),
            eps2: self.eps2.spec_div(u),
            eps1eps2: self.eps1eps2.spec_div(u).spec_sub(
                self.eps1.spec_mul(self.eps2).spec_div(u.spec_mul(u)),
            ),
        }
    }

    open spec fn spec_sin(self) -> Self {
        let s = self.value.spec_sin();
        let c = self.value.spec_cos();
        HyperDual {
            value: s,
            eps1: c.spec_mul(self.eps1),
            eps2: c.spec_mul(self.eps2),
            eps1eps2: c.spec_mul(self.eps1eps2).spec_sub(
                s.spec_mul(self.eps1.spec_mul(self.eps2)),
            ),
        }
    }

    open spec fn spec_cos(self) -> Self {
        let s = self.value.spec_sin();
        let c = self.value.spec_cos();
        HyperDual {
            value: c,
            eps1: s.spec_neg().spec_mul(self.eps1),
            eps2: s.spec_neg().spec_mul(self.eps2),
            eps1eps2: s.spec_neg().spec_mul(self.eps1eps2).spec_sub(
                c.spec_mul(self.eps1.spec_mul(self.eps2)),
            ),
        }
    }

    open spec fn spec_sqrt(self) -> Self {
        let s = self.value.spec_sqrt();
        let den = T::spec_from_i32(2).spec_mul(s);
        HyperDual {
            value: s,
            eps1: self.eps1.spec_div(den),
            eps2: self.eps2.spec_div(den),
            eps1eps2: self.eps1eps2.spec_div(den).spec_sub(
                self.eps1.spec_mul(self.eps2).spec_div(
                    T::spec_from_i32(4).spec_mul(s).spec_mul(s).spec_mul(s),
                ),
            ),
        }
    }

    fn zero() -> (r: Self) {
        HyperDual { value: T::zero(), eps1: T::zero(), eps2: T::zero(), eps1eps2: T::zero() }
    }

    fn one() -> (r: Self) {
        HyperDual { value: T::one(), eps1: T::zero(), eps2: T::zero(), eps1eps2: T::zero() }
    }

    fn from_i32(k: i32) -> (r: Self) {
        HyperDual { value: T::from_i32(k), eps1: T::zero(), eps2: T::zero(), eps1eps2: T::zero() }
    }

    fn add(self, o: Self) -> (r: Self) {
        HyperDual {
            value: self.value.add(o.value),
            eps1: self.eps1.add(o.eps1),
            eps2: self.eps2.add(o.eps2),
            eps1eps2: self.eps1eps2.add(o.eps1eps2),
        }
    }

    fn sub(self, o: Self) -> (r: Self) {
        HyperDual {
            value: self.value.sub(o.value),
            eps1: self.eps1.sub(o.eps1),
            eps2: self.eps2.sub(o.eps2),
            eps1eps2: self.eps1eps2.sub(o.eps1eps2),
        }
    }

    fn mul(self, o: Self) -> (r: Self) {
        HyperDual {
            value: self.value.mul(o.value),
            eps1: self.eps1.mul(o.value).add(self.value.mul(o.eps1)),
            eps2: self.eps2.mul(o.value).add(self.value.mul(o.eps2)),
            eps1eps2: self.eps1eps2.mul(o.value).add(self.eps1.mul(o.eps2)).add(
                self.eps2.mul(o.eps1),
            ).add(self.value.mul(o.eps1eps2)),
        }
    }

    fn div(self, o: Self) -> (r: Self) {
        let q = self.value.div(o.value);
        let d1 = self.eps1.mul(o.value).sub(self.value.mul(o.eps1)).div(o.value.mul(o.value));
        let d2 = self.eps2.mul(o.value).sub(self.value.mul(o.eps2)).div(o.value.mul(o.value));
        let d12 = self.eps1eps2.sub(
            d1.mul(o.eps2).add(d2.mul(o.eps1)).add(q.mul(o.eps1eps2)),
        ).div(o.value);
        HyperDual { value: q, eps1: d1, eps2: d2, eps1eps2: d12 }
    }

    fn neg(self) -> (r: Self) {
        HyperDual {
            value: self.value.neg(),
            eps1: self.eps1.neg(),
            eps2: self.eps2.neg(),
            eps1eps2: self.eps1eps2.neg(),
        }
    }

    fn recip(self) -> (r: Self) {
        let vv = self.value.mul(self.value);
        HyperDual {
            value: self.value.recip(),
            eps1: self.eps1.neg().div(vv),
            eps2: self.eps2.neg().div(vv),
            eps1eps2: self.eps1eps2.neg().div(vv).add(
                T::from_i32(2).mul(self.eps1.mul(self.eps2)).div(vv.mul(self.value)),
            ),
        }
    }

    fn powi(self, k: i32) -> (r: Self) {
        let factor1 = if k >= 1 {
            self.value.powi(k - 1)
        } else {
            self.value.recip().powi(1 - k)
        };
        let factor2 = if k >= 2 {
            self.value.powi(k - 2)
        } else {
            self.value.recip().powi(1 - k).mul(self.value.recip())
        };
        let f1 = T::from_i32(k).mul(factor1);
        let f2 = T::from_i32(k).mul(T::from_i32(k - 1)).mul(factor2);
        HyperDual {
            value: self.value.powi(k),
            eps1: f1.mul(self.eps1),
            eps2: f1.mul(self.eps2),
            eps1eps2: f1.mul(self.eps1eps2).add(f2.mul(self.eps1.mul(self.eps2))),
        }
    }

    fn exp(self) -> (r: Self) {
        let e = self.value.exp();
        HyperDual {
            value: e,
            eps1: e.mul(self.eps1),
            eps2: e.mul(self.eps2),
            eps1eps2: e.mul(self.eps1eps2).add(e.mul(self.eps1.mul(self.eps2))),
        }
    }

    fn ln(self) -> (r: Self) {
        HyperDual {
            value: self.value.ln(),
            eps1: self.eps1.div(self.value),
            eps2: self.eps2.div(self.value),
            eps1eps2: self.eps1eps2.div(self.value).sub(
                self.eps1.mul(self.eps2).div(self.value.mul(self.value)),
            ),
        }
    }

    fn ln_1p(self) -> (r: Self) {
        let u = T::one().add(self.value);
        HyperDual {
            value: self.value.ln_1p(),
            eps1: self.eps1.div(u),
            eps2: self.eps2.div(u),
            eps1eps2: self.eps1eps2.div(u).sub(self.eps1.mul(self.eps2).div(u.mul(u))),
        }
    }

    fn sin(self) -> (r: Self) {
        let s = self.value.sin();
        let c = self.value.cos();
        HyperDual {
            value: s,
            eps1: c.mul(self.eps1),
            eps2: c.mul(self.eps2),
            eps1eps2: c.mul(self.eps1eps2).sub(s.mul(self.eps1.mul(self.eps2))),
        }
    }

    fn cos(self) -> (r: Self) {
        let s = self.value.sin();
        let c = self.value.cos();
        HyperDual {
            value: c,
            eps1: s.neg().mul(self.eps1),
            eps2: s.neg().mul(self.eps2),
            eps1eps2: s.neg().mul(self.eps1eps2).sub(c.mul(self.eps1.mul(self.eps2))),
        }
    }

    fn sqrt(self) -> (r: Self) {
        let s = self.value.sqrt();
        let den = T::from_i32(2).mul(s);
        HyperDual {
            value: s,
            eps1: self.eps1.div(den),
            eps2: self.eps2.div(den),
            eps1eps2: self.eps1eps2.div(den).sub(
                self.eps1.mul(self.eps2).div(T::from_i32(4).mul(s).mul(s).mul(s)),
            ),
        }
    }

}

/// A hyper-dual number over a law-abiding scalar is itself a law-abiding
/// scalar: the algebra lifts through all four components.
pub proof fn hyper_obeys_laws<T: Scalar>()
    requires
        obeys_scalar_laws::<T>(),
    ensures
        obeys_scalar_laws::<HyperDual<T>>(),
{
    assert forall|a: HyperDual<T>|
        #[trigger] a.spec_add(HyperDual::<T>::spec_zero()) == a by {}
    assert forall|a: HyperDual<T>, b: HyperDual<T>| #[trigger] a.spec_add(b) == b.spec_add(a)
        by {}
    assert forall|a: HyperDual<T>, b: HyperDual<T>, c: HyperDual<T>|
        #[trigger] a.spec_add(b).spec_add(c) == a.spec_add(b.spec_add(c)) by {}
    assert forall|a: HyperDual<T>| #[trigger] a.spec_sub(a) == HyperDual::<T>::spec_zero()
        by {}
    assert forall|a: HyperDual<T>, b: HyperDual<T>| #[trigger] a.spec_mul(b) == b.spec_mul(a)
        by {
        // The four products of the mixed term commute pairwise; the two sums
        // then rebracket into each other.
        let x1 = a.eps1eps2.spec_mul(b.value);
        let x2 = a.eps1.spec_mul(b.eps2);
        let x3 = a.eps2.spec_mul(b.eps1);
        let x4 = a.value.spec_mul(b.eps1eps2);
        assert(x2.spec_add(x3).spec_add(x4) == x2.spec_add(x3.spec_add(x4)));
        assert(x1.spec_add(x2.spec_add(x3)).spec_add(x4) == x1.spec_add(
            x2.spec_add(x3).spec_add(x4),
        ));
        assert(x1.spec_add(x2).spec_add(x3) == x1.spec_add(x2.spec_add(x3)));
    }
    assert forall|a: HyperDual<T>|
        #[trigger] a.spec_mul(HyperDual::<T>::spec_zero()) == HyperDual::<T>::spec_zero()
        by {}
    assert forall|a: HyperDual<T>|
        #[trigger] HyperDual::<T>::spec_zero().spec_div(a) == HyperDual::<T>::spec_zero()
        by {}
}

} // verus!
