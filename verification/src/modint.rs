//! An exact scalar: the integers modulo 2^64.
//!
//! The derivative-carrying types of this crate are generic over the
//! [`Scalar`] capability, and the propagation contracts they prove hold for
//! every implementation of it.  This type is the crate's own implementation:
//! its arithmetic is exact (wrapping) machine arithmetic, so every algebraic
//! law of the trait is provable, and tests can check derivative propagation
//! against hand computations with no rounding involved.
//!
//! The transcendental operations have no exact meaning on a modular integer;
//! this type interprets each by its first-order Taylor polynomial (`exp x` as
//! `1 + x`, `ln x` as `x - 1`, `ln_1p x` as `x`, `sin x` as `x`, `cos x` as
//! `1`, `sqrt x` as `1 + (x - 1)/2`).  Any definite interpretation serves:
//! the derivative layer relates each of its results to the scalar's own
//! operations, whatever those compute.

use vstd::prelude::*;
use vstd::wrapping::u64_specs;
use crate::scalar::Scalar;

verus! {

/// An integer modulo 2^64, the crate's exact instance of [`Scalar`].
#[derive(Clone, Copy, Debug, PartialEq, Eq, Structural)]
pub struct ModInt64 {
    /// The canonical representative, in `0 .. 2^64`.
    pub bits: u64,
}

impl ModInt64 {
    /// Builds the residue class of `bits`.
    pub fn new(bits: u64) -> (r: Self)
        ensures
            r.bits == bits,
    {
        ModInt64 { bits }
    }

    /// The `n`-th power, defined by repeated multiplication.
    pub open spec fn pow_nat(self, n: nat) -> Self
        decreases n,
    {
        if n == 0 {
            ModInt64 { bits: 1 }
        } else {
            self.spec_mul(self.pow_nat((n - 1) as nat))
        }
    }
}

impl Scalar for ModInt64 {
    open spec fn spec_zero() -> Self {
        ModInt64 { bits: 0 }
    }

    open spec fn spec_one() -> Self {
        ModInt64 { bits: 1 }
    }

    open spec fn spec_from_i32(k: int) -> Self {
        ModInt64 { bits: (k % 0x1_0000_0000_0000_0000) as u64 }
    }

    open spec fn spec_add(self, o: Self) -> Self {
        ModInt64 { bits: u64_specs::wrapping_add(self.bits, o.bits) }
    }

    open spec fn spec_sub(self, o: Self) -> Self {
        ModInt64 { bits: u64_specs::wrapping_sub(self.bits, o.bits) }
    }

    open spec fn spec_mul(self, o: Self) -> Self {
        ModInt64 { bits: u64_specs::wrapping_mul(self.bits, o.bits) }
    }

    open spec fn spec_div(self, o: Self) -> Self {
        if o.bits == 0 {
            ModInt64 { bits: 0 }
        } else {
            ModInt64 { bits: (self.bits as int / o.bits as int) as u64 }
        }
    }

    open spec fn spec_neg(self) -> Self {
        ModInt64 { bits: u64_specs::wrapping_sub(0, self.bits) }
    }

    open spec fn spec_recip(self) -> Self {
        Self::spec_one().spec_div(self)
    }

    open spec fn spec_powi(self, k: int) -> Self {
        if k >= 0 {
            self.pow_nat(k as nat)
        } else {
            self.pow_nat((-k) as nat).spec_recip()
        }
    }

    open spec fn spec_exp(self) -> Self {
        Self::spec_one().spec_add(self)
    }

    open spec fn spec_ln(self) -> Self {
        self.spec_sub(Self::spec_one())
    }

    open spec fn spec_ln_1p(self) -> Self {
        self
    }

    open spec fn spec_sin(self) -> Self {
        self
    }

    open spec fn spec_cos(self) -> Self {
        Self::spec_one()
    }

    open spec fn spec_sqrt(self) -> Self {
        Self::spec_one().spec_add(self.spec_sub(Self::spec_one()).spec_div(Self::spec_from_i32(2)))
    }

    fn zero() -> (r: Self) {
        ModInt64 { bits: 0 }
    }

    fn one() -> (r: Self) {
        ModInt64 { bits: 1 }
    }

    fn from_i32(k: i32) -> (r: Self) {
        if k >= 0 {
            ModInt64 { bits: k as u64 }
        } else {
            let m: u64 = (-(k as i64)) as u64;
            ModInt64 { bits: 0u64.wrapping_sub(m) }
        }
    }

    fn add(self, o: Self) -> (r: Self) {
        ModInt64 { bits: self.bits.wrapping_add(o.bits) }
    }

    fn sub(self, o: Self) -> (r: Self) {
        ModInt64 { bits: self.bits.wrapping_sub(o.bits) }
    }

    fn mul(self, o: Self) -> (r: Self) {
        ModInt64 { bits: self.bits.wrapping_mul(o.bits) }
    }

    fn div(self, o: Self) -> (r: Self) {
        if o.bits == 0 {
            ModInt64 { bits: 0 }
        } else {
            ModInt64 { bits: self.bits / o.bits }
        }
    }

    fn neg(self) -> (r: Self) {
        ModInt64 { bits: 0u64.wrapping_sub(self.bits) }
    }

    fn recip(self) -> (r: Self) {
        Self::one().div(self)
    }

    fn powi(self, k: i32) -> (r: Self) {
        let n: u32 = if k >= 0 {
            k as u32
        } else {
            (-k) as u32
        };
        let mut acc = Self::one();
        let mut i: u32 = 0;
        while i < n
            invariant
                i <= n,
                acc == self.pow_nat(i as nat),
            decreases n - i,
        {
            acc = self.mul(acc);
            i = i + 1;
        }
        if k >= 0 {
            acc
        } else {
            acc.recip()
        }
    }

    fn exp(self) -> (r: Self) {
        Self::one().add(self)
    }

    fn ln(self) -> (r: Self) {
        self.sub(Self::one())
    }

    fn ln_1p(self) -> (r: Self) {
        self
    }

    fn sin(self) -> (r: Self) {
        self
    }

    fn cos(self) -> (r: Self) {
        Self::one()
    }

    fn sqrt(self) -> (r: Self) {
        Self::one().add(self.sub(Self::one()).div(Self::from_i32(2)))
    }

}

/// The modular scalar satisfies the algebraic laws of the capability
/// exactly: wrapping arithmetic is the ring of integers modulo 2^64.
pub proof fn modint_obeys_laws()
    ensures
        crate::scalar::obeys_scalar_laws::<ModInt64>(),
{
    assert forall|a: ModInt64, b: ModInt64, c: ModInt64|
        #[trigger] a.spec_add(b).spec_add(c) == a.spec_add(b.spec_add(c)) by {
    }
}

} // verus!
