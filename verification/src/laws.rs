//! The laws of the engine, stated over the specification functions of
//! [`Scalar`].  The propagation-shape laws hold for every implementation of
//! the capability; the laws that need algebra hold for every law-abiding
//! scalar (see [`crate::obeys_scalar_laws`]).
//!
//! Each lemma is part of the library's public statement: the chain rule for
//! the elementary functions, the sum, difference, product and quotient rules,
//! the transparency of the value channel, the neutrality of constants, and
//! the consistency of the two tangent channels of a hyper-dual number.

use vstd::prelude::*;
use crate::scalar::Scalar;
use crate::scalar::obeys_scalar_laws;
use crate::dual::Dual;
use crate::hyper::HyperDual;

verus! {

/// Chain rule, first order: for every elementary function `f`, the tangent of
/// `f(a)` is `f'(a.value)` times the tangent of `a`, exactly.
pub proof fn lemma_chain_rule<T: Scalar>(a: Dual<T>, k: int)
    ensures
        a.spec_exp().derivative == a.spec_exp().value.spec_mul(a.derivative),
        a.spec_ln().derivative == a.derivative.spec_div(a.value),
        a.spec_ln_1p().derivative == a.derivative.spec_div(T::spec_one().spec_add(a.value)),
        a.spec_sin().derivative == a.value.spec_cos().spec_mul(a.derivative),
        a.spec_cos().derivative == a.value.spec_sin().spec_neg().spec_mul(a.derivative),
        a.spec_sqrt().derivative == a.derivative.spec_div(
            T::spec_from_i32(2).spec_mul(a.value.spec_sqrt()),
        ),
        a.spec_recip().derivative == a.derivative.spec_neg().spec_div(
            a.value.spec_mul(a.value),
        ),
        k >= 1 ==> a.spec_powi(k).derivative == T::spec_from_i32(k).spec_mul(
            a.value.spec_powi(k - 1),
        ).spec_mul(a.derivative),
        k < 1 ==> a.spec_powi(k).derivative == T::spec_from_i32(k).spec_mul(
            a.value.spec_recip().spec_powi(1 - k),
        ).spec_mul(a.derivative),
{
}

/// Sum rule: the tangent of `a + b` is the sum of the tangents.
pub proof fn lemma_sum_rule<T: Scalar>(a: Dual<T>, b: Dual<T>)
    ensures
        a.spec_add(b).value == a.value.spec_add(b.value),
        a.spec_add(b).derivative == a.derivative.spec_add(b.derivative),
{
}

/// Difference rule: the tangent of `a - b` is the difference of the tangents.
pub proof fn lemma_difference_rule<T: Scalar>(a: Dual<T>, b: Dual<T>)
    ensures
        a.spec_sub(b).value == a.value.spec_sub(b.value),
        a.spec_sub(b).derivative == a.derivative.spec_sub(b.derivative),
{
}

/// Product rule: the tangent of `a * b` is `a' * b + a * b'`, exactly as a
/// hand computation over the scalar would write it.
pub proof fn lemma_product_rule<T: Scalar>(a: Dual<T>, b: Dual<T>)
    ensures
        a.spec_mul(b).value == a.value.spec_mul(b.value),
        a.spec_mul(b).derivative == a.derivative.spec_mul(b.value).spec_add(
            a.value.spec_mul(b.derivative),
        ),
{
}

/// Quotient rule: the tangent of `a / b` is `(a' * b - a * b') / b^2`.
pub proof fn lemma_quotient_rule<T: Scalar>(a: Dual<T>, b: Dual<T>)
    ensures
        a.spec_div(b).value == a.value.spec_div(b.value),
        a.spec_div(b).derivative == a.derivative.spec_mul(b.value).spec_sub(
            a.value.spec_mul(b.derivative),
        ).spec_div(b.value.spec_mul(b.value)),
{
}

/// The value channel is transparent: under every operation of the engine it
/// computes exactly what the underlying scalar computes on the value
/// channels, so a generic formula instantiated with a dual number reproduces,
/// in its value channel, the plain-scalar evaluation.
pub proof fn lemma_value_channel<T: Scalar>(a: Dual<T>, b: Dual<T>, k: int)
    ensures
        Dual::<T>::spec_zero().value == T::spec_zero(),
        Dual::<T>::spec_one().value == T::spec_one(),
        Dual::<T>::spec_from_i32(k).value == T::spec_from_i32(k),
        a.spec_add(b).value == a.value.spec_add(b.value),
        a.spec_sub(b).value == a.value.spec_sub(b.value),
        a.spec_mul(b).value == a.value.spec_mul(b.value),
        a.spec_div(b).value == a.value.spec_div(b.value),
        a.spec_neg().value == a.value.spec_neg(),
        a.spec_recip().value == a.value.spec_recip(),
        a.spec_powi(k).value == a.value.spec_powi(k),
        a.spec_exp().value == a.value.spec_exp(),
        a.spec_ln().value == a.value.spec_ln(),
        a.spec_ln_1p().value == a.value.spec_ln_1p(),
        a.spec_sin().value == a.value.spec_sin(),
        a.spec_cos().value == a.value.spec_cos(),
        a.spec_sqrt().value == a.value.spec_sqrt(),
{
}

/// Constants are neutral: a dual number whose tangent is zero keeps a zero
/// tangent under every operation with another constant, and under every
/// elementary function; combined with the transparency of the value channel,
/// constants behave exactly like plain scalars.
pub proof fn lemma_constant_neutrality<T: Scalar>(a: Dual<T>, b: Dual<T>, k: int)
    requires
        obeys_scalar_laws::<T>(),
        a.derivative == T::spec_zero(),
        b.derivative == T::spec_zero(),
    ensures
        a.spec_add(b).derivative == T::spec_zero(),
        a.spec_sub(b).derivative == T::spec_zero(),
        a.spec_mul(b).derivative == T::spec_zero(),
        a.spec_div(b).derivative == T::spec_zero(),
        a.spec_neg().derivative == T::spec_zero(),
        a.spec_recip().derivative == T::spec_zero(),
        a.spec_powi(k).derivative == T::spec_zero(),
        a.spec_exp().derivative == T::spec_zero(),
        a.spec_ln().derivative == T::spec_zero(),
        a.spec_ln_1p().derivative == T::spec_zero(),
        a.spec_sin().derivative == T::spec_zero(),
        a.spec_cos().derivative == T::spec_zero(),
        a.spec_sqrt().derivative == T::spec_zero(),
{
}

/// Constants are neutral at second order too: a hyper-dual number with all
/// three derivative components zero keeps them zero under every operation.
pub proof fn lemma_hyper_constant_neutrality<T: Scalar>(
    a: HyperDual<T>,
    b: HyperDual<T>,
    k: int,
)
    requires
        obeys_scalar_laws::<T>(),
        a.eps1 == T::spec_zero(),
        a.eps2 == T::spec_zero(),
        a.eps1eps2 == T::spec_zero(),
        b.eps1 == T::spec_zero(),
        b.eps2 == T::spec_zero(),
        b.eps1eps2 == T::spec_zero(),
    ensures
        a.spec_add(b) == HyperDual::<T>::spec_constant(a.spec_add(b).value),
        a.spec_sub(b) == HyperDual::<T>::spec_constant(a.spec_sub(b).value),
        a.spec_mul(b) == HyperDual::<T>::spec_constant(a.spec_mul(b).value),
        a.spec_div(b) == HyperDual::<T>::spec_constant(a.spec_div(b).value),
        a.spec_neg() == HyperDual::<T>::spec_constant(a.spec_neg().value),
        a.spec_recip() == HyperDual::<T>::spec_constant(a.spec_recip().value),
        a.spec_powi(k) == HyperDual::<T>::spec_constant(a.spec_powi(k).value),
        a.spec_exp() == HyperDual::<T>::spec_constant(a.spec_exp().value),
        a.spec_ln() == HyperDual::<T>::spec_constant(a.spec_ln().value),
        a.spec_ln_1p() == HyperDual::<T>::spec_constant(a.spec_ln_1p().value),
        a.spec_sin() == HyperDual::<T>::spec_constant(a.spec_sin().value),
        a.spec_cos() == HyperDual::<T>::spec_constant(a.spec_cos().value),
        a.spec_sqrt() == HyperDual::<T>::spec_constant(a.spec_sqrt().value),
{
}

/// The two tangent channels are interchangeable: exchanging the seeds of the
/// two channels before an operation gives the same result as exchanging the
/// channels of its outcome.  In particular the mixed term is indifferent to
/// which variable was seeded into which channel, the symmetry of second
/// partial derivatives.
pub proof fn lemma_channel_symmetry<T: Scalar>(a: HyperDual<T>, b: HyperDual<T>, k: int)
    requires
        obeys_scalar_laws::<T>(),
    ensures
        a.spec_add(b).swap_channels() == a.swap_channels().spec_add(b.swap_channels()),
        a.spec_sub(b).swap_channels() == a.swap_channels().spec_sub(b.swap_channels()),
        a.spec_mul(b).swap_channels() == a.swap_channels().spec_mul(b.swap_channels()),
        a.spec_div(b).swap_channels() == a.swap_channels().spec_div(b.swap_channels()),
        a.spec_neg().swap_channels() == a.swap_channels().spec_neg(),
        a.spec_recip().swap_channels() == a.swap_channels().spec_recip(),
        a.spec_powi(k).swap_channels() == a.swap_channels().spec_powi(k),
        a.spec_exp().swap_channels() == a.swap_channels().spec_exp(),
        a.spec_ln().swap_channels() == a.swap_channels().spec_ln(),
        a.spec_ln_1p().swap_channels() == a.swap_channels().spec_ln_1p(),
        a.spec_sin().swap_channels() == a.swap_channels().spec_sin(),
        a.spec_cos().swap_channels() == a.swap_channels().spec_cos(),
        a.spec_sqrt().swap_channels() == a.swap_channels().spec_sqrt(),
{
    let x1 = a.eps1eps2.spec_mul(b.value);
    let x2 = a.eps1.spec_mul(b.eps2);
    let x3 = a.eps2.spec_mul(b.eps1);
    assert(x1.spec_add(x2).spec_add(x3) == x1.spec_add(x2.spec_add(x3)));
    assert(x1.spec_add(x3).spec_add(x2) == x1.spec_add(x3.spec_add(x2)));
}

/// Each tangent channel of a hyper-dual number propagates exactly the
/// first-order rule: projecting a channel out of any operation's result gives
/// the same dual number as running the operation on the projections.  The
/// other channel and the mixed term never contaminate a first-order channel.
pub proof fn lemma_first_order_consistency<T: Scalar>(a: HyperDual<T>, b: HyperDual<T>, k: int)
    ensures
        a.spec_add(b).first_channel() == a.first_channel().spec_add(b.first_channel()),
        a.spec_sub(b).first_channel() == a.first_channel().spec_sub(b.first_channel()),
        a.spec_mul(b).first_channel() == a.first_channel().spec_mul(b.first_channel()),
        a.spec_div(b).first_channel() == a.first_channel().spec_div(b.first_channel()),
        a.spec_neg().first_channel() == a.first_channel().spec_neg(),
        a.spec_recip().first_channel() == a.first_channel().spec_recip(),
        a.spec_powi(k).first_channel() == a.first_channel().spec_powi(k),
        a.spec_exp().first_channel() == a.first_channel().spec_exp(),
        a.spec_ln().first_channel() == a.first_channel().spec_ln(),
        a.spec_ln_1p().first_channel() == a.first_channel().spec_ln_1p(),
        a.spec_sin().first_channel() == a.first_channel().spec_sin(),
        a.spec_cos().first_channel() == a.first_channel().spec_cos(),
        a.spec_sqrt().first_channel() == a.first_channel().spec_sqrt(),
        a.spec_add(b).second_channel() == a.second_channel().spec_add(b.second_channel()),
        a.spec_sub(b).second_channel() == a.second_channel().spec_sub(b.second_channel()),
        a.spec_mul(b).second_channel() == a.second_channel().spec_mul(b.second_channel()),
        a.spec_div(b).second_channel() == a.second_channel().spec_div(b.second_channel()),
        a.spec_neg().second_channel() == a.second_channel().spec_neg(),
        a.spec_recip().second_channel() == a.second_channel().spec_recip(),
        a.spec_powi(k).second_channel() == a.second_channel().spec_powi(k),
        a.spec_exp().second_channel() == a.second_channel().spec_exp(),
        a.spec_ln().second_channel() == a.second_channel().spec_ln(),
        a.spec_ln_1p().second_channel() == a.second_channel().spec_ln_1p(),
        a.spec_sin().second_channel() == a.second_channel().spec_sin(),
        a.spec_cos().second_channel() == a.second_channel().spec_cos(),
        a.spec_sqrt().second_channel() == a.second_channel().spec_sqrt(),
{
}

} // verus!
