//! Forward-mode automatic differentiation with dual numbers.
//!
//! A dual number pairs a value with one or more derivative ("tangent")
//! components and defines arithmetic so that every operation computes the
//! function value and its exact derivative at the same time.  A formula
//! written once against the [`Scalar`] capability can therefore be evaluated
//! with a plain scalar, with a first-order [`Dual`] number (value plus one
//! directional derivative), or with a second-order [`HyperDual`] number
//! (value, two tangents, and a mixed second derivative), without changing the
//! formula's text.
//!
//! Cost model for callers building gradients: the engine is scalar, and one
//! evaluation propagates one seeded direction.  Differentiating a function of
//! `n` inputs with respect to all of them takes `n` evaluations, one per
//! seeded input; forward mode is therefore cheap for few inputs and grows
//! linearly in the number of input directions, whatever the number of
//! outputs.  A full Hessian over `n` inputs takes one [`HyperDual`]
//! evaluation per pair of directions.

mod scalar;
mod modint;
mod dual;
mod hyper;
mod laws;

pub use scalar::Scalar;
pub use scalar::obeys_scalar_laws;
pub use dual::Dual;
pub use dual::dual_obeys_laws;
pub use hyper::HyperDual;
pub use hyper::hyper_obeys_laws;
pub use modint::ModInt64;
pub use modint::modint_obeys_laws;
pub use laws::lemma_chain_rule;
pub use laws::lemma_sum_rule;
pub use laws::lemma_difference_rule;
pub use laws::lemma_product_rule;
pub use laws::lemma_quotient_rule;
pub use laws::lemma_value_channel;
pub use laws::lemma_constant_neutrality;
pub use laws::lemma_hyper_constant_neutrality;
pub use laws::lemma_channel_symmetry;
pub use laws::lemma_first_order_consistency;
