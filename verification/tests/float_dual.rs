//! Floating-point checks: the capability implemented over `f64`, the chain
//! rule cross-checked by finite differences, and the worked example formula
//! evaluated once generically and instantiated with the plain scalar, with a
//! first-order dual and with a hyper-dual number.

use forward_dual::{Dual, HyperDual, Scalar};

/// The capability over `f64`, with the ordinary floating-point meaning of
/// every operation.
#[derive(Clone, Copy, Debug, PartialEq)]
struct F64(f64);

impl Scalar for F64 {
    fn zero() -> F64 {
        F64(0.0)
    }

    fn one() -> F64 {
        F64(1.0)
    }

    fn from_i32(k: i32) -> F64 {
        F64(k as f64)
    }

    fn add(self, o: F64) -> F64 {
        F64(self.0 + o.0)
    }

    fn sub(self, o: F64) -> F64 {
        F64(self.0 - o.0)
    }

    fn mul(self, o: F64) -> F64 {
        F64(self.0 * o.0)
    }

    fn div(self, o: F64) -> F64 {
        F64(self.0 / o.0)
    }

    fn neg(self) -> F64 {
        F64(-self.0)
    }

    fn recip(self) -> F64 {
        F64(self.0.recip())
    }

    fn powi(self, k: i32) -> F64 {
        F64(self.0.powi(k))
    }

    fn exp(self) -> F64 {
        F64(self.0.exp())
    }

    fn ln(self) -> F64 {
        F64(self.0.ln())
    }

    fn ln_1p(self) -> F64 {
        F64(self.0.ln_1p())
    }

    fn sin(self) -> F64 {
        F64(self.0.sin())
    }

    fn cos(self) -> F64 {
        F64(self.0.cos())
    }

    fn sqrt(self) -> F64 {
        F64(self.0.sqrt())
    }
}

fn close(got: f64, want: f64, tol: f64) -> bool {
    (got - want).abs() <= tol
}

fn rel_close(got: f64, want: f64, tol: f64) -> bool {
    (got - want).abs() <= want.abs() * tol
}

/// The reference test function: a smooth combination of the elementary
/// operations, written once against the capability.
fn reference_fn<T: Scalar>(x: T) -> T {
    x.exp().div(x.sin().powi(3).add(x.cos().powi(3)).sqrt())
}

fn reference_plain(x: f64) -> f64 {
    reference_fn(F64(x)).0
}

#[test]
fn chain_rule_against_finite_differences() {
    let points = [0.3, 0.75, 1.5, 2.0];
    let h = 1e-6;
    for &v in points.iter() {
        let d = reference_fn(Dual::seeded(F64(v))).derivative().0;
        let fd = (reference_plain(v + h) - reference_plain(v - h)) / (2.0 * h);
        assert!(close(d, fd, 1e-5 * (1.0 + fd.abs())));
    }
}

#[test]
fn chain_rule_elementary_exact() {
    // For each elementary function the propagated tangent is the analytic
    // derivative evaluated with the same floating-point operations.
    let v = 0.8;
    let x = Dual::seeded(F64(v));
    assert_eq!(x.exp().derivative().0, v.exp());
    assert_eq!(x.ln().derivative().0, 1.0 / v);
    assert_eq!(x.ln_1p().derivative().0, 1.0 / (1.0 + v));
    assert_eq!(x.sin().derivative().0, v.cos());
    assert_eq!(x.cos().derivative().0, -v.sin());
    assert_eq!(x.sqrt().derivative().0, 1.0 / (2.0 * v.sqrt()));
    assert_eq!(x.recip().derivative().0, -(1.0) / (v * v));
    assert_eq!(x.powi(5).derivative().0, 5.0 * v.powi(4));
}

#[test]
fn linearity_product_quotient_exact() {
    // Deterministic pseudo-random pairs: the propagated tangents equal the
    // corresponding hand computations bit for bit.
    let mut state: u64 = 0x243f_6a88_85a3_08d3;
    for _ in 0..32 {
        state = state.wrapping_mul(6364136223846793005).wrapping_add(1442695040888963407);
        let av = (state >> 11) as f64 / (1u64 << 53) as f64 + 0.1;
        state = state.wrapping_mul(6364136223846793005).wrapping_add(1442695040888963407);
        let ad = (state >> 11) as f64 / (1u64 << 53) as f64 - 0.5;
        state = state.wrapping_mul(6364136223846793005).wrapping_add(1442695040888963407);
        let bv = (state >> 11) as f64 / (1u64 << 53) as f64 + 0.2;
        state = state.wrapping_mul(6364136223846793005).wrapping_add(1442695040888963407);
        let bd = (state >> 11) as f64 / (1u64 << 53) as f64 - 0.5;
        let a = Dual::new(F64(av), F64(ad));
        let b = Dual::new(F64(bv), F64(bd));
        assert_eq!(a.add(b).derivative().0, ad + bd);
        assert_eq!(a.sub(b).derivative().0, ad - bd);
        assert_eq!(a.mul(b).derivative().0, ad * bv + av * bd);
        assert_eq!(a.div(b).derivative().0, (ad * bv - av * bd) / (bv * bv));
        assert_eq!(a.add(b).value().0, av + bv);
        assert_eq!(a.sub(b).value().0, av - bv);
        assert_eq!(a.mul(b).value().0, av * bv);
        assert_eq!(a.div(b).value().0, av / bv);
    }
}

#[test]
fn constant_neutrality_float() {
    let a = Dual::from_value(F64(2.25));
    let b = Dual::from_value(F64(0.75));
    assert_eq!(a.add(b).derivative().0, 0.0);
    assert_eq!(a.sub(b).derivative().0, 0.0);
    assert_eq!(a.mul(b).derivative().0, 0.0);
    assert_eq!(a.div(b).derivative().0, 0.0);
    assert_eq!(a.neg().derivative().0, 0.0);
    assert_eq!(a.recip().derivative().0, 0.0);
    assert_eq!(a.powi(3).derivative().0, 0.0);
    assert_eq!(a.exp().derivative().0, 0.0);
    assert_eq!(a.ln().derivative().0, 0.0);
    assert_eq!(a.ln_1p().derivative().0, 0.0);
    assert_eq!(a.sin().derivative().0, 0.0);
    assert_eq!(a.cos().derivative().0, 0.0);
    assert_eq!(a.sqrt().derivative().0, 0.0);
    // Value channels equal plain arithmetic exactly.
    assert_eq!(a.mul(b).value().0, 2.25 * 0.75);
    assert_eq!(a.exp().value().0, 2.25f64.exp());
}

#[test]
fn domain_violations_propagate_as_nonfinite() {
    // Division by a zero value, the logarithm of a negative value and the
    // root of a negative value give non-finite results, never a failure.
    let x = Dual::seeded(F64(1.0));
    let z = Dual::from_value(F64(0.0));
    assert!(x.div(z).value().0.is_infinite());
    assert!(x.div(z).derivative().0.is_nan() || x.div(z).derivative().0.is_infinite());
    let n = Dual::seeded(F64(-1.0));
    assert!(n.ln().value().0.is_nan());
    assert!(n.sqrt().value().0.is_nan());
    assert!(z.recip().value().0.is_infinite());
}

#[test]
fn hyper_mixed_partial_against_finite_differences() {
    // g(x, y) = x * exp(y) + y / x, mixed partial at (1.3, 0.4).
    fn g<T: Scalar>(x: T, y: T) -> T {
        x.mul(y.exp()).add(y.div(x))
    }
    fn g_plain(x: f64, y: f64) -> f64 {
        g(F64(x), F64(y)).0
    }
    let (x0, y0) = (1.3, 0.4);
    let r = g(HyperDual::seeded1(F64(x0)), HyperDual::seeded2(F64(y0)));
    let h = 1e-4;
    let fd = (g_plain(x0 + h, y0 + h) - g_plain(x0 + h, y0 - h) - g_plain(x0 - h, y0 + h)
        + g_plain(x0 - h, y0 - h)) / (4.0 * h * h);
    assert!(close(r.eps1eps2().0, fd, 1e-6 * (1.0 + fd.abs())));
    // The first-order channels agree with separate dual-number runs.
    let dx = g(Dual::seeded(F64(x0)), Dual::from_value(F64(y0)));
    let dy = g(Dual::from_value(F64(x0)), Dual::seeded(F64(y0)));
    assert_eq!(r.eps1().0, dx.derivative().0);
    assert_eq!(r.eps2().0, dy.derivative().0);
    assert_eq!(r.value().0, g_plain(x0, y0));
}

#[test]
fn hyper_pure_second_derivative() {
    // d^2(x^3)/dx^2 = 6x, seeded twice on the same variable.
    let x0 = 1.7;
    let r = HyperDual::seeded_both(F64(x0)).powi(3);
    assert!(rel_close(r.eps1eps2().0, 6.0 * x0, 1e-12));
    // Channel symmetry: both tangents carry the same first derivative.
    assert_eq!(r.eps1().0, r.eps2().0);
}

#[test]
fn hyper_second_derivative_of_reference_fn() {
    // Central second difference of the reference function at one point.
    let v = 1.5;
    let r = reference_fn(HyperDual::seeded_both(F64(v)));
    let h = 1e-4;
    let fd = (reference_plain(v + h) - 2.0 * reference_plain(v) + reference_plain(v - h))
        / (h * h);
    assert!(close(r.eps1eps2().0, fd, 1e-5 * (1.0 + fd.abs())));
}

/// The worked example: a Helmholtz-energy-like expression over component
/// sequences, written once against the capability.  `frac_pi_6` and `c012`
/// are the two non-integer constants of the formula, lifted by the caller.
fn helmholtz<T: Scalar>(
    temperature: T,
    volume: T,
    moles: &[T],
    m: &[T],
    sigma: &[T],
    epsilon_k: &[T],
    frac_pi_6: T,
    c012: T,
) -> T {
    let n = moles.len();
    let t_inv = temperature.recip();
    let mut diameter: Vec<T> = Vec::new();
    for i in 0..n {
        let boltz = t_inv.mul(T::from_i32(3).neg()).mul(epsilon_k[i]).exp();
        diameter.push(boltz.mul(c012).sub(T::one()).neg().mul(sigma[i]));
    }

    let mut density = T::zero();
    let mut total_moles = T::zero();
    for i in 0..n {
        density = density.add(moles[i].div(volume));
        total_moles = total_moles.add(moles[i]);
    }
    let mut x: Vec<T> = Vec::new();
    for i in 0..n {
        x.push(moles[i].div(total_moles));
    }

    let mut zeta = [T::zero(), T::zero(), T::zero(), T::zero()];
    for i in 0..n {
        for k in 0..4 {
            zeta[k] = zeta[k].add(
                x[i].mul(diameter[i].powi(k as i32)).mul(m[i].mul(frac_pi_6)),
            );
        }
    }
    let zeta_23 = zeta[2].div(zeta[3]);
    for k in 0..4 {
        zeta[k] = zeta[k].mul(density);
    }
    let frac_1mz3 = zeta[3].sub(T::one()).recip().neg();
    volume.div(frac_pi_6).mul(
        zeta[1].mul(zeta[2]).mul(frac_1mz3).mul(T::from_i32(3))
            .add(zeta[2].powi(2).mul(frac_1mz3.powi(2)).mul(zeta_23))
            .add(
                zeta[2].mul(zeta_23.powi(2)).sub(zeta[0]).mul(
                    zeta[3].mul(T::one().neg()).ln_1p(),
                ),
            ),
    )
}

const T0: f64 = 250.0;
const V0: f64 = 1000.0;
const N0: f64 = 1.0;
const M0: f64 = 2.001829;
const SIGMA0: f64 = 3.618353;
const EPS_K0: f64 = 208.1101;

fn helmholtz_plain() -> f64 {
    helmholtz(
        F64(T0),
        F64(V0),
        &[F64(N0)],
        &[F64(M0)],
        &[F64(SIGMA0)],
        &[F64(EPS_K0)],
        F64(std::f64::consts::FRAC_PI_6),
        F64(0.12),
    )
    .0
}

fn helmholtz_dual(seed_t: bool, seed_v: bool, seed_n: bool) -> Dual<F64> {
    let lift = |v: f64, seeded: bool| {
        if seeded {
            Dual::seeded(F64(v))
        } else {
            Dual::from_value(F64(v))
        }
    };
    helmholtz(
        lift(T0, seed_t),
        lift(V0, seed_v),
        &[lift(N0, seed_n)],
        &[Dual::from_value(F64(M0))],
        &[Dual::from_value(F64(SIGMA0))],
        &[Dual::from_value(F64(EPS_K0))],
        Dual::from_value(F64(std::f64::consts::FRAC_PI_6)),
        Dual::from_value(F64(0.12)),
    )
}

#[test]
fn generic_substitutability_value() {
    let plain = helmholtz_plain();
    assert!(rel_close(plain, 0.4106104925988083, 1e-12));
    // The dual run reproduces the plain value channel bit for bit.
    assert_eq!(helmholtz_dual(true, false, false).value().0, plain);
    assert_eq!(helmholtz_dual(false, true, false).value().0, plain);
    assert_eq!(helmholtz_dual(false, false, true).value().0, plain);
}

#[test]
fn generic_substitutability_derivatives() {
    let da_dt = helmholtz_dual(true, false, false).derivative().0;
    let da_dv = helmholtz_dual(false, true, false).derivative().0;
    let da_dn = helmholtz_dual(false, false, true).derivative().0;
    assert!(rel_close(da_dt, -1.3057308352981093e-4, 1e-9));
    assert!(rel_close(da_dv, -4.3679624456275116e-4, 1e-9));
    assert!(rel_close(da_dn, 0.8474067371615595, 1e-9));
}

#[test]
fn extraction_is_idempotent_float() {
    let r = helmholtz_dual(true, false, false);
    assert_eq!(r.value().0, r.value().0);
    assert_eq!(r.derivative().0, r.derivative().0);
    let h = reference_fn(HyperDual::seeded_both(F64(1.5)));
    assert_eq!(h.eps1eps2().0, h.eps1eps2().0);
}
