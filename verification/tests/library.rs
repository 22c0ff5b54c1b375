use manifold::diff::{AutoDiff, Diff, DiffFn, NormalDiff};
use manifold::dual::{dual_num, jacobian, jacobian_mut, jvp_mut, seeded, values, Dual};
use manifold::filter::{FilterState, Integrator};
use manifold::manifold::{
    ComplexRotation, Manifold, ProductSpace, RealLine, TimeVaryingConstraint, TrajectoryDynamics,
};
use manifold::filter::one_norm;
use manifold::lie::Manifold as BoxManifold;
use manifold::lie::{
    cross, transport_matrix, ProductManifold, ProjectiveManifold, TangentRN, TangentSE3, TangentSO3, VectorTransport, SE3, SO3,
};
use manifold::linalg::{
    block_diag, columns, dot, identity, mat_add, mat_mul, mat_scale, mat_vec, norm, normalize, segment, transpose,
};
use manifold::manifold::dynamics::pack;
use manifold::manifold::so3::{quaternion_apply_pushforward, quaternion_pushforward, so3_small_adjoint};
use manifold::manifold::{retraction_transport, InvariantLieGroup};
use manifold::optimize::{
    add_diagonal, OptimizationHorizon, SolverOptions, StaticLevenbergMarquardt, StaticNonlinearSolver,
};
use manifold::scalar::{LinearSolve, RealScalar};
use nalgebra::{SMatrix, SVector};

// ---------------------------------------------------------------------------
// The scalar these tests run the library on: an `f64`, with the library's
// spec functions given the same meaning as the operations.
// ---------------------------------------------------------------------------
#[derive(Clone, Copy, Debug, PartialEq, PartialOrd)]
struct F(f64);

impl RealScalar for F {
    fn zero_spec() -> Self { F(0.0) }
    fn one_spec() -> Self { F(1.0) }
    fn from_i32_spec(n: i32) -> Self { F(n as f64) }
    fn from_ratio_spec(n: i32, d: i32) -> Self { F(n as f64 / d as f64) }
    fn add_spec(a: Self, b: Self) -> Self { F(a.0 + b.0) }
    fn sub_spec(a: Self, b: Self) -> Self { F(a.0 - b.0) }
    fn mul_spec(a: Self, b: Self) -> Self { F(a.0 * b.0) }
    fn div_spec(a: Self, b: Self) -> Self { F(a.0 / b.0) }
    fn neg_spec(a: Self) -> Self { F(-a.0) }
    fn rem_spec(a: Self, b: Self) -> Self { F(a.0 % b.0) }
    fn eq_spec(a: Self, b: Self) -> bool { a.0 == b.0 }
    fn lt_spec(a: Self, b: Self) -> bool { a.0 < b.0 }
    fn le_spec(a: Self, b: Self) -> bool { a.0 <= b.0 }
    fn abs_spec(a: Self) -> Self { F(a.0.abs()) }
    fn max_spec(a: Self, b: Self) -> Self { F(a.0.max(b.0)) }
    fn min_spec(a: Self, b: Self) -> Self { F(a.0.min(b.0)) }
    fn sqrt_spec(a: Self) -> Self { F(a.0.sqrt()) }
    fn exp_spec(a: Self) -> Self { F(a.0.exp()) }
    fn ln_spec(a: Self) -> Self { F(a.0.ln()) }
    fn sin_spec(a: Self) -> Self { F(a.0.sin()) }
    fn cos_spec(a: Self) -> Self { F(a.0.cos()) }
    fn tan_spec(a: Self) -> Self { F(a.0.tan()) }
    fn asin_spec(a: Self) -> Self { F(a.0.asin()) }
    fn acos_spec(a: Self) -> Self { F(a.0.acos()) }
    fn atan_spec(a: Self) -> Self { F(a.0.atan()) }
    fn sinh_spec(a: Self) -> Self { F(a.0.sinh()) }
    fn cosh_spec(a: Self) -> Self { F(a.0.cosh()) }
    fn tanh_spec(a: Self) -> Self { F(a.0.tanh()) }
    fn atan2_spec(y: Self, x: Self) -> Self { F(y.0.atan2(x.0)) }
    fn powi_spec(a: Self, n: i32) -> Self { F(a.0.powi(n)) }
    fn powf_spec(a: Self, p: Self) -> Self { F(a.0.powf(p.0)) }
    fn pi_spec() -> Self { F(std::f64::consts::PI) }
    fn is_sign_positive_spec(a: Self) -> bool { a.0.is_sign_positive() }
    fn asinh_spec(a: Self) -> Self { F(a.0.asinh()) }
    fn acosh_spec(a: Self) -> Self { F(a.0.acosh()) }
    fn atanh_spec(a: Self) -> Self { F(a.0.atanh()) }
    fn log2_spec(a: Self) -> Self { F(a.0.log2()) }
    fn log10_spec(a: Self) -> Self { F(a.0.log10()) }
    fn ln_1p_spec(a: Self) -> Self { F(a.0.ln_1p()) }
    fn cbrt_spec(a: Self) -> Self { F(a.0.cbrt()) }
    fn exp2_spec(a: Self) -> Self { F(a.0.exp2()) }
    fn exp_m1_spec(a: Self) -> Self { F(a.0.exp_m1()) }
    fn floor_spec(a: Self) -> Self { F(a.0.floor()) }
    fn ceil_spec(a: Self) -> Self { F(a.0.ceil()) }
    fn round_spec(a: Self) -> Self { F(a.0.round()) }
    fn trunc_spec(a: Self) -> Self { F(a.0.trunc()) }
    fn fract_spec(a: Self) -> Self { F(a.0.fract()) }
    fn ln_2_spec() -> Self { F(std::f64::consts::LN_2) }
    fn ln_10_spec() -> Self { F(std::f64::consts::LN_10) }
    fn is_finite_spec(a: Self) -> bool { a.0.is_finite() }
    fn is_sign_negative_spec(a: Self) -> bool { a.0.is_sign_negative() }
    fn is_nan_spec(a: Self) -> bool { a.0.is_nan() }
    // `<` on f64 is transitive.
    fn lemma_lt_transitive(_a: Self, _b: Self, _c: Self) {}
    // IEEE 754 addition and multiplication round the same exact result either
    // way (and agree on infinities), and NaN propagates through +, - and *.
    fn lemma_add_commutative(_a: Self, _b: Self) {}
    fn lemma_mul_commutative(_a: Self, _b: Self) {}
    fn lemma_add_not_nan(_a: Self, _b: Self) {}
    fn lemma_sub_not_nan(_a: Self, _b: Self) {}
    fn lemma_mul_not_nan(_a: Self, _b: Self) {}
    fn zero() -> Self { Self::zero_spec() }
    fn one() -> Self { Self::one_spec() }
    fn from_i32(n: i32) -> Self { Self::from_i32_spec(n) }
    fn from_ratio(n: i32, d: i32) -> Self { Self::from_ratio_spec(n, d) }
    fn add(self, rhs: Self) -> Self { Self::add_spec(self, rhs) }
    fn sub(self, rhs: Self) -> Self { Self::sub_spec(self, rhs) }
    fn mul(self, rhs: Self) -> Self { Self::mul_spec(self, rhs) }
    fn div(self, rhs: Self) -> Self { Self::div_spec(self, rhs) }
    fn neg(self) -> Self { Self::neg_spec(self) }
    fn rem(self, rhs: Self) -> Self { Self::rem_spec(self, rhs) }
    fn eq(self, rhs: Self) -> bool { Self::eq_spec(self, rhs) }
    fn lt(self, rhs: Self) -> bool { Self::lt_spec(self, rhs) }
    fn le(self, rhs: Self) -> bool { Self::le_spec(self, rhs) }
    fn abs(self) -> Self { Self::abs_spec(self) }
    fn max(self, rhs: Self) -> Self { Self::max_spec(self, rhs) }
    fn min(self, rhs: Self) -> Self { Self::min_spec(self, rhs) }
    fn sqrt(self) -> Self { Self::sqrt_spec(self) }
    fn exp(self) -> Self { Self::exp_spec(self) }
    fn ln(self) -> Self { Self::ln_spec(self) }
    fn sin(self) -> Self { Self::sin_spec(self) }
    fn cos(self) -> Self { Self::cos_spec(self) }
    fn tan(self) -> Self { Self::tan_spec(self) }
    fn asin(self) -> Self { Self::asin_spec(self) }
    fn acos(self) -> Self { Self::acos_spec(self) }
    fn atan(self) -> Self { Self::atan_spec(self) }
    fn sinh(self) -> Self { Self::sinh_spec(self) }
    fn cosh(self) -> Self { Self::cosh_spec(self) }
    fn tanh(self) -> Self { Self::tanh_spec(self) }
    fn atan2(self, x: Self) -> Self { Self::atan2_spec(self, x) }
    fn powi(self, n: i32) -> Self { Self::powi_spec(self, n) }
    fn powf(self, p: Self) -> Self { Self::powf_spec(self, p) }
    fn pi() -> Self { Self::pi_spec() }
    fn is_sign_positive(self) -> bool { Self::is_sign_positive_spec(self) }
    fn asinh(self) -> Self { Self::asinh_spec(self) }
    fn acosh(self) -> Self { Self::acosh_spec(self) }
    fn atanh(self) -> Self { Self::atanh_spec(self) }
    fn log2(self) -> Self { Self::log2_spec(self) }
    fn log10(self) -> Self { Self::log10_spec(self) }
    fn ln_1p(self) -> Self { Self::ln_1p_spec(self) }
    fn cbrt(self) -> Self { Self::cbrt_spec(self) }
    fn exp2(self) -> Self { Self::exp2_spec(self) }
    fn exp_m1(self) -> Self { Self::exp_m1_spec(self) }
    fn floor(self) -> Self { Self::floor_spec(self) }
    fn ceil(self) -> Self { Self::ceil_spec(self) }
    fn round(self) -> Self { Self::round_spec(self) }
    fn trunc(self) -> Self { Self::trunc_spec(self) }
    fn fract(self) -> Self { Self::fract_spec(self) }
    fn ln_2() -> Self { Self::ln_2_spec() }
    fn ln_10() -> Self { Self::ln_10_spec() }
    fn is_finite(self) -> bool { Self::is_finite_spec(self) }
    fn is_sign_negative(self) -> bool { Self::is_sign_negative_spec(self) }
}

fn to_na<const R: usize, const C: usize>(m: &[[F; C]; R]) -> SMatrix<f64, R, C> {
    SMatrix::<f64, R, C>::from_fn(|i, j| m[i][j].0)
}

fn from_na<const R: usize, const C: usize>(m: &SMatrix<f64, R, C>) -> [[F; C]; R] {
    let mut out = [[F(0.0); C]; R];
    for i in 0..R {
        for j in 0..C {
            out[i][j] = F(m[(i, j)]);
        }
    }
    out
}

impl<const D: usize> LinearSolve<D> for F {
    fn try_inverse_spec(m: [[Self; D]; D]) -> Option<[[Self; D]; D]> {
        to_na(&m).try_inverse().map(|inv| from_na(&inv))
    }
    fn cholesky_inverse_spec(m: [[Self; D]; D]) -> Option<[[Self; D]; D]> {
        to_na(&m).cholesky().map(|c| from_na(&c.inverse()))
    }
    fn cholesky_solve_spec(m: [[Self; D]; D], b: [Self; D]) -> Option<[Self; D]> {
        let bv = SVector::<f64, D>::from_fn(|i, _| b[i].0);
        to_na(&m).cholesky().map(|c| {
            let x = c.solve(&bv);
            let mut out = [F(0.0); D];
            for i in 0..D {
                out[i] = F(x[i]);
            }
            out
        })
    }
    fn try_inverse(m: &[[Self; D]; D]) -> Option<[[Self; D]; D]> {
        Self::try_inverse_spec(*m)
    }
    fn cholesky_inverse(m: &[[Self; D]; D]) -> Option<[[Self; D]; D]> {
        Self::cholesky_inverse_spec(*m)
    }
    fn cholesky_solve(m: &[[Self; D]; D], b: &[Self; D]) -> Option<[Self; D]> {
        Self::cholesky_solve_spec(*m, *b)
    }
}

fn f(x: f64) -> F {
    F(x)
}

const EPS: f64 = 1e-9;

// A generic constant from an f64 literal that is an integer or a simple ratio.
fn c<S: RealScalar>(n: i32) -> S {
    S::from_i32(n)
}

// ===========================================================================
// Dual numbers
// ===========================================================================

// This only type checks if `Dual<F, N>` is a scalar of the library.
fn assert_real_field<S: RealScalar>() {}

#[test]
fn dual_is_a_real_field() {
    assert_real_field::<Dual<F, 1>>();
    assert_real_field::<Dual<F, 3>>();
}

// A function written generically over the scalar. Because `S` is generic,
// every call resolves to the scalar trait's methods.
fn sample<S: RealScalar>(x: S) -> S {
    x.mul(x).add(S::one()).sqrt().mul(x.sin()).add(x.atan2(S::one()))
}

#[test]
fn autodiff_through_realfield_trait_methods() {
    let x = 0.7_f64;
    let dual = sample(Dual::<F, 1>::seed(f(x), 0));

    assert!((dual.re.0 - sample(f(x)).0).abs() < EPS);

    let h = 1e-6;
    let fd = (sample(f(x + h)).0 - sample(f(x - h)).0) / (2.0 * h);
    assert!((dual.eps[0].0 - fd).abs() < 1e-6, "dual.eps = {}, fd = {}", dual.eps[0].0, fd);
}

#[test]
fn realfield_selectors_route_the_derivative() {
    let a = Dual::<F, 1>::new(f(1.0), [f(10.0)]);
    let b = Dual::<F, 1>::new(f(2.0), [f(20.0)]);

    let hi = RealScalar::max(a, b);
    assert_eq!(hi.re.0, 2.0);
    assert_eq!(hi.eps[0].0, 20.0); // derivative of the winner, not of `a`

    let lo = RealScalar::min(a, b);
    assert_eq!(lo.re.0, 1.0);
    assert_eq!(lo.eps[0].0, 10.0);
}

#[test]
fn batched_jacobian_single_pass() {
    // f(x, y) = [x^2 * y, sin(x) + y];  J = [[2xy, x^2], [cos x, 1]]
    fn fun<S: RealScalar>(v: &[S; 2]) -> [S; 2] {
        [v[0].mul(v[0]).mul(v[1]), v[0].sin().add(v[1])]
    }

    let x = [f(1.3), f(0.7)];
    let out = fun(&seeded(&x));

    let val = values(&out);
    assert!((val[0].0 - 1.3 * 1.3 * 0.7).abs() < EPS);
    assert!((val[1].0 - (1.3_f64.sin() + 0.7)).abs() < EPS);

    let j = jacobian(&out);
    assert!((j[0][0].0 - 2.0 * 1.3 * 0.7).abs() < EPS);
    assert!((j[0][1].0 - 1.3 * 1.3).abs() < EPS);
    assert!((j[1][0].0 - 1.3_f64.cos()).abs() < EPS);
    assert!((j[1][1].0 - 1.0).abs() < EPS);
}

#[test]
fn nested_dual_gives_second_derivative() {
    type D1 = Dual<F, 1>;
    type D2 = Dual<D1, 1>;

    fn fun<S: RealScalar>(x: S) -> S {
        // x*sin(x): f' = sin x + x cos x,  f'' = 2 cos x - x sin x
        x.mul(x.sin())
    }

    let x0 = 0.7_f64;
    let x = D2::new(D1::new(f(x0), [f(1.0)]), [D1::new(f(1.0), [f(0.0)])]);

    let y = fun(x);

    let value = y.re.re.0;
    let d1a = y.re.eps[0].0;
    let d1b = y.eps[0].re.0;
    let d2 = y.eps[0].eps[0].0;

    let (s, co) = (x0.sin(), x0.cos());
    assert!((value - x0 * s).abs() < EPS);
    assert!((d1a - (s + x0 * co)).abs() < EPS);
    assert!((d1b - (s + x0 * co)).abs() < EPS);
    assert!((d2 - (2.0 * co - x0 * s)).abs() < EPS);
}

// ===========================================================================
// Differentiation engines
// ===========================================================================

// f(x, y) = [2x + 3y, 4x - y];  J = [[2, 3], [4, -1]]
struct LinearFn;
impl DiffFn<2, 2> for LinearFn {
    fn eval_spec<S: RealScalar>(&self, x: [S; 2]) -> [S; 2] {
        [x[0].mul(c(2)).add(x[1].mul(c(3))), x[0].mul(c(4)).sub(x[1])]
    }
    fn eval<S: RealScalar>(&self, x: &[S; 2], y: &mut [S; 2]) {
        y[0] = x[0].mul(c(2)).add(x[1].mul(c(3)));
        y[1] = x[0].mul(c(4)).sub(x[1]);
    }
}

fn linear_test_func_normal(x: &[F; 2]) -> [F; 2] {
    [f(2.0 * x[0].0 + 3.0 * x[1].0), f(4.0 * x[0].0 - x[1].0)]
}

fn linear_test_jacobian_normal(_x: &[F; 2]) -> [[F; 2]; 2] {
    [[f(2.0), f(3.0)], [f(4.0), f(-1.0)]]
}

fn v2(a: f64, b: f64) -> [F; 2] {
    [f(a), f(b)]
}

fn m2(a: f64, b: f64, cc: f64, d: f64) -> [[F; 2]; 2] {
    [[f(a), f(b)], [f(cc), f(d)]]
}

#[test]
fn test_linear_autodiff() {
    let ad = AutoDiff::new(LinearFn);
    let x = v2(1.0, 2.0);
    let v = v2(10.0, -1.0);

    let expected_eval = v2(8.0, 2.0);
    let expected_jac = m2(2.0, 3.0, 4.0, -1.0);
    // J * v = [2(10) + 3(-1), 4(10) - 1(-1)] = [17, 41]
    let expected_jvp = v2(17.0, 41.0);

    assert_eq!(Diff::<F, 2, 2>::eval(&ad, &x), expected_eval);
    assert_eq!(Diff::<F, 2, 2>::jacobian(&ad, &x), expected_jac);
    assert_eq!(Diff::<F, 2, 2>::jvp(&ad, &x, &v), expected_jvp);

    let (val, jvp) = Diff::<F, 2, 2>::eval_jvp(&ad, &x, &v);
    assert_eq!(val, expected_eval);
    assert_eq!(jvp, expected_jvp);
}

#[test]
fn test_linear_normal() {
    let nd = NormalDiff::new(linear_test_func_normal, linear_test_jacobian_normal);
    let x = v2(1.0, 2.0);
    let v = v2(10.0, -1.0);

    let expected_eval = v2(8.0, 2.0);
    let expected_jac = m2(2.0, 3.0, 4.0, -1.0);
    let expected_jvp = v2(17.0, 41.0);

    assert_eq!(nd.eval(&x), expected_eval);
    assert_eq!(nd.jacobian(&x), expected_jac);
    assert_eq!(nd.jvp(&x, &v), expected_jvp);

    let (val, jvp) = nd.eval_jvp(&x, &v);
    assert_eq!(val, expected_eval);
    assert_eq!(jvp, expected_jvp);
}

// f(x, y) = [x^2, x * y];  J = [[2x, 0], [y, x]]
struct NonlinearFn;
impl DiffFn<2, 2> for NonlinearFn {
    fn eval_spec<S: RealScalar>(&self, x: [S; 2]) -> [S; 2] {
        [x[0].mul(x[0]), x[0].mul(x[1])]
    }
    fn eval<S: RealScalar>(&self, x: &[S; 2], y: &mut [S; 2]) {
        y[0] = x[0].mul(x[0]);
        y[1] = x[0].mul(x[1]);
    }
}

#[test]
fn test_nonlinear_autodiff() {
    let ad = AutoDiff::new(NonlinearFn);
    let x = v2(3.0, 4.0);
    let v = v2(2.0, 5.0);

    let expected_eval = v2(9.0, 12.0);
    let expected_jac = m2(6.0, 0.0, 4.0, 3.0);
    let expected_jvp = v2(12.0, 23.0);

    assert_eq!(Diff::<F, 2, 2>::eval(&ad, &x), expected_eval);
    assert_eq!(Diff::<F, 2, 2>::jacobian(&ad, &x), expected_jac);
    assert_eq!(Diff::<F, 2, 2>::jvp(&ad, &x, &v), expected_jvp);

    let (val, jvp) = Diff::<F, 2, 2>::eval_jvp(&ad, &x, &v);
    assert_eq!(val, expected_eval);
    assert_eq!(jvp, expected_jvp);
}

#[test]
fn test_polymorphism() {
    let ad = AutoDiff::new(LinearFn);
    let nd = NormalDiff::new(linear_test_func_normal, linear_test_jacobian_normal);

    let diff_engines: [&dyn Diff<F, 2, 2>; 2] = [&ad, &nd];

    let x = v2(2.0, 1.0);
    let v = v2(1.0, 1.0);

    for engine in diff_engines {
        let res_eval = engine.eval(&x);
        let res_jac = engine.jacobian(&x);
        let res_jvp = engine.jvp(&x, &v);
        let (combined_val, combined_jvp) = engine.eval_jvp(&x, &v);

        assert_eq!(res_eval, v2(7.0, 7.0));
        assert_eq!(res_jac, m2(2.0, 3.0, 4.0, -1.0));
        assert_eq!(res_jvp, v2(5.0, 3.0));
        assert_eq!(combined_val, v2(7.0, 7.0));
        assert_eq!(combined_jvp, v2(5.0, 3.0));
    }
}

// ===========================================================================
// Fixtures for dynamics, constraints and the filter
// ===========================================================================

// 1-D dynamics, packed input = [x, u, w]:  f = -2x + 3u + w  =>  J = [-2, 3, 1]
fn lin_vel(p: &[F; 3]) -> [F; 1] {
    [f(-2.0 * p[0].0 + 3.0 * p[1].0 + 1.0 * p[2].0)]
}
fn lin_vel_jac(_p: &[F; 3]) -> [[F; 3]; 1] {
    [[f(-2.0), f(3.0), f(1.0)]]
}

// 2-D ambient dynamics, packed input = [z0, z1, u, w]:  f = 2 z0 + 5 z1 + 7 u + 11 w
fn rot_vel(p: &[F; 4]) -> [F; 1] {
    [f(2.0 * p[0].0 + 5.0 * p[1].0 + 7.0 * p[2].0 + 11.0 * p[3].0)]
}
fn rot_vel_jac(_p: &[F; 4]) -> [[F; 4]; 1] {
    [[f(2.0), f(5.0), f(7.0), f(11.0)]]
}

// Nonlinear dynamics for the AutoDiff path:  f = z0^2 + 3u + 4w  =>  J = [2 z0, 0, 3, 4]
struct NonlinearVelAd;
impl DiffFn<4, 1> for NonlinearVelAd {
    fn eval_spec<S: RealScalar>(&self, p: [S; 4]) -> [S; 1] {
        [p[0].mul(p[0]).add(p[2].mul(c(3))).add(p[3].mul(c(4)))]
    }
    fn eval<S: RealScalar>(&self, p: &[S; 4], y: &mut [S; 1]) {
        y[0] = p[0].mul(p[0]).add(p[2].mul(c(3))).add(p[3].mul(c(4)));
    }
}

// h(z) = z0^2 + z1^2 - 1  (rotation invariant)
fn unit_norm(z: &[F; 2]) -> [F; 1] {
    [f(z[0].0 * z[0].0 + z[1].0 * z[1].0 - 1.0)]
}
fn unit_norm_jac(z: &[F; 2]) -> [[F; 2]; 1] {
    [[f(2.0 * z[0].0), f(2.0 * z[1].0)]]
}

// h(z) = z0
fn x_coord(z: &[F; 2]) -> [F; 1] {
    [z[0]]
}
fn x_coord_jac(_z: &[F; 2]) -> [[F; 2]; 1] {
    [[f(1.0), f(0.0)]]
}

// h(z) = [z0^2 + z1^2 - 1, z0]
fn combined(z: &[F; 2]) -> [F; 2] {
    [f(z[0].0 * z[0].0 + z[1].0 * z[1].0 - 1.0), z[0]]
}
fn combined_jac(z: &[F; 2]) -> [[F; 2]; 2] {
    [[f(2.0 * z[0].0), f(2.0 * z[1].0)], [f(1.0), f(0.0)]]
}

// h(x) = 3x  =>  J = [3]
fn scale3(x: &[F; 1]) -> [F; 1] {
    [f(3.0 * x[0].0)]
}
fn scale3_jac(_x: &[F; 1]) -> [[F; 1]; 1] {
    [[f(3.0)]]
}

// Measurement on the (SO(2) x R) product, ambient = [z0, z1, x]:  h = [z1, x]
fn obs_z1_x(p: &[F; 3]) -> [F; 2] {
    [p[1], p[2]]
}
fn obs_z1_x_jac(_p: &[F; 3]) -> [[F; 3]; 2] {
    [[f(0.0), f(1.0), f(0.0)], [f(0.0), f(0.0), f(1.0)]]
}

type So2xR = ProductSpace<ComplexRotation<F>, RealLine<F>, 2, 1, 1, 1, 3, 2>;

fn real_line(x: f64) -> RealLine<F> {
    RealLine { x: [f(x)] }
}

fn rotation(a: f64, b: f64) -> ComplexRotation<F> {
    ComplexRotation { z: [f(a), f(b)] }
}

fn z_norm(r: &ComplexRotation<F>) -> f64 {
    (r.z[0].0 * r.z[0].0 + r.z[1].0 * r.z[1].0).sqrt()
}

// ===========================================================================
// Dynamics and constraints
// ===========================================================================

#[test]
fn test_evaluate_velocity_packs_inputs() {
    let sys: TrajectoryDynamics<F, _, 1, 1, 1, 1, 3> =
        TrajectoryDynamics::new(NormalDiff::new(lin_vel, lin_vel_jac));
    // -2*4 + 3*5 + 1*6 = 13
    let vel = sys.evaluate_velocity(&[f(4.0)], &[f(5.0)], &[f(6.0)]);
    assert!((vel[0].0 - 13.0).abs() < EPS);
}

#[test]
fn test_linearize_real_line() {
    let sys: TrajectoryDynamics<F, _, 1, 1, 1, 1, 3> =
        TrajectoryDynamics::new(NormalDiff::new(lin_vel, lin_vel_jac));
    let (fm, g) = sys.linearize(&real_line(4.0), &[f(5.0)]);
    // J_ambient = [-2], J_oplus = [1]  =>  F = -2 ;  G = [1]
    assert!((fm[0][0].0 - (-2.0)).abs() < EPS);
    assert!((g[0][0].0 - 1.0).abs() < EPS);
}

#[test]
fn test_linearize_rotation_identity() {
    let sys: TrajectoryDynamics<F, _, 2, 1, 1, 1, 4> =
        TrajectoryDynamics::new(NormalDiff::new(rot_vel, rot_vel_jac));
    let (fm, g) = sys.linearize(&ComplexRotation::identity(), &[f(0.0)]);
    // J_ambient = [2, 5]; J_oplus = [-0, 1]^T  =>  F = 5 ;  noise column = 11
    assert_eq!(fm[0][0].0, 5.0);
    assert_eq!(g[0][0].0, 11.0);
}

#[test]
fn test_linearize_rotation_generic() {
    let sys: TrajectoryDynamics<F, _, 2, 1, 1, 1, 4> =
        TrajectoryDynamics::new(NormalDiff::new(rot_vel, rot_vel_jac));
    let (fm, g) = sys.linearize(&rotation(0.6, 0.8), &[f(0.0)]);
    // J_oplus = [-0.8, 0.6]^T  =>  F = 2*(-0.8) + 5*(0.6) = 1.4
    assert!((fm[0][0].0 - 1.4).abs() < EPS);
    assert!((g[0][0].0 - 11.0).abs() < EPS);
}

#[test]
fn test_linearize_autodiff_rotation() {
    let sys: TrajectoryDynamics<F, _, 2, 1, 1, 1, 4> =
        TrajectoryDynamics::new(AutoDiff::new(NonlinearVelAd));
    let state = rotation(0.6, 0.8);
    let control = [f(2.0)];
    // f = z0^2 + 3u + 4w at (0.6, 0.8, 2, 0) = 0.36 + 6 = 6.36
    let vel = sys.evaluate_velocity(&state.to_ambient(), &control, &[f(0.0)]);
    assert!((vel[0].0 - 6.36).abs() < EPS);
    let (fm, g) = sys.linearize(&state, &control);
    // J_ambient = [1.2, 0]; J_oplus = [-0.8, 0.6]^T  =>  F = -0.96 ;  noise column = 4
    assert!((fm[0][0].0 - (-0.96)).abs() < EPS);
    assert!((g[0][0].0 - 4.0).abs() < EPS);
}

#[test]
fn test_constraint_evaluate() {
    let con: TimeVaryingConstraint<F, _, 2, 1, 1> =
        TimeVaryingConstraint::new(NormalDiff::new(unit_norm, unit_norm_jac));
    let on = con.evaluate(&v2(0.6, 0.8));
    assert!(on[0].0.abs() < EPS);
    let off = con.evaluate(&v2(1.0, 1.0));
    assert!((off[0].0 - 1.0).abs() < EPS);
}

#[test]
fn test_constraint_linearize_invariant_is_zero() {
    let con: TimeVaryingConstraint<F, _, 2, 1, 1> =
        TimeVaryingConstraint::new(NormalDiff::new(unit_norm, unit_norm_jac));
    let h_tangent = con.linearize_tangent(&rotation(0.6, 0.8));
    // H_ambient = [1.2, 1.6]; J_oplus = [-0.8, 0.6]^T  =>  0
    assert!(h_tangent[0][0].0.abs() < EPS);
}

#[test]
fn test_constraint_linearize_nonzero() {
    let con: TimeVaryingConstraint<F, _, 2, 1, 1> =
        TimeVaryingConstraint::new(NormalDiff::new(x_coord, x_coord_jac));
    let h_tangent = con.linearize_tangent(&rotation(0.6, 0.8));
    assert!((h_tangent[0][0].0 - (-0.8)).abs() < EPS);
}

#[test]
fn test_constraint_linearize_multirow() {
    let con: TimeVaryingConstraint<F, _, 2, 1, 2> =
        TimeVaryingConstraint::new(NormalDiff::new(combined, combined_jac));
    let h_tangent = con.linearize_tangent(&rotation(0.6, 0.8));
    assert!(h_tangent[0][0].0.abs() < EPS);
    assert!((h_tangent[1][0].0 - (-0.8)).abs() < EPS);
}

#[test]
fn test_constraint_linearize_real_line() {
    let con: TimeVaryingConstraint<F, _, 1, 1, 1> =
        TimeVaryingConstraint::new(NormalDiff::new(scale3, scale3_jac));
    let state = real_line(4.0);
    let residual = con.evaluate(&state.to_ambient());
    assert!((residual[0].0 - 12.0).abs() < EPS);
    let h_tangent = con.linearize_tangent(&state);
    assert!((h_tangent[0][0].0 - 3.0).abs() < EPS);
}

// ===========================================================================
// Manifolds
// ===========================================================================

#[test]
fn test_complex_rotation_manifold() {
    let rot = ComplexRotation::<F>::identity();
    let delta = f(std::f64::consts::FRAC_PI_2);
    let next_rot = rot.retract(&delta);
    assert!((next_rot.z[0].0 - 0.0).abs() < 1e-9);
    assert!((next_rot.z[1].0 - 1.0).abs() < 1e-9);

    let lifted_delta = rot.local_lift(&next_rot);
    assert!((lifted_delta.0 - std::f64::consts::FRAC_PI_2).abs() < 1e-9);

    // For the identity, J = [0, 1]^T, so J * 2 = [0, 2]^T.
    let ambient_vel = rot.apply_pushforward(&f(2.0));
    assert_eq!(ambient_vel, v2(0.0, 2.0));
}

#[test]
fn test_stable_product_space() {
    let state = ProductSpace::<ComplexRotation<F>, RealLine<F>, 2, 1, 1, 1, 3, 2> {
        m1: ComplexRotation::identity(),
        m2: real_line(10.0),
    };

    let delta = (f(std::f64::consts::FRAC_PI_2), f(5.0));
    let next_state = state.retract(&delta);

    assert!((next_state.m1.z[0].0 - 0.0).abs() < 1e-9);
    assert_eq!(next_state.m2.x[0].0, 15.0);

    let tangent_vel = (f(2.0), f(-3.0));
    let ambient_vel = state.apply_pushforward(&tangent_vel);
    assert_eq!(ambient_vel, [f(0.0), f(2.0), f(-3.0)]);
}

// ===========================================================================
// The filter
// ===========================================================================

#[test]
fn test_new_stores_state_and_covariance() {
    let fs = FilterState::<F, RealLine<F>, 1, 1>::new(real_line(7.0), [[f(0.25)]]);
    assert_eq!(fs.state.x[0].0, 7.0);
    assert_eq!(fs.covariance[0][0].0, 0.25);
}

#[test]
fn test_predict_real_line_no_constraint() {
    let dynamics: TrajectoryDynamics<F, _, 1, 1, 1, 1, 3> =
        TrajectoryDynamics::new(NormalDiff::new(lin_vel, lin_vel_jac));
    let mut fs = FilterState::<F, RealLine<F>, 1, 1>::new(real_line(4.0), [[f(0.5)]]);

    fs.predict(&dynamics, &[f(5.0)], &[[f(2.0)]], f(0.1), Integrator::Euler);

    // velocity = -2*4 + 3*5 = 7 ;  x_new = 4 + 7*0.1 = 4.7
    assert!((fs.state.x[0].0 - 4.7).abs() < EPS);
    // F_d = 0.8 ;  G_d = 0.1 ;  P_new = 0.8^2 * 0.5 + 0.1^2 * 2 = 0.34
    assert!((fs.covariance[0][0].0 - 0.34).abs() < EPS);
}

#[test]
fn test_predict_rotation_stays_on_circle() {
    let dynamics: TrajectoryDynamics<F, _, 2, 1, 1, 1, 4> =
        TrajectoryDynamics::new(NormalDiff::new(rot_vel, rot_vel_jac));
    let mut fs = FilterState::<F, ComplexRotation<F>, 2, 1>::new(ComplexRotation::identity(), [[f(0.1)]]);

    fs.predict(&dynamics, &[f(0.0)], &[[f(1.0)]], f(0.01), Integrator::Euler);

    let angle = 0.02_f64;
    assert!((fs.state.z[0].0 - angle.cos()).abs() < EPS);
    assert!((fs.state.z[1].0 - angle.sin()).abs() < EPS);
    assert!((z_norm(&fs.state) - 1.0).abs() < EPS);
    // P_new = 1.05^2 * 0.1 + 0.11^2 * 1.0 = 0.12235
    assert!((fs.covariance[0][0].0 - 0.12235).abs() < EPS);
}

#[test]
fn test_predict_rotation_autodiff_matches_closed_form() {
    let dynamics: TrajectoryDynamics<F, _, 2, 1, 1, 1, 4> =
        TrajectoryDynamics::new(AutoDiff::new(NonlinearVelAd));
    let mut fs = FilterState::<F, ComplexRotation<F>, 2, 1>::new(rotation(0.6, 0.8), [[f(0.2)]]);

    fs.predict(&dynamics, &[f(2.0)], &[[f(1.0)]], f(0.1), Integrator::Euler);

    let end_angle = 0.8_f64.atan2(0.6) + 0.636;
    assert!((fs.state.z[0].0 - end_angle.cos()).abs() < EPS);
    assert!((fs.state.z[1].0 - end_angle.sin()).abs() < EPS);
    assert!((z_norm(&fs.state) - 1.0).abs() < EPS);
    // P_new = 0.904^2 * 0.2 + 0.4^2 * 1.0 = 0.3234432
    assert!((fs.covariance[0][0].0 - 0.3234432).abs() < EPS);
}

#[test]
fn test_correct_measurement_real_line() {
    let meas: TimeVaryingConstraint<F, _, 1, 1, 1> =
        TimeVaryingConstraint::new(NormalDiff::new(scale3, scale3_jac));
    let mut fs = FilterState::<F, RealLine<F>, 1, 1>::new(real_line(4.0), [[f(2.0)]]);

    // h(x) = 12, so the innovation is 1.5.
    fs.correct_measurement(&meas, &[f(13.5)], &[[f(1.0)]]);

    // S = 19 ;  K = 6/19 ;  dx = 9/19 ;  P_new = 2/19
    assert!((fs.state.x[0].0 - (4.0 + 9.0 / 19.0)).abs() < EPS);
    assert!((fs.covariance[0][0].0 - 2.0 / 19.0).abs() < EPS);
}

#[test]
fn correct_measurement_matches_innovation_form() {
    let meas: TimeVaryingConstraint<F, _, 1, 1, 1> =
        TimeVaryingConstraint::new(NormalDiff::new(scale3, scale3_jac));
    let r = [[f(1.0)]];
    let make = || FilterState::<F, RealLine<F>, 1, 1>::new(real_line(4.0), [[f(2.0)]]);

    let mut a = make();
    a.correct_measurement(&meas, &[f(13.5)], &r);

    let mut b = make();
    b.correct_with_innovation(&meas, &[f(1.5)], &r);

    assert!((a.state.x[0].0 - b.state.x[0].0).abs() < EPS);
    assert!((a.covariance[0][0].0 - b.covariance[0][0].0).abs() < EPS);
}

#[test]
fn test_correct_measurement_product_invariants() {
    let meas: TimeVaryingConstraint<F, _, 3, 2, 2> =
        TimeVaryingConstraint::new(NormalDiff::new(obs_z1_x, obs_z1_x_jac));

    let state = So2xR { m1: ComplexRotation::identity(), m2: real_line(0.0) };
    let prior = m2(1.0, 0.2, 0.2, 1.0);
    let mut fs = FilterState::<F, So2xR, 3, 2>::new(state, prior);

    let prior_trace = fs.covariance[0][0].0 + fs.covariance[1][1].0;

    fs.correct_measurement(&meas, &v2(0.3, -0.4), &m2(0.5, 0.0, 0.0, 0.5));

    assert!((fs.covariance[0][1].0 - fs.covariance[1][0].0).abs() < EPS);
    assert!(fs.covariance[0][0].0 > 0.0);
    assert!(fs.covariance[1][1].0 > 0.0);
    assert!(fs.covariance[0][0].0 + fs.covariance[1][1].0 < prior_trace);

    assert!((z_norm(&fs.state.m1) - 1.0).abs() < EPS);
    assert!(fs.state.m2.x[0].0.abs() > EPS);
}

#[test]
fn test_project_hard_constraints_real_line_exact() {
    let con: TimeVaryingConstraint<F, _, 1, 1, 1> =
        TimeVaryingConstraint::new(NormalDiff::new(scale3, scale3_jac));
    let mut fs = FilterState::<F, RealLine<F>, 1, 1>::new(real_line(4.0), [[f(1.0)]]);

    fs.project_hard_constraints(&con, f(1e-10), 5);

    assert!(fs.state.x[0].0.abs() < 1e-9);
    assert!(fs.covariance[0][0].0.abs() < 1e-9);
}

#[test]
fn test_predict_with_hard_constraint_projects() {
    let dynamics: TrajectoryDynamics<F, _, 1, 1, 1, 1, 3> =
        TrajectoryDynamics::new(NormalDiff::new(lin_vel, lin_vel_jac));
    let con: TimeVaryingConstraint<F, _, 1, 1, 1> =
        TimeVaryingConstraint::new(NormalDiff::new(scale3, scale3_jac));
    let mut fs = FilterState::<F, RealLine<F>, 1, 1>::new(real_line(4.0), [[f(0.5)]]);

    fs.predict_with_constraint(&dynamics, &[f(5.0)], &[[f(2.0)]], &con, f(0.1), Integrator::Euler);

    assert!(fs.state.x[0].0.abs() < 1e-9);
    assert!(fs.covariance[0][0].0.abs() < 1e-9);
}

#[test]
fn test_project_hard_constraints_singular_guard_is_noop() {
    let con: TimeVaryingConstraint<F, _, 2, 1, 1> =
        TimeVaryingConstraint::new(NormalDiff::new(unit_norm, unit_norm_jac));
    let mut fs = FilterState::<F, ComplexRotation<F>, 2, 1>::new(rotation(2.0, 0.0), [[f(0.5)]]);

    fs.project_hard_constraints(&con, f(1e-10), 5);

    assert_eq!(fs.state.z[0].0, 2.0);
    assert_eq!(fs.state.z[1].0, 0.0);
    assert_eq!(fs.covariance[0][0].0, 0.5);
}

// ===========================================================================
// Further properties of the library, on concrete values
// ===========================================================================

fn close3(a: &[[F; 3]; 3], b: &[[f64; 3]; 3], tol: f64) -> bool {
    (0..3).all(|i| (0..3).all(|j| (a[i][j].0 - b[i][j]).abs() < tol))
}

fn close_vec<const N: usize>(a: &[F; N], b: &[f64; N], tol: f64) -> bool {
    (0..N).all(|i| (a[i].0 - b[i]).abs() < tol)
}

fn v3(a: f64, b: f64, cc: f64) -> [F; 3] {
    [f(a), f(b), f(cc)]
}

#[test]
fn round_trips_on_real_line_and_circle() {
    let x = real_line(2.5);
    assert_eq!(RealLine::<F>::from_ambient(&x.to_ambient()).x, x.x);
    assert_eq!(RealLine::<F>::from_ambient(&[f(1.25)]).to_ambient(), [f(1.25)]);
    assert_eq!(RealLine::<F>::vector_to_tangent(&RealLine::<F>::tangent_to_vector(&f(0.3))), f(0.3));
    assert_eq!(RealLine::<F>::tangent_to_vector(&RealLine::<F>::vector_to_tangent(&[f(-0.7)])), [f(-0.7)]);

    let r = rotation(0.6, 0.8);
    assert_eq!(ComplexRotation::<F>::from_ambient(&r.to_ambient()).z, r.z);
    assert_eq!(ComplexRotation::<F>::from_ambient(&v2(0.28, -0.96)).to_ambient(), v2(0.28, -0.96));
    assert_eq!(
        ComplexRotation::<F>::vector_to_tangent(&ComplexRotation::<F>::tangent_to_vector(&f(1.1))),
        f(1.1)
    );
}

#[test]
fn round_trips_on_product_space() {
    let state = So2xR { m1: rotation(0.6, 0.8), m2: real_line(-1.5) };
    let ambient = state.to_ambient();
    assert_eq!(ambient, v3(0.6, 0.8, -1.5));
    let back = So2xR::from_ambient(&ambient);
    assert_eq!(back.m1.z, state.m1.z);
    assert_eq!(back.m2.x, state.m2.x);
    assert_eq!(So2xR::from_ambient(&v3(0.0, 1.0, 7.0)).to_ambient(), v3(0.0, 1.0, 7.0));

    let t = (f(0.1), f(0.2));
    let vec = So2xR::tangent_to_vector(&t);
    assert_eq!(vec, v2(0.1, 0.2));
    assert_eq!(So2xR::vector_to_tangent(&vec), t);
}

#[test]
fn product_pushforward_and_transport_are_block_diagonal() {
    let state = So2xR { m1: ComplexRotation::identity(), m2: real_line(3.0) };
    let j = state.pushforward_jacobian();
    assert_eq!(j, [[f(-0.0), f(0.0)], [f(1.0), f(0.0)], [f(0.0), f(1.0)]]);
    let g = state.parallel_transport(&(f(0.4), f(-2.0)));
    assert_eq!(g, m2(1.0, 0.0, 0.0, 1.0));
    assert_eq!(real_line(1.0).parallel_transport(&f(5.0)), [[f(1.0)]]);
    assert_eq!(rotation(0.6, 0.8).parallel_transport(&f(0.5)), [[f(1.0)]]);
}

#[test]
fn retraction_transport_on_the_circle_is_the_cosine() {
    // J(x) = [-y, x]^T; at the identity moved by 0.3, J_new^T J_old = cos(0.3).
    let t = retraction_transport(&ComplexRotation::<F>::identity(), &f(0.3));
    assert!((t[0][0].0 - 0.3_f64.cos()).abs() < EPS);
    // On the flat line it is the identity.
    let t = retraction_transport(&real_line(2.0), &f(-4.0));
    assert_eq!(t, [[f(1.0)]]);
}

#[test]
fn complex_rotation_is_a_lie_group() {
    let a = ComplexRotation::<F>::exp(&f(0.4));
    let b = ComplexRotation::<F>::exp(&f(0.7));
    assert!((a.z[0].0 - 0.4_f64.cos()).abs() < EPS);
    assert!((a.z[1].0 - 0.4_f64.sin()).abs() < EPS);
    assert!((a.log().0 - 0.4).abs() < EPS);
    let ab = a.compose(&b);
    assert!((ab.log().0 - 1.1).abs() < EPS);
    let inv = a.inverse();
    assert_eq!(inv.z, [a.z[0], f(-a.z[1].0)]);
    assert!(a.compose(&inv).log().0.abs() < EPS);
    assert_eq!(a.adjoint(), [[f(1.0)]]);
    assert_eq!(ComplexRotation::<F>::small_adjoint(&f(3.0)), [[f(0.0)]]);
}

#[test]
fn dual_value_part_follows_the_plain_computation() {
    let a = Dual::<F, 2>::new(f(0.7), [f(1.0), f(-2.0)]);
    let b = Dual::<F, 2>::new(f(1.9), [f(0.5), f(3.0)]);
    let (x, y) = (f(0.7), f(1.9));
    assert_eq!(a.add(b).re, x.add(y));
    assert_eq!(a.sub(b).re, x.sub(y));
    assert_eq!(a.mul(b).re, x.mul(y));
    assert_eq!(a.div(b).re, x.div(y));
    assert_eq!(a.sin().re, x.sin());
    assert_eq!(a.cos().re, x.cos());
    assert_eq!(a.exp().re, x.exp());
    assert_eq!(b.ln().re, y.ln());
    assert_eq!(b.sqrt().re, y.sqrt());
    assert_eq!(a.tanh().re, x.tanh());
    assert_eq!(a.atan2(b).re, x.atan2(y));
    assert_eq!(a.powi(3).re, x.powi(3));
    assert_eq!(RealScalar::powf(b, a).re, y.powf(x));
    assert!(RealScalar::lt(a, b));
    assert!(!RealScalar::eq(a, b));
    assert!(RealScalar::le(a, a));
}

#[test]
fn constants_carry_no_derivative_and_seeds_a_unit_one() {
    let k = Dual::<F, 3>::constant(f(4.0));
    assert_eq!(k.re, f(4.0));
    assert_eq!(k.eps, v3(0.0, 0.0, 0.0));
    let s = Dual::<F, 3>::seed(f(4.0), 1);
    assert_eq!(s.re, f(4.0));
    assert_eq!(s.eps, v3(0.0, 1.0, 0.0));
    let d = dual_num(f(2.0), f(-3.0));
    assert_eq!(d.re, f(2.0));
    assert_eq!(d.eps, [f(-3.0)]);
    let z = <Dual<F, 2> as RealScalar>::zero();
    assert!(z.is_zero());
    let o = <Dual<F, 2> as RealScalar>::one();
    assert!(o.is_one());
    assert!(!Dual::<F, 2>::new(f(1.0), [f(0.0), f(1.0)]).is_one());
}

#[test]
fn dual_derivative_rules_give_exact_values() {
    let x = Dual::<F, 1>::new(f(2.0), [f(1.0)]);
    let r = x.recip();
    assert_eq!((r.re.0, r.eps[0].0), (0.5, -0.25));
    let p = x.powi(3);
    assert_eq!((p.re.0, p.eps[0].0), (8.0, 12.0));
    let q = x.powf(f(2.0));
    assert!((q.re.0 - 4.0).abs() < EPS && (q.eps[0].0 - 4.0).abs() < EPS);
    let h = Dual::<F, 1>::new(f(3.0), [f(1.0)]).hypot(Dual::new(f(4.0), [f(0.0)]));
    assert_eq!((h.re.0, h.eps[0].0), (5.0, 0.6));
    let e = Dual::<F, 1>::new(f(0.0), [f(1.0)]).exp();
    assert_eq!((e.re.0, e.eps[0].0), (1.0, 1.0));
    let l = Dual::<F, 1>::new(f(8.0), [f(0.0)]).log(Dual::new(f(2.0), [f(0.0)]));
    assert!((l.re.0 - 3.0).abs() < EPS);
    let m = x.mul_add(Dual::new(f(3.0), [f(0.0)]), Dual::new(f(1.0), [f(0.0)]));
    assert_eq!((m.re.0, m.eps[0].0), (7.0, 3.0));
    let sq = x.modulus_squared();
    assert_eq!((sq.re.0, sq.eps[0].0), (4.0, 4.0));
    let (s, c2) = Dual::<F, 1>::new(f(0.0), [f(1.0)]).sin_cos();
    assert_eq!((s.re.0, s.eps[0].0, c2.re.0, c2.eps[0].0), (0.0, 1.0, 1.0, -0.0));
    let fl = Dual::<F, 1>::new(f(2.7), [f(5.0)]).floor();
    assert_eq!((fl.re.0, fl.eps[0].0), (2.0, 0.0));
    let fr = Dual::<F, 1>::new(f(2.75), [f(5.0)]).fract();
    assert_eq!((fr.re.0, fr.eps[0].0), (0.75, 5.0));
    let at = Dual::<F, 1>::new(f(1.0), [f(1.0)]).atan2(Dual::new(f(1.0), [f(0.0)]));
    assert!((at.re.0 - std::f64::consts::FRAC_PI_4).abs() < EPS);
    assert!((at.eps[0].0 - 0.5).abs() < EPS);
}

#[test]
fn dual_edge_cases() {
    let neg = Dual::<F, 1>::new(f(-2.0), [f(3.0)]);
    let a = neg.abs();
    assert_eq!((a.re.0, a.eps[0].0), (2.0, -3.0));
    assert!(neg.try_sqrt().is_none());
    let root = Dual::<F, 1>::new(f(4.0), [f(1.0)]).try_sqrt().unwrap();
    assert_eq!((root.re.0, root.eps[0].0), (2.0, 0.25));
    let sg = neg.signum();
    assert_eq!((sg.re.0, sg.eps[0].0), (-1.0, 0.0));
    assert_eq!(Dual::<F, 1>::new(f(0.0), [f(1.0)]).signum().re.0, 0.0);
    assert!(neg.is_negative() && !neg.is_positive());
    let cs = neg.copysign(Dual::new(f(3.0), [f(0.0)]));
    assert_eq!((cs.re.0, cs.eps[0].0), (2.0, -3.0));
    assert_eq!(neg.argument().re.0, std::f64::consts::PI);
    assert_eq!(Dual::<F, 1>::new(f(1.0), [f(1.0)]).argument().re.0, 0.0);
    let five = Dual::<F, 1>::new(f(5.0), [f(1.0)]);
    let lo = Dual::<F, 1>::new(f(1.0), [f(10.0)]);
    let hi = Dual::<F, 1>::new(f(3.0), [f(20.0)]);
    let cl = five.clamp(lo, hi);
    assert_eq!((cl.re.0, cl.eps[0].0), (3.0, 20.0));
    let cl = Dual::<F, 1>::new(f(2.0), [f(1.0)]).clamp(lo, hi);
    assert_eq!((cl.re.0, cl.eps[0].0), (2.0, 1.0));
    let sel = five.select(false, lo);
    assert_eq!(sel.re.0, 1.0);
    let diff = five.abs_sub(&hi);
    assert_eq!((diff.re.0, diff.eps[0].0), (2.0, -19.0));
    assert_eq!(lo.abs_sub(&hi).re.0, 0.0);
    assert!(!Dual::<F, 1>::new(f(1.0), [f(f64::INFINITY)]).is_finite());
    assert!(five.is_finite());
    let mut acc = Dual::<F, 1>::new(f(6.0), [f(2.0)]);
    acc.div_assign(Dual::new(f(2.0), [f(0.0)]));
    assert_eq!((acc.re.0, acc.eps[0].0), (3.0, 1.0));
    acc.add_assign(five);
    assert_eq!((acc.re.0, acc.eps[0].0), (8.0, 2.0));
    let sc = acc.mul_scalar(f(0.5)).add_scalar(f(1.0));
    assert_eq!((sc.re.0, sc.eps[0].0), (5.0, 1.0));
}

#[test]
fn autodiff_single_pass_agrees_with_the_engine() {
    let ad = AutoDiff::new(NonlinearFn);
    let x = v2(3.0, 4.0);
    let v = v2(2.0, 5.0);
    let (val, d) = Diff::<F, 2, 2>::eval_jvp(&ad, &x, &v);
    assert_eq!(d, Diff::<F, 2, 2>::jvp(&ad, &x, &v));
    assert_eq!(val, Diff::<F, 2, 2>::eval(&ad, &x));

    let mut y = v2(0.0, 0.0);
    let mut jac = m2(0.0, 0.0, 0.0, 0.0);
    jacobian_mut(&NonlinearFn, &x, &mut y, &mut jac);
    assert_eq!(jac, Diff::<F, 2, 2>::jacobian(&ad, &x));
    assert_eq!(y, v2(9.0, 12.0));

    let mut y1 = v2(0.0, 0.0);
    let mut jv = v2(0.0, 0.0);
    jvp_mut(&NonlinearFn, &x, &v, &mut y1, &mut jv);
    assert_eq!(jv, v2(12.0, 23.0));
    assert_eq!(y1, v2(9.0, 12.0));
}

#[test]
fn normal_diff_jvp_is_the_jacobian_times_the_direction() {
    let nd = NormalDiff::new(linear_test_func_normal, linear_test_jacobian_normal);
    let x = v2(-1.0, 0.5);
    let v = v2(3.0, 2.0);
    assert_eq!(nd.jvp(&x, &v), mat_vec(&nd.jacobian(&x), &v));
    assert_eq!(nd.jvp(&x, &v), v2(12.0, 10.0));
}

#[test]
fn pack_places_state_control_and_noise() {
    let p: [F; 5] = pack(&[f(1.0)], &v2(2.0, 3.0), &[f(4.0)]);
    assert_eq!(p, [f(1.0), f(2.0), f(3.0), f(4.0), f(0.0)]);
    let s: [F; 2] = segment(&p, 1);
    assert_eq!(s, v2(2.0, 3.0));
}

#[test]
fn refused_measurement_update_keeps_the_state() {
    let meas: TimeVaryingConstraint<F, _, 1, 1, 1> =
        TimeVaryingConstraint::new(NormalDiff::new(scale3, scale3_jac));
    let mut fs = FilterState::<F, RealLine<F>, 1, 1>::new(real_line(4.0), [[f(0.0)]]);
    // S = 3 * 0 * 3 + 0 = 0 is not positive definite: nothing changes.
    fs.correct_measurement(&meas, &[f(20.0)], &[[f(0.0)]]);
    assert_eq!(fs.state.x[0].0, 4.0);
    assert_eq!(fs.covariance[0][0].0, 0.0);
}

#[test]
fn projection_within_tolerance_keeps_the_state() {
    let con: TimeVaryingConstraint<F, _, 1, 1, 1> =
        TimeVaryingConstraint::new(NormalDiff::new(scale3, scale3_jac));
    let mut fs = FilterState::<F, RealLine<F>, 1, 1>::new(real_line(0.0), [[f(0.7)]]);
    fs.project_hard_constraints(&con, f(1e-10), 5);
    assert_eq!(fs.state.x[0].0, 0.0);
    assert_eq!(fs.covariance[0][0].0, 0.7);
    // No iterations at all: nothing changes either.
    let mut fs = FilterState::<F, RealLine<F>, 1, 1>::new(real_line(4.0), [[f(0.7)]]);
    fs.project_hard_constraints(&con, f(1e-10), 0);
    assert_eq!(fs.state.x[0].0, 4.0);
}

#[test]
fn predict_midpoint_real_line() {
    let dynamics: TrajectoryDynamics<F, _, 1, 1, 1, 1, 3> =
        TrajectoryDynamics::new(NormalDiff::new(lin_vel, lin_vel_jac));
    let mut fs = FilterState::<F, RealLine<F>, 1, 1>::new(real_line(4.0), [[f(0.5)]]);
    fs.predict(&dynamics, &[f(5.0)], &[[f(2.0)]], f(0.1), Integrator::Midpoint);
    // k1 = 7 ; mid = 4.35 ; k2 = -8.7 + 15 = 6.3 ; x_new = 4.63
    assert!((fs.state.x[0].0 - 4.63).abs() < EPS);
    // The covariance step does not depend on the scheme: 0.34.
    assert!((fs.covariance[0][0].0 - 0.34).abs() < EPS);
}

#[test]
fn one_norm_and_damping() {
    assert_eq!(one_norm(&v3(-1.0, 2.0, -3.0)).0, 6.0);
    assert_eq!(one_norm::<F, 0>(&[]).0, 0.0);
    assert_eq!(add_diagonal(&m2(1.0, 2.0, 3.0, 4.0), f(0.5)), m2(1.5, 2.0, 3.0, 4.5));
}

#[test]
fn dense_linear_algebra() {
    let a = m2(1.0, 2.0, 3.0, 4.0);
    let b = m2(5.0, 6.0, 7.0, 8.0);
    assert_eq!(mat_mul(&a, &b), m2(19.0, 22.0, 43.0, 50.0));
    assert_eq!(transpose(&a), m2(1.0, 3.0, 2.0, 4.0));
    let id: [[F; 2]; 2] = identity();
    assert_eq!(id, m2(1.0, 0.0, 0.0, 1.0));
    assert_eq!(mat_vec(&a, &v2(1.0, -1.0)), v2(-1.0, -1.0));
    assert_eq!(manifold::linalg::column(&a, 1), v2(2.0, 4.0));
    let cols: [[F; 1]; 2] = columns(&a, 1);
    assert_eq!(cols, [[f(2.0)], [f(4.0)]]);
    let bd: [[F; 3]; 3] = block_diag(&[[f(1.0)]], &a);
    assert_eq!(bd, [v3(1.0, 0.0, 0.0), v3(0.0, 1.0, 2.0), v3(0.0, 3.0, 4.0)]);
    let cat: [F; 3] = manifold::linalg::concat(&v2(1.0, 2.0), &[f(3.0)]);
    assert_eq!(cat, v3(1.0, 2.0, 3.0));
    assert_eq!(dot(&v3(1.0, 2.0, 3.0), &v3(4.0, 5.0, 6.0)).0, 32.0);
    assert_eq!(norm(&v2(3.0, 4.0)).0, 5.0);
    assert_eq!(normalize(&v2(3.0, 4.0)), v2(0.6, 0.8));
    assert_eq!(cross(&v3(1.0, 0.0, 0.0), &v3(0.0, 1.0, 0.0)), v3(0.0, 0.0, 1.0));
}

// ---------------------------------------------------------------------------
// Rotation and rigid-motion groups
// ---------------------------------------------------------------------------

fn so3_exp(w: [f64; 3]) -> SO3<F> {
    SO3::exp_map(&TangentSO3::new(v3(w[0], w[1], w[2])))
}

#[test]
fn so3_exponential_and_logarithm() {
    let quarter = std::f64::consts::FRAC_PI_2;
    let r = so3_exp([0.0, 0.0, quarter]);
    assert!(close3(&r.rot, &[[0.0, -1.0, 0.0], [1.0, 0.0, 0.0], [0.0, 0.0, 1.0]], EPS));
    assert!(close_vec(&r.log_map().vec, &[0.0, 0.0, quarter], EPS));

    // The Taylor branch below 1e-6.
    let tiny = SO3::<F>::rodrigues(&TangentSO3::new(v3(1e-8, 0.0, 0.0)));
    assert!(close3(&tiny, &[[1.0, 0.0, 0.0], [0.0, 1.0, -1e-8], [0.0, 1e-8, 1.0]], 1e-15));

    // The identity has a zero rotation vector.
    let id = SO3::new([v3(1.0, 0.0, 0.0), v3(0.0, 1.0, 0.0), v3(0.0, 0.0, 1.0)]);
    assert!(close_vec(&id.log_map().vec, &[0.0, 0.0, 0.0], EPS));

    // A half turn about x: the axis is read from the diagonal.
    let half = SO3::new([v3(1.0, 0.0, 0.0), v3(0.0, -1.0, 0.0), v3(0.0, 0.0, -1.0)]);
    assert!(close_vec(&half.log_map().vec, &[std::f64::consts::PI, 0.0, 0.0], EPS));
}

#[test]
fn so3_group_operations() {
    let r = so3_exp([0.1, 0.2, 0.3]);
    let back = r.compose(&r.inverse());
    assert!(close3(&back.rot, &[[1.0, 0.0, 0.0], [0.0, 1.0, 0.0], [0.0, 0.0, 1.0]], EPS));
    assert_eq!(r.inverse().inverse().rot, r.rot);

    let d = TangentSO3::new(v3(0.05, -0.02, 0.01));
    let moved = r.box_plus(&d);
    assert!(close_vec(&moved.box_minus(&r).vec, &[0.05, -0.02, 0.01], 1e-12));

    let w = TangentSO3::new(v3(1.0, 2.0, 3.0));
    assert_eq!(<SO3<F> as BoxManifold<F, 3>>::tangent_to_vector(&w), v3(1.0, 2.0, 3.0));
    assert_eq!(<SO3<F> as BoxManifold<F, 3>>::vector_to_tangent(&v3(1.0, 2.0, 3.0)).vec, w.vec);
}

#[test]
fn so3_vector_transport_is_the_inverse_rotation() {
    let r = so3_exp([0.0, 0.0, 0.0]);
    let delta = v3(0.0, 0.0, std::f64::consts::FRAC_PI_2);
    let moved = VectorTransport::<F, 3>::vector_transport(&r, &v3(1.0, 0.0, 0.0), &delta);
    assert!(close_vec(&moved, &[0.0, -1.0, 0.0], EPS));
}

#[test]
fn transport_matrix_reads_the_dual_derivative() {
    // Every coordinate of delta carries the seeded direction, so each column
    // is the derivative of Exp(delta + t (1, 1, 1))^T v at t = 0.
    let r = so3_exp([0.0, 0.0, 0.0]);
    let v = TangentSO3::new(v3(1.0, 2.0, 3.0));
    let delta = TangentSO3::new(v3(0.1, 0.2, 0.3));
    let m = transport_matrix(&r, &v, &delta);

    let g = |t: f64| {
        let rot = SO3::<F>::exp_map(&TangentSO3::new(v3(0.1 + t, 0.2 + t, 0.3 + t))).inverse();
        mat_vec(&rot.rot, &v.vec)
    };
    let h = 1e-6;
    let (gp, gm) = (g(h), g(-h));
    for i in 0..3 {
        let fd = (gp[i].0 - gm[i].0) / (2.0 * h);
        for j in 0..3 {
            assert!((m[i][j].0 - fd).abs() < 1e-6, "entry ({i},{j}): {} vs {}", m[i][j].0, fd);
        }
    }

    // Flat space: the transport does not depend on delta.
    let flat = v3(1.0, 2.0, 3.0);
    let tm = transport_matrix(&flat, &TangentRN { vec: v3(4.0, 5.0, 6.0) }, &TangentRN { vec: v3(0.1, 0.2, 0.3) });
    assert_eq!(tm, [v3(0.0, 0.0, 0.0), v3(0.0, 0.0, 0.0), v3(0.0, 0.0, 0.0)]);
}

#[test]
fn gram_schmidt_restores_a_rotation() {
    let mut r = SO3::new([v3(2.0, 1.0, 0.0), v3(0.0, 1.0, 0.0), v3(0.0, 0.0, 5.0)]);
    r.normalize_in_place();
    assert!(close3(&r.rot, &[[1.0, 0.0, 0.0], [0.0, 1.0, 0.0], [0.0, 0.0, 1.0]], EPS));
}

#[test]
fn se3_exponential_logarithm_and_group() {
    let delta = TangentSE3 { translation: v3(1.0, 2.0, 3.0), rotation: v3(0.1, 0.2, 0.3) };
    let t = SE3::exp_map(&delta);
    let back = t.log_map();
    assert!(close_vec(&back.translation, &[1.0, 2.0, 3.0], 1e-12));
    assert!(close_vec(&back.rotation, &[0.1, 0.2, 0.3], 1e-12));

    let e = t.compose(&t.inverse());
    assert!(close3(&e.rotation.rot, &[[1.0, 0.0, 0.0], [0.0, 1.0, 0.0], [0.0, 0.0, 1.0]], EPS));
    assert!(close_vec(&e.translation, &[0.0, 0.0, 0.0], EPS));

    let step = TangentSE3 { translation: v3(0.01, -0.02, 0.03), rotation: v3(0.02, 0.0, -0.01) };
    let moved = t.box_plus(&step);
    let lifted = moved.box_minus(&t);
    assert!(close_vec(&lifted.translation, &[0.01, -0.02, 0.03], 1e-12));
    assert!(close_vec(&lifted.rotation, &[0.02, 0.0, -0.01], 1e-12));

    let flat = <SE3<F> as BoxManifold<F, 6>>::tangent_to_vector(&step);
    assert_eq!(flat, [f(0.01), f(-0.02), f(0.03), f(0.02), f(0.0), f(-0.01)]);
    let round = <SE3<F> as BoxManifold<F, 6>>::vector_to_tangent(&flat);
    assert_eq!((round.translation, round.rotation), (step.translation, step.rotation));
}

#[test]
fn se3_adjoint_blocks() {
    let id = SO3::new([v3(1.0, 0.0, 0.0), v3(0.0, 1.0, 0.0), v3(0.0, 0.0, 1.0)]);
    let t = SE3 { rotation: id, translation: v3(1.0, 2.0, 3.0) };
    let ad = SE3::adjoint(&t);
    let expect = [
        [1.0, 0.0, 0.0, 0.0, 0.0, 0.0],
        [0.0, 1.0, 0.0, 0.0, 0.0, 0.0],
        [0.0, 0.0, 1.0, 0.0, 0.0, 0.0],
        [0.0, -3.0, 2.0, 1.0, 0.0, 0.0],
        [3.0, 0.0, -1.0, 0.0, 1.0, 0.0],
        [-2.0, 1.0, 0.0, 0.0, 0.0, 1.0],
    ];
    for i in 0..6 {
        for j in 0..6 {
            assert_eq!(ad[i][j].0, expect[i][j], "entry ({i},{j})");
        }
    }
}

#[test]
fn quaternion_tangent_structure() {
    let j = quaternion_pushforward(&[f(1.0), f(0.0), f(0.0), f(0.0)]);
    assert_eq!(j, [v3(0.0, 0.0, 0.0), v3(0.5, 0.0, 0.0), v3(0.0, 0.5, 0.0), v3(0.0, 0.0, 0.5)]);

    let q = [f(0.5), f(0.5), f(-0.5), f(0.5)];
    let t = v3(0.2, -0.4, 0.6);
    let direct = quaternion_apply_pushforward(&q, &t);
    let through = mat_vec(&quaternion_pushforward(&q), &t);
    assert!(close_vec(&direct, &[through[0].0, through[1].0, through[2].0, through[3].0], 1e-15));

    assert_eq!(
        so3_small_adjoint(&v3(1.0, 2.0, 3.0)),
        [v3(0.0, -3.0, 2.0), v3(3.0, 0.0, -1.0), v3(-2.0, 1.0, 0.0)]
    );
}

// ---------------------------------------------------------------------------
// Levenberg-Marquardt
// ---------------------------------------------------------------------------

// One residual r = x - 3 with a chosen slope for its Jacobian and a chosen weight.
#[derive(Clone, Copy)]
struct LineFit {
    x: F,
    slope: f64,
    weight: f64,
}

impl OptimizationHorizon<F, 1, 1> for LineFit {
    fn residuals_spec(&self) -> [F; 1] {
        [f(self.x.0 - 3.0)]
    }
    fn linearize_spec(&self) -> ([[F; 1]; 1], [[F; 1]; 1]) {
        ([[f(self.slope)]], [[f(self.weight)]])
    }
    fn retracted_spec(&self, delta_x: [F; 1]) -> Self {
        LineFit { x: f(self.x.0 + delta_x[0].0), ..*self }
    }
    fn compute_residuals(&self) -> [F; 1] {
        self.residuals_spec()
    }
    fn linearize(&self) -> ([[F; 1]; 1], [[F; 1]; 1]) {
        self.linearize_spec()
    }
    fn retract_step(&mut self, delta_x: &[F; 1]) {
        *self = self.retracted_spec(*delta_x);
    }
}

fn options(n: usize) -> SolverOptions<F> {
    SolverOptions { max_iterations: n, step_tolerance: f(1e-12) }
}

#[test]
fn levenberg_marquardt_converges_on_a_line() {
    let mut h = LineFit { x: f(0.0), slope: 1.0, weight: 1.0 };
    let summary = StaticNonlinearSolver::<F, 1, 1>::solve(&StaticLevenbergMarquardt, &options(10), &mut h);
    assert_eq!(summary.initial_cost.0, 3.0);
    assert!(summary.final_cost.0 < 1e-9);
    assert!(summary.final_cost.0 <= summary.initial_cost.0);
    assert_eq!(summary.iterations, 10);
    assert!((h.x.0 - 3.0).abs() < 1e-9);
}

#[test]
fn levenberg_marquardt_rejects_a_step_that_raises_the_cost() {
    // A Jacobian of the wrong sign points every step uphill: each is undone.
    let mut h = LineFit { x: f(0.0), slope: -1.0, weight: 1.0 };
    let summary = StaticNonlinearSolver::<F, 1, 1>::solve(&StaticLevenbergMarquardt, &options(3), &mut h);
    assert_eq!(summary.final_cost.0, summary.initial_cost.0);
    assert_eq!(summary.iterations, 3);
    assert!(h.x.0.abs() < 1e-12);
}

#[test]
fn levenberg_marquardt_stops_when_the_system_cannot_be_factorized() {
    // A negative weight makes J^T W J + lambda I negative: Cholesky fails at once.
    let mut h = LineFit { x: f(1.0), slope: 1.0, weight: -1.0 };
    let summary = StaticNonlinearSolver::<F, 1, 1>::solve(&StaticLevenbergMarquardt, &options(7), &mut h);
    assert_eq!(summary.initial_cost.0, 2.0);
    assert_eq!(summary.final_cost.0, 2.0);
    assert_eq!(summary.iterations, 7);
    assert_eq!(h.x.0, 1.0);
}

type Pose = ProductManifold<SO3<F>, [F; 3], 3, 3, 6>;

#[test]
fn product_manifold_acts_part_by_part() {
    let x = Pose { first: so3_exp([0.1, 0.2, 0.3]), second: v3(1.0, 2.0, 3.0) };
    let d = (TangentSO3::new(v3(0.01, 0.0, -0.02)), TangentRN { vec: v3(0.5, -0.5, 1.0) });
    let y = x.box_plus(&d);
    assert_eq!(y.second, v3(1.5, 1.5, 4.0));
    let back = y.box_minus(&x);
    assert!(close_vec(&back.0.vec, &[0.01, 0.0, -0.02], 1e-12));
    assert_eq!(back.1.vec, v3(0.5, -0.5, 1.0));

    let flat = Pose::tangent_to_vector(&d);
    assert_eq!(flat, [f(0.01), f(0.0), f(-0.02), f(0.5), f(-0.5), f(1.0)]);
    let round = Pose::vector_to_tangent(&flat);
    assert_eq!((round.0.vec, round.1.vec), (d.0.vec, d.1.vec));

    // The rotation block of the transport derivative is that of the rotation
    // alone; the flat block does not move.
    let v = (TangentSO3::new(v3(1.0, 2.0, 3.0)), TangentRN { vec: v3(4.0, 5.0, 6.0) });
    let delta = (TangentSO3::new(v3(0.1, 0.2, 0.3)), TangentRN { vec: v3(0.0, 0.0, 0.0) });
    let m = transport_matrix(&x, &v, &delta);
    let rot_only = transport_matrix(&x.first, &v.0, &delta.0);
    for j in 0..6 {
        for i in 0..3 {
            assert!((m[i][j].0 - rot_only[i][0].0).abs() < 1e-12, "entry ({i},{j})");
            assert_eq!(m[i + 3][j].0, 0.0);
        }
    }
}

#[test]
fn dual_complex_field_forms_and_scalar_updates() {
    let x = Dual::<F, 1>::new(f(-7.5), [f(2.0)]);
    let r = x.rem(Dual::new(f(2.0), [f(9.0)]));
    assert_eq!((r.re.0, r.eps[0].0), (-1.5, 2.0));
    let mut y = x;
    y.rem_assign(Dual::new(f(4.0), [f(0.0)]));
    assert_eq!((y.re.0, y.eps[0].0), (-3.5, 2.0));
    assert_eq!(x.modulus().re.0, 7.5);
    assert_eq!(x.norm1().eps[0].0, -2.0);
    assert_eq!(x.conjugate().re.0, -7.5);
    assert_eq!(x.real_part().eps[0].0, 2.0);
    assert_eq!((x.imaginary().re.0, x.imaginary().eps[0].0), (0.0, 0.0));
    assert_eq!(Dual::from_real(x).re.0, -7.5);
    let s = x.scale(Dual::new(f(2.0), [f(0.0)]));
    assert_eq!((s.re.0, s.eps[0].0), (-15.0, 4.0));
    let u = x.unscale(Dual::new(f(2.0), [f(0.0)]));
    assert_eq!((u.re.0, u.eps[0].0), (-3.75, 1.0));
    let p = Dual::<F, 1>::new(f(2.0), [f(1.0)]).powc(Dual::new(f(3.0), [f(0.0)]));
    assert!((p.re.0 - 8.0).abs() < EPS && (p.eps[0].0 - 12.0).abs() < EPS);

    let mut z = Dual::<F, 1>::new(f(1.0), [f(3.0)]);
    z.add_assign_scalar(f(2.0));
    assert_eq!((z.re.0, z.eps[0].0), (3.0, 3.0));
    z.sub_assign_scalar(f(0.5));
    assert_eq!((z.re.0, z.eps[0].0), (2.5, 3.0));
    z.mul_assign_scalar(f(2.0));
    assert_eq!((z.re.0, z.eps[0].0), (5.0, 6.0));
    z.div_assign_scalar(f(4.0));
    assert_eq!((z.re.0, z.eps[0].0), (1.25, 1.5));
}

#[test]
fn planar_rotations_commute() {
    let a = rotation(0.6, 0.8);
    let b = rotation(0.28, -0.96);
    assert_eq!(a.compose(&b).z, b.compose(&a).z);
}

#[test]
fn corrected_covariance_is_symmetric() {
    let meas: TimeVaryingConstraint<F, _, 3, 2, 2> =
        TimeVaryingConstraint::new(NormalDiff::new(obs_z1_x, obs_z1_x_jac));
    let state = So2xR { m1: rotation(0.6, 0.8), m2: real_line(1.0) };
    let mut fs = FilterState::<F, So2xR, 3, 2>::new(state, m2(0.7, 0.3, 0.1, 1.2));
    fs.correct_measurement(&meas, &v2(0.5, 2.0), &m2(0.2, 0.05, 0.05, 0.4));
    assert_eq!(fs.covariance[0][1], fs.covariance[1][0]);
}

#[test]
fn inverse_of_a_composition_reverses_the_order() {
    let a = so3_exp([0.1, -0.4, 0.3]);
    let b = so3_exp([0.7, 0.2, -0.5]);
    let lhs = a.compose(&b).inverse();
    let rhs = b.inverse().compose(&a.inverse());
    assert_eq!(lhs.rot, rhs.rot);
}

#[test]
fn integrator_changes_only_the_state_on_the_circle() {
    let dynamics: TrajectoryDynamics<F, _, 2, 1, 1, 1, 4> =
        TrajectoryDynamics::new(AutoDiff::new(NonlinearVelAd));
    let start = FilterState::<F, ComplexRotation<F>, 2, 1>::new(rotation(0.6, 0.8), [[f(0.2)]]);
    let mut euler = FilterState::<F, ComplexRotation<F>, 2, 1>::new(start.state, start.covariance);
    let mut midpoint = FilterState::<F, ComplexRotation<F>, 2, 1>::new(start.state, start.covariance);
    euler.predict(&dynamics, &[f(2.0)], &[[f(1.0)]], f(0.1), Integrator::Euler);
    midpoint.predict(&dynamics, &[f(2.0)], &[[f(1.0)]], f(0.1), Integrator::Midpoint);
    assert_eq!(euler.covariance, midpoint.covariance);
    assert!(euler.state.z[0] != midpoint.state.z[0]);
}

// The circle with a transport that depends on the step: `[[1 - δ^2]]`.
#[derive(Clone, Copy)]
struct BentCircle(ComplexRotation<F>);

impl Manifold<F, 2, 1> for BentCircle {
    type TangentVector = F;
    fn retract_spec(&self, delta: F) -> Self { self.retract(&delta) }
    fn local_lift_spec(&self, other: Self) -> F { self.local_lift(&other) }
    fn pushforward_jacobian_spec(&self) -> [[F; 1]; 2] { self.pushforward_jacobian() }
    fn apply_pushforward_spec(&self, tangent: F) -> [F; 2] { self.apply_pushforward(&tangent) }
    fn vector_to_tangent_spec(vec: [F; 1]) -> F { vec[0] }
    fn tangent_to_vector_spec(tangent: F) -> [F; 1] { [tangent] }
    fn from_ambient_spec(vec: [F; 2]) -> Self { Self::from_ambient(&vec) }
    fn to_ambient_spec(&self) -> [F; 2] { self.to_ambient() }
    fn parallel_transport_spec(&self, delta: F) -> [[F; 1]; 1] { self.parallel_transport(&delta) }
    fn retract(&self, delta: &F) -> Self { BentCircle(self.0.retract(delta)) }
    fn local_lift(&self, other: &Self) -> F { self.0.local_lift(&other.0) }
    fn pushforward_jacobian(&self) -> [[F; 1]; 2] { self.0.pushforward_jacobian() }
    fn apply_pushforward(&self, tangent: &F) -> [F; 2] { self.0.apply_pushforward(tangent) }
    fn vector_to_tangent(vec: &[F; 1]) -> F { vec[0] }
    fn tangent_to_vector(tangent: &F) -> [F; 1] { [*tangent] }
    fn from_ambient(vec: &[F; 2]) -> Self { BentCircle(ComplexRotation { z: *vec }) }
    fn to_ambient(&self) -> [F; 2] { self.0.z }
    fn parallel_transport(&self, delta: &F) -> [[F; 1]; 1] { [[f(1.0 - delta.0 * delta.0)]] }
}

#[test]
fn integrator_changes_only_the_state_with_a_bent_transport() {
    let dynamics: TrajectoryDynamics<F, _, 2, 1, 1, 1, 4> =
        TrajectoryDynamics::new(AutoDiff::new(NonlinearVelAd));
    let start = BentCircle(rotation(0.6, 0.8));
    let mut euler = FilterState::<F, BentCircle, 2, 1>::new(start, [[f(0.2)]]);
    let mut midpoint = FilterState::<F, BentCircle, 2, 1>::new(start, [[f(0.2)]]);
    euler.predict(&dynamics, &[f(2.0)], &[[f(1.0)]], f(0.1), Integrator::Euler);
    midpoint.predict(&dynamics, &[f(2.0)], &[[f(1.0)]], f(0.1), Integrator::Midpoint);
    assert_eq!(euler.covariance, midpoint.covariance);
    assert!(euler.state.0.z[0] != midpoint.state.0.z[0]);
    // δ₁ = 6.36 * 0.1 = 0.636: F = (1 - δ₁²)/(1 - δ₁²) + (-0.96)(0.1) = 0.904
    assert!((euler.covariance[0][0].0 - (0.904 * 0.904 * 0.2 + 0.16)).abs() < EPS);
}

#[test]
fn try_predict_reports_a_singular_transport() {
    // f = 2 z0 + 5 z1 + 7 u + 11 w = 2 at z = (1, 0), u = 0: with dt = 0.5 the
    // step is 1, where the bent transport [[1 - δ^2]] is singular.
    let dynamics: TrajectoryDynamics<F, _, 2, 1, 1, 1, 4> =
        TrajectoryDynamics::new(NormalDiff::new(rot_vel, rot_vel_jac));
    let start = BentCircle(rotation(1.0, 0.0));
    let mut fs = FilterState::<F, BentCircle, 2, 1>::new(start, [[f(0.5)]]);
    assert!(!fs.try_predict(&dynamics, &[f(0.0)], &[[f(1.0)]], f(0.5), Integrator::Euler));
    assert_eq!(fs.state.0.z, [f(1.0), f(0.0)]);
    assert_eq!(fs.covariance, [[f(0.5)]]);
    assert!(fs.try_predict(&dynamics, &[f(0.0)], &[[f(1.0)]], f(0.1), Integrator::Midpoint));
    assert!(fs.state.0.z[1].0 > 0.0);
}

#[test]
fn symmetrization_covers_infinite_entries() {
    let m = [v3(1.0, f64::INFINITY, 2.0), v3(-3.0, 4.0, f64::NEG_INFINITY), v3(0.5, 7.0, 1e308)];
    let s = mat_scale(&mat_add(&m, &transpose(&m)), f(0.5));
    for i in 0..3 {
        for j in 0..3 {
            if !s[i][j].0.is_nan() {
                assert_eq!(s[i][j], s[j][i]);
            }
        }
    }
    assert!(s[0][1].0.is_infinite());
}

#[test]
fn checked_operations_report_singular_derivatives() {
    // sqrt'(0) = 1/0: the derivative does not exist.
    assert!(Dual::<F, 1>::seed(f(0.0), 0).checked_sqrt().is_none());
    let r = Dual::<F, 1>::seed(f(4.0), 0).checked_sqrt().unwrap();
    assert_eq!((r.re.0, r.eps[0].0), (2.0, 0.25));
    // Dividing by a zero value.
    let one = Dual::<F, 1>::new(f(1.0), [f(1.0)]);
    assert!(one.checked_div(Dual::new(f(0.0), [f(1.0)])).is_none());
    let q = one.checked_div(Dual::new(f(2.0), [f(0.0)])).unwrap();
    assert_eq!((q.re.0, q.eps[0].0), (0.5, 0.5));
    // Any operation: atan2 at the origin.
    let origin = Dual::<F, 1>::new(f(0.0), [f(1.0)]);
    assert!(RealScalar::atan2(origin, origin).checked().is_none());
    assert!(one.sin().checked().is_some());
    // The scalar-trait operation, which generic code runs on, carries the
    // non-finite derivative along.
    assert!(!RealScalar::sqrt(Dual::<F, 1>::seed(f(0.0), 0)).eps[0].0.is_finite());
}

// nalgebra-style generic inverse on dual numbers: the derivative of the
// inverse is checked against the closed form -A^-1 (dA/dt) A^-1.
#[test]
fn autodiff_through_matrix_inverse() {
    // A(t) = [[2+t, 1], [1, 3+t]],  so dA/dt = I.  Seed t with eps = 1.
    let t = 0.5_f64;
    let d1 = Dual::<F, 1>::new(f(1.0), [f(0.0)]); // constant 1
    let on = |re: f64| Dual::<F, 1>::new(f(re), [f(1.0)]); // depends on t
    let a = [[on(2.0 + t), d1], [d1, on(3.0 + t)]];

    let inv = <Dual<F, 1> as LinearSolve<2>>::try_inverse(&a).expect("A is invertible");

    let inv_val = [[inv[0][0].re, inv[0][1].re], [inv[1][0].re, inv[1][1].re]];
    let expected = mat_mul(&inv_val, &inv_val);

    for i in 0..2 {
        for k in 0..2 {
            assert!(
                (inv[i][k].eps[0].0 + expected[i][k].0).abs() < EPS,
                "mismatch at ({i},{k}): {} vs {}",
                inv[i][k].eps[0].0,
                -expected[i][k].0
            );
        }
    }
}

#[test]
fn dual_cholesky_solve_differentiates_the_solution() {
    // A(t) = [[4 + t, 1], [1, 3]], b = [1, 2]: x(t) = A(t)^-1 b.
    let c = |re: f64| Dual::<F, 1>::new(f(re), [f(0.0)]);
    let a = [[Dual::new(f(4.0), [f(1.0)]), c(1.0)], [c(1.0), c(3.0)]];
    let b = [c(1.0), c(2.0)];
    let x = <Dual<F, 1> as LinearSolve<2>>::cholesky_solve(&a, &b).unwrap();
    // x(0) = [1/11, 7/11]; dx/dt = -A^-1 dA x = -A^-1 [1/11, 0] = [-3/121, 1/121]
    assert!((x[0].re.0 - 1.0 / 11.0).abs() < EPS && (x[1].re.0 - 7.0 / 11.0).abs() < EPS);
    assert!((x[0].eps[0].0 + 3.0 / 121.0).abs() < EPS && (x[1].eps[0].0 - 1.0 / 121.0).abs() < EPS);
    let inv = <Dual<F, 1> as LinearSolve<2>>::cholesky_inverse(&a).unwrap();
    assert!((inv[0][0].re.0 - 3.0 / 11.0).abs() < EPS);
    assert!((inv[0][0].eps[0].0 + 9.0 / 121.0).abs() < EPS);
    // Not positive definite: refused.
    let neg = [[c(-1.0), c(0.0)], [c(0.0), c(1.0)]];
    assert!(<Dual<F, 1> as LinearSolve<2>>::cholesky_solve(&neg, &b).is_none());
}

#[test]
fn try_retraction_transport_reports_rank_deficiency() {
    let t = manifold::manifold::try_retraction_transport(&ComplexRotation::<F>::identity(), &f(0.3)).unwrap();
    assert!((t[0][0].0 - 0.3_f64.cos()).abs() < EPS);
    // At the origin of the plane the pushforward [-y, x]^T vanishes.
    let origin = rotation(0.0, 0.0);
    assert!(manifold::manifold::try_retraction_transport(&origin, &f(0.3)).is_none());
}
