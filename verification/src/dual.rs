//! Forward-mode dual numbers carrying a value (`re`) and `N` partial
//! derivatives (`eps`).
//!
//! With `N` tangent components the derivative seeds propagate as a batch: seed
//! input `i` with the unit direction `e_i` ([`Dual::seed`]) and a single
//! evaluation of `f: R^N -> R^M` yields the whole `M x N` Jacobian
//! ([`jacobian`]). `Dual<T, N>` is itself a [`RealScalar`], so any computation
//! written over `RealScalar` differentiates when run on dual numbers, and dual
//! numbers nest (`Dual<Dual<T, 1>, 1>` carries second derivatives).
//!
//! A derivative that does not exist (`sqrt` at zero, `1/x` at zero, `atan2`
//! at the origin) is never replaced by a made-up value. The operations called
//! on a dual number directly (`x.sqrt()`, `x.div(y)`, ...) require that every
//! derivative of their result be finite. The [`RealScalar`] operations, which
//! scalar-generic code runs on, take every input and carry the non-finite
//! derivative along; [`Dual::checked`] (and `checked_sqrt`, `checked_div`)
//! reports it.
use vstd::prelude::*;
use crate::scalar::RealScalar;
use crate::tangent;
use crate::tangent::{array_from_fn, lemma_array_eq_from_fn};
use crate::diff::DiffFn;

verus! {

/// A value together with `N` accumulated partial derivatives.
#[derive(Clone, Copy)]
pub struct Dual<T, const N: usize> {
    /// The value (primal) part.
    pub re: T,
    /// The `N` accumulated partial derivatives (tangent part).
    pub eps: [T; N],
}

/// `n - 1` as a machine `i32` computes it (wrapping at the bottom of the range).
pub open spec fn pred_i32(n: i32) -> i32 {
    if n == i32::MIN {
        i32::MAX
    } else {
        (n - 1) as i32
    }
}

impl<T, const N: usize> Dual<T, N> {
    /// Builds a dual directly from a value and an explicit tangent vector.
    pub fn new(re: T, eps: [T; N]) -> (r: Self)
        ensures
            r.re == re,
            r.eps == eps,
    {
        Dual { re, eps }
    }
}

impl<T: RealScalar, const N: usize> Dual<T, N> {
    /// The dual with value `re` and tangent `f(i)` in slot `i`.
    pub open spec fn build(re: T, f: spec_fn(int) -> T) -> Self {
        Dual { re, eps: array_from_fn::<T, N>(f) }
    }

    /// A constant: value `re`, every derivative zero.
    pub open spec fn constant_spec(re: T) -> Self {
        Self::build(re, |i: int| T::zero_spec())
    }

    /// The chain rule for a unary function with value `val` and slope `deriv`
    /// at `self.re`: the tangent is `self.eps * deriv`.
    pub open spec fn chain_spec(self, val: T, deriv: T) -> Self {
        Self::build(val, |i: int| T::mul_spec(self.eps[i], deriv))
    }

    pub open spec fn add_dual(a: Self, b: Self) -> Self {
        Self::build(T::add_spec(a.re, b.re), |i: int| T::add_spec(a.eps[i], b.eps[i]))
    }

    pub open spec fn sub_dual(a: Self, b: Self) -> Self {
        Self::build(T::sub_spec(a.re, b.re), |i: int| T::sub_spec(a.eps[i], b.eps[i]))
    }

    /// Product rule: `(u v)' = u' v + v' u`.
    pub open spec fn mul_dual(a: Self, b: Self) -> Self {
        Self::build(
            T::mul_spec(a.re, b.re),
            |i: int| T::add_spec(T::mul_spec(a.eps[i], b.re), T::mul_spec(b.eps[i], a.re)),
        )
    }

    /// Quotient rule: `(u / v)' = (u' v - v' u) / v^2`.
    pub open spec fn div_dual(a: Self, b: Self) -> Self {
        Self::build(
            T::div_spec(a.re, b.re),
            |i: int|
                T::div_spec(
                    T::sub_spec(T::mul_spec(a.eps[i], b.re), T::mul_spec(b.eps[i], a.re)),
                    T::mul_spec(b.re, b.re),
                ),
        )
    }

    pub open spec fn neg_dual(a: Self) -> Self {
        Self::build(T::neg_spec(a.re), |i: int| T::neg_spec(a.eps[i]))
    }

    /// Power with a dual exponent: `d/dt x^n = x^n (n' ln x + n x' / x)`.
    pub open spec fn powf_dual_spec(self, n: Self) -> Self {
        let v = T::powf_spec(self.re, n.re);
        Self::build(
            v,
            |i: int|
                T::mul_spec(
                    T::add_spec(
                        T::mul_spec(n.eps[i], T::ln_spec(self.re)),
                        T::mul_spec(self.eps[i], T::div_spec(n.re, self.re)),
                    ),
                    v,
                ),
        )
    }

    /// `atan2(y, x)` with `self = y`: tangent `(x dy - y dx) / (x^2 + y^2)`.
    pub open spec fn atan2_dual(self, x: Self) -> Self {
        let denom = T::add_spec(T::mul_spec(self.re, self.re), T::mul_spec(x.re, x.re));
        Self::build(
            T::atan2_spec(self.re, x.re),
            |i: int|
                T::div_spec(
                    T::sub_spec(T::mul_spec(self.eps[i], x.re), T::mul_spec(x.eps[i], self.re)),
                    denom,
                ),
        )
    }

    pub open spec fn sqrt_dual(self) -> Self {
        let s = T::sqrt_spec(self.re);
        self.chain_spec(s, T::div_spec(T::one_spec(), T::add_spec(s, s)))
    }

    pub open spec fn exp_dual(self) -> Self {
        let e = T::exp_spec(self.re);
        self.chain_spec(e, e)
    }

    pub open spec fn ln_dual(self) -> Self {
        self.chain_spec(T::ln_spec(self.re), T::div_spec(T::one_spec(), self.re))
    }

    pub open spec fn sin_dual(self) -> Self {
        self.chain_spec(T::sin_spec(self.re), T::cos_spec(self.re))
    }

    pub open spec fn cos_dual(self) -> Self {
        self.chain_spec(T::cos_spec(self.re), T::neg_spec(T::sin_spec(self.re)))
    }

    pub open spec fn tan_dual(self) -> Self {
        let c = T::cos_spec(self.re);
        self.chain_spec(T::tan_spec(self.re), T::div_spec(T::one_spec(), T::mul_spec(c, c)))
    }

    pub open spec fn asin_dual(self) -> Self {
        let d = T::div_spec(
            T::one_spec(),
            T::sqrt_spec(T::sub_spec(T::one_spec(), T::mul_spec(self.re, self.re))),
        );
        self.chain_spec(T::asin_spec(self.re), d)
    }

    pub open spec fn acos_dual(self) -> Self {
        let d = T::neg_spec(
            T::div_spec(
                T::one_spec(),
                T::sqrt_spec(T::sub_spec(T::one_spec(), T::mul_spec(self.re, self.re))),
            ),
        );
        self.chain_spec(T::acos_spec(self.re), d)
    }

    pub open spec fn atan_dual(self) -> Self {
        let d = T::div_spec(T::one_spec(), T::add_spec(T::one_spec(), T::mul_spec(self.re, self.re)));
        self.chain_spec(T::atan_spec(self.re), d)
    }

    pub open spec fn tanh_dual(self) -> Self {
        let t = T::tanh_spec(self.re);
        self.chain_spec(t, T::sub_spec(T::one_spec(), T::mul_spec(t, t)))
    }

    pub open spec fn sinh_dual(self) -> Self {
        self.chain_spec(T::sinh_spec(self.re), T::cosh_spec(self.re))
    }

    pub open spec fn cosh_dual(self) -> Self {
        self.chain_spec(T::cosh_spec(self.re), T::sinh_spec(self.re))
    }

    pub open spec fn asinh_dual(self) -> Self {
        self.chain_spec(T::asinh_spec(self.re), T::div_spec(T::one_spec(), T::sqrt_spec(T::add_spec(T::mul_spec(self.re, self.re), T::one_spec()))))
    }

    pub open spec fn acosh_dual(self) -> Self {
        self.chain_spec(T::acosh_spec(self.re), T::div_spec(T::one_spec(), T::sqrt_spec(T::sub_spec(T::mul_spec(self.re, self.re), T::one_spec()))))
    }

    pub open spec fn atanh_dual(self) -> Self {
        self.chain_spec(T::atanh_spec(self.re), T::div_spec(T::one_spec(), T::sub_spec(T::one_spec(), T::mul_spec(self.re, self.re))))
    }

    pub open spec fn log2_dual(self) -> Self {
        self.chain_spec(T::log2_spec(self.re), T::div_spec(T::one_spec(), T::mul_spec(self.re, T::ln_2_spec())))
    }

    pub open spec fn log10_dual(self) -> Self {
        self.chain_spec(T::log10_spec(self.re), T::div_spec(T::one_spec(), T::mul_spec(self.re, T::ln_10_spec())))
    }

    pub open spec fn ln_1p_dual(self) -> Self {
        self.chain_spec(T::ln_1p_spec(self.re), T::div_spec(T::one_spec(), T::add_spec(T::one_spec(), self.re)))
    }

    pub open spec fn exp_m1_dual(self) -> Self {
        self.chain_spec(T::exp_m1_spec(self.re), T::exp_spec(self.re))
    }

    /// `cbrt`, with slope `1 / (3 c^2)` where `c` is the cube root.
    pub open spec fn cbrt_dual(self) -> Self {
        let c = T::cbrt_spec(self.re);
        let three = T::add_spec(T::add_spec(T::one_spec(), T::one_spec()), T::one_spec());
        self.chain_spec(c, T::div_spec(T::one_spec(), T::mul_spec(T::mul_spec(three, c), c)))
    }

    /// `2^x`, with slope `2^x ln 2`.
    pub open spec fn exp2_dual(self) -> Self {
        let v = T::exp2_spec(self.re);
        self.chain_spec(v, T::mul_spec(v, T::ln_2_spec()))
    }

    /// `sqrt(a^2 + b^2)`: tangent `(a' a + b' b) / value`.
    pub open spec fn hypot_dual(self, other: Self) -> Self {
        let v = T::sqrt_spec(T::add_spec(T::mul_spec(self.re, self.re), T::mul_spec(other.re, other.re)));
        Self::build(
            v,
            |i: int| T::div_spec(T::add_spec(T::mul_spec(self.eps[i], self.re), T::mul_spec(other.eps[i], other.re)), v),
        )
    }

    /// The fractional part: the tangent is unchanged.
    pub open spec fn fract_dual(self) -> Self {
        Dual { re: T::fract_spec(self.re), eps: self.eps }
    }

    pub open spec fn powi_dual(self, n: i32) -> Self {
        self.chain_spec(
            T::powi_spec(self.re, n),
            T::mul_spec(T::from_i32_spec(n), T::powi_spec(self.re, pred_i32(n))),
        )
    }

    pub open spec fn powf_scalar_spec(self, p: T) -> Self {
        self.chain_spec(
            T::powf_spec(self.re, p),
            T::mul_spec(p, T::powf_spec(self.re, T::sub_spec(p, T::one_spec()))),
        )
    }

    pub open spec fn recip_dual(self) -> Self {
        let inv = T::div_spec(T::one_spec(), self.re);
        self.chain_spec(inv, T::neg_spec(T::mul_spec(inv, inv)))
    }

    /// `|x| = x` for `x >= 0`, else `-x` (negation carries the tangent along).
    pub open spec fn abs_dual(self) -> Self {
        if T::le_spec(T::zero_spec(), self.re) {
            self
        } else {
            Self::neg_dual(self)
        }
    }

    /// A constant: value `re`, zero derivative.
    pub fn from_re(re: T) -> (r: Self)
        ensures
            r == Self::constant_spec(re),
    {
        let eps: [T; N] = tangent::zeros();
        proof {
            lemma_array_eq_from_fn(eps, |i: int| T::zero_spec());
        }
        Dual { re, eps }
    }

    /// Alias for [`Dual::from_re`].
    pub fn constant(re: T) -> (r: Self)
        ensures
            r == Self::constant_spec(re),
    {
        Self::from_re(re)
    }

    /// Seeds the `i`-th independent variable: value `re`, tangent direction `e_i`.
    pub fn seed(re: T, i: usize) -> (r: Self)
        requires
            i < N,
        ensures
            r.re == re,
            forall|j: int| 0 <= j < N ==> r.eps[j] == (if j == i { T::one_spec() } else { T::zero_spec() }),
    {
        Dual { re, eps: tangent::unit(i) }
    }

    /// Applies the chain rule for a unary function: value `val`, local slope `deriv`.
    fn chain(self, val: T, deriv: T) -> (r: Self)
        ensures
            r == self.chain_spec(val, deriv),
    {
        let eps = tangent::scale(&self.eps, deriv);
        proof {
            lemma_array_eq_from_fn(eps, |i: int| T::mul_spec(self.eps[i], deriv));
        }
        Dual { re: val, eps }
    }

    /// Power with a dual exponent.
    fn powf_dual(self, n: Self) -> (r: Self)
        ensures
            r == self.powf_dual_spec(n),
    {
        let v = self.re.powf(n.re);
        let a = tangent::scale(&n.eps, self.re.ln());
        let b = tangent::scale(&self.eps, n.re.div(self.re));
        let eps = tangent::scale(&tangent::add(&a, &b), v);
        proof {
            lemma_array_eq_from_fn(
                eps,
                |i: int|
                    T::mul_spec(
                        T::add_spec(
                            T::mul_spec(n.eps[i], T::ln_spec(self.re)),
                            T::mul_spec(self.eps[i], T::div_spec(n.re, self.re)),
                        ),
                        v,
                    ),
            );
        }
        Dual { re: v, eps }
    }

    pub fn recip(self) -> (r: Self)
        requires
            self.recip_dual().tangent_is_finite(),
        ensures
            r == self.recip_dual(),
    {
        self.raw_recip()
    }

    /// `recip` without the requirement that its derivative exist.
    fn raw_recip(self) -> (r: Self)
        ensures
            r == self.recip_dual(),
    {
        let inv = T::one().div(self.re);
        self.chain(inv, inv.mul(inv).neg())
    }

    pub fn sin(self) -> (r: Self)
        requires
            self.sin_dual().tangent_is_finite(),
        ensures
            r == self.sin_dual(),
    {
        self.raw_sin()
    }

    /// `sin` without the requirement that its derivative exist.
    fn raw_sin(self) -> (r: Self)
        ensures
            r == self.sin_dual(),
    {
        self.chain(self.re.sin(), self.re.cos())
    }

    pub fn cos(self) -> (r: Self)
        requires
            self.cos_dual().tangent_is_finite(),
        ensures
            r == self.cos_dual(),
    {
        self.raw_cos()
    }

    /// `cos` without the requirement that its derivative exist.
    fn raw_cos(self) -> (r: Self)
        ensures
            r == self.cos_dual(),
    {
        self.chain(self.re.cos(), self.re.sin().neg())
    }

    pub fn sqrt(self) -> (r: Self)
        requires
            self.sqrt_dual().tangent_is_finite(),
        ensures
            r == self.sqrt_dual(),
    {
        self.raw_sqrt()
    }

    /// `sqrt` without the requirement that its derivative exist.
    fn raw_sqrt(self) -> (r: Self)
        ensures
            r == self.sqrt_dual(),
    {
        let s = self.re.sqrt();
        self.chain(s, T::one().div(s.add(s)))
    }

    pub fn exp(self) -> (r: Self)
        requires
            self.exp_dual().tangent_is_finite(),
        ensures
            r == self.exp_dual(),
    {
        self.raw_exp()
    }

    /// `exp` without the requirement that its derivative exist.
    fn raw_exp(self) -> (r: Self)
        ensures
            r == self.exp_dual(),
    {
        let e = self.re.exp();
        self.chain(e, e)
    }

    pub fn ln(self) -> (r: Self)
        requires
            self.ln_dual().tangent_is_finite(),
        ensures
            r == self.ln_dual(),
    {
        self.raw_ln()
    }

    /// `ln` without the requirement that its derivative exist.
    fn raw_ln(self) -> (r: Self)
        ensures
            r == self.ln_dual(),
    {
        self.chain(self.re.ln(), T::one().div(self.re))
    }

    pub fn powi(self, n: i32) -> (r: Self)
        requires
            self.powi_dual(n).tangent_is_finite(),
        ensures
            r == self.powi_dual(n),
    {
        self.raw_powi(n)
    }

    /// `powi` without the requirement that its derivative exist.
    fn raw_powi(self, n: i32) -> (r: Self)
        ensures
            r == self.powi_dual(n),
    {
        let nt = T::from_i32(n);
        let m: i32 = if n == i32::MIN { i32::MAX } else { n - 1 };
        self.chain(self.re.powi(n), nt.mul(self.re.powi(m)))
    }

    pub fn powf(self, p: T) -> (r: Self)
        requires
            self.powf_scalar_spec(p).tangent_is_finite(),
        ensures
            r == self.powf_scalar_spec(p),
    {
        self.raw_powf(p)
    }

    /// `powf` without the requirement that its derivative exist.
    fn raw_powf(self, p: T) -> (r: Self)
        ensures
            r == self.powf_scalar_spec(p),
    {
        self.chain(self.re.powf(p), p.mul(self.re.powf(p.sub(T::one()))))
    }

    pub fn tan(self) -> (r: Self)
        requires
            self.tan_dual().tangent_is_finite(),
        ensures
            r == self.tan_dual(),
    {
        self.raw_tan()
    }

    /// `tan` without the requirement that its derivative exist.
    fn raw_tan(self) -> (r: Self)
        ensures
            r == self.tan_dual(),
    {
        let c = self.re.cos();
        self.chain(self.re.tan(), T::one().div(c.mul(c)))
    }

    pub fn asin(self) -> (r: Self)
        requires
            self.asin_dual().tangent_is_finite(),
        ensures
            r == self.asin_dual(),
    {
        self.raw_asin()
    }

    /// `asin` without the requirement that its derivative exist.
    fn raw_asin(self) -> (r: Self)
        ensures
            r == self.asin_dual(),
    {
        let d = T::one().div(T::one().sub(self.re.mul(self.re)).sqrt());
        self.chain(self.re.asin(), d)
    }

    pub fn acos(self) -> (r: Self)
        requires
            self.acos_dual().tangent_is_finite(),
        ensures
            r == self.acos_dual(),
    {
        self.raw_acos()
    }

    /// `acos` without the requirement that its derivative exist.
    fn raw_acos(self) -> (r: Self)
        ensures
            r == self.acos_dual(),
    {
        let d = T::one().div(T::one().sub(self.re.mul(self.re)).sqrt()).neg();
        self.chain(self.re.acos(), d)
    }

    pub fn atan(self) -> (r: Self)
        requires
            self.atan_dual().tangent_is_finite(),
        ensures
            r == self.atan_dual(),
    {
        self.raw_atan()
    }

    /// `atan` without the requirement that its derivative exist.
    fn raw_atan(self) -> (r: Self)
        ensures
            r == self.atan_dual(),
    {
        let d = T::one().div(T::one().add(self.re.mul(self.re)));
        self.chain(self.re.atan(), d)
    }

    /// `sqrt(self^2 + other^2)`, with tangent `(eps_s re_s + eps_o re_o) / value`.
    pub fn hypot(self, other: Self) -> (r: Self)
        requires
            self.hypot_dual(other).tangent_is_finite(),
        ensures
            r == self.hypot_dual(other),
    {
        self.raw_hypot(other)
    }

    /// `hypot` without the requirement that its derivative exist.
    fn raw_hypot(self, other: Self) -> (r: Self)
        ensures
            r == self.hypot_dual(other),
    {
        let re = self.re.mul(self.re).add(other.re.mul(other.re)).sqrt();
        let a = tangent::scale(&self.eps, self.re);
        let b = tangent::scale(&other.eps, other.re);
        let eps = tangent::unscale(&tangent::add(&a, &b), re);
        proof {
            lemma_array_eq_from_fn(
                eps,
                |i: int| T::div_spec(T::add_spec(T::mul_spec(self.eps[i], self.re), T::mul_spec(other.eps[i], other.re)), re),
            );
        }
        Dual { re, eps }
    }

    pub fn abs(&self) -> (r: Self)
        ensures
            r == self.abs_dual(),
    {
        if T::zero().le(self.re) {
            *self
        } else {
            self.neg()
        }
    }

    pub fn tanh(self) -> (r: Self)
        requires
            self.tanh_dual().tangent_is_finite(),
        ensures
            r == self.tanh_dual(),
    {
        self.raw_tanh()
    }

    /// `tanh` without the requirement that its derivative exist.
    fn raw_tanh(self) -> (r: Self)
        ensures
            r == self.tanh_dual(),
    {
        let t = self.re.tanh();
        self.chain(t, T::one().sub(t.mul(t)))
    }

    pub fn sinh(self) -> (r: Self)
        requires
            self.sinh_dual().tangent_is_finite(),
        ensures
            r == self.sinh_dual(),
    {
        self.raw_sinh()
    }

    /// `sinh` without the requirement that its derivative exist.
    fn raw_sinh(self) -> (r: Self)
        ensures
            r == self.sinh_dual(),
    {
        self.chain(self.re.sinh(), self.re.cosh())
    }

    pub fn cosh(self) -> (r: Self)
        requires
            self.cosh_dual().tangent_is_finite(),
        ensures
            r == self.cosh_dual(),
    {
        self.raw_cosh()
    }

    /// `cosh` without the requirement that its derivative exist.
    fn raw_cosh(self) -> (r: Self)
        ensures
            r == self.cosh_dual(),
    {
        self.chain(self.re.cosh(), self.re.sinh())
    }

    /// `asinh`, with slope `1 / sqrt(x^2 + 1)`.
    pub fn asinh(self) -> (r: Self)
        requires
            self.asinh_dual().tangent_is_finite(),
        ensures
            r == self.asinh_dual(),
    {
        self.raw_asinh()
    }

    /// `asinh` without the requirement that its derivative exist.
    fn raw_asinh(self) -> (r: Self)
        ensures
            r == self.asinh_dual(),
    {
        self.chain(self.re.asinh(), T::one().div(self.re.mul(self.re).add(T::one()).sqrt()))
    }

    /// `acosh`, with slope `1 / sqrt(x^2 - 1)`.
    pub fn acosh(self) -> (r: Self)
        requires
            self.acosh_dual().tangent_is_finite(),
        ensures
            r == self.acosh_dual(),
    {
        self.raw_acosh()
    }

    /// `acosh` without the requirement that its derivative exist.
    fn raw_acosh(self) -> (r: Self)
        ensures
            r == self.acosh_dual(),
    {
        self.chain(self.re.acosh(), T::one().div(self.re.mul(self.re).sub(T::one()).sqrt()))
    }

    /// `atanh`, with slope `1 / (1 - x^2)`.
    pub fn atanh(self) -> (r: Self)
        requires
            self.atanh_dual().tangent_is_finite(),
        ensures
            r == self.atanh_dual(),
    {
        self.raw_atanh()
    }

    /// `atanh` without the requirement that its derivative exist.
    fn raw_atanh(self) -> (r: Self)
        ensures
            r == self.atanh_dual(),
    {
        self.chain(self.re.atanh(), T::one().div(T::one().sub(self.re.mul(self.re))))
    }

    /// `log2`, with slope `1 / (x ln 2)`.
    pub fn log2(self) -> (r: Self)
        requires
            self.log2_dual().tangent_is_finite(),
        ensures
            r == self.log2_dual(),
    {
        self.raw_log2()
    }

    /// `log2` without the requirement that its derivative exist.
    fn raw_log2(self) -> (r: Self)
        ensures
            r == self.log2_dual(),
    {
        self.chain(self.re.log2(), T::one().div(self.re.mul(T::ln_2())))
    }

    /// `log10`, with slope `1 / (x ln 10)`.
    pub fn log10(self) -> (r: Self)
        requires
            self.log10_dual().tangent_is_finite(),
        ensures
            r == self.log10_dual(),
    {
        self.raw_log10()
    }

    /// `log10` without the requirement that its derivative exist.
    fn raw_log10(self) -> (r: Self)
        ensures
            r == self.log10_dual(),
    {
        self.chain(self.re.log10(), T::one().div(self.re.mul(T::ln_10())))
    }

    /// `ln(1 + x)`, with slope `1 / (1 + x)`.
    pub fn ln_1p(self) -> (r: Self)
        requires
            self.ln_1p_dual().tangent_is_finite(),
        ensures
            r == self.ln_1p_dual(),
    {
        self.raw_ln_1p()
    }

    /// `ln_1p` without the requirement that its derivative exist.
    fn raw_ln_1p(self) -> (r: Self)
        ensures
            r == self.ln_1p_dual(),
    {
        self.chain(self.re.ln_1p(), T::one().div(T::one().add(self.re)))
    }

    /// `exp(x) - 1`, with slope `exp(x)`.
    pub fn exp_m1(self) -> (r: Self)
        requires
            self.exp_m1_dual().tangent_is_finite(),
        ensures
            r == self.exp_m1_dual(),
    {
        self.raw_exp_m1()
    }

    /// `exp_m1` without the requirement that its derivative exist.
    fn raw_exp_m1(self) -> (r: Self)
        ensures
            r == self.exp_m1_dual(),
    {
        self.chain(self.re.exp_m1(), self.re.exp())
    }

    /// `cbrt`, with slope `1 / (3 c^2)` where `c` is the cube root.
    pub fn cbrt(self) -> (r: Self)
        requires
            self.cbrt_dual().tangent_is_finite(),
        ensures
            r == self.cbrt_dual(),
    {
        self.raw_cbrt()
    }

    /// `cbrt` without the requirement that its derivative exist.
    fn raw_cbrt(self) -> (r: Self)
        ensures
            r == self.cbrt_dual(),
    {
        let c = self.re.cbrt();
        let three = T::one().add(T::one()).add(T::one());
        self.chain(c, T::one().div(three.mul(c).mul(c)))
    }

    /// `2^x`, with slope `2^x ln 2`.
    pub fn exp2(self) -> (r: Self)
        requires
            self.exp2_dual().tangent_is_finite(),
        ensures
            r == self.exp2_dual(),
    {
        self.raw_exp2()
    }

    /// `exp2` without the requirement that its derivative exist.
    fn raw_exp2(self) -> (r: Self)
        ensures
            r == self.exp2_dual(),
    {
        let v = self.re.exp2();
        self.chain(v, v.mul(T::ln_2()))
    }

    /// The fractional part of the value; the tangent is unchanged.
    pub fn fract(self) -> (r: Self)
        ensures
            r == self.fract_dual(),
    {
        Dual { re: self.re.fract(), eps: self.eps }
    }

    /// `floor` of the value as a constant (piecewise constant: derivative zero).
    pub fn floor(self) -> (r: Self)
        ensures
            r == Self::constant_spec(T::floor_spec(self.re)),
    {
        Self::from_re(self.re.floor())
    }

    /// `ceil` of the value as a constant (piecewise constant: derivative zero).
    pub fn ceil(self) -> (r: Self)
        ensures
            r == Self::constant_spec(T::ceil_spec(self.re)),
    {
        Self::from_re(self.re.ceil())
    }

    /// `round` of the value as a constant (piecewise constant: derivative zero).
    pub fn round(self) -> (r: Self)
        ensures
            r == Self::constant_spec(T::round_spec(self.re)),
    {
        Self::from_re(self.re.round())
    }

    /// `trunc` of the value as a constant (piecewise constant: derivative zero).
    pub fn trunc(self) -> (r: Self)
        ensures
            r == Self::constant_spec(T::trunc_spec(self.re)),
    {
        Self::from_re(self.re.trunc())
    }

    /// A finite value and finite derivatives.
    pub fn is_finite(&self) -> (r: bool)
        ensures
            r == (T::is_finite_spec(self.re) && forall|i: int|
                0 <= i < N ==> T::is_finite_spec(#[trigger] self.eps[i])),
    {
        if !self.re.is_finite() {
            return false;
        }
        let mut k: usize = 0;
        while k < N
            invariant
                0 <= k <= N,
                forall|i: int| 0 <= i < k ==> T::is_finite_spec(#[trigger] self.eps[i]),
            decreases N - k,
        {
            if !self.eps[k].is_finite() {
                return false;
            }
            k += 1;
        }
        true
    }

    /// Whether every derivative is a finite number.
    pub open spec fn tangent_is_finite(self) -> bool {
        forall|i: int| 0 <= i < N ==> T::is_finite_spec(#[trigger] self.eps[i])
    }

    /// The dual where its derivative exists: itself when every derivative is
    /// finite, nothing when it was differentiated at a singular point (`sqrt`
    /// at zero, `1/x` at zero, `atan2` at the origin), where the derivative
    /// does not exist. The value part is not looked at.
    pub fn checked(self) -> (r: Option<Self>)
        ensures
            r == (if self.tangent_is_finite() {
                Some(self)
            } else {
                None
            }),
    {
        let mut k: usize = 0;
        while k < N
            invariant
                0 <= k <= N,
                forall|i: int| 0 <= i < k ==> T::is_finite_spec(#[trigger] self.eps[i]),
            decreases N - k,
        {
            if !self.eps[k].is_finite() {
                return None;
            }
            k += 1;
        }
        Some(self)
    }

    /// The square root where its derivative exists (not at zero): `None` when
    /// a derivative of the result is not finite.
    pub fn checked_sqrt(self) -> (r: Option<Self>)
        ensures
            r == (if self.sqrt_dual().tangent_is_finite() {
                Some(self.sqrt_dual())
            } else {
                None
            }),
    {
        self.raw_sqrt().checked()
    }

    /// The quotient where its derivative exists (not by zero): `None` when a
    /// derivative of the result is not finite.
    pub fn checked_div(self, rhs: Self) -> (r: Option<Self>)
        ensures
            r == (if Self::div_dual(self, rhs).tangent_is_finite() {
                Some(Self::div_dual(self, rhs))
            } else {
                None
            }),
    {
        self.raw_div(rhs).checked()
    }

    /// Sum: values and tangents add.
    pub fn add(self, rhs: Self) -> (r: Self)
        ensures
            r == Self::add_dual(self, rhs),
    {
        let eps = tangent::add(&self.eps, &rhs.eps);
        proof {
            lemma_array_eq_from_fn(eps, |i: int| T::add_spec(self.eps[i], rhs.eps[i]));
        }
        Dual { re: self.re.add(rhs.re), eps }
    }

    /// Difference: values and tangents subtract.
    pub fn sub(self, rhs: Self) -> (r: Self)
        ensures
            r == Self::sub_dual(self, rhs),
    {
        let eps = tangent::sub(&self.eps, &rhs.eps);
        proof {
            lemma_array_eq_from_fn(eps, |i: int| T::sub_spec(self.eps[i], rhs.eps[i]));
        }
        Dual { re: self.re.sub(rhs.re), eps }
    }

    /// Product, by the product rule.
    pub fn mul(self, rhs: Self) -> (r: Self)
        ensures
            r == Self::mul_dual(self, rhs),
    {
        let a = tangent::scale(&self.eps, rhs.re);
        let b = tangent::scale(&rhs.eps, self.re);
        let eps = tangent::add(&a, &b);
        proof {
            lemma_array_eq_from_fn(
                eps,
                |i: int| T::add_spec(T::mul_spec(self.eps[i], rhs.re), T::mul_spec(rhs.eps[i], self.re)),
            );
        }
        Dual { re: self.re.mul(rhs.re), eps }
    }

    /// Quotient, by the quotient rule.
    pub fn div(self, rhs: Self) -> (r: Self)
        requires
            Self::div_dual(self, rhs).tangent_is_finite(),
        ensures
            r == Self::div_dual(self, rhs),
    {
        self.raw_div(rhs)
    }

    /// `div` without the requirement that its derivative exist.
    fn raw_div(self, rhs: Self) -> (r: Self)
        ensures
            r == Self::div_dual(self, rhs),
    {
        let denom = rhs.re.mul(rhs.re);
        let a = tangent::scale(&self.eps, rhs.re);
        let b = tangent::scale(&rhs.eps, self.re);
        let eps = tangent::unscale(&tangent::sub(&a, &b), denom);
        proof {
            lemma_array_eq_from_fn(
                eps,
                |i: int|
                    T::div_spec(
                        T::sub_spec(T::mul_spec(self.eps[i], rhs.re), T::mul_spec(rhs.eps[i], self.re)),
                        T::mul_spec(rhs.re, rhs.re),
                    ),
            );
        }
        Dual { re: self.re.div(rhs.re), eps }
    }

    /// Negation of value and tangent.
    pub fn neg(self) -> (r: Self)
        ensures
            r == Self::neg_dual(self),
    {
        let eps = tangent::neg(&self.eps);
        proof {
            lemma_array_eq_from_fn(eps, |i: int| T::neg_spec(self.eps[i]));
        }
        Dual { re: self.re.neg(), eps }
    }
}

} // verus!

verus! {

impl<T: RealScalar, const N: usize> RealScalar for Dual<T, N> {
    open spec fn zero_spec() -> Self {
        Self::constant_spec(T::zero_spec())
    }

    open spec fn one_spec() -> Self {
        Self::constant_spec(T::one_spec())
    }

    open spec fn from_i32_spec(n: i32) -> Self {
        Self::constant_spec(T::from_i32_spec(n))
    }

    open spec fn from_ratio_spec(n: i32, d: i32) -> Self {
        Self::constant_spec(T::from_ratio_spec(n, d))
    }

    open spec fn add_spec(a: Self, b: Self) -> Self {
        Self::add_dual(a, b)
    }

    open spec fn sub_spec(a: Self, b: Self) -> Self {
        Self::sub_dual(a, b)
    }

    open spec fn mul_spec(a: Self, b: Self) -> Self {
        Self::mul_dual(a, b)
    }

    open spec fn div_spec(a: Self, b: Self) -> Self {
        Self::div_dual(a, b)
    }

    open spec fn neg_spec(a: Self) -> Self {
        Self::neg_dual(a)
    }

    /// The remainder of the values; the tangent of `a` is kept (the
    /// remainder is non-differentiable where it jumps).
    open spec fn rem_spec(a: Self, b: Self) -> Self {
        Dual { re: T::rem_spec(a.re, b.re), eps: a.eps }
    }

    /// Equality acts on the value part only.
    open spec fn eq_spec(a: Self, b: Self) -> bool {
        T::eq_spec(a.re, b.re)
    }

    /// Ordering acts on the value part only.
    open spec fn lt_spec(a: Self, b: Self) -> bool {
        T::lt_spec(a.re, b.re)
    }

    open spec fn le_spec(a: Self, b: Self) -> bool {
        T::le_spec(a.re, b.re)
    }

    open spec fn abs_spec(a: Self) -> Self {
        a.abs_dual()
    }

    /// A selector: decides on the value and returns the chosen operand whole,
    /// derivative included.
    open spec fn max_spec(a: Self, b: Self) -> Self {
        if T::lt_spec(a.re, b.re) {
            b
        } else {
            a
        }
    }

    open spec fn min_spec(a: Self, b: Self) -> Self {
        if T::lt_spec(b.re, a.re) {
            b
        } else {
            a
        }
    }

    open spec fn sqrt_spec(a: Self) -> Self {
        a.sqrt_dual()
    }

    open spec fn exp_spec(a: Self) -> Self {
        a.exp_dual()
    }

    open spec fn ln_spec(a: Self) -> Self {
        a.ln_dual()
    }

    open spec fn sin_spec(a: Self) -> Self {
        a.sin_dual()
    }

    open spec fn cos_spec(a: Self) -> Self {
        a.cos_dual()
    }

    open spec fn tan_spec(a: Self) -> Self {
        a.tan_dual()
    }

    open spec fn asin_spec(a: Self) -> Self {
        a.asin_dual()
    }

    open spec fn acos_spec(a: Self) -> Self {
        a.acos_dual()
    }

    open spec fn atan_spec(a: Self) -> Self {
        a.atan_dual()
    }

    open spec fn sinh_spec(a: Self) -> Self {
        a.sinh_dual()
    }

    open spec fn cosh_spec(a: Self) -> Self {
        a.cosh_dual()
    }

    open spec fn tanh_spec(a: Self) -> Self {
        a.tanh_dual()
    }

    open spec fn atan2_spec(y: Self, x: Self) -> Self {
        y.atan2_dual(x)
    }

    open spec fn powi_spec(a: Self, n: i32) -> Self {
        a.powi_dual(n)
    }

    open spec fn powf_spec(a: Self, p: Self) -> Self {
        a.powf_dual_spec(p)
    }

    open spec fn pi_spec() -> Self {
        Self::constant_spec(T::pi_spec())
    }

    open spec fn is_sign_positive_spec(a: Self) -> bool {
        T::is_sign_positive_spec(a.re)
    }

    open spec fn asinh_spec(a: Self) -> Self {
        a.asinh_dual()
    }

    open spec fn acosh_spec(a: Self) -> Self {
        a.acosh_dual()
    }

    open spec fn atanh_spec(a: Self) -> Self {
        a.atanh_dual()
    }

    open spec fn log2_spec(a: Self) -> Self {
        a.log2_dual()
    }

    open spec fn log10_spec(a: Self) -> Self {
        a.log10_dual()
    }

    open spec fn ln_1p_spec(a: Self) -> Self {
        a.ln_1p_dual()
    }

    open spec fn exp_m1_spec(a: Self) -> Self {
        a.exp_m1_dual()
    }

    open spec fn cbrt_spec(a: Self) -> Self {
        a.cbrt_dual()
    }

    open spec fn exp2_spec(a: Self) -> Self {
        a.exp2_dual()
    }

    open spec fn fract_spec(a: Self) -> Self {
        a.fract_dual()
    }

    open spec fn floor_spec(a: Self) -> Self {
        Self::constant_spec(T::floor_spec(a.re))
    }

    open spec fn ceil_spec(a: Self) -> Self {
        Self::constant_spec(T::ceil_spec(a.re))
    }

    open spec fn round_spec(a: Self) -> Self {
        Self::constant_spec(T::round_spec(a.re))
    }

    open spec fn trunc_spec(a: Self) -> Self {
        Self::constant_spec(T::trunc_spec(a.re))
    }

    open spec fn ln_2_spec() -> Self {
        Self::constant_spec(T::ln_2_spec())
    }

    open spec fn ln_10_spec() -> Self {
        Self::constant_spec(T::ln_10_spec())
    }

    open spec fn is_finite_spec(a: Self) -> bool {
        T::is_finite_spec(a.re) && forall|i: int| 0 <= i < N ==> T::is_finite_spec(#[trigger] a.eps[i])
    }

    open spec fn is_sign_negative_spec(a: Self) -> bool {
        T::is_sign_negative_spec(a.re)
    }

    /// NaN in the value or in some derivative.
    open spec fn is_nan_spec(a: Self) -> bool {
        T::is_nan_spec(a.re) || exists|i: int| 0 <= i < N && T::is_nan_spec(#[trigger] a.eps[i])
    }

    proof fn lemma_lt_transitive(a: Self, b: Self, c: Self) {
        T::lemma_lt_transitive(a.re, b.re, c.re);
    }

    proof fn lemma_add_commutative(a: Self, b: Self) {
        T::lemma_add_commutative(a.re, b.re);
        assert forall|i: int| 0 <= i < N implies #[trigger] Self::add_dual(a, b).eps[i] == Self::add_dual(
            b,
            a,
        ).eps[i] by {
            broadcast use crate::tangent::lemma_array_from_fn;

            assert(!T::is_nan_spec(Self::add_dual(a, b).eps[i]));
            T::lemma_add_commutative(a.eps[i], b.eps[i]);
        }
        assert(Self::add_dual(a, b).eps =~= Self::add_dual(b, a).eps);
    }

    proof fn lemma_mul_commutative(a: Self, b: Self) {
        T::lemma_mul_commutative(a.re, b.re);
        assert forall|i: int| 0 <= i < N implies #[trigger] Self::mul_dual(a, b).eps[i] == Self::mul_dual(
            b,
            a,
        ).eps[i] by {
            broadcast use crate::tangent::lemma_array_from_fn;

            let p = T::mul_spec(a.eps[i], b.re);
            let q = T::mul_spec(b.eps[i], a.re);
            assert(!T::is_nan_spec(Self::mul_dual(a, b).eps[i]));
            T::lemma_add_commutative(p, q);
        }
        assert(Self::mul_dual(a, b).eps =~= Self::mul_dual(b, a).eps);
    }

    proof fn lemma_add_not_nan(a: Self, b: Self) {
        T::lemma_add_not_nan(a.re, b.re);
        assert forall|i: int| 0 <= i < N implies !T::is_nan_spec(#[trigger] a.eps[i]) && !T::is_nan_spec(
            b.eps[i],
        ) by {
            broadcast use crate::tangent::lemma_array_from_fn;

            assert(!T::is_nan_spec(Self::add_dual(a, b).eps[i]));
            T::lemma_add_not_nan(a.eps[i], b.eps[i]);
        }
        assert forall|i: int| 0 <= i < N implies !T::is_nan_spec(#[trigger] b.eps[i]) by {
            broadcast use crate::tangent::lemma_array_from_fn;

            assert(!T::is_nan_spec(Self::add_dual(a, b).eps[i]));
            T::lemma_add_not_nan(a.eps[i], b.eps[i]);
        }
    }

    proof fn lemma_sub_not_nan(a: Self, b: Self) {
        T::lemma_sub_not_nan(a.re, b.re);
        assert forall|i: int| 0 <= i < N implies !T::is_nan_spec(#[trigger] a.eps[i]) && !T::is_nan_spec(
            b.eps[i],
        ) by {
            broadcast use crate::tangent::lemma_array_from_fn;

            assert(!T::is_nan_spec(Self::sub_dual(a, b).eps[i]));
            T::lemma_sub_not_nan(a.eps[i], b.eps[i]);
        }
        assert forall|i: int| 0 <= i < N implies !T::is_nan_spec(#[trigger] b.eps[i]) by {
            broadcast use crate::tangent::lemma_array_from_fn;

            assert(!T::is_nan_spec(Self::sub_dual(a, b).eps[i]));
            T::lemma_sub_not_nan(a.eps[i], b.eps[i]);
        }
    }

    proof fn lemma_mul_not_nan(a: Self, b: Self) {
        T::lemma_mul_not_nan(a.re, b.re);
        assert forall|i: int| 0 <= i < N implies !T::is_nan_spec(#[trigger] a.eps[i]) && !T::is_nan_spec(
            b.eps[i],
        ) by {
            broadcast use crate::tangent::lemma_array_from_fn;

            let t = Self::mul_dual(a, b).eps[i];
            assert(!T::is_nan_spec(t));
            T::lemma_add_not_nan(T::mul_spec(a.eps[i], b.re), T::mul_spec(b.eps[i], a.re));
            T::lemma_mul_not_nan(a.eps[i], b.re);
            T::lemma_mul_not_nan(b.eps[i], a.re);
        }
        assert forall|i: int| 0 <= i < N implies !T::is_nan_spec(#[trigger] b.eps[i]) by {
            broadcast use crate::tangent::lemma_array_from_fn;

            let t = Self::mul_dual(a, b).eps[i];
            assert(!T::is_nan_spec(t));
            T::lemma_add_not_nan(T::mul_spec(a.eps[i], b.re), T::mul_spec(b.eps[i], a.re));
            T::lemma_mul_not_nan(b.eps[i], a.re);
        }
    }

    fn zero() -> (r: Self) {
        Self::from_re(T::zero())
    }

    fn rem(self, rhs: Self) -> (r: Self) {
        Dual::rem(self, rhs)
    }

    fn one() -> (r: Self) {
        Self::from_re(T::one())
    }

    fn from_i32(n: i32) -> (r: Self) {
        Self::from_re(T::from_i32(n))
    }

    fn from_ratio(n: i32, d: i32) -> (r: Self) {
        Self::from_re(T::from_ratio(n, d))
    }

    fn add(self, rhs: Self) -> (r: Self) {
        Dual::add(self, rhs)
    }

    fn sub(self, rhs: Self) -> (r: Self) {
        Dual::sub(self, rhs)
    }

    fn mul(self, rhs: Self) -> (r: Self) {
        Dual::mul(self, rhs)
    }

    fn div(self, rhs: Self) -> (r: Self) {
        Dual::raw_div(self, rhs)
    }

    fn neg(self) -> (r: Self) {
        Dual::neg(self)
    }

    fn eq(self, rhs: Self) -> (r: bool) {
        self.re.eq(rhs.re)
    }

    fn lt(self, rhs: Self) -> (r: bool) {
        self.re.lt(rhs.re)
    }

    fn le(self, rhs: Self) -> (r: bool) {
        self.re.le(rhs.re)
    }

    fn abs(self) -> (r: Self) {
        Dual::abs(&self)
    }

    fn max(self, rhs: Self) -> (r: Self) {
        Dual::max(self, rhs)
    }

    fn min(self, rhs: Self) -> (r: Self) {
        Dual::min(self, rhs)
    }

    fn sqrt(self) -> (r: Self) {
        Dual::raw_sqrt(self)
    }

    fn exp(self) -> (r: Self) {
        Dual::raw_exp(self)
    }

    fn ln(self) -> (r: Self) {
        Dual::raw_ln(self)
    }

    fn sin(self) -> (r: Self) {
        Dual::raw_sin(self)
    }

    fn cos(self) -> (r: Self) {
        Dual::raw_cos(self)
    }

    fn tan(self) -> (r: Self) {
        Dual::raw_tan(self)
    }

    fn asin(self) -> (r: Self) {
        Dual::raw_asin(self)
    }

    fn acos(self) -> (r: Self) {
        Dual::raw_acos(self)
    }

    fn atan(self) -> (r: Self) {
        Dual::raw_atan(self)
    }

    fn sinh(self) -> (r: Self) {
        Dual::raw_sinh(self)
    }

    fn cosh(self) -> (r: Self) {
        Dual::raw_cosh(self)
    }

    fn tanh(self) -> (r: Self) {
        Dual::raw_tanh(self)
    }

    fn atan2(self, x: Self) -> (r: Self) {
        Dual::raw_atan2(self, x)
    }

    fn powi(self, n: i32) -> (r: Self) {
        Dual::raw_powi(self, n)
    }

    fn powf(self, p: Self) -> (r: Self) {
        self.powf_dual(p)
    }

    fn pi() -> (r: Self) {
        Self::from_re(T::pi())
    }

    fn is_sign_positive(self) -> (r: bool) {
        self.re.is_sign_positive()
    }

    fn asinh(self) -> (r: Self) {
        Dual::raw_asinh(self)
    }

    fn acosh(self) -> (r: Self) {
        Dual::raw_acosh(self)
    }

    fn atanh(self) -> (r: Self) {
        Dual::raw_atanh(self)
    }

    fn log2(self) -> (r: Self) {
        Dual::raw_log2(self)
    }

    fn log10(self) -> (r: Self) {
        Dual::raw_log10(self)
    }

    fn ln_1p(self) -> (r: Self) {
        Dual::raw_ln_1p(self)
    }

    fn cbrt(self) -> (r: Self) {
        Dual::raw_cbrt(self)
    }

    fn exp2(self) -> (r: Self) {
        Dual::raw_exp2(self)
    }

    fn exp_m1(self) -> (r: Self) {
        Dual::raw_exp_m1(self)
    }

    fn floor(self) -> (r: Self) {
        Dual::floor(self)
    }

    fn ceil(self) -> (r: Self) {
        Dual::ceil(self)
    }

    fn round(self) -> (r: Self) {
        Dual::round(self)
    }

    fn trunc(self) -> (r: Self) {
        Dual::trunc(self)
    }

    fn fract(self) -> (r: Self) {
        Dual::fract(self)
    }

    fn ln_2() -> (r: Self) {
        Self::from_re(T::ln_2())
    }

    fn ln_10() -> (r: Self) {
        Self::from_re(T::ln_10())
    }

    fn is_finite(self) -> (r: bool) {
        Dual::is_finite(&self)
    }

    fn is_sign_negative(self) -> (r: bool) {
        self.re.is_sign_negative()
    }
}

impl<T: RealScalar, const N: usize> Dual<T, N> {
    /// The larger operand, decided on the value; its derivative comes along.
    pub fn max(self, other: Self) -> (r: Self)
        ensures
            r == <Self as RealScalar>::max_spec(self, other),
    {
        if self.re.lt(other.re) {
            other
        } else {
            self
        }
    }

    /// The smaller operand, decided on the value; its derivative comes along.
    pub fn min(self, other: Self) -> (r: Self)
        ensures
            r == <Self as RealScalar>::min_spec(self, other),
    {
        if other.re.lt(self.re) {
            other
        } else {
            self
        }
    }

    /// `self` held between `min` and `max`, decided on the values.
    pub fn clamp(self, min: Self, max: Self) -> (r: Self)
        ensures
            r == (if T::lt_spec(self.re, min.re) {
                min
            } else if T::lt_spec(max.re, self.re) {
                max
            } else {
                self
            }),
    {
        if self.re.lt(min.re) {
            min
        } else if max.re.lt(self.re) {
            max
        } else {
            self
        }
    }

    /// `atan2(self, x)`, differentiated in both arguments.
    pub fn atan2(self, x: Self) -> (r: Self)
        requires
            self.atan2_dual(x).tangent_is_finite(),
        ensures
            r == self.atan2_dual(x),
    {
        self.raw_atan2(x)
    }

    /// `atan2` without the requirement that its derivative exist.
    fn raw_atan2(self, x: Self) -> (r: Self)
        ensures
            r == self.atan2_dual(x),
    {
        let denom = self.re.mul(self.re).add(x.re.mul(x.re));
        let re = self.re.atan2(x.re);
        let a = tangent::scale(&self.eps, x.re);
        let b = tangent::scale(&x.eps, self.re);
        let eps = tangent::unscale(&tangent::sub(&a, &b), denom);
        proof {
            lemma_array_eq_from_fn(
                eps,
                |i: int|
                    T::div_spec(
                        T::sub_spec(T::mul_spec(self.eps[i], x.re), T::mul_spec(x.eps[i], self.re)),
                        denom,
                    ),
            );
        }
        Dual { re, eps }
    }
}

} // verus!

verus! {

impl<T: RealScalar, const N: usize> Dual<T, N> {
    /// `self + s` for a scalar `s`: the tangent is unchanged.
    pub fn add_scalar(self, s: T) -> (r: Self)
        ensures
            r.re == T::add_spec(self.re, s),
            r.eps == self.eps,
    {
        Dual { re: self.re.add(s), eps: self.eps }
    }

    /// `self - s` for a scalar `s`: the tangent is unchanged.
    pub fn sub_scalar(self, s: T) -> (r: Self)
        ensures
            r.re == T::sub_spec(self.re, s),
            r.eps == self.eps,
    {
        Dual { re: self.re.sub(s), eps: self.eps }
    }

    /// `self * s` for a scalar `s`: value and tangent scale.
    pub fn mul_scalar(self, s: T) -> (r: Self)
        ensures
            r == Self::build(T::mul_spec(self.re, s), |i: int| T::mul_spec(self.eps[i], s)),
    {
        let eps = tangent::scale(&self.eps, s);
        proof {
            lemma_array_eq_from_fn(eps, |i: int| T::mul_spec(self.eps[i], s));
        }
        Dual { re: self.re.mul(s), eps }
    }

    /// `self / s` for a scalar `s`: value and tangent divide.
    pub fn div_scalar(self, s: T) -> (r: Self)
        requires
            (Self::build(T::div_spec(self.re, s), |i: int| T::div_spec(self.eps[i], s))).tangent_is_finite(),
        ensures
            r == Self::build(T::div_spec(self.re, s), |i: int| T::div_spec(self.eps[i], s)),
    {
        self.raw_div_scalar(s)
    }

    /// `div_scalar` without the requirement that its derivative exist.
    fn raw_div_scalar(self, s: T) -> (r: Self)
        ensures
            r == Self::build(T::div_spec(self.re, s), |i: int| T::div_spec(self.eps[i], s)),
    {
        let eps = tangent::unscale(&self.eps, s);
        proof {
            lemma_array_eq_from_fn(eps, |i: int| T::div_spec(self.eps[i], s));
        }
        Dual { re: self.re.div(s), eps }
    }

    pub fn add_assign(&mut self, rhs: Self)
        ensures
            *final(self) == Self::add_dual(*old(self), rhs),
    {
        *self = self.add(rhs);
    }

    pub fn sub_assign(&mut self, rhs: Self)
        ensures
            *final(self) == Self::sub_dual(*old(self), rhs),
    {
        *self = self.sub(rhs);
    }

    pub fn mul_assign(&mut self, rhs: Self)
        ensures
            *final(self) == Self::mul_dual(*old(self), rhs),
    {
        *self = self.mul(rhs);
    }

    pub fn div_assign(&mut self, rhs: Self)
        requires
            Self::div_dual(*old(self), rhs).tangent_is_finite(),
        ensures
            *final(self) == Self::div_dual(*old(self), rhs),
    {
        *self = self.div(rhs);
    }

    /// `true` exactly when the value is zero and every derivative is zero.
    pub fn is_zero(&self) -> (r: bool)
        ensures
            r == (T::eq_spec(self.re, T::zero_spec()) && forall|i: int|
                0 <= i < N ==> T::eq_spec(#[trigger] self.eps[i], T::zero_spec())),
    {
        let z = T::zero();
        if !self.re.eq(z) {
            return false;
        }
        let mut k: usize = 0;
        while k < N
            invariant
                0 <= k <= N,
                z == T::zero_spec(),
                forall|i: int| 0 <= i < k ==> T::eq_spec(#[trigger] self.eps[i], T::zero_spec()),
            decreases N - k,
        {
            if !self.eps[k].eq(z) {
                return false;
            }
            k += 1;
        }
        true
    }

    /// `true` exactly when the value is one and every derivative is zero.
    pub fn is_one(&self) -> (r: bool)
        ensures
            r == (T::eq_spec(self.re, T::one_spec()) && forall|i: int|
                0 <= i < N ==> T::eq_spec(#[trigger] self.eps[i], T::zero_spec())),
    {
        let z = T::zero();
        if !self.re.eq(T::one()) {
            return false;
        }
        let mut k: usize = 0;
        while k < N
            invariant
                0 <= k <= N,
                z == T::zero_spec(),
                forall|i: int| 0 <= i < k ==> T::eq_spec(#[trigger] self.eps[i], T::zero_spec()),
            decreases N - k,
        {
            if !self.eps[k].eq(z) {
                return false;
            }
            k += 1;
        }
        true
    }

    /// `self - other` when `self` is the larger value, else zero.
    pub fn abs_sub(&self, other: &Self) -> (r: Self)
        ensures
            r == (if T::le_spec(self.re, other.re) {
                <Self as RealScalar>::zero_spec()
            } else {
                Self::sub_dual(*self, *other)
            }),
    {
        if self.re.le(other.re) {
            <Self as RealScalar>::zero()
        } else {
            self.sub(*other)
        }
    }

    /// The sign of the value as a constant (the sign is piecewise constant,
    /// so its derivative is zero).
    pub fn signum(&self) -> (r: Self)
        ensures
            r == Self::constant_spec(
                if T::lt_spec(T::zero_spec(), self.re) {
                    T::one_spec()
                } else if T::lt_spec(self.re, T::zero_spec()) {
                    T::neg_spec(T::one_spec())
                } else {
                    T::zero_spec()
                },
            ),
    {
        let z = T::zero();
        let v = if z.lt(self.re) {
            T::one()
        } else if self.re.lt(z) {
            T::one().neg()
        } else {
            z
        };
        Self::from_re(v)
    }

    pub fn is_positive(&self) -> (r: bool)
        ensures
            r == T::lt_spec(T::zero_spec(), self.re),
    {
        T::zero().lt(self.re)
    }

    pub fn is_negative(&self) -> (r: bool)
        ensures
            r == T::lt_spec(self.re, T::zero_spec()),
    {
        self.re.lt(T::zero())
    }

    /// `self` when `cond` holds, else `other`.
    pub fn select(self, cond: bool, other: Self) -> (r: Self)
        ensures
            r == (if cond {
                self
            } else {
                other
            }),
    {
        if cond {
            self
        } else {
            other
        }
    }

    /// The square root where the value is not negative, else nothing.
    pub fn try_sqrt(self) -> (r: Option<Self>)
        requires
            T::le_spec(T::zero_spec(), self.re) ==> self.sqrt_dual().tangent_is_finite(),
        ensures
            r == (if T::le_spec(T::zero_spec(), self.re) {
                Some(self.sqrt_dual())
            } else {
                None
            }),
    {
        if T::zero().le(self.re) {
            Some(self.sqrt())
        } else {
            None
        }
    }

    /// `|self|` with the sign of `sign`.
    pub fn copysign(self, sign: Self) -> (r: Self)
        ensures
            r == (if T::is_sign_positive_spec(sign.re) {
                self.abs_dual()
            } else {
                Self::neg_dual(self.abs_dual())
            }),
    {
        if sign.re.is_sign_positive() {
            self.abs()
        } else {
            self.abs().neg()
        }
    }

    /// The argument of a real number: zero when the value is not negative, else pi.
    pub fn argument(self) -> (r: Self)
        ensures
            r == (if T::le_spec(T::zero_spec(), self.re) {
                Self::constant_spec(T::zero_spec())
            } else {
                Self::constant_spec(T::pi_spec())
            }),
    {
        if T::zero().le(self.re) {
            Self::from_re(T::zero())
        } else {
            Self::from_re(T::pi())
        }
    }

    /// `self * self`.
    pub fn modulus_squared(self) -> (r: Self)
        ensures
            r == Self::mul_dual(self, self),
    {
        self.mul(self)
    }

    /// `self * a + b`.
    pub fn mul_add(self, a: Self, b: Self) -> (r: Self)
        ensures
            r == Self::add_dual(Self::mul_dual(self, a), b),
    {
        self.mul(a).add(b)
    }

    /// Sine and cosine together.
    pub fn sin_cos(self) -> (r: (Self, Self))
        requires
            self.sin_dual().tangent_is_finite(),
            self.cos_dual().tangent_is_finite(),
        ensures
            r.0 == self.sin_dual(),
            r.1 == self.cos_dual(),
    {
        (self.sin(), self.cos())
    }

    /// The logarithm in base `base`: `ln(self) / ln(base)`.
    pub fn log(self, base: Self) -> (r: Self)
        requires
            self.ln_dual().tangent_is_finite(),
            base.ln_dual().tangent_is_finite(),
            Self::div_dual(self.ln_dual(), base.ln_dual()).tangent_is_finite(),
        ensures
            r == Self::div_dual(self.ln_dual(), base.ln_dual()),
    {
        self.ln().div(base.ln())
    }

    /// The remainder of the values, keeping the tangent of `self`.
    pub fn rem(self, rhs: Self) -> (r: Self)
        ensures
            r == <Self as RealScalar>::rem_spec(self, rhs),
    {
        Dual { re: self.re.rem(rhs.re), eps: self.eps }
    }

    pub fn rem_assign(&mut self, rhs: Self)
        ensures
            *final(self) == <Self as RealScalar>::rem_spec(*old(self), rhs),
    {
        *self = Dual::rem(*self, rhs);
    }

    /// Power with a dual exponent (a real dual number is its own complex form).
    pub fn powc(self, n: Self) -> (r: Self)
        requires
            self.powf_dual_spec(n).tangent_is_finite(),
        ensures
            r == self.powf_dual_spec(n),
    {
        self.powf_dual(n)
    }

    /// The modulus of a real number: its absolute value.
    pub fn modulus(self) -> (r: Self)
        ensures
            r == self.abs_dual(),
    {
        self.abs()
    }

    /// The one-norm of a real number: its absolute value.
    pub fn norm1(self) -> (r: Self)
        ensures
            r == self.abs_dual(),
    {
        self.abs()
    }

    /// `self * factor`.
    pub fn scale(self, factor: Self) -> (r: Self)
        ensures
            r == Self::mul_dual(self, factor),
    {
        self.mul(factor)
    }

    /// `self / factor`.
    pub fn unscale(self, factor: Self) -> (r: Self)
        requires
            Self::div_dual(self, factor).tangent_is_finite(),
        ensures
            r == Self::div_dual(self, factor),
    {
        self.div(factor)
    }

    /// A real number is its own conjugate.
    pub fn conjugate(self) -> (r: Self)
        ensures
            r == self,
    {
        self
    }

    /// A real number is its own real part.
    pub fn real_part(self) -> (r: Self)
        ensures
            r == self,
    {
        self
    }

    /// A real number has no imaginary part.
    pub fn imaginary(self) -> (r: Self)
        ensures
            r == Self::constant_spec(T::zero_spec()),
    {
        Self::from_re(T::zero())
    }

    /// The complex number of real part `re`: `re` itself.
    pub fn from_real(re: Self) -> (r: Self)
        ensures
            r == re,
    {
        re
    }

    /// `self += s` for a scalar `s`: only the value moves.
    pub fn add_assign_scalar(&mut self, s: T)
        ensures
            final(self).re == T::add_spec(old(self).re, s),
            final(self).eps == old(self).eps,
    {
        self.re = self.re.add(s);
    }

    /// `self -= s` for a scalar `s`: only the value moves.
    pub fn sub_assign_scalar(&mut self, s: T)
        ensures
            final(self).re == T::sub_spec(old(self).re, s),
            final(self).eps == old(self).eps,
    {
        self.re = self.re.sub(s);
    }

    /// `self *= s` for a scalar `s`: value and tangent scale.
    pub fn mul_assign_scalar(&mut self, s: T)
        ensures
            *final(self) == Self::build(T::mul_spec(old(self).re, s), |i: int| T::mul_spec(old(self).eps[i], s)),
    {
        *self = self.mul_scalar(s);
    }

    /// `self /= s` for a scalar `s`: value and tangent divide.
    pub fn div_assign_scalar(&mut self, s: T)
        requires
            Self::build(T::div_spec(old(self).re, s), |i: int| T::div_spec(old(self).eps[i], s)).tangent_is_finite(),
        ensures
            *final(self) == Self::build(T::div_spec(old(self).re, s), |i: int| T::div_spec(old(self).eps[i], s)),
    {
        *self = self.div_scalar(s);
    }
}

/// The fully-seeded dual lift of `x`: variable `i` has value `x[i]` and tangent `e_i`.
pub open spec fn seeded_spec<T: RealScalar, const N: usize>(x: [T; N]) -> [Dual<T, N>; N] {
    array_from_fn::<Dual<T, N>, N>(
        |i: int|
            Dual::<T, N>::build(
                x[i],
                |j: int|
                    if j == i {
                        T::one_spec()
                    } else {
                        T::zero_spec()
                    },
            ),
    )
}

/// Lifts a point into a fully-seeded dual input: variable `i` carries `e_i`.
pub fn seeded<T: RealScalar, const N: usize>(x: &[T; N]) -> (r: [Dual<T, N>; N])
    ensures
        r == seeded_spec(*x),
        forall|i: int|
            0 <= i < N ==> (#[trigger] r[i]).re == x[i] && forall|j: int|
                0 <= j < N ==> r[i].eps[j] == (if j == i {
                    T::one_spec()
                } else {
                    T::zero_spec()
                }),
{
    let z = Dual::<T, N>::from_re(T::zero());
    let mut r: [Dual<T, N>; N] = [z; N];
    let mut k: usize = 0;
    while k < N
        invariant
            0 <= k <= N,
            forall|i: int|
                0 <= i < k ==> (#[trigger] r[i]).re == x[i] && forall|j: int|
                    0 <= j < N ==> r[i].eps[j] == (if j == i {
                        T::one_spec()
                    } else {
                        T::zero_spec()
                    }),
        decreases N - k,
    {
        r[k] = Dual::seed(x[k], k);
        k += 1;
    }
    proof {
        let g = |i: int|
            Dual::<T, N>::build(
                x[i],
                |j: int|
                    if j == i {
                        T::one_spec()
                    } else {
                        T::zero_spec()
                    },
            );
        assert forall|i: int| 0 <= i < N implies r[i] == g(i) by {
            lemma_array_eq_from_fn(
                r[i].eps,
                |j: int|
                    if j == i {
                        T::one_spec()
                    } else {
                        T::zero_spec()
                    },
            );
        }
        lemma_array_eq_from_fn(r, g);
    }
    r
}

/// A single-tangent dual with value `re` and derivative `eps`.
pub fn dual_num<T: RealScalar>(re: T, eps: T) -> (r: Dual<T, 1>)
    ensures
        r.re == re,
        r.eps[0] == eps,
{
    Dual { re, eps: [eps] }
}

/// The `M x N` Jacobian read off an evaluated dual output: row `r` is the
/// tangent of output `r`.
pub open spec fn jacobian_of<T: RealScalar, const N: usize, const M: usize>(
    y: [Dual<T, N>; M],
) -> [[T; N]; M] {
    array_from_fn::<[T; N], M>(|i: int| y[i].eps)
}

/// The `M x N` Jacobian of an evaluated dual output (row `r` is the tangent
/// of output `r`).
pub fn jacobian<T: RealScalar, const N: usize, const M: usize>(y: &[Dual<T, N>; M]) -> (r: [[T; N]; M])
    ensures
        r == jacobian_of(*y),
        forall|i: int, j: int| 0 <= i < M && 0 <= j < N ==> #[trigger] r[i][j] == y[i].eps[j],
{
    let row: [T; N] = tangent::zeros();
    let mut r: [[T; N]; M] = [row; M];
    let mut k: usize = 0;
    while k < M
        invariant
            0 <= k <= M,
            forall|i: int| 0 <= i < k ==> r[i] == (#[trigger] y[i]).eps,
        decreases M - k,
    {
        r[k] = y[k].eps;
        k += 1;
    }
    proof {
        lemma_array_eq_from_fn(r, |i: int| y[i].eps);
    }
    r
}

/// The width-1 dual lift of `x` in direction `v`: variable `i` has value
/// `x[i]` and derivative `v[i]`.
pub open spec fn directional_spec<T: RealScalar, const N: usize>(x: [T; N], v: [T; N]) -> [Dual<T, 1>; N] {
    array_from_fn::<Dual<T, 1>, N>(|i: int| Dual::<T, 1>::build(x[i], |j: int| v[i]))
}

/// The value parts of dual outputs.
pub open spec fn values_of<T: RealScalar, const N: usize, const M: usize>(y: [Dual<T, N>; M]) -> [T; M] {
    array_from_fn::<T, M>(|i: int| y[i].re)
}

/// The single derivative of each width-1 dual output.
pub open spec fn first_tangents_of<T: RealScalar, const M: usize>(y: [Dual<T, 1>; M]) -> [T; M] {
    array_from_fn::<T, M>(|i: int| y[i].eps[0])
}

/// Lifts `x` in direction `v` to width-1 dual numbers.
pub fn directional<T: RealScalar, const N: usize>(x: &[T; N], v: &[T; N]) -> (r: [Dual<T, 1>; N])
    ensures
        r == directional_spec(*x, *v),
{
    let z = Dual::<T, 1>::from_re(T::zero());
    let mut r: [Dual<T, 1>; N] = [z; N];
    let mut k: usize = 0;
    while k < N
        invariant
            0 <= k <= N,
            forall|i: int| 0 <= i < k ==> (#[trigger] r[i]).re == x[i] && r[i].eps[0] == v[i],
        decreases N - k,
    {
        r[k] = Dual::new(x[k], [v[k]]);
        k += 1;
    }
    proof {
        let g = |i: int| Dual::<T, 1>::build(x[i], |j: int| v[i]);
        assert forall|i: int| 0 <= i < N implies r[i] == g(i) by {
            lemma_array_eq_from_fn(r[i].eps, |j: int| v[i]);
        }
        lemma_array_eq_from_fn(r, g);
    }
    r
}

/// The value (primal) part of an evaluated dual output.
pub fn values<T: RealScalar, const N: usize, const M: usize>(y: &[Dual<T, N>; M]) -> (r: [T; M])
    ensures
        r == values_of(*y),
{
    let mut r: [T; M] = tangent::zeros();
    let mut k: usize = 0;
    while k < M
        invariant
            0 <= k <= M,
            forall|i: int| 0 <= i < k ==> r[i] == (#[trigger] y[i]).re,
        decreases M - k,
    {
        r[k] = y[k].re;
        k += 1;
    }
    proof {
        lemma_array_eq_from_fn(r, |i: int| y[i].re);
    }
    r
}

/// The single derivative of each width-1 dual output.
pub fn first_tangents<T: RealScalar, const M: usize>(y: &[Dual<T, 1>; M]) -> (r: [T; M])
    ensures
        r == first_tangents_of(*y),
{
    let mut r: [T; M] = tangent::zeros();
    let mut k: usize = 0;
    while k < M
        invariant
            0 <= k <= M,
            forall|i: int| 0 <= i < k ==> r[i] == (#[trigger] y[i]).eps[0],
        decreases M - k,
    {
        r[k] = y[k].eps[0];
        k += 1;
    }
    proof {
        lemma_array_eq_from_fn(r, |i: int| y[i].eps[0]);
    }
    r
}

/// Evaluates `f` once on the fully-seeded dual lift of `x`, writing the value
/// into `y` and the whole `M x N` Jacobian into `jac`.
pub fn jacobian_mut<T: RealScalar, G: DiffFn<N, M>, const N: usize, const M: usize>(
    f: &G,
    x: &[T; N],
    y: &mut [T; M],
    jac: &mut [[T; N]; M],
)
    ensures
        *final(y) == values_of(f.eval_spec::<Dual<T, N>>(seeded_spec(*x))),
        *final(jac) == jacobian_of(f.eval_spec::<Dual<T, N>>(seeded_spec(*x))),
{
    let x_dual = seeded(x);
    let z = Dual::<T, N>::from_re(T::zero());
    let mut y_dual: [Dual<T, N>; M] = [z; M];
    f.eval::<Dual<T, N>>(&x_dual, &mut y_dual);
    *y = values(&y_dual);
    *jac = jacobian(&y_dual);
}

/// Evaluates `f` once on the width-1 dual lift of `x` in direction `v`,
/// writing the value into `y` and the directional derivative `J v` into `jvp`.
pub fn jvp_mut<T: RealScalar, G: DiffFn<N, M>, const N: usize, const M: usize>(
    f: &G,
    x: &[T; N],
    v: &[T; N],
    y: &mut [T; M],
    jvp: &mut [T; M],
)
    ensures
        *final(y) == values_of(f.eval_spec::<Dual<T, 1>>(directional_spec(*x, *v))),
        *final(jvp) == first_tangents_of(f.eval_spec::<Dual<T, 1>>(directional_spec(*x, *v))),
{
    let x_dual = directional(x, v);
    let z = Dual::<T, 1>::from_re(T::zero());
    let mut y_dual: [Dual<T, 1>; M] = [z; M];
    f.eval::<Dual<T, 1>>(&x_dual, &mut y_dual);
    *y = values(&y_dual);
    *jvp = first_tangents(&y_dual);
}

/// Dual arithmetic carries the plain computation in its value part: the value
/// of every arithmetic operation and elementary function on dual numbers is
/// the same operation on the values alone, the constants are the scalar's
/// constants with no derivative, and comparisons decide on the values alone.
/// (The selectors `abs`, `max` and `min` return one of their operands whole,
/// derivative included.)
pub proof fn lemma_dual_value_part<T: RealScalar, const N: usize>(a: Dual<T, N>, b: Dual<T, N>, n: i32, d: i32)
    ensures
        <Dual<T, N> as RealScalar>::zero_spec() == Dual::<T, N>::constant_spec(T::zero_spec()),
        <Dual<T, N> as RealScalar>::one_spec() == Dual::<T, N>::constant_spec(T::one_spec()),
        <Dual<T, N> as RealScalar>::from_i32_spec(n) == Dual::<T, N>::constant_spec(T::from_i32_spec(n)),
        <Dual<T, N> as RealScalar>::from_ratio_spec(n, d) == Dual::<T, N>::constant_spec(
            T::from_ratio_spec(n, d),
        ),
        <Dual<T, N> as RealScalar>::pi_spec() == Dual::<T, N>::constant_spec(T::pi_spec()),
        <Dual<T, N> as RealScalar>::add_spec(a, b).re == T::add_spec(a.re, b.re),
        <Dual<T, N> as RealScalar>::sub_spec(a, b).re == T::sub_spec(a.re, b.re),
        <Dual<T, N> as RealScalar>::mul_spec(a, b).re == T::mul_spec(a.re, b.re),
        <Dual<T, N> as RealScalar>::div_spec(a, b).re == T::div_spec(a.re, b.re),
        <Dual<T, N> as RealScalar>::neg_spec(a).re == T::neg_spec(a.re),
        <Dual<T, N> as RealScalar>::rem_spec(a, b).re == T::rem_spec(a.re, b.re),
        <Dual<T, N> as RealScalar>::sqrt_spec(a).re == T::sqrt_spec(a.re),
        <Dual<T, N> as RealScalar>::exp_spec(a).re == T::exp_spec(a.re),
        <Dual<T, N> as RealScalar>::ln_spec(a).re == T::ln_spec(a.re),
        <Dual<T, N> as RealScalar>::sin_spec(a).re == T::sin_spec(a.re),
        <Dual<T, N> as RealScalar>::cos_spec(a).re == T::cos_spec(a.re),
        <Dual<T, N> as RealScalar>::tan_spec(a).re == T::tan_spec(a.re),
        <Dual<T, N> as RealScalar>::asin_spec(a).re == T::asin_spec(a.re),
        <Dual<T, N> as RealScalar>::acos_spec(a).re == T::acos_spec(a.re),
        <Dual<T, N> as RealScalar>::atan_spec(a).re == T::atan_spec(a.re),
        <Dual<T, N> as RealScalar>::sinh_spec(a).re == T::sinh_spec(a.re),
        <Dual<T, N> as RealScalar>::cosh_spec(a).re == T::cosh_spec(a.re),
        <Dual<T, N> as RealScalar>::tanh_spec(a).re == T::tanh_spec(a.re),
        <Dual<T, N> as RealScalar>::asinh_spec(a).re == T::asinh_spec(a.re),
        <Dual<T, N> as RealScalar>::acosh_spec(a).re == T::acosh_spec(a.re),
        <Dual<T, N> as RealScalar>::atanh_spec(a).re == T::atanh_spec(a.re),
        <Dual<T, N> as RealScalar>::log2_spec(a).re == T::log2_spec(a.re),
        <Dual<T, N> as RealScalar>::log10_spec(a).re == T::log10_spec(a.re),
        <Dual<T, N> as RealScalar>::ln_1p_spec(a).re == T::ln_1p_spec(a.re),
        <Dual<T, N> as RealScalar>::exp_m1_spec(a).re == T::exp_m1_spec(a.re),
        <Dual<T, N> as RealScalar>::cbrt_spec(a).re == T::cbrt_spec(a.re),
        <Dual<T, N> as RealScalar>::exp2_spec(a).re == T::exp2_spec(a.re),
        <Dual<T, N> as RealScalar>::fract_spec(a).re == T::fract_spec(a.re),
        <Dual<T, N> as RealScalar>::floor_spec(a).re == T::floor_spec(a.re),
        <Dual<T, N> as RealScalar>::ceil_spec(a).re == T::ceil_spec(a.re),
        <Dual<T, N> as RealScalar>::round_spec(a).re == T::round_spec(a.re),
        <Dual<T, N> as RealScalar>::trunc_spec(a).re == T::trunc_spec(a.re),
        <Dual<T, N> as RealScalar>::atan2_spec(a, b).re == T::atan2_spec(a.re, b.re),
        <Dual<T, N> as RealScalar>::powi_spec(a, n).re == T::powi_spec(a.re, n),
        <Dual<T, N> as RealScalar>::powf_spec(a, b).re == T::powf_spec(a.re, b.re),
        <Dual<T, N> as RealScalar>::eq_spec(a, b) == T::eq_spec(a.re, b.re),
        <Dual<T, N> as RealScalar>::lt_spec(a, b) == T::lt_spec(a.re, b.re),
        <Dual<T, N> as RealScalar>::le_spec(a, b) == T::le_spec(a.re, b.re),
        <Dual<T, N> as RealScalar>::is_sign_positive_spec(a) == T::is_sign_positive_spec(a.re),
        <Dual<T, N> as RealScalar>::is_sign_negative_spec(a) == T::is_sign_negative_spec(a.re),
        <Dual<T, N> as RealScalar>::abs_spec(a) == a || <Dual<T, N> as RealScalar>::abs_spec(a)
            == <Dual<T, N> as RealScalar>::neg_spec(a),
        <Dual<T, N> as RealScalar>::max_spec(a, b) == a || <Dual<T, N> as RealScalar>::max_spec(a, b)
            == b,
        <Dual<T, N> as RealScalar>::min_spec(a, b) == a || <Dual<T, N> as RealScalar>::min_spec(a, b)
            == b,
{
}

/// A constant carries no derivative, and a seeded variable carries exactly
/// its unit direction: the value is kept and every other slot is zero.
pub proof fn lemma_constant_and_seed<T: RealScalar, const N: usize>(re: T, i: int, j: int)
    requires
        0 <= j < N,
    ensures
        Dual::<T, N>::constant_spec(re).re == re,
        Dual::<T, N>::constant_spec(re).eps[j] == T::zero_spec(),
        Dual::<T, N>::build(re, |k: int| if k == i { T::one_spec() } else { T::zero_spec() }).eps[j]
            == (if j == i { T::one_spec() } else { T::zero_spec() }),
{
    broadcast use crate::tangent::lemma_array_from_fn;
}

/// `asin + acos` is constant, so their derivatives cancel: on dual numbers
/// `asin` and `acos` carry the values `asin(x)` and `acos(x)` of the value
/// part `x`, and in every slot their tangents are the input's tangent times
/// `s = 1 / sqrt(1 - x^2)` for `asin` and times `-s` for `acos`.
pub proof fn lemma_acos_slope_negates_asin<T: RealScalar, const N: usize>(a: Dual<T, N>, i: int)
    requires
        0 <= i < N,
    ensures
        ({
            let s = T::div_spec(T::one_spec(), T::sqrt_spec(T::sub_spec(T::one_spec(), T::mul_spec(a.re, a.re))));
            &&& <Dual<T, N> as RealScalar>::asin_spec(a).re == T::asin_spec(a.re)
            &&& <Dual<T, N> as RealScalar>::acos_spec(a).re == T::acos_spec(a.re)
            &&& <Dual<T, N> as RealScalar>::asin_spec(a).eps[i] == T::mul_spec(a.eps[i], s)
            &&& <Dual<T, N> as RealScalar>::acos_spec(a).eps[i] == T::mul_spec(a.eps[i], T::neg_spec(s))
        }),
{
    broadcast use crate::tangent::lemma_array_from_fn;
}

/// The chain rule on dual numbers, slot by slot: the tangent of an
/// elementary function is the input's tangent times the function's
/// derivative at the value part `x`. Where the derivative is a function of
/// the result it is written through the result's value: `exp' = exp`,
/// `sin' = cos`, `cos' = -sin`, `sinh' = cosh`, `cosh' = sinh`,
/// `tanh' = 1 - tanh^2`, `sqrt' = 1 / (2 sqrt)`, `cbrt' = 1 / (3 cbrt^2)`,
/// `(2^x)' = 2^x ln 2`, `expm1' = exp`, `tan' = 1 / cos^2`; the logarithms
/// have `1 / x`, `1 / (1 + x)`, `1 / (x ln 2)`, `1 / (x ln 10)`; `atan`,
/// `asinh`, `acosh`, `atanh` have `1 / (1 + x^2)`, `1 / sqrt(x^2 + 1)`,
/// `1 / sqrt(x^2 - 1)`, `1 / (1 - x^2)`. The rounding functions are
/// constant (tangent zero) and the fractional part keeps the tangent.
pub proof fn lemma_derivative_table<T: RealScalar, const N: usize>(a: Dual<T, N>, i: int)
    requires
        0 <= i < N,
    ensures
        ({
            let x = a.re;
            let dx = a.eps[i];
            let one = T::one_spec();
            let e = <Dual<T, N> as RealScalar>::exp_spec(a).re;
            let s = <Dual<T, N> as RealScalar>::sqrt_spec(a).re;
            let c = <Dual<T, N> as RealScalar>::cbrt_spec(a).re;
            let t = <Dual<T, N> as RealScalar>::tanh_spec(a).re;
            let three = T::add_spec(T::add_spec(one, one), one);
            &&& <Dual<T, N> as RealScalar>::exp_spec(a).eps[i] == T::mul_spec(dx, e)
            &&& <Dual<T, N> as RealScalar>::exp_m1_spec(a).eps[i] == T::mul_spec(dx, e)
            &&& <Dual<T, N> as RealScalar>::exp2_spec(a).eps[i] == T::mul_spec(
                dx,
                T::mul_spec(<Dual<T, N> as RealScalar>::exp2_spec(a).re, T::ln_2_spec()),
            )
            &&& <Dual<T, N> as RealScalar>::sin_spec(a).eps[i] == T::mul_spec(
                dx,
                <Dual<T, N> as RealScalar>::cos_spec(a).re,
            )
            &&& <Dual<T, N> as RealScalar>::cos_spec(a).eps[i] == T::mul_spec(
                dx,
                T::neg_spec(<Dual<T, N> as RealScalar>::sin_spec(a).re),
            )
            &&& <Dual<T, N> as RealScalar>::tan_spec(a).eps[i] == T::mul_spec(
                dx,
                T::div_spec(
                    one,
                    T::mul_spec(<Dual<T, N> as RealScalar>::cos_spec(a).re, <Dual<T, N> as RealScalar>::cos_spec(a).re),
                ),
            )
            &&& <Dual<T, N> as RealScalar>::sinh_spec(a).eps[i] == T::mul_spec(
                dx,
                <Dual<T, N> as RealScalar>::cosh_spec(a).re,
            )
            &&& <Dual<T, N> as RealScalar>::cosh_spec(a).eps[i] == T::mul_spec(
                dx,
                <Dual<T, N> as RealScalar>::sinh_spec(a).re,
            )
            &&& <Dual<T, N> as RealScalar>::tanh_spec(a).eps[i] == T::mul_spec(dx, T::sub_spec(one, T::mul_spec(t, t)))
            &&& <Dual<T, N> as RealScalar>::sqrt_spec(a).eps[i] == T::mul_spec(dx, T::div_spec(one, T::add_spec(s, s)))
            &&& <Dual<T, N> as RealScalar>::cbrt_spec(a).eps[i] == T::mul_spec(
                dx,
                T::div_spec(one, T::mul_spec(T::mul_spec(three, c), c)),
            )
            &&& <Dual<T, N> as RealScalar>::ln_spec(a).eps[i] == T::mul_spec(dx, T::div_spec(one, x))
            &&& <Dual<T, N> as RealScalar>::ln_1p_spec(a).eps[i] == T::mul_spec(dx, T::div_spec(one, T::add_spec(one, x)))
            &&& <Dual<T, N> as RealScalar>::log2_spec(a).eps[i] == T::mul_spec(
                dx,
                T::div_spec(one, T::mul_spec(x, T::ln_2_spec())),
            )
            &&& <Dual<T, N> as RealScalar>::log10_spec(a).eps[i] == T::mul_spec(
                dx,
                T::div_spec(one, T::mul_spec(x, T::ln_10_spec())),
            )
            &&& <Dual<T, N> as RealScalar>::atan_spec(a).eps[i] == T::mul_spec(
                dx,
                T::div_spec(one, T::add_spec(one, T::mul_spec(x, x))),
            )
            &&& <Dual<T, N> as RealScalar>::asinh_spec(a).eps[i] == T::mul_spec(
                dx,
                T::div_spec(one, T::sqrt_spec(T::add_spec(T::mul_spec(x, x), one))),
            )
            &&& <Dual<T, N> as RealScalar>::acosh_spec(a).eps[i] == T::mul_spec(
                dx,
                T::div_spec(one, T::sqrt_spec(T::sub_spec(T::mul_spec(x, x), one))),
            )
            &&& <Dual<T, N> as RealScalar>::atanh_spec(a).eps[i] == T::mul_spec(
                dx,
                T::div_spec(one, T::sub_spec(one, T::mul_spec(x, x))),
            )
            &&& <Dual<T, N> as RealScalar>::floor_spec(a).eps[i] == T::zero_spec()
            &&& <Dual<T, N> as RealScalar>::ceil_spec(a).eps[i] == T::zero_spec()
            &&& <Dual<T, N> as RealScalar>::round_spec(a).eps[i] == T::zero_spec()
            &&& <Dual<T, N> as RealScalar>::trunc_spec(a).eps[i] == T::zero_spec()
            &&& <Dual<T, N> as RealScalar>::fract_spec(a).eps[i] == dx
        }),
{
    broadcast use crate::tangent::lemma_array_from_fn;
}

/// The rules of differentiation for the arithmetic on dual numbers, slot by
/// slot: sums and differences add and subtract tangents, negation negates
/// them, products follow the product rule `(u v)' = u' v + v' u`, quotients
/// the quotient rule `(u / v)' = (u' v - v' u) / v^2`, and
/// `atan2(y, x)' = (y' x - x' y) / (y^2 + x^2)`; a power with a dual
/// exponent has `(x^n)' = (n' ln x + x' n / x) x^n`.
pub proof fn lemma_arithmetic_rules<T: RealScalar, const N: usize>(u: Dual<T, N>, v: Dual<T, N>, i: int)
    requires
        0 <= i < N,
    ensures
        <Dual<T, N> as RealScalar>::add_spec(u, v).eps[i] == T::add_spec(u.eps[i], v.eps[i]),
        <Dual<T, N> as RealScalar>::sub_spec(u, v).eps[i] == T::sub_spec(u.eps[i], v.eps[i]),
        <Dual<T, N> as RealScalar>::neg_spec(u).eps[i] == T::neg_spec(u.eps[i]),
        <Dual<T, N> as RealScalar>::mul_spec(u, v).eps[i] == T::add_spec(
            T::mul_spec(u.eps[i], v.re),
            T::mul_spec(v.eps[i], u.re),
        ),
        <Dual<T, N> as RealScalar>::div_spec(u, v).eps[i] == T::div_spec(
            T::sub_spec(T::mul_spec(u.eps[i], v.re), T::mul_spec(v.eps[i], u.re)),
            T::mul_spec(v.re, v.re),
        ),
        <Dual<T, N> as RealScalar>::atan2_spec(u, v).eps[i] == T::div_spec(
            T::sub_spec(T::mul_spec(u.eps[i], v.re), T::mul_spec(v.eps[i], u.re)),
            T::add_spec(T::mul_spec(u.re, u.re), T::mul_spec(v.re, v.re)),
        ),
        <Dual<T, N> as RealScalar>::powf_spec(u, v).eps[i] == T::mul_spec(
            T::add_spec(T::mul_spec(v.eps[i], T::ln_spec(u.re)), T::mul_spec(u.eps[i], T::div_spec(v.re, u.re))),
            <Dual<T, N> as RealScalar>::powf_spec(u, v).re,
        ),
{
    broadcast use crate::tangent::lemma_array_from_fn;
}

} // verus!