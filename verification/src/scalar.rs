use vstd::prelude::*;

verus! {

/// The scalar field over which every computation of the library is written.
///
/// Each operation is given twice: as a spec function, the mathematical meaning
/// that a scalar type assigns to it, and as an executable method that computes
/// exactly that value. The library's contracts are stated over the spec
/// functions, so they hold for every scalar type that keeps this promise:
/// `Dual<T, N>` keeps it whenever `T` does, which is what lets dual numbers be
/// nested and used wherever a scalar is expected.
pub trait RealScalar: Copy + Sized {
    spec fn zero_spec() -> Self;

    spec fn one_spec() -> Self;

    /// The scalar that stands for the integer `n`.
    spec fn from_i32_spec(n: i32) -> Self;

    /// The scalar that stands for the ratio `n / d`.
    spec fn from_ratio_spec(n: i32, d: i32) -> Self;

    spec fn add_spec(a: Self, b: Self) -> Self;

    spec fn sub_spec(a: Self, b: Self) -> Self;

    spec fn mul_spec(a: Self, b: Self) -> Self;

    spec fn div_spec(a: Self, b: Self) -> Self;

    spec fn neg_spec(a: Self) -> Self;

    /// The remainder of `a / b`, with the sign of `a`.
    spec fn rem_spec(a: Self, b: Self) -> Self;

    /// `a == b` as the scalar type decides it.
    spec fn eq_spec(a: Self, b: Self) -> bool;

    /// `a < b`.
    spec fn lt_spec(a: Self, b: Self) -> bool;

    /// `a <= b`.
    spec fn le_spec(a: Self, b: Self) -> bool;

    spec fn abs_spec(a: Self) -> Self;

    spec fn max_spec(a: Self, b: Self) -> Self;

    spec fn min_spec(a: Self, b: Self) -> Self;

    spec fn sqrt_spec(a: Self) -> Self;

    spec fn exp_spec(a: Self) -> Self;

    spec fn ln_spec(a: Self) -> Self;

    spec fn sin_spec(a: Self) -> Self;

    spec fn cos_spec(a: Self) -> Self;

    spec fn tan_spec(a: Self) -> Self;

    spec fn asin_spec(a: Self) -> Self;

    spec fn acos_spec(a: Self) -> Self;

    spec fn atan_spec(a: Self) -> Self;

    spec fn sinh_spec(a: Self) -> Self;

    spec fn cosh_spec(a: Self) -> Self;

    spec fn tanh_spec(a: Self) -> Self;

    /// `atan2(y, x)`: the angle of the point `(x, y)`.
    spec fn atan2_spec(y: Self, x: Self) -> Self;

    spec fn powi_spec(a: Self, n: i32) -> Self;

    spec fn powf_spec(a: Self, p: Self) -> Self;

    /// The circle constant.
    spec fn pi_spec() -> Self;

    /// Whether the sign bit of `a` is clear.
    spec fn is_sign_positive_spec(a: Self) -> bool;

    spec fn asinh_spec(a: Self) -> Self;

    spec fn acosh_spec(a: Self) -> Self;

    spec fn atanh_spec(a: Self) -> Self;

    spec fn log2_spec(a: Self) -> Self;

    spec fn log10_spec(a: Self) -> Self;

    spec fn ln_1p_spec(a: Self) -> Self;

    spec fn cbrt_spec(a: Self) -> Self;

    spec fn exp2_spec(a: Self) -> Self;

    spec fn exp_m1_spec(a: Self) -> Self;

    spec fn floor_spec(a: Self) -> Self;

    spec fn ceil_spec(a: Self) -> Self;

    spec fn round_spec(a: Self) -> Self;

    spec fn trunc_spec(a: Self) -> Self;

    spec fn fract_spec(a: Self) -> Self;

    spec fn ln_2_spec() -> Self;

    spec fn ln_10_spec() -> Self;

    spec fn is_finite_spec(a: Self) -> bool;

    spec fn is_sign_negative_spec(a: Self) -> bool;

    /// Whether `a` is NaN (not a number).
    spec fn is_nan_spec(a: Self) -> bool;

    /// `<` is transitive, as `PartialOrd` requires of every implementation.
    proof fn lemma_lt_transitive(a: Self, b: Self, c: Self)
        requires
            Self::lt_spec(a, b),
            Self::lt_spec(b, c),
        ensures
            Self::lt_spec(a, c),
    ;

    /// Addition is commutative wherever the sum is a number (not NaN): IEEE
    /// 754 rounds the same exact sum either way, and the infinite cases agree.
    proof fn lemma_add_commutative(a: Self, b: Self)
        requires
            !Self::is_nan_spec(Self::add_spec(a, b)),
        ensures
            Self::add_spec(a, b) == Self::add_spec(b, a),
    ;

    /// Multiplication is commutative wherever the product is a number.
    proof fn lemma_mul_commutative(a: Self, b: Self)
        requires
            !Self::is_nan_spec(Self::mul_spec(a, b)),
        ensures
            Self::mul_spec(a, b) == Self::mul_spec(b, a),
    ;

    /// A sum that is a number has operands that are numbers (NaN propagates).
    proof fn lemma_add_not_nan(a: Self, b: Self)
        requires
            !Self::is_nan_spec(Self::add_spec(a, b)),
        ensures
            !Self::is_nan_spec(a),
            !Self::is_nan_spec(b),
    ;

    /// A difference that is a number has operands that are numbers.
    proof fn lemma_sub_not_nan(a: Self, b: Self)
        requires
            !Self::is_nan_spec(Self::sub_spec(a, b)),
        ensures
            !Self::is_nan_spec(a),
            !Self::is_nan_spec(b),
    ;

    /// A product that is a number has operands that are numbers.
    proof fn lemma_mul_not_nan(a: Self, b: Self)
        requires
            !Self::is_nan_spec(Self::mul_spec(a, b)),
        ensures
            !Self::is_nan_spec(a),
            !Self::is_nan_spec(b),
    ;

    fn zero() -> (r: Self)
        ensures
            r == Self::zero_spec(),
    ;

    fn one() -> (r: Self)
        ensures
            r == Self::one_spec(),
    ;

    fn from_i32(n: i32) -> (r: Self)
        ensures
            r == Self::from_i32_spec(n),
    ;

    fn from_ratio(n: i32, d: i32) -> (r: Self)
        requires
            d != 0,
        ensures
            r == Self::from_ratio_spec(n, d),
    ;

    fn add(self, rhs: Self) -> (r: Self)
        ensures
            r == Self::add_spec(self, rhs),
    ;

    fn sub(self, rhs: Self) -> (r: Self)
        ensures
            r == Self::sub_spec(self, rhs),
    ;

    fn mul(self, rhs: Self) -> (r: Self)
        ensures
            r == Self::mul_spec(self, rhs),
    ;

    fn div(self, rhs: Self) -> (r: Self)
        ensures
            r == Self::div_spec(self, rhs),
    ;

    fn neg(self) -> (r: Self)
        ensures
            r == Self::neg_spec(self),
    ;

    fn rem(self, rhs: Self) -> (r: Self)
        ensures
            r == Self::rem_spec(self, rhs),
    ;

    fn eq(self, rhs: Self) -> (r: bool)
        ensures
            r == Self::eq_spec(self, rhs),
    ;

    fn lt(self, rhs: Self) -> (r: bool)
        ensures
            r == Self::lt_spec(self, rhs),
    ;

    fn le(self, rhs: Self) -> (r: bool)
        ensures
            r == Self::le_spec(self, rhs),
    ;

    fn abs(self) -> (r: Self)
        ensures
            r == Self::abs_spec(self),
    ;

    fn max(self, rhs: Self) -> (r: Self)
        ensures
            r == Self::max_spec(self, rhs),
    ;

    fn min(self, rhs: Self) -> (r: Self)
        ensures
            r == Self::min_spec(self, rhs),
    ;

    fn sqrt(self) -> (r: Self)
        ensures
            r == Self::sqrt_spec(self),
    ;

    fn exp(self) -> (r: Self)
        ensures
            r == Self::exp_spec(self),
    ;

    fn ln(self) -> (r: Self)
        ensures
            r == Self::ln_spec(self),
    ;

    fn sin(self) -> (r: Self)
        ensures
            r == Self::sin_spec(self),
    ;

    fn cos(self) -> (r: Self)
        ensures
            r == Self::cos_spec(self),
    ;

    fn tan(self) -> (r: Self)
        ensures
            r == Self::tan_spec(self),
    ;

    fn asin(self) -> (r: Self)
        ensures
            r == Self::asin_spec(self),
    ;

    fn acos(self) -> (r: Self)
        ensures
            r == Self::acos_spec(self),
    ;

    fn atan(self) -> (r: Self)
        ensures
            r == Self::atan_spec(self),
    ;

    fn sinh(self) -> (r: Self)
        ensures
            r == Self::sinh_spec(self),
    ;

    fn cosh(self) -> (r: Self)
        ensures
            r == Self::cosh_spec(self),
    ;

    fn tanh(self) -> (r: Self)
        ensures
            r == Self::tanh_spec(self),
    ;

    fn atan2(self, x: Self) -> (r: Self)
        ensures
            r == Self::atan2_spec(self, x),
    ;

    fn powi(self, n: i32) -> (r: Self)
        ensures
            r == Self::powi_spec(self, n),
    ;

    fn powf(self, p: Self) -> (r: Self)
        ensures
            r == Self::powf_spec(self, p),
    ;

    fn pi() -> (r: Self)
        ensures
            r == Self::pi_spec(),
    ;

    fn is_sign_positive(self) -> (r: bool)
        ensures
            r == Self::is_sign_positive_spec(self),
    ;

    fn asinh(self) -> (r: Self)
        ensures
            r == Self::asinh_spec(self),
    ;

    fn acosh(self) -> (r: Self)
        ensures
            r == Self::acosh_spec(self),
    ;

    fn atanh(self) -> (r: Self)
        ensures
            r == Self::atanh_spec(self),
    ;

    fn log2(self) -> (r: Self)
        ensures
            r == Self::log2_spec(self),
    ;

    fn log10(self) -> (r: Self)
        ensures
            r == Self::log10_spec(self),
    ;

    fn ln_1p(self) -> (r: Self)
        ensures
            r == Self::ln_1p_spec(self),
    ;

    fn cbrt(self) -> (r: Self)
        ensures
            r == Self::cbrt_spec(self),
    ;

    fn exp2(self) -> (r: Self)
        ensures
            r == Self::exp2_spec(self),
    ;

    fn exp_m1(self) -> (r: Self)
        ensures
            r == Self::exp_m1_spec(self),
    ;

    fn floor(self) -> (r: Self)
        ensures
            r == Self::floor_spec(self),
    ;

    fn ceil(self) -> (r: Self)
        ensures
            r == Self::ceil_spec(self),
    ;

    fn round(self) -> (r: Self)
        ensures
            r == Self::round_spec(self),
    ;

    fn trunc(self) -> (r: Self)
        ensures
            r == Self::trunc_spec(self),
    ;

    fn fract(self) -> (r: Self)
        ensures
            r == Self::fract_spec(self),
    ;

    fn ln_2() -> (r: Self)
        ensures
            r == Self::ln_2_spec(),
    ;

    fn ln_10() -> (r: Self)
        ensures
            r == Self::ln_10_spec(),
    ;

    fn is_finite(self) -> (r: bool)
        ensures
            r == Self::is_finite_spec(self),
    ;

    fn is_sign_negative(self) -> (r: bool)
        ensures
            r == Self::is_sign_negative_spec(self),
    ;
}

/// The dense linear algebra a scalar type supplies for `D x D` systems: a
/// general inverse and the Cholesky-based inverse and solve of symmetric
/// positive-definite matrices.
///
/// `None` means the decomposition failed (a singular matrix, or one that is
/// not positive definite); the spec functions name what the scalar type
/// returns, which the filter and the solver are verified against.
pub trait LinearSolve<const D: usize>: RealScalar {
    spec fn try_inverse_spec(m: [[Self; D]; D]) -> Option<[[Self; D]; D]>;

    spec fn cholesky_inverse_spec(m: [[Self; D]; D]) -> Option<[[Self; D]; D]>;

    spec fn cholesky_solve_spec(m: [[Self; D]; D], b: [Self; D]) -> Option<[Self; D]>;

    /// The inverse of `m`, if it has one.
    fn try_inverse(m: &[[Self; D]; D]) -> (r: Option<[[Self; D]; D]>)
        ensures
            r == Self::try_inverse_spec(*m),
    ;

    /// The inverse of `m` through its Cholesky factor, if the factorization succeeds.
    fn cholesky_inverse(m: &[[Self; D]; D]) -> (r: Option<[[Self; D]; D]>)
        ensures
            r == Self::cholesky_inverse_spec(*m),
    ;

    /// The solution `x` of `m x = b` through the Cholesky factor of `m`, if the
    /// factorization succeeds.
    fn cholesky_solve(m: &[[Self; D]; D], b: &[Self; D]) -> (r: Option<[Self; D]>)
        ensures
            r == Self::cholesky_solve_spec(*m, *b),
    ;
}

} // verus!
