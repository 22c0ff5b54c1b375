//! Rotation and rigid-motion groups in matrix form, as manifolds with a
//! box-plus / box-minus structure and a vector transport that differentiates
//! by dual numbers.
use vstd::prelude::*;
use crate::scalar::RealScalar;
use crate::dual::Dual;
use crate::linalg::{
    dot, dot_spec, identity, identity_spec, mat_add, mat_add_spec, mat_mul, mat_mul_spec, mat_scale,
    mat_scale_spec, mat_sub, mat_sub_spec, mat_vec, mat_vec_spec, transpose, transpose_spec, norm,
    norm_spec, normalize, normalize_spec, concat, concat_spec, segment, segment_spec,
};
use crate::tangent;
use crate::tangent::{add_spec, array_from_fn, neg_spec, scale_spec, sub_spec};

verus! {

/// The cross product `a x b`.
pub open spec fn cross_spec<T: RealScalar>(a: [T; 3], b: [T; 3]) -> [T; 3] {
    [
        T::sub_spec(T::mul_spec(a[1], b[2]), T::mul_spec(a[2], b[1])),
        T::sub_spec(T::mul_spec(a[2], b[0]), T::mul_spec(a[0], b[2])),
        T::sub_spec(T::mul_spec(a[0], b[1]), T::mul_spec(a[1], b[0])),
    ]
}

/// The cross product `a x b`.
pub fn cross<T: RealScalar>(a: &[T; 3], b: &[T; 3]) -> (r: [T; 3])
    ensures
        r == cross_spec(*a, *b),
{
    [
        a[1].mul(b[2]).sub(a[2].mul(b[1])),
        a[2].mul(b[0]).sub(a[0].mul(b[2])),
        a[0].mul(b[1]).sub(a[1].mul(b[0])),
    ]
}

/// The skew-symmetric matrix `[w]x` with `[w]x v = w x v`.
pub open spec fn skew_spec<T: RealScalar>(w: [T; 3]) -> [[T; 3]; 3] {
    [
        [T::zero_spec(), T::neg_spec(w[2]), w[1]],
        [w[2], T::zero_spec(), T::neg_spec(w[0])],
        [T::neg_spec(w[1]), w[0], T::zero_spec()],
    ]
}

/// A manifold with a box-plus / box-minus structure on `DIM`-dimensional
/// tangent vectors, and a vector transport along a tangent step.
pub trait Manifold<U: RealScalar, const DIM: usize>: Sized {
    type Tangent;

    spec fn box_plus_spec(&self, delta: Self::Tangent) -> Self;

    spec fn box_minus_spec(&self, other: Self) -> Self::Tangent;

    spec fn tangent_to_vector_spec(t: Self::Tangent) -> [U; DIM];

    spec fn vector_to_tangent_spec(v: [U; DIM]) -> Self::Tangent;

    /// `x ⊞ δ`.
    fn box_plus(&self, delta: &Self::Tangent) -> (r: Self)
        ensures
            r == self.box_plus_spec(*delta),
    ;

    /// `x ⊟ y`.
    fn box_minus(&self, other: &Self) -> (r: Self::Tangent)
        ensures
            r == self.box_minus_spec(*other),
    ;

    fn tangent_to_vector(t: &Self::Tangent) -> (r: [U; DIM])
        ensures
            r == Self::tangent_to_vector_spec(*t),
    ;

    fn vector_to_tangent(v: &[U; DIM]) -> (r: Self::Tangent)
        ensures
            r == Self::vector_to_tangent_spec(*v),
    ;
}

/// The transport of tangent coordinates along a tangent step, over the
/// scalar `T` (dual numbers included, which is how its derivative is taken).
pub trait VectorTransport<T, const DIM: usize> {
    spec fn vector_transport_spec(&self, v: [T; DIM], delta: [T; DIM]) -> [T; DIM];

    fn vector_transport(&self, v: &[T; DIM], delta: &[T; DIM]) -> (r: [T; DIM])
        ensures
            r == self.vector_transport_spec(*v, *delta),
    ;
}

/// The coordinates `v` lifted to constant dual numbers.
pub open spec fn constant_lift_spec<U: RealScalar, const DIM: usize>(v: [U; DIM]) -> [Dual<U, DIM>; DIM] {
    array_from_fn::<Dual<U, DIM>, DIM>(|i: int| Dual::<U, DIM>::constant_spec(v[i]))
}

/// The coordinates `delta` lifted to dual numbers that all carry the unit
/// tangent direction `j`.
pub open spec fn direction_lift_spec<U: RealScalar, const DIM: usize>(delta: [U; DIM], j: int) -> [Dual<U, DIM>; DIM] {
    array_from_fn::<Dual<U, DIM>, DIM>(
        |i: int|
            Dual::<U, DIM>::build(
                delta[i],
                |k: int|
                    if k == j {
                        U::one_spec()
                    } else {
                        U::zero_spec()
                    },
            ),
    )
}

/// The matrix read off the dual evaluations of the transport of `v` along
/// `delta`: column `j` is the `j`-th derivative slot of the transport when
/// `v` is held constant and every coordinate of `delta` carries direction
/// `j`, that is the derivative of the transport as `delta` moves along
/// `(1, ..., 1)` (the row sums of its Jacobian in `delta`), the same for every
/// column.
pub open spec fn transport_matrix_spec<
    U: RealScalar,
    M: Manifold<U, DIM> + VectorTransport<Dual<U, DIM>, DIM>,
    const DIM: usize,
>(
    m: M,
    v: [U; DIM],
    delta: [U; DIM],
) -> [[U; DIM]; DIM] {
    array_from_fn::<[U; DIM], DIM>(
        |i: int|
            array_from_fn::<U, DIM>(
                |j: int|
                    m.vector_transport_spec(
                        constant_lift_spec(v),
                        direction_lift_spec(delta, j),
                    )[i].eps[j],
            ),
    )
}

/// The coordinates `v` lifted to constant dual numbers.
pub fn constant_lift<U: RealScalar, const DIM: usize>(v: &[U; DIM]) -> (r: [Dual<U, DIM>; DIM])
    ensures
        r == constant_lift_spec(*v),
{
    let z = Dual::<U, DIM>::from_re(U::zero());
    let mut r: [Dual<U, DIM>; DIM] = [z; DIM];
    let mut i: usize = 0;
    while i < DIM
        invariant
            0 <= i <= DIM,
            forall|k: int| 0 <= k < i ==> #[trigger] r[k] == Dual::<U, DIM>::constant_spec(v[k]),
        decreases DIM - i,
    {
        r[i] = Dual::from_re(v[i]);
        i += 1;
    }
    proof {
        tangent::lemma_array_eq_from_fn(r, |k: int| Dual::<U, DIM>::constant_spec(v[k]));
    }
    r
}

/// The coordinates `delta` lifted to dual numbers carrying direction `j`.
pub fn direction_lift<U: RealScalar, const DIM: usize>(delta: &[U; DIM], j: usize) -> (r: [Dual<U, DIM>; DIM])
    requires
        j < DIM,
    ensures
        r == direction_lift_spec(*delta, j as int),
{
    let z = Dual::<U, DIM>::from_re(U::zero());
    let mut r: [Dual<U, DIM>; DIM] = [z; DIM];
    let mut i: usize = 0;
    while i < DIM
        invariant
            0 <= i <= DIM,
            j < DIM,
            forall|k: int| 0 <= k < i ==> #[trigger] r[k] == direction_lift_spec(*delta, j as int)[k],
        decreases DIM - i,
    {
        let d = Dual::<U, DIM>::seed(delta[i], j);
        proof {
            broadcast use crate::tangent::lemma_array_from_fn;

            assert(d.eps =~= direction_lift_spec(*delta, j as int)[i as int].eps);
            assert(d == direction_lift_spec(*delta, j as int)[i as int]);
        }
        r[i] = d;
        i += 1;
    }
    proof {
        assert(r =~= direction_lift_spec(*delta, j as int));
    }
    r
}

/// The matrix read off the dual evaluations of the transport: column `j` is
/// read off one dual evaluation in which `v` is held constant and every
/// coordinate of `delta` carries the tangent direction `j`, so each column is
/// the derivative of the transport as `delta` moves along `(1, ..., 1)`.
pub fn transport_matrix<
    U: RealScalar,
    M: Manifold<U, DIM> + VectorTransport<Dual<U, DIM>, DIM>,
    const DIM: usize,
>(
    m: &M,
    v: &M::Tangent,
    delta: &M::Tangent,
) -> (r: [[U; DIM]; DIM])
    ensures
        r == transport_matrix_spec(
            *m,
            M::tangent_to_vector_spec(*v),
            M::tangent_to_vector_spec(*delta),
        ),
{
    let delta_vec = M::tangent_to_vector(delta);
    let v_vec = M::tangent_to_vector(v);
    let mut matrix: [[U; DIM]; DIM] = crate::linalg::zeros_mat();
    let mut j: usize = 0;
    while j < DIM
        invariant
            0 <= j <= DIM,
            delta_vec == M::tangent_to_vector_spec(*delta),
            v_vec == M::tangent_to_vector_spec(*v),
            forall|a: int, b: int|
                0 <= a < DIM && 0 <= b < DIM ==> #[trigger] matrix[a][b] == (if b < j {
                    transport_matrix_spec(*m, v_vec, delta_vec)[a][b]
                } else {
                    U::zero_spec()
                }),
        decreases DIM - j,
    {
        let v_dual = constant_lift(&v_vec);
        let delta_dual = direction_lift(&delta_vec, j);
        let transported = m.vector_transport(&v_dual, &delta_dual);
        let mut i: usize = 0;
        while i < DIM
            invariant
                0 <= i <= DIM,
                0 <= j < DIM,
                transported == m.vector_transport_spec(
                    constant_lift_spec(v_vec),
                    direction_lift_spec(delta_vec, j as int),
                ),
                forall|a: int, b: int|
                    0 <= a < DIM && 0 <= b < DIM ==> #[trigger] matrix[a][b] == (if b < j || (b
                        == j && a < i) {
                        transport_matrix_spec(*m, v_vec, delta_vec)[a][b]
                    } else {
                        U::zero_spec()
                    }),
            decreases DIM - i,
        {
            proof {
                broadcast use crate::tangent::lemma_array_from_fn;

            }
            let mut row = matrix[i];
            row[j] = transported[i].eps[j];
            matrix[i] = row;
            i += 1;
        }
        j += 1;
    }
    proof {
        crate::linalg::lemma_mat_eq(matrix, transport_matrix_spec(*m, v_vec, delta_vec));
    }
    matrix
}

/// A manifold whose points are kept in a normalized form (such as an
/// orthonormal rotation matrix), restored by `normalize_in_place`.
pub trait ProjectiveManifold: Sized {
    /// The normalized form of `self`.
    spec fn normalized_spec(&self) -> Self;

    fn normalize_in_place(&mut self)
        ensures
            *final(self) == old(self).normalized_spec(),
    ;
}

/// A tangent vector of SO(3): the rotation vector `w` (axis times angle).
#[derive(Clone, Copy)]
pub struct TangentSO3<T> {
    pub vec: [T; 3],
}

impl<T> TangentSO3<T> {
    pub fn new(vec: [T; 3]) -> (r: Self)
        ensures
            r.vec == vec,
    {
        TangentSO3 { vec }
    }
}

/// A rotation of space as a 3 x 3 rotation matrix.
#[derive(Clone, Copy)]
pub struct SO3<T> {
    pub rot: [[T; 3]; 3],
}

impl<T> SO3<T> {
    pub fn new(rot: [[T; 3]; 3]) -> (r: Self)
        ensures
            r.rot == rot,
    {
        SO3 { rot }
    }
}

/// `m` with its columns replaced by `c0`, `c1`, `c2`.
pub open spec fn from_columns_spec<T>(c0: [T; 3], c1: [T; 3], c2: [T; 3]) -> [[T; 3]; 3] {
    [[c0[0], c1[0], c2[0]], [c0[1], c1[1], c2[1]], [c0[2], c1[2], c2[2]]]
}

/// Column `j` of a 3 x 3 matrix.
pub open spec fn col3<T>(m: [[T; 3]; 3], j: int) -> [T; 3] {
    [m[0][j], m[1][j], m[2][j]]
}

/// The Gram-Schmidt re-orthonormalization of the columns of `m`: the first
/// column normalized, the second made orthogonal to it and normalized, the
/// third their cross product.
pub open spec fn gram_schmidt_spec<T: RealScalar>(m: [[T; 3]; 3]) -> [[T; 3]; 3] {
    let c1 = normalize_spec(col3(m, 0));
    let c2_raw = col3(m, 1);
    let c2 = normalize_spec(sub_spec(c2_raw, scale_spec(c1, dot_spec(c1, c2_raw))));
    let c3 = cross_spec(c1, c2);
    from_columns_spec(c1, c2, c3)
}

/// The Rodrigues rotation matrix of the rotation vector `w`:
/// `I + [w]x a + [w]x^2 b` with `a = sin θ / θ`, `b = (1 - cos θ) / θ^2`,
/// or their Taylor forms `1 - θ^2 / 6` and `1/2 - θ^2 / 24` when
/// `θ = |w| < 10^-6`.
pub open spec fn rodrigues_spec<T: RealScalar>(w: [T; 3]) -> [[T; 3]; 3] {
    let theta = norm_spec(w);
    let theta2 = T::mul_spec(theta, theta);
    let a = if T::lt_spec(theta, T::from_ratio_spec(1, 1000000)) {
        T::sub_spec(T::one_spec(), T::div_spec(theta2, T::from_i32_spec(6)))
    } else {
        T::div_spec(T::sin_spec(theta), theta)
    };
    let b = if T::lt_spec(theta, T::from_ratio_spec(1, 1000000)) {
        T::sub_spec(T::from_ratio_spec(1, 2), T::div_spec(theta2, T::from_i32_spec(24)))
    } else {
        T::div_spec(T::sub_spec(T::one_spec(), T::cos_spec(theta)), theta2)
    };
    let skew = skew_spec(w);
    mat_add_spec(
        mat_add_spec(identity_spec::<T, 3, 3>(), mat_scale_spec(skew, a)),
        mat_scale_spec(mat_mul_spec(skew, skew), b),
    )
}

/// The rotation axis of a rotation by (nearly) `π`, read from the largest
/// diagonal entry of `m`, scaled to unit length and then by `theta`.
pub open spec fn half_turn_axis_spec<T: RealScalar>(m: [[T; 3]; 3], theta: T) -> [T; 3] {
    let one = T::one_spec();
    let two = T::from_i32_spec(2);
    let half = T::from_ratio_spec(1, 2);
    let xx = T::mul_spec(T::add_spec(m[0][0], one), half);
    let yy = T::mul_spec(T::add_spec(m[1][1], one), half);
    let zz = T::mul_spec(T::add_spec(m[2][2], one), half);
    let axis = if T::le_spec(yy, xx) && T::le_spec(zz, xx) {
        let x = T::sqrt_spec(xx);
        [x, T::div_spec(m[0][1], T::mul_spec(two, x)), T::div_spec(m[0][2], T::mul_spec(two, x))]
    } else if T::le_spec(zz, yy) {
        let y = T::sqrt_spec(yy);
        [T::div_spec(m[0][1], T::mul_spec(two, y)), y, T::div_spec(m[1][2], T::mul_spec(two, y))]
    } else {
        let z = T::sqrt_spec(zz);
        [T::div_spec(m[0][2], T::mul_spec(two, z)), T::div_spec(m[1][2], T::mul_spec(two, z)), z]
    };
    scale_spec(scale_spec(axis, T::div_spec(one, norm_spec(axis))), theta)
}

/// The rotation vector of the rotation matrix `m`: angle `θ = acos((tr m - 1)
/// / 2)` (the cosine clamped to `[-1, 1]`) and axis from the skew part
/// `v = (m - m^T)∨`: `v / 2` when `|θ| < 10^-8`, the axis from the diagonal
/// when `|π - θ| < 10^-8`, else `v θ / (2 sin θ)`.
pub open spec fn log_map_spec<T: RealScalar>(m: [[T; 3]; 3]) -> [T; 3] {
    let one = T::one_spec();
    let two = T::from_i32_spec(2);
    let half = T::from_ratio_spec(1, 2);
    let eps = T::from_ratio_spec(1, 100000000);
    let trace = T::add_spec(T::add_spec(m[0][0], m[1][1]), m[2][2]);
    let raw_cos = T::mul_spec(T::sub_spec(trace, one), half);
    let cos_theta = if T::lt_spec(one, raw_cos) {
        one
    } else if T::lt_spec(raw_cos, T::neg_spec(one)) {
        T::neg_spec(one)
    } else {
        raw_cos
    };
    let theta = T::acos_spec(cos_theta);
    let vee = [
        T::sub_spec(m[2][1], m[1][2]),
        T::sub_spec(m[0][2], m[2][0]),
        T::sub_spec(m[1][0], m[0][1]),
    ];
    if T::lt_spec(T::abs_spec(theta), eps) {
        scale_spec(vee, half)
    } else if T::lt_spec(T::abs_spec(T::sub_spec(T::pi_spec(), theta)), eps) {
        half_turn_axis_spec(m, theta)
    } else {
        scale_spec(vee, T::div_spec(theta, T::mul_spec(two, T::sin_spec(theta))))
    }
}

impl<T: RealScalar> ProjectiveManifold for SO3<T> {
    open spec fn normalized_spec(&self) -> Self {
        SO3 { rot: gram_schmidt_spec(self.rot) }
    }

    fn normalize_in_place(&mut self) {
        let m = self.rot;
        let c1 = normalize(&[m[0][0], m[1][0], m[2][0]]);
        let c2_raw = [m[0][1], m[1][1], m[2][1]];
        let c2 = normalize(&tangent::sub(&c2_raw, &tangent::scale(&c1, dot(&c1, &c2_raw))));
        let c3 = cross(&c1, &c2);
        proof {
            assert(col3(m, 0) =~= [m[0][0], m[1][0], m[2][0]]);
            assert(col3(m, 1) =~= c2_raw);
        }
        self.rot = [[c1[0], c2[0], c3[0]], [c1[1], c2[1], c3[1]], [c1[2], c2[2], c3[2]]];
    }
}

impl<T: RealScalar> SO3<T> {
    /// The skew-symmetric matrix of a rotation vector.
    pub fn skew(w: &TangentSO3<T>) -> (r: [[T; 3]; 3])
        ensures
            r == skew_spec(w.vec),
    {
        let w = w.vec;
        let z = T::zero();
        [[z, w[2].neg(), w[1]], [w[2], z, w[0].neg()], [w[1].neg(), w[0], z]]
    }

    /// The Rodrigues rotation matrix of a rotation vector.
    pub fn rodrigues(delta: &TangentSO3<T>) -> (r: [[T; 3]; 3])
        ensures
            r == rodrigues_spec(delta.vec),
    {
        let w = delta.vec;
        let theta = norm(&w);
        let theta2 = theta.mul(theta);
        let (sin_t_over_t, one_minus_cos_t_over_t2) = if theta.lt(T::from_ratio(1, 1000000)) {
            (
                T::one().sub(theta2.div(T::from_i32(6))),
                T::from_ratio(1, 2).sub(theta2.div(T::from_i32(24))),
            )
        } else {
            (theta.sin().div(theta), T::one().sub(theta.cos()).div(theta2))
        };
        let skew = Self::skew(delta);
        let id: [[T; 3]; 3] = identity();
        mat_add(
            &mat_add(&id, &mat_scale(&skew, sin_t_over_t)),
            &mat_scale(&mat_mul(&skew, &skew), one_minus_cos_t_over_t2),
        )
    }

    /// The rotation vector (Lie logarithm) of this rotation.
    pub fn log_map(&self) -> (r: TangentSO3<T>)
        ensures
            r.vec == log_map_spec(self.rot),
    {
        let m = self.rot;
        let one = T::one();
        let two = T::from_i32(2);
        let half = T::from_ratio(1, 2);
        let eps = T::from_ratio(1, 100000000);
        let pi = T::pi();
        let trace = m[0][0].add(m[1][1]).add(m[2][2]);
        let mut cos_theta = trace.sub(one).mul(half);
        if one.lt(cos_theta) {
            cos_theta = one;
        } else if cos_theta.lt(one.neg()) {
            cos_theta = one.neg();
        }
        let theta = cos_theta.acos();
        let vee = [m[2][1].sub(m[1][2]), m[0][2].sub(m[2][0]), m[1][0].sub(m[0][1])];
        let w = if theta.abs().lt(eps) {
            tangent::scale(&vee, half)
        } else if pi.sub(theta).abs().lt(eps) {
            let xx = m[0][0].add(one).mul(half);
            let yy = m[1][1].add(one).mul(half);
            let zz = m[2][2].add(one).mul(half);
            let axis = if yy.le(xx) && zz.le(xx) {
                let x = xx.sqrt();
                [x, m[0][1].div(two.mul(x)), m[0][2].div(two.mul(x))]
            } else if zz.le(yy) {
                let y = yy.sqrt();
                [m[0][1].div(two.mul(y)), y, m[1][2].div(two.mul(y))]
            } else {
                let z = zz.sqrt();
                [m[0][2].div(two.mul(z)), m[1][2].div(two.mul(z)), z]
            };
            let unit = tangent::scale(&axis, one.div(norm(&axis)));
            tangent::scale(&unit, theta)
        } else {
            let scale = theta.div(two.mul(theta.sin()));
            tangent::scale(&vee, scale)
        };
        TangentSO3 { vec: w }
    }

    /// The rotation of a rotation vector (Lie exponential).
    pub fn exp_map(delta: &TangentSO3<T>) -> (r: Self)
        ensures
            r.rot == rodrigues_spec(delta.vec),
    {
        SO3 { rot: Self::rodrigues(delta) }
    }

    /// The inverse rotation: the transpose.
    pub fn inverse(&self) -> (r: Self)
        ensures
            r.rot == transpose_spec(self.rot),
    {
        SO3 { rot: transpose(&self.rot) }
    }

    /// The composition `self ∘ rhs`: the matrix product.
    pub fn compose(&self, rhs: &Self) -> (r: Self)
        ensures
            r.rot == mat_mul_spec(self.rot, rhs.rot),
    {
        SO3 { rot: mat_mul(&self.rot, &rhs.rot) }
    }
}

impl<U: RealScalar> Manifold<U, 3> for SO3<U> {
    type Tangent = TangentSO3<U>;

    /// `R Exp(δ)`.
    open spec fn box_plus_spec(&self, delta: TangentSO3<U>) -> Self {
        SO3 { rot: mat_mul_spec(self.rot, rodrigues_spec(delta.vec)) }
    }

    /// `Log(R_other^T R)`.
    open spec fn box_minus_spec(&self, other: Self) -> TangentSO3<U> {
        TangentSO3 { vec: log_map_spec(mat_mul_spec(transpose_spec(other.rot), self.rot)) }
    }

    open spec fn tangent_to_vector_spec(t: TangentSO3<U>) -> [U; 3] {
        t.vec
    }

    open spec fn vector_to_tangent_spec(v: [U; 3]) -> TangentSO3<U> {
        TangentSO3 { vec: v }
    }

    fn box_plus(&self, delta: &TangentSO3<U>) -> (r: Self) {
        self.compose(&SO3::exp_map(delta))
    }

    fn box_minus(&self, other: &Self) -> (r: TangentSO3<U>) {
        other.inverse().compose(self).log_map()
    }

    fn tangent_to_vector(t: &TangentSO3<U>) -> (r: [U; 3]) {
        t.vec
    }

    fn vector_to_tangent(v: &[U; 3]) -> (r: TangentSO3<U>) {
        TangentSO3 { vec: *v }
    }
}

impl<U, T: RealScalar> VectorTransport<T, 3> for SO3<U> {
    /// `Exp(δ)^T v`.
    open spec fn vector_transport_spec(&self, v: [T; 3], delta: [T; 3]) -> [T; 3] {
        mat_vec_spec(transpose_spec(rodrigues_spec(delta)), v)
    }

    fn vector_transport(&self, v: &[T; 3], delta: &[T; 3]) -> (r: [T; 3]) {
        let rot = SO3::<T>::exp_map(&TangentSO3 { vec: *delta }).inverse().rot;
        mat_vec(&rot, v)
    }
}

/// A tangent vector of SE(3): translational and rotational parts.
#[derive(Clone, Copy)]
pub struct TangentSE3<T> {
    pub translation: [T; 3],
    pub rotation: [T; 3],
}

/// A rigid motion of space: a rotation followed by a translation.
#[derive(Clone, Copy)]
pub struct SE3<T> {
    pub rotation: SO3<T>,
    pub translation: [T; 3],
}

/// The left Jacobian `V(w) = I + [w]x (1 - cos θ) / θ^2 + [w]x^2 (θ - sin θ) / θ^3`,
/// or `I + [w]x / 2` when `θ = |w| < 10^-6`.
pub open spec fn v_matrix_spec<T: RealScalar>(w: [T; 3]) -> [[T; 3]; 3] {
    let theta = norm_spec(w);
    let wx = skew_spec(w);
    let id = identity_spec::<T, 3, 3>();
    if T::lt_spec(theta, T::from_ratio_spec(1, 1000000)) {
        mat_add_spec(id, mat_scale_spec(wx, T::from_ratio_spec(1, 2)))
    } else {
        let theta2 = T::mul_spec(theta, theta);
        let theta3 = T::mul_spec(theta2, theta);
        let a = T::div_spec(T::sub_spec(T::one_spec(), T::cos_spec(theta)), theta2);
        let b = T::div_spec(T::sub_spec(theta, T::sin_spec(theta)), theta3);
        mat_add_spec(mat_add_spec(id, mat_scale_spec(wx, a)), mat_scale_spec(mat_mul_spec(wx, wx), b))
    }
}

/// The inverse left Jacobian
/// `V^-1(w) = I - [w]x / 2 + [w]x^2 (1 - θ sin θ / (2 (1 - cos θ))) / θ^2`,
/// or `I - [w]x / 2` when `θ = |w| < 10^-6`.
pub open spec fn v_inv_spec<T: RealScalar>(w: [T; 3]) -> [[T; 3]; 3] {
    let theta = norm_spec(w);
    let half = T::from_ratio_spec(1, 2);
    let wx = skew_spec(w);
    let id = identity_spec::<T, 3, 3>();
    if T::lt_spec(theta, T::from_ratio_spec(1, 1000000)) {
        mat_sub_spec(id, mat_scale_spec(wx, half))
    } else {
        let theta2 = T::mul_spec(theta, theta);
        let c = T::div_spec(
            T::sub_spec(
                T::one_spec(),
                T::div_spec(
                    T::mul_spec(theta, T::sin_spec(theta)),
                    T::mul_spec(T::from_i32_spec(2), T::sub_spec(T::one_spec(), T::cos_spec(theta))),
                ),
            ),
            theta2,
        );
        mat_add_spec(mat_sub_spec(id, mat_scale_spec(wx, half)), mat_scale_spec(mat_mul_spec(wx, wx), c))
    }
}

/// The 6 x 6 adjoint `[[R, 0], [[p]x R, R]]` of a rigid motion `(R, p)`.
pub open spec fn adjoint_spec<T: RealScalar>(t: SE3<T>) -> [[T; 6]; 6] {
    let r = t.rotation.rot;
    let pr = mat_mul_spec(skew_spec(t.translation), r);
    array_from_fn::<[T; 6], 6>(
        |i: int|
            array_from_fn::<T, 6>(
                |j: int|
                    if i < 3 && j < 3 {
                        r[i][j]
                    } else if i >= 3 && j < 3 {
                        pr[i - 3][j]
                    } else if i >= 3 && j >= 3 {
                        r[i - 3][j - 3]
                    } else {
                        T::zero_spec()
                    },
            ),
    )
}

/// The rigid motion of a tangent vector (Lie exponential): rotation
/// `Exp(w)`, translation `V(w) v`.
pub open spec fn se3_exp_spec<T: RealScalar>(delta: TangentSE3<T>) -> SE3<T> {
    SE3 {
        rotation: SO3 { rot: rodrigues_spec(delta.rotation) },
        translation: mat_vec_spec(v_matrix_spec(delta.rotation), delta.translation),
    }
}

/// `(R1, p1) ∘ (R2, p2) = (R1 R2, p1 + R1 p2)`.
pub open spec fn se3_compose_spec<T: RealScalar>(a: SE3<T>, b: SE3<T>) -> SE3<T> {
    SE3 {
        rotation: SO3 { rot: mat_mul_spec(a.rotation.rot, b.rotation.rot) },
        translation: add_spec(a.translation, mat_vec_spec(a.rotation.rot, b.translation)),
    }
}

/// `(R, p)^-1 = (R^T, -R^T p)`.
pub open spec fn se3_inverse_spec<T: RealScalar>(a: SE3<T>) -> SE3<T> {
    SE3 {
        rotation: SO3 { rot: transpose_spec(a.rotation.rot) },
        translation: neg_spec(mat_vec_spec(transpose_spec(a.rotation.rot), a.translation)),
    }
}

/// The tangent vector of a rigid motion (Lie logarithm): rotation `w =
/// Log(R)`, translation `V^-1(w) p`.
pub open spec fn se3_log_spec<T: RealScalar>(a: SE3<T>) -> TangentSE3<T> {
    let w = log_map_spec(a.rotation.rot);
    TangentSE3 { translation: mat_vec_spec(v_inv_spec(w), a.translation), rotation: w }
}

/// `[translation | rotation]`.
pub open spec fn se3_tangent_vector_spec<T>(t: TangentSE3<T>) -> [T; 6] {
    [t.translation[0], t.translation[1], t.translation[2], t.rotation[0], t.rotation[1], t.rotation[2]]
}

/// Splits `[translation | rotation]`.
pub open spec fn se3_vector_tangent_spec<T>(v: [T; 6]) -> TangentSE3<T> {
    TangentSE3 { translation: [v[0], v[1], v[2]], rotation: [v[3], v[4], v[5]] }
}

impl<T: RealScalar> SE3<T> {
    /// `self ∘ rhs`.
    pub fn compose(&self, rhs: &Self) -> (r: Self)
        ensures
            r == se3_compose_spec(*self, *rhs),
    {
        let rotation = self.rotation.compose(&rhs.rotation);
        let translation = tangent::add(&self.translation, &mat_vec(&self.rotation.rot, &rhs.translation));
        SE3 { rotation, translation }
    }

    /// The inverse motion.
    pub fn inverse(&self) -> (r: Self)
        ensures
            r == se3_inverse_spec(*self),
    {
        let rotation = self.rotation.inverse();
        let translation = tangent::neg(&mat_vec(&rotation.rot, &self.translation));
        SE3 { rotation, translation }
    }

    /// The left Jacobian of SO(3) at `w`.
    pub fn v_matrix(w: &[T; 3]) -> (r: [[T; 3]; 3])
        ensures
            r == v_matrix_spec(*w),
    {
        let theta = norm(w);
        let id: [[T; 3]; 3] = identity();
        let wx = SO3::<T>::skew(&TangentSO3 { vec: *w });
        if theta.lt(T::from_ratio(1, 1000000)) {
            mat_add(&id, &mat_scale(&wx, T::from_ratio(1, 2)))
        } else {
            let theta2 = theta.mul(theta);
            let theta3 = theta2.mul(theta);
            let sin = theta.sin();
            let cos = theta.cos();
            let a = T::one().sub(cos).div(theta2);
            let b = theta.sub(sin).div(theta3);
            mat_add(&mat_add(&id, &mat_scale(&wx, a)), &mat_scale(&mat_mul(&wx, &wx), b))
        }
    }

    /// The rigid motion of a tangent vector.
    pub fn exp_map(delta: &TangentSE3<T>) -> (r: SE3<T>)
        ensures
            r == se3_exp_spec(*delta),
    {
        let w = delta.rotation;
        let v = delta.translation;
        let rotation = SO3::exp_map(&TangentSO3 { vec: w });
        let translation = mat_vec(&Self::v_matrix(&w), &v);
        SE3 { rotation, translation }
    }

    /// The inverse left Jacobian of SO(3) at `w`.
    pub fn v_inv(w: &[T; 3]) -> (r: [[T; 3]; 3])
        ensures
            r == v_inv_spec(*w),
    {
        let theta = norm(w);
        let half = T::from_ratio(1, 2);
        let id: [[T; 3]; 3] = identity();
        let wx = SO3::<T>::skew(&TangentSO3 { vec: *w });
        if theta.lt(T::from_ratio(1, 1000000)) {
            mat_sub(&id, &mat_scale(&wx, half))
        } else {
            let theta2 = theta.mul(theta);
            let c = T::one().sub(
                theta.mul(theta.sin()).div(T::from_i32(2).mul(T::one().sub(theta.cos()))),
            ).div(theta2);
            mat_add(&mat_sub(&id, &mat_scale(&wx, half)), &mat_scale(&mat_mul(&wx, &wx), c))
        }
    }

    /// The tangent vector of this motion.
    pub fn log_map(&self) -> (r: TangentSE3<T>)
        ensures
            r == se3_log_spec(*self),
    {
        let w = self.rotation.log_map().vec;
        let v_inv = Self::v_inv(&w);
        let v = mat_vec(&v_inv, &self.translation);
        TangentSE3 { translation: v, rotation: w }
    }

    /// The 6 x 6 adjoint of a rigid motion.
    pub fn adjoint(t: &SE3<T>) -> (r: [[T; 6]; 6])
        ensures
            r == adjoint_spec(*t),
    {
        let rot = t.rotation.rot;
        let px = SO3::<T>::skew(&TangentSO3 { vec: t.translation });
        let pr = mat_mul(&px, &rot);
        let mut ad: [[T; 6]; 6] = crate::linalg::zeros_mat();
        let mut i: usize = 0;
        while i < 6
            invariant
                0 <= i <= 6,
                rot == t.rotation.rot,
                pr == mat_mul_spec(skew_spec(t.translation), rot),
                forall|a: int, b: int|
                    0 <= a < 6 && 0 <= b < 6 ==> #[trigger] ad[a][b] == (if a >= i {
                        T::zero_spec()
                    } else if a < 3 && b < 3 {
                        rot[a][b]
                    } else if a >= 3 && b < 3 {
                        pr[a - 3][b]
                    } else if a >= 3 && b >= 3 {
                        rot[a - 3][b - 3]
                    } else {
                        T::zero_spec()
                    }),
            decreases 6 - i,
        {
            let mut row = ad[i];
            let mut j: usize = 0;
            while j < 6
                invariant
                    0 <= i < 6,
                    0 <= j <= 6,
                    forall|b: int|
                        0 <= b < 6 ==> #[trigger] row[b] == (if b >= j {
                            T::zero_spec()
                        } else if i < 3 && b < 3 {
                            rot[i as int][b]
                        } else if i >= 3 && b < 3 {
                            pr[i - 3][b]
                        } else if i >= 3 && b >= 3 {
                            rot[i - 3][b - 3]
                        } else {
                            T::zero_spec()
                        }),
                decreases 6 - j,
            {
                if i < 3 && j < 3 {
                    row[j] = rot[i][j];
                } else if i >= 3 && j < 3 {
                    row[j] = pr[i - 3][j];
                } else if i >= 3 && j >= 3 {
                    row[j] = rot[i - 3][j - 3];
                }
                j += 1;
            }
            ad[i] = row;
            i += 1;
        }
        proof {
            broadcast use crate::tangent::lemma_array_from_fn;

            crate::linalg::lemma_mat_eq(ad, adjoint_spec(*t));
        }
        ad
    }
}

impl<U: RealScalar> Manifold<U, 6> for SE3<U> {
    type Tangent = TangentSE3<U>;

    /// `T Exp(δ)`.
    open spec fn box_plus_spec(&self, delta: TangentSE3<U>) -> Self {
        se3_compose_spec(*self, se3_exp_spec(delta))
    }

    /// `Log(T_other^-1 T)`.
    open spec fn box_minus_spec(&self, other: Self) -> TangentSE3<U> {
        se3_log_spec(se3_compose_spec(se3_inverse_spec(other), *self))
    }

    open spec fn tangent_to_vector_spec(t: TangentSE3<U>) -> [U; 6] {
        se3_tangent_vector_spec(t)
    }

    open spec fn vector_to_tangent_spec(v: [U; 6]) -> TangentSE3<U> {
        se3_vector_tangent_spec(v)
    }

    fn box_plus(&self, delta: &TangentSE3<U>) -> (r: Self) {
        self.compose(&Self::exp_map(delta))
    }

    fn box_minus(&self, other: &Self) -> (r: TangentSE3<U>) {
        other.inverse().compose(self).log_map()
    }

    fn tangent_to_vector(t: &TangentSE3<U>) -> (r: [U; 6]) {
        [t.translation[0], t.translation[1], t.translation[2], t.rotation[0], t.rotation[1], t.rotation[2]]
    }

    fn vector_to_tangent(v: &[U; 6]) -> (r: TangentSE3<U>) {
        TangentSE3 { translation: [v[0], v[1], v[2]], rotation: [v[3], v[4], v[5]] }
    }
}

impl<U, T: RealScalar> VectorTransport<T, 6> for SE3<U> {
    /// `Ad(Exp(δ)^-1) v`.
    open spec fn vector_transport_spec(&self, v: [T; 6], delta: [T; 6]) -> [T; 6] {
        mat_vec_spec(adjoint_spec(se3_inverse_spec(se3_exp_spec(se3_vector_tangent_spec(delta)))), v)
    }

    fn vector_transport(&self, v: &[T; 6], delta: &[T; 6]) -> (r: [T; 6]) {
        let d = TangentSE3 { translation: [delta[0], delta[1], delta[2]], rotation: [delta[3], delta[4], delta[5]] };
        let t_delta = SE3::<T>::exp_map(&d);
        let ad = SE3::<T>::adjoint(&t_delta.inverse());
        mat_vec(&ad, v)
    }
}

/// A tangent vector of the flat space `R^N`.
#[derive(Clone, Copy)]
pub struct TangentRN<T, const DIM: usize> {
    pub vec: [T; DIM],
}

impl<U: RealScalar, const N: usize> Manifold<U, N> for [U; N] {
    type Tangent = TangentRN<U, N>;

    open spec fn box_plus_spec(&self, delta: TangentRN<U, N>) -> Self {
        add_spec(*self, delta.vec)
    }

    open spec fn box_minus_spec(&self, other: Self) -> TangentRN<U, N> {
        TangentRN { vec: sub_spec(*self, other) }
    }

    open spec fn tangent_to_vector_spec(t: TangentRN<U, N>) -> [U; N] {
        t.vec
    }

    open spec fn vector_to_tangent_spec(v: [U; N]) -> TangentRN<U, N> {
        TangentRN { vec: v }
    }

    fn box_plus(&self, delta: &TangentRN<U, N>) -> (r: Self) {
        tangent::add(self, &delta.vec)
    }

    fn box_minus(&self, other: &Self) -> (r: TangentRN<U, N>) {
        TangentRN { vec: tangent::sub(self, other) }
    }

    fn tangent_to_vector(t: &TangentRN<U, N>) -> (r: [U; N]) {
        t.vec
    }

    fn vector_to_tangent(v: &[U; N]) -> (r: TangentRN<U, N>) {
        TangentRN { vec: *v }
    }
}

impl<U, T: Copy, const N: usize> VectorTransport<T, N> for [U; N] {
    /// Flat space has no curvature: transport is the identity.
    open spec fn vector_transport_spec(&self, v: [T; N], delta: [T; N]) -> [T; N] {
        v
    }

    fn vector_transport(&self, v: &[T; N], delta: &[T; N]) -> (r: [T; N]) {
        *v
    }
}

/// The tangent coordinates of SO(3), SE(3) and `R^N` are their tangent
/// vectors laid out flat (`[translation | rotation]` for SE(3)): converting to
/// coordinates and back gives the same tangent vector, and the other way
/// round the same coordinates.
pub proof fn lemma_tangent_coordinates_round_trip<U: RealScalar, const N: usize>(
    w: TangentSO3<U>,
    a: [U; 3],
    t: TangentSE3<U>,
    b: [U; 6],
    r: TangentRN<U, N>,
    c: [U; N],
)
    ensures
        <SO3<U> as Manifold<U, 3>>::vector_to_tangent_spec(
            <SO3<U> as Manifold<U, 3>>::tangent_to_vector_spec(w),
        ) == w,
        <SO3<U> as Manifold<U, 3>>::tangent_to_vector_spec(
            <SO3<U> as Manifold<U, 3>>::vector_to_tangent_spec(a),
        ) == a,
        <SE3<U> as Manifold<U, 6>>::vector_to_tangent_spec(
            <SE3<U> as Manifold<U, 6>>::tangent_to_vector_spec(t),
        ) == t,
        <SE3<U> as Manifold<U, 6>>::tangent_to_vector_spec(
            <SE3<U> as Manifold<U, 6>>::vector_to_tangent_spec(b),
        ) == b,
        <[U; N] as Manifold<U, N>>::vector_to_tangent_spec(
            <[U; N] as Manifold<U, N>>::tangent_to_vector_spec(r),
        ) == r,
        <[U; N] as Manifold<U, N>>::tangent_to_vector_spec(
            <[U; N] as Manifold<U, N>>::vector_to_tangent_spec(c),
        ) == c,
{
    assert(se3_vector_tangent_spec(se3_tangent_vector_spec(t)).translation =~= t.translation);
    assert(se3_vector_tangent_spec(se3_tangent_vector_spec(t)).rotation =~= t.rotation);
    assert(se3_tangent_vector_spec(se3_vector_tangent_spec(b)) =~= b);
}

/// The inverse of a composition of rotations is the composition of their
/// inverses in reverse order, `(a ∘ b)^-1 = b^-1 ∘ a^-1`, in each entry of
/// `a ∘ b` that is not NaN (the inverse is the transpose, the
/// composition the matrix product).
pub proof fn lemma_so3_inverse_of_composition<T: RealScalar>(a: SO3<T>, b: SO3<T>, i: int, j: int)
    requires
        0 <= i < 3,
        0 <= j < 3,
        !T::is_nan_spec(mat_mul_spec(a.rot, b.rot)[i][j]),
    ensures
        transpose_spec(mat_mul_spec(a.rot, b.rot))[j][i] == mat_mul_spec(
            transpose_spec(b.rot),
            transpose_spec(a.rot),
        )[j][i],
{
    crate::linalg::lemma_transpose_of_product(a.rot, b.rot, i, j);
}

/// Inverting a rotation twice gives it back: the inverse is the transpose.
pub proof fn lemma_so3_inverse_involution<T: RealScalar>(r: SO3<T>)
    ensures
        transpose_spec(transpose_spec(r.rot)) == r.rot,
{
    broadcast use crate::tangent::lemma_array_from_fn;

    crate::linalg::lemma_mat_eq(transpose_spec(transpose_spec(r.rot)), r.rot);
}

/// A state made of two manifold-valued parts, of `D1` and `D2` tangent
/// dimensions: box-plus and box-minus act part by part, and the tangent
/// coordinates are `[t1 | t2]` in `DIM` entries (nest pairs for more parts).
#[derive(Clone, Copy)]
pub struct ProductManifold<M1, M2, const D1: usize, const D2: usize, const DIM: usize> {
    pub first: M1,
    pub second: M2,
}

impl<
    U: RealScalar,
    M1: Manifold<U, D1>,
    M2: Manifold<U, D2>,
    const D1: usize,
    const D2: usize,
    const DIM: usize,
> Manifold<U, DIM> for ProductManifold<M1, M2, D1, D2, DIM> {
    type Tangent = (M1::Tangent, M2::Tangent);

    /// Part by part.
    open spec fn box_plus_spec(&self, delta: (M1::Tangent, M2::Tangent)) -> Self {
        ProductManifold { first: self.first.box_plus_spec(delta.0), second: self.second.box_plus_spec(delta.1) }
    }

    /// Part by part.
    open spec fn box_minus_spec(&self, other: Self) -> (M1::Tangent, M2::Tangent) {
        (self.first.box_minus_spec(other.first), self.second.box_minus_spec(other.second))
    }

    /// `[t1 | t2]`, cut or padded with zeros to `DIM` entries.
    open spec fn tangent_to_vector_spec(t: (M1::Tangent, M2::Tangent)) -> [U; DIM] {
        concat_spec::<U, D1, D2, DIM>(M1::tangent_to_vector_spec(t.0), M2::tangent_to_vector_spec(t.1))
    }

    /// The parts read from offsets `0` and `D1`.
    open spec fn vector_to_tangent_spec(v: [U; DIM]) -> (M1::Tangent, M2::Tangent) {
        (
            M1::vector_to_tangent_spec(segment_spec::<U, DIM, D1>(v, 0)),
            M2::vector_to_tangent_spec(segment_spec::<U, DIM, D2>(v, D1 as int)),
        )
    }

    fn box_plus(&self, delta: &(M1::Tangent, M2::Tangent)) -> (r: Self) {
        ProductManifold { first: self.first.box_plus(&delta.0), second: self.second.box_plus(&delta.1) }
    }

    fn box_minus(&self, other: &Self) -> (r: (M1::Tangent, M2::Tangent)) {
        (self.first.box_minus(&other.first), self.second.box_minus(&other.second))
    }

    fn tangent_to_vector(t: &(M1::Tangent, M2::Tangent)) -> (r: [U; DIM]) {
        let v1 = M1::tangent_to_vector(&t.0);
        let v2 = M2::tangent_to_vector(&t.1);
        concat(&v1, &v2)
    }

    fn vector_to_tangent(v: &[U; DIM]) -> (r: (M1::Tangent, M2::Tangent)) {
        let v1: [U; D1] = segment(v, 0);
        let v2: [U; D2] = segment(v, D1);
        (M1::vector_to_tangent(&v1), M2::vector_to_tangent(&v2))
    }
}

impl<
    T: RealScalar,
    M1: VectorTransport<T, D1>,
    M2: VectorTransport<T, D2>,
    const D1: usize,
    const D2: usize,
    const DIM: usize,
> VectorTransport<T, DIM> for ProductManifold<M1, M2, D1, D2, DIM> {
    /// Each part transports its own block of coordinates.
    open spec fn vector_transport_spec(&self, v: [T; DIM], delta: [T; DIM]) -> [T; DIM] {
        concat_spec::<T, D1, D2, DIM>(
            self.first.vector_transport_spec(
                segment_spec::<T, DIM, D1>(v, 0),
                segment_spec::<T, DIM, D1>(delta, 0),
            ),
            self.second.vector_transport_spec(
                segment_spec::<T, DIM, D2>(v, D1 as int),
                segment_spec::<T, DIM, D2>(delta, D1 as int),
            ),
        )
    }

    fn vector_transport(&self, v: &[T; DIM], delta: &[T; DIM]) -> (r: [T; DIM]) {
        let v1: [T; D1] = segment(v, 0);
        let d1: [T; D1] = segment(delta, 0);
        let v2: [T; D2] = segment(v, D1);
        let d2: [T; D2] = segment(delta, D1);
        let t1 = self.first.vector_transport(&v1, &d1);
        let t2 = self.second.vector_transport(&v2, &d2);
        concat(&t1, &t2)
    }
}

/// On a product whose parts' coordinates round-trip and whose blocks cover
/// the `DIM` coordinates exactly, the product's coordinates round-trip too:
/// tangent to coordinates and back, and coordinates to tangent and back.
pub proof fn lemma_product_manifold_round_trips<
    U: RealScalar,
    M1: Manifold<U, D1>,
    M2: Manifold<U, D2>,
    const D1: usize,
    const D2: usize,
    const DIM: usize,
>(t: (M1::Tangent, M2::Tangent), v: [U; DIM])
    requires
        D1 + D2 == DIM,
        M1::vector_to_tangent_spec(M1::tangent_to_vector_spec(t.0)) == t.0,
        M2::vector_to_tangent_spec(M2::tangent_to_vector_spec(t.1)) == t.1,
        M1::tangent_to_vector_spec(M1::vector_to_tangent_spec(segment_spec::<U, DIM, D1>(v, 0)))
            == segment_spec::<U, DIM, D1>(v, 0),
        M2::tangent_to_vector_spec(M2::vector_to_tangent_spec(segment_spec::<U, DIM, D2>(v, D1 as int)))
            == segment_spec::<U, DIM, D2>(v, D1 as int),
    ensures
        ProductManifold::<M1, M2, D1, D2, DIM>::vector_to_tangent_spec(
            ProductManifold::<M1, M2, D1, D2, DIM>::tangent_to_vector_spec(t),
        ) == t,
        ProductManifold::<M1, M2, D1, D2, DIM>::tangent_to_vector_spec(
            ProductManifold::<M1, M2, D1, D2, DIM>::vector_to_tangent_spec(v),
        ) == v,
{
    crate::linalg::lemma_segment_concat::<U, D1, D2, DIM>(
        M1::tangent_to_vector_spec(t.0),
        M2::tangent_to_vector_spec(t.1),
    );
    crate::linalg::lemma_concat_segment::<U, D1, D2, DIM>(v);
}

/// `I + [w]x c1 + [w]x^2 c2`: a matrix in the span of the powers of `[w]x`.
pub open spec fn skew_polynomial_spec<T: RealScalar>(w: [T; 3], c1: T, c2: T) -> [[T; 3]; 3] {
    let wx = skew_spec(w);
    mat_add_spec(
        mat_add_spec(identity_spec::<T, 3, 3>(), mat_scale_spec(wx, c1)),
        mat_scale_spec(mat_mul_spec(wx, wx), c2),
    )
}

/// The left Jacobian turns the same way as the rotation it integrates: away
/// from the small-angle branch (`θ = |w| >= 10^-6`), `Exp(w) = I + [w]x a +
/// [w]x^2 b` and `V(w) = I + [w]x b + [w]x^2 c` with one and the same `b`
/// (`(1 - cos θ) / θ^2`): the first-order term of `V` is the second-order
/// term of the rotation, with the same sign; so the translation of the
/// exponential of `(v, w)` is `(I + [w]x b + [w]x^2 c) v`. Its inverse has
/// the first-order term `-[w]x / 2`. In the small-angle branch
/// `V(w) = I + [w]x / 2` and `V^-1(w) = I - [w]x / 2`: opposite first-order
/// terms.
pub proof fn lemma_left_jacobian_orientation<T: RealScalar>(delta: TangentSE3<T>)
    ensures
        ({
            let w = delta.rotation;
            let half = T::from_ratio_spec(1, 2);
            let wx = skew_spec(w);
            let id = identity_spec::<T, 3, 3>();
            if T::lt_spec(norm_spec(w), T::from_ratio_spec(1, 1000000)) {
                &&& v_matrix_spec(w) == mat_add_spec(id, mat_scale_spec(wx, half))
                &&& v_inv_spec(w) == mat_sub_spec(id, mat_scale_spec(wx, half))
            } else {
                &&& exists|a: T, b: T, c: T|
                    rodrigues_spec(w) == #[trigger] skew_polynomial_spec(w, a, b) && v_matrix_spec(w)
                        == #[trigger] skew_polynomial_spec(w, b, c) && se3_exp_spec(delta).rotation.rot
                        == skew_polynomial_spec(w, a, b) && se3_exp_spec(delta).translation == mat_vec_spec(
                        skew_polynomial_spec(w, b, c),
                        delta.translation,
                    )
                &&& exists|d: T|
                    v_inv_spec(w) == #[trigger] mat_add_spec(
                        mat_sub_spec(id, mat_scale_spec(wx, half)),
                        mat_scale_spec(mat_mul_spec(wx, wx), d),
                    )
            }
        }),
{
    let w = delta.rotation;
    let theta = norm_spec(w);
    if !T::lt_spec(theta, T::from_ratio_spec(1, 1000000)) {
        let theta2 = T::mul_spec(theta, theta);
        let theta3 = T::mul_spec(theta2, theta);
        let a = T::div_spec(T::sin_spec(theta), theta);
        let b = T::div_spec(T::sub_spec(T::one_spec(), T::cos_spec(theta)), theta2);
        let c = T::div_spec(T::sub_spec(theta, T::sin_spec(theta)), theta3);
        assert(rodrigues_spec(w) == skew_polynomial_spec(w, a, b) && v_matrix_spec(w) == skew_polynomial_spec(
            w,
            b,
            c,
        ) && se3_exp_spec(delta).rotation.rot == skew_polynomial_spec(w, a, b) && se3_exp_spec(delta).translation
            == mat_vec_spec(skew_polynomial_spec(w, b, c), delta.translation));
        let wx = skew_spec(w);
        let d = T::div_spec(
            T::sub_spec(
                T::one_spec(),
                T::div_spec(
                    T::mul_spec(theta, T::sin_spec(theta)),
                    T::mul_spec(T::from_i32_spec(2), T::sub_spec(T::one_spec(), T::cos_spec(theta))),
                ),
            ),
            theta2,
        );
        assert(v_inv_spec(w) == mat_add_spec(
            mat_sub_spec(identity_spec::<T, 3, 3>(), mat_scale_spec(wx, T::from_ratio_spec(1, 2))),
            mat_scale_spec(mat_mul_spec(wx, wx), d),
        ));
    }
}

} // verus!
