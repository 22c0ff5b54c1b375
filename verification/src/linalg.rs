//! Fixed-size matrices over a scalar field, stored row-major as `[[T; C]; R]`,
//! with the products, sums and transposes the manifold and filter code use.
use vstd::prelude::*;
use crate::scalar::RealScalar;
use crate::tangent::{array_from_fn, lemma_array_eq_from_fn, lemma_array_from_fn};

verus! {

broadcast use lemma_array_from_fn;

/// `f(0) + f(1) + ... + f(n - 1)`, summed left to right from zero.
pub open spec fn sum_to<T: RealScalar>(f: spec_fn(int) -> T, n: int) -> T
    decreases n,
{
    if n <= 0 {
        T::zero_spec()
    } else {
        T::add_spec(sum_to(f, n - 1), f(n - 1))
    }
}

/// The dot product of two vectors.
pub open spec fn dot_spec<T: RealScalar, const K: usize>(a: [T; K], b: [T; K]) -> T {
    sum_to(|k: int| T::mul_spec(a[k], b[k]), K as int)
}

/// The matrix-vector product `m v`.
pub open spec fn mat_vec_spec<T: RealScalar, const R: usize, const C: usize>(
    m: [[T; C]; R],
    v: [T; C],
) -> [T; R] {
    array_from_fn::<T, R>(|i: int| dot_spec(m[i], v))
}

/// Column `j` of `m`.
pub open spec fn column_spec<T: RealScalar, const R: usize, const C: usize>(
    m: [[T; C]; R],
    j: int,
) -> [T; R] {
    array_from_fn::<T, R>(|i: int| m[i][j])
}

/// The matrix product `a b`.
pub open spec fn mat_mul_spec<T: RealScalar, const R: usize, const K: usize, const C: usize>(
    a: [[T; K]; R],
    b: [[T; C]; K],
) -> [[T; C]; R] {
    array_from_fn::<[T; C], R>(
        |i: int| array_from_fn::<T, C>(|j: int| dot_spec(a[i], column_spec(b, j))),
    )
}

/// The transpose of `m`.
pub open spec fn transpose_spec<T: RealScalar, const R: usize, const C: usize>(
    m: [[T; C]; R],
) -> [[T; R]; C] {
    array_from_fn::<[T; R], C>(|j: int| column_spec(m, j))
}

/// Element-wise sum of matrices.
pub open spec fn mat_add_spec<T: RealScalar, const R: usize, const C: usize>(
    a: [[T; C]; R],
    b: [[T; C]; R],
) -> [[T; C]; R] {
    array_from_fn::<[T; C], R>(
        |i: int| array_from_fn::<T, C>(|j: int| T::add_spec(a[i][j], b[i][j])),
    )
}

/// Element-wise difference of matrices.
pub open spec fn mat_sub_spec<T: RealScalar, const R: usize, const C: usize>(
    a: [[T; C]; R],
    b: [[T; C]; R],
) -> [[T; C]; R] {
    array_from_fn::<[T; C], R>(
        |i: int| array_from_fn::<T, C>(|j: int| T::sub_spec(a[i][j], b[i][j])),
    )
}

/// Every entry multiplied (on the right) by `s`.
pub open spec fn mat_scale_spec<T: RealScalar, const R: usize, const C: usize>(
    a: [[T; C]; R],
    s: T,
) -> [[T; C]; R] {
    array_from_fn::<[T; C], R>(|i: int| array_from_fn::<T, C>(|j: int| T::mul_spec(a[i][j], s)))
}

/// The identity matrix (ones on the main diagonal).
pub open spec fn identity_spec<T: RealScalar, const R: usize, const C: usize>() -> [[T; C]; R] {
    array_from_fn::<[T; C], R>(
        |i: int|
            array_from_fn::<T, C>(
                |j: int|
                    if i == j {
                        T::one_spec()
                    } else {
                        T::zero_spec()
                    },
            ),
    )
}

/// The zero matrix.
pub open spec fn zeros_spec<T: RealScalar, const R: usize, const C: usize>() -> [[T; C]; R] {
    array_from_fn::<[T; C], R>(|i: int| array_from_fn::<T, C>(|j: int| T::zero_spec()))
}

/// Two matrices are equal when every entry is.
pub proof fn lemma_mat_eq<T, const R: usize, const C: usize>(a: [[T; C]; R], b: [[T; C]; R])
    requires
        forall|i: int, j: int| 0 <= i < R && 0 <= j < C ==> #[trigger] a[i][j] == b[i][j],
    ensures
        a == b,
{
    assert forall|i: int| 0 <= i < R implies a[i] == b[i] by {
        assert(a[i] =~= b[i]);
    }
    assert(a =~= b);
}

/// The dot product of two vectors.
pub fn dot<T: RealScalar, const K: usize>(a: &[T; K], b: &[T; K]) -> (r: T)
    ensures
        r == dot_spec(*a, *b),
{
    let ghost f = |k: int| T::mul_spec(a[k], b[k]);
    let mut acc = T::zero();
    let mut k: usize = 0;
    while k < K
        invariant
            0 <= k <= K,
            f == (|k: int| T::mul_spec(a[k], b[k])),
            acc == sum_to(f, k as int),
        decreases K - k,
    {
        acc = acc.add(a[k].mul(b[k]));
        k += 1;
    }
    acc
}

/// The matrix-vector product `m v`.
pub fn mat_vec<T: RealScalar, const R: usize, const C: usize>(m: &[[T; C]; R], v: &[T; C]) -> (r: [T; R])
    ensures
        r == mat_vec_spec(*m, *v),
{
    let mut r: [T; R] = crate::tangent::zeros();
    let mut i: usize = 0;
    while i < R
        invariant
            0 <= i <= R,
            forall|k: int| 0 <= k < i ==> r[k] == dot_spec(#[trigger] m[k], *v),
        decreases R - i,
    {
        r[i] = dot(&m[i], v);
        i += 1;
    }
    proof {
        lemma_array_eq_from_fn(r, |k: int| dot_spec(m[k], *v));
    }
    r
}

/// Column `j` of `m`.
pub fn column<T: RealScalar, const R: usize, const C: usize>(m: &[[T; C]; R], j: usize) -> (r: [T; R])
    requires
        j < C,
    ensures
        r == column_spec(*m, j as int),
{
    let mut r: [T; R] = crate::tangent::zeros();
    let mut i: usize = 0;
    while i < R
        invariant
            0 <= i <= R,
            j < C,
            forall|k: int| 0 <= k < i ==> r[k] == #[trigger] m[k][j as int],
        decreases R - i,
    {
        r[i] = m[i][j];
        i += 1;
    }
    proof {
        lemma_array_eq_from_fn(r, |k: int| m[k][j as int]);
    }
    r
}

/// The zero matrix.
pub fn zeros_mat<T: RealScalar, const R: usize, const C: usize>() -> (r: [[T; C]; R])
    ensures
        r == zeros_spec::<T, R, C>(),
        forall|i: int, j: int| 0 <= i < R && 0 <= j < C ==> #[trigger] r[i][j] == T::zero_spec(),
{
    let row: [T; C] = crate::tangent::zeros();
    let r: [[T; C]; R] = [row; R];
    proof {
        lemma_mat_eq(r, zeros_spec::<T, R, C>());
    }
    r
}

/// The identity matrix.
pub fn identity<T: RealScalar, const R: usize, const C: usize>() -> (r: [[T; C]; R])
    ensures
        r == identity_spec::<T, R, C>(),
{
    let mut r: [[T; C]; R] = zeros_mat();
    let mut i: usize = 0;
    while i < R
        invariant
            0 <= i <= R,
            forall|a: int, b: int|
                0 <= a < R && 0 <= b < C ==> #[trigger] r[a][b] == (if a == b && a < i {
                    T::one_spec()
                } else {
                    T::zero_spec()
                }),
        decreases R - i,
    {
        if i < C {
            let mut row = r[i];
            row[i] = T::one();
            r[i] = row;
        }
        i += 1;
    }
    proof {
        lemma_mat_eq(r, identity_spec::<T, R, C>());
    }
    r
}

/// The matrix product `a b`.
pub fn mat_mul<T: RealScalar, const R: usize, const K: usize, const C: usize>(
    a: &[[T; K]; R],
    b: &[[T; C]; K],
) -> (r: [[T; C]; R])
    ensures
        r == mat_mul_spec(*a, *b),
{
    let mut r: [[T; C]; R] = zeros_mat();
    let mut j: usize = 0;
    while j < C
        invariant
            0 <= j <= C,
            forall|x: int, y: int|
                0 <= x < R && 0 <= y < j ==> #[trigger] r[x][y] == dot_spec(a[x], column_spec(*b, y)),
        decreases C - j,
    {
        let col = column(b, j);
        let mut i: usize = 0;
        while i < R
            invariant
                0 <= i <= R,
                0 <= j < C,
                col == column_spec(*b, j as int),
                forall|x: int, y: int|
                    0 <= x < R && 0 <= y < j ==> #[trigger] r[x][y] == dot_spec(a[x], column_spec(*b, y)),
                forall|x: int| 0 <= x < i ==> #[trigger] r[x][j as int] == dot_spec(a[x], col),
            decreases R - i,
        {
            let mut row = r[i];
            row[j] = dot(&a[i], &col);
            r[i] = row;
            i += 1;
        }
        j += 1;
    }
    proof {
        lemma_mat_eq(r, mat_mul_spec(*a, *b));
    }
    r
}

/// The transpose of `m`.
pub fn transpose<T: RealScalar, const R: usize, const C: usize>(m: &[[T; C]; R]) -> (r: [[T; R]; C])
    ensures
        r == transpose_spec(*m),
{
    let mut r: [[T; R]; C] = zeros_mat();
    let mut j: usize = 0;
    while j < C
        invariant
            0 <= j <= C,
            forall|y: int| 0 <= y < j ==> #[trigger] r[y] == column_spec(*m, y),
        decreases C - j,
    {
        r[j] = column(m, j);
        j += 1;
    }
    proof {
        lemma_array_eq_from_fn(r, |y: int| column_spec(*m, y));
    }
    r
}

/// Element-wise sum of matrices.
pub fn mat_add<T: RealScalar, const R: usize, const C: usize>(a: &[[T; C]; R], b: &[[T; C]; R]) -> (r: [[T; C]; R])
    ensures
        r == mat_add_spec(*a, *b),
{
    let mut r: [[T; C]; R] = *a;
    let mut i: usize = 0;
    while i < R
        invariant
            0 <= i <= R,
            forall|x: int, y: int|
                0 <= x < i && 0 <= y < C ==> #[trigger] r[x][y] == T::add_spec(a[x][y], b[x][y]),
        decreases R - i,
    {
        r[i] = crate::tangent::add(&a[i], &b[i]);
        i += 1;
    }
    proof {
        lemma_mat_eq(r, mat_add_spec(*a, *b));
    }
    r
}

/// Element-wise difference of matrices.
pub fn mat_sub<T: RealScalar, const R: usize, const C: usize>(a: &[[T; C]; R], b: &[[T; C]; R]) -> (r: [[T; C]; R])
    ensures
        r == mat_sub_spec(*a, *b),
{
    let mut r: [[T; C]; R] = *a;
    let mut i: usize = 0;
    while i < R
        invariant
            0 <= i <= R,
            forall|x: int, y: int|
                0 <= x < i && 0 <= y < C ==> #[trigger] r[x][y] == T::sub_spec(a[x][y], b[x][y]),
        decreases R - i,
    {
        r[i] = crate::tangent::sub(&a[i], &b[i]);
        i += 1;
    }
    proof {
        lemma_mat_eq(r, mat_sub_spec(*a, *b));
    }
    r
}

/// Every entry multiplied (on the right) by `s`.
pub fn mat_scale<T: RealScalar, const R: usize, const C: usize>(a: &[[T; C]; R], s: T) -> (r: [[T; C]; R])
    ensures
        r == mat_scale_spec(*a, s),
{
    let mut r: [[T; C]; R] = *a;
    let mut i: usize = 0;
    while i < R
        invariant
            0 <= i <= R,
            forall|x: int, y: int|
                0 <= x < i && 0 <= y < C ==> #[trigger] r[x][y] == T::mul_spec(a[x][y], s),
        decreases R - i,
    {
        r[i] = crate::tangent::scale(&a[i], s);
        i += 1;
    }
    proof {
        lemma_mat_eq(r, mat_scale_spec(*a, s));
    }
    r
}

/// `a` followed by `b`, cut or padded with zeros to length `R`.
pub open spec fn concat_spec<T: RealScalar, const P: usize, const Q: usize, const R: usize>(
    a: [T; P],
    b: [T; Q],
) -> [T; R] {
    array_from_fn::<T, R>(
        |i: int|
            if i < P {
                a[i]
            } else if i - P < Q {
                b[i - P]
            } else {
                T::zero_spec()
            },
    )
}

/// The `P` entries of `v` that start at `off` (zero past the end of `v`).
pub open spec fn segment_spec<T: RealScalar, const R: usize, const P: usize>(v: [T; R], off: int) -> [T; P] {
    array_from_fn::<T, P>(
        |i: int|
            if off + i < R {
                v[off + i]
            } else {
                T::zero_spec()
            },
    )
}

/// The `P` columns of `m` that start at column `off` (zero past the last column).
pub open spec fn columns_spec<T: RealScalar, const R: usize, const C: usize, const P: usize>(
    m: [[T; C]; R],
    off: int,
) -> [[T; P]; R] {
    array_from_fn::<[T; P], R>(|i: int| segment_spec::<T, C, P>(m[i], off))
}

/// `a` and `b` on the diagonal of an `R x C` matrix, `a` at the top left and
/// `b` just below and to the right of it, zero elsewhere (cut to the size).
pub open spec fn block_diag_spec<
    T: RealScalar,
    const R1: usize,
    const C1: usize,
    const R2: usize,
    const C2: usize,
    const R: usize,
    const C: usize,
>(a: [[T; C1]; R1], b: [[T; C2]; R2]) -> [[T; C]; R] {
    array_from_fn::<[T; C], R>(
        |i: int|
            array_from_fn::<T, C>(
                |j: int|
                    if i < R1 && j < C1 {
                        a[i][j]
                    } else if R1 <= i && i - R1 < R2 && C1 <= j && j - C1 < C2 {
                        b[i - R1][j - C1]
                    } else {
                        T::zero_spec()
                    },
            ),
    )
}

/// `a` followed by `b`, cut or padded with zeros to length `R`.
pub fn concat<T: RealScalar, const P: usize, const Q: usize, const R: usize>(a: &[T; P], b: &[T; Q]) -> (r: [T; R])
    ensures
        r == concat_spec::<T, P, Q, R>(*a, *b),
{
    let mut r: [T; R] = crate::tangent::zeros();
    let mut i: usize = 0;
    while i < R
        invariant
            0 <= i <= R,
            forall|k: int|
                0 <= k < R ==> #[trigger] r[k] == (if k < i && k < P {
                    a[k]
                } else if k < i && k - P < Q {
                    b[k - P]
                } else {
                    T::zero_spec()
                }),
        decreases R - i,
    {
        if i < P {
            r[i] = a[i];
        } else if i - P < Q {
            r[i] = b[i - P];
        }
        i += 1;
    }
    proof {
        assert(r =~= concat_spec::<T, P, Q, R>(*a, *b));
    }
    r
}

/// The `P` entries of `v` that start at `off` (zero past the end of `v`).
pub fn segment<T: RealScalar, const R: usize, const P: usize>(v: &[T; R], off: usize) -> (r: [T; P])
    ensures
        r == segment_spec::<T, R, P>(*v, off as int),
{
    let mut r: [T; P] = crate::tangent::zeros();
    let mut i: usize = 0;
    while i < P
        invariant
            0 <= i <= P,
            forall|k: int|
                0 <= k < P ==> #[trigger] r[k] == (if k < i && off + k < R {
                    v[off + k]
                } else {
                    T::zero_spec()
                }),
        decreases P - i,
    {
        if off < R && i < R - off {
            r[i] = v[off + i];
        }
        i += 1;
    }
    proof {
        assert(r =~= segment_spec::<T, R, P>(*v, off as int));
    }
    r
}

/// The `P` columns of `m` that start at column `off`.
pub fn columns<T: RealScalar, const R: usize, const C: usize, const P: usize>(
    m: &[[T; C]; R],
    off: usize,
) -> (r: [[T; P]; R])
    ensures
        r == columns_spec::<T, R, C, P>(*m, off as int),
{
    let row: [T; P] = crate::tangent::zeros();
    let mut r: [[T; P]; R] = [row; R];
    let mut i: usize = 0;
    while i < R
        invariant
            0 <= i <= R,
            forall|k: int| 0 <= k < i ==> #[trigger] r[k] == segment_spec::<T, C, P>(m[k], off as int),
        decreases R - i,
    {
        r[i] = segment(&m[i], off);
        i += 1;
    }
    proof {
        assert(r =~= columns_spec::<T, R, C, P>(*m, off as int));
    }
    r
}

/// `a` and `b` placed on the diagonal of an `R x C` zero matrix.
pub fn block_diag<
    T: RealScalar,
    const R1: usize,
    const C1: usize,
    const R2: usize,
    const C2: usize,
    const R: usize,
    const C: usize,
>(a: &[[T; C1]; R1], b: &[[T; C2]; R2]) -> (r: [[T; C]; R])
    ensures
        r == block_diag_spec::<T, R1, C1, R2, C2, R, C>(*a, *b),
{
    let mut r: [[T; C]; R] = zeros_mat();
    let mut i: usize = 0;
    while i < R
        invariant
            0 <= i <= R,
            forall|x: int, y: int|
                0 <= x < R && 0 <= y < C ==> #[trigger] r[x][y] == (if x >= i {
                    T::zero_spec()
                } else if x < R1 && y < C1 {
                    a[x][y]
                } else if R1 <= x && x - R1 < R2 && C1 <= y && y - C1 < C2 {
                    b[x - R1][y - C1]
                } else {
                    T::zero_spec()
                }),
        decreases R - i,
    {
        let mut row = r[i];
        let mut j: usize = 0;
        while j < C
            invariant
                0 <= i < R,
                0 <= j <= C,
                forall|y: int|
                    0 <= y < C ==> #[trigger] row[y] == (if y >= j {
                        T::zero_spec()
                    } else if i < R1 && y < C1 {
                        a[i as int][y]
                    } else if R1 <= i && i - R1 < R2 && C1 <= y && y - C1 < C2 {
                        b[i - R1][y - C1]
                    } else {
                        T::zero_spec()
                    }),
            decreases C - j,
        {
            if i < R1 && j < C1 {
                row[j] = a[i][j];
            } else if R1 <= i && i - R1 < R2 && C1 <= j && j - C1 < C2 {
                row[j] = b[i - R1][j - C1];
            }
            j += 1;
        }
        r[i] = row;
        i += 1;
    }
    proof {
        lemma_mat_eq(r, block_diag_spec::<T, R1, C1, R2, C2, R, C>(*a, *b));
    }
    r
}

/// The Euclidean norm `sqrt(v . v)`.
pub open spec fn norm_spec<T: RealScalar, const N: usize>(v: [T; N]) -> T {
    T::sqrt_spec(dot_spec(v, v))
}

/// The Euclidean norm `sqrt(v . v)`.
pub fn norm<T: RealScalar, const N: usize>(v: &[T; N]) -> (r: T)
    ensures
        r == norm_spec(*v),
{
    dot(v, v).sqrt()
}

/// `v / |v|`.
pub open spec fn normalize_spec<T: RealScalar, const N: usize>(v: [T; N]) -> [T; N] {
    crate::tangent::unscale_spec(v, norm_spec(v))
}

/// `v / |v|`.
pub fn normalize<T: RealScalar, const N: usize>(v: &[T; N]) -> (r: [T; N])
    ensures
        r == normalize_spec(*v),
{
    crate::tangent::unscale(v, norm(v))
}

/// Splitting a concatenation gives back its parts, when both fit.
pub proof fn lemma_segment_concat<T: RealScalar, const P: usize, const Q: usize, const R: usize>(
    a: [T; P],
    b: [T; Q],
)
    requires
        P + Q <= R,
    ensures
        segment_spec::<T, R, P>(concat_spec::<T, P, Q, R>(a, b), 0) == a,
        segment_spec::<T, R, Q>(concat_spec::<T, P, Q, R>(a, b), P as int) == b,
{
    broadcast use crate::tangent::lemma_array_from_fn;

    assert(segment_spec::<T, R, P>(concat_spec::<T, P, Q, R>(a, b), 0) =~= a);
    assert(segment_spec::<T, R, Q>(concat_spec::<T, P, Q, R>(a, b), P as int) =~= b);
}

/// Concatenating the two segments of a vector gives it back, when the
/// segments cover it exactly.
pub proof fn lemma_concat_segment<T: RealScalar, const P: usize, const Q: usize, const R: usize>(v: [T; R])
    requires
        P + Q == R,
    ensures
        concat_spec::<T, P, Q, R>(segment_spec::<T, R, P>(v, 0), segment_spec::<T, R, Q>(v, P as int))
            == v,
{
    broadcast use crate::tangent::lemma_array_from_fn;

    assert(concat_spec::<T, P, Q, R>(segment_spec::<T, R, P>(v, 0), segment_spec::<T, R, Q>(v, P as int))
        =~= v);
}

/// A matrix averaged with its transpose, `(m + m^T) s`, is symmetric in each
/// entry that is not NaN.
pub proof fn lemma_symmetrized_is_symmetric<T: RealScalar, const D: usize>(m: [[T; D]; D], s: T, i: int, j: int)
    requires
        0 <= i < D,
        0 <= j < D,
        !T::is_nan_spec(mat_scale_spec(mat_add_spec(m, transpose_spec(m)), s)[i][j]),
    ensures
        mat_scale_spec(mat_add_spec(m, transpose_spec(m)), s)[i][j] == mat_scale_spec(
            mat_add_spec(m, transpose_spec(m)),
            s,
        )[j][i],
{
    let t = transpose_spec(m);
    assert(t[i][j] == m[j][i]);
    assert(t[j][i] == m[i][j]);
    let sum = T::add_spec(m[i][j], m[j][i]);
    assert(mat_scale_spec(mat_add_spec(m, t), s)[i][j] == T::mul_spec(sum, s));
    T::lemma_mul_not_nan(sum, s);
    T::lemma_add_commutative(m[i][j], m[j][i]);
}

/// A sum that is not NaN has no NaN term.
pub proof fn lemma_sum_to_terms_not_nan<T: RealScalar>(f: spec_fn(int) -> T, n: int)
    requires
        !T::is_nan_spec(sum_to(f, n)),
    ensures
        forall|k: int| 0 <= k < n ==> !T::is_nan_spec(#[trigger] f(k)),
    decreases n,
{
    if n > 0 {
        T::lemma_add_not_nan(sum_to(f, n - 1), f(n - 1));
        lemma_sum_to_terms_not_nan(f, n - 1);
    }
}

/// Sums of terms that agree one by one are equal.
pub proof fn lemma_sum_to_congruent<T: RealScalar>(f: spec_fn(int) -> T, g: spec_fn(int) -> T, n: int)
    requires
        forall|k: int| 0 <= k < n ==> #[trigger] f(k) == g(k),
    ensures
        sum_to(f, n) == sum_to(g, n),
    decreases n,
{
    if n > 0 {
        lemma_sum_to_congruent(f, g, n - 1);
    }
}

/// The dot product is symmetric wherever it is not NaN.
pub proof fn lemma_dot_symmetric<T: RealScalar, const K: usize>(u: [T; K], v: [T; K])
    requires
        !T::is_nan_spec(dot_spec(u, v)),
    ensures
        dot_spec(u, v) == dot_spec(v, u),
{
    let f = |k: int| T::mul_spec(u[k], v[k]);
    let g = |k: int| T::mul_spec(v[k], u[k]);
    lemma_sum_to_terms_not_nan(f, K as int);
    assert forall|k: int| 0 <= k < K implies #[trigger] f(k) == g(k) by {
        assert(!T::is_nan_spec(f(k)));
        T::lemma_mul_commutative(u[k], v[k]);
    }
    lemma_sum_to_congruent(f, g, K as int);
}

/// The transpose of a product is the product of the transposes in reverse
/// order, `(a b)^T = b^T a^T`, in each entry that is not NaN.
pub proof fn lemma_transpose_of_product<T: RealScalar, const R: usize, const K: usize, const C: usize>(
    a: [[T; K]; R],
    b: [[T; C]; K],
    i: int,
    j: int,
)
    requires
        0 <= i < R,
        0 <= j < C,
        !T::is_nan_spec(mat_mul_spec(a, b)[i][j]),
    ensures
        transpose_spec(mat_mul_spec(a, b))[j][i] == mat_mul_spec(transpose_spec(b), transpose_spec(a))[j][i],
{
    let bt = transpose_spec(b);
    let at = transpose_spec(a);
    assert(bt[j] == column_spec(b, j));
    assert(column_spec(at, i) =~= a[i]);
    lemma_dot_symmetric(a[i], column_spec(b, j));
}

/// Entry `(i, j)` of a product is the sum over `k` of `a[i][k] b[k][j]`.
pub proof fn lemma_mat_mul_entry<T: RealScalar, const R: usize, const K: usize, const C: usize>(
    a: [[T; K]; R],
    b: [[T; C]; K],
    i: int,
    j: int,
)
    requires
        0 <= i < R,
        0 <= j < C,
    ensures
        mat_mul_spec(a, b)[i][j] == sum_to(|k: int| T::mul_spec(a[i][k], b[k][j]), K as int),
{
    let f = |k: int| T::mul_spec(a[i][k], column_spec(b, j)[k]);
    let g = |k: int| T::mul_spec(a[i][k], b[k][j]);
    assert(mat_mul_spec(a, b)[i][j] == dot_spec(a[i], column_spec(b, j)));
    assert(dot_spec(a[i], column_spec(b, j)) == sum_to(f, K as int));
    assert forall|k: int| 0 <= k < K implies #[trigger] f(k) == g(k) by {
        assert(column_spec(b, j)[k] == b[k][j]);
    }
    lemma_sum_to_congruent(f, g, K as int);
}

/// Entry `(i, j)` of the congruence `a p a^T` is
/// `sum_l (sum_k a[i][k] p[k][l]) a[j][l]`.
pub proof fn lemma_congruence_entry<T: RealScalar, const R: usize, const K: usize>(
    a: [[T; K]; R],
    p: [[T; K]; K],
    i: int,
    j: int,
)
    requires
        0 <= i < R,
        0 <= j < R,
    ensures
        mat_mul_spec(mat_mul_spec(a, p), transpose_spec(a))[i][j] == sum_to(
            |l: int| T::mul_spec(sum_to(|k: int| T::mul_spec(a[i][k], p[k][l]), K as int), a[j][l]),
            K as int,
        ),
{
    let ap = mat_mul_spec(a, p);
    let at = transpose_spec(a);
    lemma_mat_mul_entry(ap, at, i, j);
    let f = |l: int| T::mul_spec(ap[i][l], at[l][j]);
    let g = |l: int| T::mul_spec(sum_to(|k: int| T::mul_spec(a[i][k], p[k][l]), K as int), a[j][l]);
    assert forall|l: int| 0 <= l < K implies #[trigger] f(l) == g(l) by {
        lemma_mat_mul_entry(a, p, i, l);
        assert(at[l][j] == a[j][l]);
    }
    lemma_sum_to_congruent(f, g, K as int);
}

} // verus!
