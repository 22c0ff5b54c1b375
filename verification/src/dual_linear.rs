//! Dense linear solves on matrices of dual numbers. The value part goes
//! through the scalar's own decomposition and the derivative part through the
//! derivative of the inverse, `d(A^-1) = -A^-1 dA A^-1`, so a linear solve
//! inside a differentiated computation is differentiated too. The values are
//! exactly the scalar's decomposition of the values; the derivatives are the
//! closed form, which agrees up to rounding with running the decomposition's
//! own arithmetic on dual numbers.
use vstd::prelude::*;
use crate::scalar::{LinearSolve, RealScalar};
use crate::dual::Dual;
use crate::linalg::{
    lemma_mat_mul_entry, lemma_sum_to_congruent, mat_mul, mat_mul_spec, mat_vec, mat_vec_spec, sum_to, zeros_mat,
};
use crate::tangent::{array_from_fn, lemma_array_from_fn, sub_spec, zeros};

verus! {

broadcast use lemma_array_from_fn;

/// The value parts of a square matrix of dual numbers.
pub open spec fn value_matrix<T: RealScalar, const N: usize, const D: usize>(m: [[Dual<T, N>; D]; D]) -> [[T; D]; D] {
    array_from_fn::<[T; D], D>(|i: int| array_from_fn::<T, D>(|j: int| m[i][j].re))
}

/// The derivatives in slot `k` of a square matrix of dual numbers.
pub open spec fn tangent_matrix<T: RealScalar, const N: usize, const D: usize>(
    m: [[Dual<T, N>; D]; D],
    k: int,
) -> [[T; D]; D] {
    array_from_fn::<[T; D], D>(|i: int| array_from_fn::<T, D>(|j: int| m[i][j].eps[k]))
}

/// The value parts of a vector of dual numbers.
pub open spec fn value_vector<T: RealScalar, const N: usize, const D: usize>(b: [Dual<T, N>; D]) -> [T; D] {
    array_from_fn::<T, D>(|i: int| b[i].re)
}

/// The derivatives in slot `k` of a vector of dual numbers.
pub open spec fn tangent_vector<T: RealScalar, const N: usize, const D: usize>(b: [Dual<T, N>; D], k: int) -> [T; D] {
    array_from_fn::<T, D>(|i: int| b[i].eps[k])
}

/// The derivative of the inverse along slot `k`: `-inv dA_k inv`, entry `(i, j)`.
pub open spec fn inverse_tangent<T: RealScalar, const N: usize, const D: usize>(
    m: [[Dual<T, N>; D]; D],
    inv: [[T; D]; D],
    k: int,
    i: int,
    j: int,
) -> T {
    T::neg_spec(mat_mul_spec(mat_mul_spec(inv, tangent_matrix(m, k)), inv)[i][j])
}

/// The inverse of `m` as dual numbers, given the inverse `inv` of its values:
/// value `inv` and, in slot `k`, the derivative `-inv dA_k inv`.
pub open spec fn inverse_dual_spec<T: RealScalar, const N: usize, const D: usize>(
    m: [[Dual<T, N>; D]; D],
    inv: [[T; D]; D],
) -> [[Dual<T, N>; D]; D] {
    array_from_fn::<[Dual<T, N>; D], D>(
        |i: int|
            array_from_fn::<Dual<T, N>, D>(
                |j: int| Dual::<T, N>::build(inv[i][j], |k: int| inverse_tangent(m, inv, k, i, j)),
            ),
    )
}

/// The derivative of the solution along slot `k`: `inv (db_k - dA_k x)`.
pub open spec fn solution_tangent<T: RealScalar, const N: usize, const D: usize>(
    m: [[Dual<T, N>; D]; D],
    b: [Dual<T, N>; D],
    x: [T; D],
    inv: [[T; D]; D],
    k: int,
) -> [T; D] {
    mat_vec_spec(inv, sub_spec(tangent_vector(b, k), mat_vec_spec(tangent_matrix(m, k), x)))
}

/// The solution of `m x = b` as dual numbers, given the solution `x` and the
/// inverse `inv` of the values: value `x` and, in slot `k`, the derivative
/// `inv (db_k - dA_k x)`.
pub open spec fn solution_dual_spec<T: RealScalar, const N: usize, const D: usize>(
    m: [[Dual<T, N>; D]; D],
    b: [Dual<T, N>; D],
    x: [T; D],
    inv: [[T; D]; D],
) -> [Dual<T, N>; D] {
    array_from_fn::<Dual<T, N>, D>(
        |i: int| Dual::<T, N>::build(x[i], |k: int| solution_tangent(m, b, x, inv, k)[i]),
    )
}

fn values_of_matrix<T: RealScalar, const N: usize, const D: usize>(m: &[[Dual<T, N>; D]; D]) -> (r: [[T; D]; D])
    ensures
        r == value_matrix(*m),
{
    let mut r: [[T; D]; D] = zeros_mat();
    let mut i: usize = 0;
    while i < D
        invariant
            0 <= i <= D,
            forall|a: int, c: int| 0 <= a < i && 0 <= c < D ==> #[trigger] r[a][c] == m[a][c].re,
        decreases D - i,
    {
        let mut row: [T; D] = zeros();
        let mut j: usize = 0;
        while j < D
            invariant
                0 <= i < D,
                0 <= j <= D,
                forall|c: int| 0 <= c < j ==> #[trigger] row[c] == m[i as int][c].re,
            decreases D - j,
        {
            row[j] = m[i][j].re;
            j += 1;
        }
        r[i] = row;
        i += 1;
    }
    proof {
        crate::linalg::lemma_mat_eq(r, value_matrix(*m));
    }
    r
}

fn tangents_of_matrix<T: RealScalar, const N: usize, const D: usize>(m: &[[Dual<T, N>; D]; D], k: usize) -> (r: [[T; D]; D])
    requires
        k < N,
    ensures
        r == tangent_matrix(*m, k as int),
{
    let mut r: [[T; D]; D] = zeros_mat();
    let mut i: usize = 0;
    while i < D
        invariant
            0 <= i <= D,
            k < N,
            forall|a: int, c: int| 0 <= a < i && 0 <= c < D ==> #[trigger] r[a][c] == m[a][c].eps[k as int],
        decreases D - i,
    {
        let mut row: [T; D] = zeros();
        let mut j: usize = 0;
        while j < D
            invariant
                0 <= i < D,
                0 <= j <= D,
                k < N,
                forall|c: int| 0 <= c < j ==> #[trigger] row[c] == m[i as int][c].eps[k as int],
            decreases D - j,
        {
            row[j] = m[i][j].eps[k];
            j += 1;
        }
        r[i] = row;
        i += 1;
    }
    proof {
        crate::linalg::lemma_mat_eq(r, tangent_matrix(*m, k as int));
    }
    r
}

fn values_of_vector<T: RealScalar, const N: usize, const D: usize>(b: &[Dual<T, N>; D]) -> (r: [T; D])
    ensures
        r == value_vector(*b),
{
    let mut r: [T; D] = zeros();
    let mut i: usize = 0;
    while i < D
        invariant
            0 <= i <= D,
            forall|a: int| 0 <= a < i ==> #[trigger] r[a] == b[a].re,
        decreases D - i,
    {
        r[i] = b[i].re;
        i += 1;
    }
    proof {
        assert(r =~= value_vector(*b));
    }
    r
}

fn tangents_of_vector<T: RealScalar, const N: usize, const D: usize>(b: &[Dual<T, N>; D], k: usize) -> (r: [T; D])
    requires
        k < N,
    ensures
        r == tangent_vector(*b, k as int),
{
    let mut r: [T; D] = zeros();
    let mut i: usize = 0;
    while i < D
        invariant
            0 <= i <= D,
            k < N,
            forall|a: int| 0 <= a < i ==> #[trigger] r[a] == b[a].eps[k as int],
        decreases D - i,
    {
        r[i] = b[i].eps[k];
        i += 1;
    }
    proof {
        assert(r =~= tangent_vector(*b, k as int));
    }
    r
}

/// The inverse of `m` as dual numbers, from the inverse `inv` of its values.
fn inverse_dual<T: RealScalar, const N: usize, const D: usize>(
    m: &[[Dual<T, N>; D]; D],
    inv: &[[T; D]; D],
) -> (r: [[Dual<T, N>; D]; D])
    ensures
        r == inverse_dual_spec(*m, *inv),
{
    let zero: [[T; D]; D] = zeros_mat();
    let mut prods: [[[T; D]; D]; N] = [zero; N];
    let mut k: usize = 0;
    while k < N
        invariant
            0 <= k <= N,
            forall|c: int|
                0 <= c < k ==> #[trigger] prods[c] == mat_mul_spec(
                    mat_mul_spec(*inv, tangent_matrix(*m, c)),
                    *inv,
                ),
        decreases N - k,
    {
        prods[k] = mat_mul(&mat_mul(inv, &tangents_of_matrix(m, k)), inv);
        k += 1;
    }
    let z = Dual::<T, N>::from_re(T::zero());
    let mut r: [[Dual<T, N>; D]; D] = [[z; D]; D];
    let mut i: usize = 0;
    while i < D
        invariant
            0 <= i <= D,
            forall|c: int|
                0 <= c < N ==> #[trigger] prods[c] == mat_mul_spec(
                    mat_mul_spec(*inv, tangent_matrix(*m, c)),
                    *inv,
                ),
            forall|a: int, c: int|
                0 <= a < i && 0 <= c < D ==> #[trigger] r[a][c] == inverse_dual_spec(*m, *inv)[a][c],
        decreases D - i,
    {
        let mut row: [Dual<T, N>; D] = [z; D];
        let mut j: usize = 0;
        while j < D
            invariant
                0 <= i < D,
                0 <= j <= D,
                forall|c: int|
                    0 <= c < N ==> #[trigger] prods[c] == mat_mul_spec(
                        mat_mul_spec(*inv, tangent_matrix(*m, c)),
                        *inv,
                    ),
                forall|c: int| 0 <= c < j ==> #[trigger] row[c] == inverse_dual_spec(*m, *inv)[i as int][c],
            decreases D - j,
        {
            let mut eps: [T; N] = zeros();
            let mut s: usize = 0;
            while s < N
                invariant
                    0 <= i < D,
                    0 <= j < D,
                    0 <= s <= N,
                    forall|c: int|
                        0 <= c < N ==> #[trigger] prods[c] == mat_mul_spec(
                            mat_mul_spec(*inv, tangent_matrix(*m, c)),
                            *inv,
                        ),
                    forall|c: int| 0 <= c < s ==> #[trigger] eps[c] == inverse_tangent(*m, *inv, c, i as int, j as int),
                decreases N - s,
            {
                eps[s] = prods[s][i][j].neg();
                s += 1;
            }
            let entry = Dual::new(inv[i][j], eps);
            proof {
                let g = |c: int| inverse_tangent(*m, *inv, c, i as int, j as int);
                crate::tangent::lemma_array_eq_from_fn(eps, g);
                assert(inverse_dual_spec(*m, *inv)[i as int][j as int] == Dual::<T, N>::build(inv[i as int][j as int], g));
            }
            row[j] = entry;
            j += 1;
        }
        r[i] = row;
        i += 1;
    }
    proof {
        crate::linalg::lemma_mat_eq(r, inverse_dual_spec(*m, *inv));
    }
    r
}

/// The solution of `m x = b` as dual numbers, from the solution `x` and the
/// inverse `inv` of the values.
fn solution_dual<T: RealScalar, const N: usize, const D: usize>(
    m: &[[Dual<T, N>; D]; D],
    b: &[Dual<T, N>; D],
    x: &[T; D],
    inv: &[[T; D]; D],
) -> (r: [Dual<T, N>; D])
    ensures
        r == solution_dual_spec(*m, *b, *x, *inv),
{
    let zero: [T; D] = zeros();
    let mut corr: [[T; D]; N] = [zero; N];
    let mut k: usize = 0;
    while k < N
        invariant
            0 <= k <= N,
            forall|c: int| 0 <= c < k ==> #[trigger] corr[c] == solution_tangent(*m, *b, *x, *inv, c),
        decreases N - k,
    {
        let rhs = crate::tangent::sub(&tangents_of_vector(b, k), &mat_vec(&tangents_of_matrix(m, k), x));
        corr[k] = mat_vec(inv, &rhs);
        k += 1;
    }
    let z = Dual::<T, N>::from_re(T::zero());
    let mut r: [Dual<T, N>; D] = [z; D];
    let mut i: usize = 0;
    while i < D
        invariant
            0 <= i <= D,
            forall|c: int| 0 <= c < N ==> #[trigger] corr[c] == solution_tangent(*m, *b, *x, *inv, c),
            forall|a: int| 0 <= a < i ==> #[trigger] r[a] == solution_dual_spec(*m, *b, *x, *inv)[a],
        decreases D - i,
    {
        let mut eps: [T; N] = zeros();
        let mut s: usize = 0;
        while s < N
            invariant
                0 <= i < D,
                0 <= s <= N,
                forall|c: int| 0 <= c < N ==> #[trigger] corr[c] == solution_tangent(*m, *b, *x, *inv, c),
                forall|c: int| 0 <= c < s ==> #[trigger] eps[c] == solution_tangent(*m, *b, *x, *inv, c)[i as int],
            decreases N - s,
        {
            eps[s] = corr[s][i];
            s += 1;
        }
        proof {
            let g = |c: int| solution_tangent(*m, *b, *x, *inv, c)[i as int];
            crate::tangent::lemma_array_eq_from_fn(eps, g);
            assert(solution_dual_spec(*m, *b, *x, *inv)[i as int] == Dual::<T, N>::build(x[i as int], g));
        }
        r[i] = Dual::new(x[i], eps);
        i += 1;
    }
    proof {
        assert(r =~= solution_dual_spec(*m, *b, *x, *inv));
    }
    r
}

impl<T: LinearSolve<D>, const N: usize, const D: usize> LinearSolve<D> for Dual<T, N> {
    /// The scalar's inverse of the values, differentiated as `-A^-1 dA A^-1`.
    open spec fn try_inverse_spec(m: [[Self; D]; D]) -> Option<[[Self; D]; D]> {
        match T::try_inverse_spec(value_matrix(m)) {
            Some(inv) => Some(inverse_dual_spec(m, inv)),
            None => None,
        }
    }

    /// The scalar's Cholesky inverse of the values, differentiated as
    /// `-A^-1 dA A^-1`.
    open spec fn cholesky_inverse_spec(m: [[Self; D]; D]) -> Option<[[Self; D]; D]> {
        match T::cholesky_inverse_spec(value_matrix(m)) {
            Some(inv) => Some(inverse_dual_spec(m, inv)),
            None => None,
        }
    }

    /// The scalar's Cholesky solve on the values, differentiated as
    /// `A^-1 (db - dA x)` with the scalar's Cholesky inverse.
    open spec fn cholesky_solve_spec(m: [[Self; D]; D], b: [Self; D]) -> Option<[Self; D]> {
        match (T::cholesky_solve_spec(value_matrix(m), value_vector(b)), T::cholesky_inverse_spec(value_matrix(m))) {
            (Some(x), Some(inv)) => Some(solution_dual_spec(m, b, x, inv)),
            _ => None,
        }
    }

    fn try_inverse(m: &[[Self; D]; D]) -> (r: Option<[[Self; D]; D]>) {
        match T::try_inverse(&values_of_matrix(m)) {
            Some(inv) => Some(inverse_dual(m, &inv)),
            None => None,
        }
    }

    fn cholesky_inverse(m: &[[Self; D]; D]) -> (r: Option<[[Self; D]; D]>) {
        match T::cholesky_inverse(&values_of_matrix(m)) {
            Some(inv) => Some(inverse_dual(m, &inv)),
            None => None,
        }
    }

    fn cholesky_solve(m: &[[Self; D]; D], b: &[Self; D]) -> (r: Option<[Self; D]>) {
        let values = values_of_matrix(m);
        match (T::cholesky_solve(&values, &values_of_vector(b)), T::cholesky_inverse(&values)) {
            (Some(x), Some(inv)) => Some(solution_dual(m, b, &x, &inv)),
            _ => None,
        }
    }
}

/// The inverse of a matrix of dual numbers differentiates `A A^-1 = I`: when
/// the scalar's inverse (plain, or Cholesky) of the values is `inv`, the
/// inverse of `m` is found, entry `(i, j)` has value `inv[i][j]`, and its
/// derivative in slot `k` is entry `(i, j)` of `-A^-1 dA_k A^-1`, that is
/// `-(sum_l (sum_p inv[i][p] m[p][l].eps[k]) inv[l][j])`.
pub proof fn lemma_inverse_derivative<T: LinearSolve<D>, const N: usize, const D: usize>(
    m: [[Dual<T, N>; D]; D],
    i: int,
    j: int,
    k: int,
)
    requires
        0 <= i < D,
        0 <= j < D,
        0 <= k < N,
    ensures
        ({
            let inverse_entry = |inv: [[T; D]; D]|
                Dual::<T, N>::build(
                    inv[i][j],
                    |s: int|
                        T::neg_spec(
                            sum_to(
                                |l: int|
                                    T::mul_spec(
                                        sum_to(|p: int| T::mul_spec(inv[i][p], m[p][l].eps[s]), D as int),
                                        inv[l][j],
                                    ),
                                D as int,
                            ),
                        ),
                );
            &&& T::try_inverse_spec(value_matrix(m)) is Some ==> {
                &&& <Dual<T, N> as LinearSolve<D>>::try_inverse_spec(m) is Some
                &&& <Dual<T, N> as LinearSolve<D>>::try_inverse_spec(m)->0[i][j] == inverse_entry(
                    T::try_inverse_spec(value_matrix(m))->0,
                )
            }
            &&& T::cholesky_inverse_spec(value_matrix(m)) is Some ==> {
                &&& <Dual<T, N> as LinearSolve<D>>::cholesky_inverse_spec(m) is Some
                &&& <Dual<T, N> as LinearSolve<D>>::cholesky_inverse_spec(m)->0[i][j] == inverse_entry(
                    T::cholesky_inverse_spec(value_matrix(m))->0,
                )
            }
        }),
{
    assert forall|inv: [[T; D]; D]| #[trigger] inverse_dual_spec(m, inv)[i][j] == Dual::<T, N>::build(
        inv[i][j],
        |s: int|
            T::neg_spec(
                sum_to(
                    |l: int| T::mul_spec(sum_to(|p: int| T::mul_spec(inv[i][p], m[p][l].eps[s]), D as int), inv[l][j]),
                    D as int,
                ),
            ),
    ) by {
        let f = |s: int| inverse_tangent(m, inv, s, i, j);
        let g = |s: int|
            T::neg_spec(
                sum_to(
                    |l: int| T::mul_spec(sum_to(|p: int| T::mul_spec(inv[i][p], m[p][l].eps[s]), D as int), inv[l][j]),
                    D as int,
                ),
            );
        assert forall|s: int| 0 <= s < N implies #[trigger] f(s) == g(s) by {
            let dm = tangent_matrix(m, s);
            let left = mat_mul_spec(inv, dm);
            lemma_mat_mul_entry(left, inv, i, j);
            let a = |l: int| T::mul_spec(left[i][l], inv[l][j]);
            let b = |l: int| T::mul_spec(sum_to(|p: int| T::mul_spec(inv[i][p], m[p][l].eps[s]), D as int), inv[l][j]);
            assert forall|l: int| 0 <= l < D implies #[trigger] a(l) == b(l) by {
                lemma_mat_mul_entry(inv, dm, i, l);
                let c = |p: int| T::mul_spec(inv[i][p], dm[p][l]);
                let e = |p: int| T::mul_spec(inv[i][p], m[p][l].eps[s]);
                lemma_sum_to_congruent(c, e, D as int);
            }
            lemma_sum_to_congruent(a, b, D as int);
        }
        assert(array_from_fn::<T, N>(f) =~= array_from_fn::<T, N>(g));
    }
}

/// The solution of `m x = b` on dual numbers differentiates `A x = b`: when
/// the scalar's Cholesky solve of the values gives `x` and its Cholesky
/// inverse gives `inv`, the solution is found, entry `i` has value `x[i]`,
/// and its derivative in slot `k` is entry `i` of `A^-1 (db_k - dA_k x)`,
/// that is `sum_p inv[i][p] (b[p].eps[k] - sum_l m[p][l].eps[k] x[l])`.
/// Without either of the two, there is no solution.
pub proof fn lemma_solution_derivative<T: LinearSolve<D>, const N: usize, const D: usize>(
    m: [[Dual<T, N>; D]; D],
    b: [Dual<T, N>; D],
    i: int,
)
    requires
        0 <= i < D,
    ensures
        ({
            let values = value_matrix(m);
            match (T::cholesky_solve_spec(values, value_vector(b)), T::cholesky_inverse_spec(values)) {
                (Some(x), Some(inv)) => {
                    &&& <Dual<T, N> as LinearSolve<D>>::cholesky_solve_spec(m, b) is Some
                    &&& <Dual<T, N> as LinearSolve<D>>::cholesky_solve_spec(m, b)->0[i] == Dual::<T, N>::build(
                        x[i],
                        |s: int|
                            sum_to(
                                |p: int|
                                    T::mul_spec(
                                        inv[i][p],
                                        T::sub_spec(
                                            b[p].eps[s],
                                            sum_to(|l: int| T::mul_spec(m[p][l].eps[s], x[l]), D as int),
                                        ),
                                    ),
                                D as int,
                            ),
                    )
                },
                _ => <Dual<T, N> as LinearSolve<D>>::cholesky_solve_spec(m, b) is None,
            }
        }),
{
    let values = value_matrix(m);
    if let (Some(x), Some(inv)) = (T::cholesky_solve_spec(values, value_vector(b)), T::cholesky_inverse_spec(values)) {
        let f = |s: int| solution_tangent(m, b, x, inv, s)[i];
        let g = |s: int|
            sum_to(
                |p: int|
                    T::mul_spec(
                        inv[i][p],
                        T::sub_spec(b[p].eps[s], sum_to(|l: int| T::mul_spec(m[p][l].eps[s], x[l]), D as int)),
                    ),
                D as int,
            );
        assert forall|s: int| 0 <= s < N implies #[trigger] f(s) == g(s) by {
            let dm = tangent_matrix(m, s);
            let rhs = sub_spec(tangent_vector(b, s), mat_vec_spec(dm, x));
            let a = |p: int| T::mul_spec(inv[i][p], rhs[p]);
            let c = |p: int|
                T::mul_spec(
                    inv[i][p],
                    T::sub_spec(b[p].eps[s], sum_to(|l: int| T::mul_spec(m[p][l].eps[s], x[l]), D as int)),
                );
            assert forall|p: int| 0 <= p < D implies #[trigger] a(p) == c(p) by {
                let u = |l: int| T::mul_spec(dm[p][l], x[l]);
                let v = |l: int| T::mul_spec(m[p][l].eps[s], x[l]);
                lemma_sum_to_congruent(u, v, D as int);
            }
            lemma_sum_to_congruent(a, c, D as int);
        }
        assert(array_from_fn::<T, N>(f) =~= array_from_fn::<T, N>(g));
    }
}

} // verus!
