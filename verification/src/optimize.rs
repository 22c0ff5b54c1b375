//! Nonlinear least squares over a fixed-size horizon of states.
use vstd::prelude::*;
use crate::scalar::{LinearSolve, RealScalar};
use crate::linalg::{
    lemma_mat_eq, lemma_mat_mul_entry, lemma_sum_to_congruent, mat_mul, mat_mul_spec, mat_vec, mat_vec_spec, norm,
    norm_spec, sum_to, transpose, transpose_spec,
};
use crate::tangent;
use crate::tangent::neg_spec;

verus! {

/// A cost written generically over the scalar, so that it can be evaluated
/// on plain values or on dual numbers.
pub trait CostFunction<U, const RESIDUAL_DIM: usize, const TOTAL_PARAMETER_DIM: usize> {
    spec fn evaluate_spec<T: RealScalar>(&self, parameters: [T; TOTAL_PARAMETER_DIM]) -> [T; RESIDUAL_DIM];

    fn evaluate<T: RealScalar>(&self, parameters: &[T; TOTAL_PARAMETER_DIM]) -> (r: [T; RESIDUAL_DIM])
        ensures
            r == self.evaluate_spec::<T>(*parameters),
    ;
}

/// A least-squares problem over a state of `STATE_DIM` tangent coordinates
/// with `RESIDUAL_DIM` residuals.
pub trait OptimizationHorizon<U, const STATE_DIM: usize, const RESIDUAL_DIM: usize>: Sized {
    spec fn residuals_spec(&self) -> [U; RESIDUAL_DIM];

    /// The Jacobian of the residuals and their information (weight) matrix.
    spec fn linearize_spec(&self) -> ([[U; STATE_DIM]; RESIDUAL_DIM], [[U; RESIDUAL_DIM]; RESIDUAL_DIM]);

    /// The state after the tangent step `delta_x`.
    spec fn retracted_spec(&self, delta_x: [U; STATE_DIM]) -> Self;

    fn compute_residuals(&self) -> (r: [U; RESIDUAL_DIM])
        ensures
            r == self.residuals_spec(),
    ;

    fn linearize(&self) -> (r: ([[U; STATE_DIM]; RESIDUAL_DIM], [[U; RESIDUAL_DIM]; RESIDUAL_DIM]))
        ensures
            r == self.linearize_spec(),
    ;

    fn retract_step(&mut self, delta_x: &[U; STATE_DIM])
        ensures
            *final(self) == old(self).retracted_spec(*delta_x),
    ;
}

/// Options of a solve.
pub struct SolverOptions<U> {
    pub max_iterations: usize,
    pub step_tolerance: U,
}

/// What a solve reports.
pub struct SolverSummary<U> {
    pub initial_cost: U,
    pub final_cost: U,
    pub iterations: usize,
}

/// A solver for [`OptimizationHorizon`] problems.
pub trait StaticNonlinearSolver<U, const STATE_DIM: usize, const RESIDUAL_DIM: usize> {
    fn solve<H: OptimizationHorizon<U, STATE_DIM, RESIDUAL_DIM>>(
        &self,
        options: &SolverOptions<U>,
        horizon: &mut H,
    ) -> SolverSummary<U>;
}

/// The Levenberg-Marquardt method on stack-sized matrices.
pub struct StaticLevenbergMarquardt;

/// `m + lambda I` on the diagonal.
pub open spec fn add_diagonal_spec<U: RealScalar, const D: usize>(m: [[U; D]; D], lambda: U) -> [[U; D]; D] {
    tangent::array_from_fn::<[U; D], D>(
        |i: int|
            tangent::array_from_fn::<U, D>(
                |j: int|
                    if i == j {
                        U::add_spec(m[i][j], lambda)
                    } else {
                        m[i][j]
                    },
            ),
    )
}

/// `m + lambda I` on the diagonal.
pub fn add_diagonal<U: RealScalar, const D: usize>(m: &[[U; D]; D], lambda: U) -> (r: [[U; D]; D])
    ensures
        r == add_diagonal_spec(*m, lambda),
{
    let mut r = *m;
    let mut i: usize = 0;
    while i < D
        invariant
            0 <= i <= D,
            forall|a: int, b: int|
                0 <= a < D && 0 <= b < D ==> #[trigger] r[a][b] == (if a == b && a < i {
                    U::add_spec(m[a][b], lambda)
                } else {
                    m[a][b]
                }),
        decreases D - i,
    {
        let mut row = r[i];
        row[i] = row[i].add(lambda);
        r[i] = row;
        i += 1;
    }
    proof {
        broadcast use crate::tangent::lemma_array_from_fn;

        crate::linalg::lemma_mat_eq(r, add_diagonal_spec(*m, lambda));
    }
    r
}

/// The Levenberg-Marquardt iterations from `horizon`, with damping `lambda`,
/// the best residuals so far and their cost (Euclidean norm), `iterations`
/// steps at most: the final horizon and best cost.
///
/// Each step solves `(J^T W J + lambda I) dx = -J^T W r` through the Cholesky
/// factor (stopping when it fails), retracts by `dx`, and keeps the step when
/// the cost decreases (dividing `lambda` by ten), else retracts by `-dx`
/// (multiplying `lambda` by ten).
pub open spec fn levenberg_marquardt_spec<
    U: LinearSolve<STATE_DIM>,
    H: OptimizationHorizon<U, STATE_DIM, RESIDUAL_DIM>,
    const STATE_DIM: usize,
    const RESIDUAL_DIM: usize,
>(horizon: H, lambda: U, best_residuals: [U; RESIDUAL_DIM], best_cost: U, iterations: nat) -> (H, U)
    decreases iterations,
{
    if iterations == 0 {
        (horizon, best_cost)
    } else {
        let (jacobian, info) = horizon.linearize_spec();
        let jt = transpose_spec(jacobian);
        let weighted = mat_mul_spec(jt, info);
        let hessian = add_diagonal_spec(mat_mul_spec(weighted, jacobian), lambda);
        let gradient = mat_vec_spec(weighted, best_residuals);
        match U::cholesky_solve_spec(hessian, neg_spec(gradient)) {
            None => (horizon, best_cost),
            Some(delta_x) => {
                let moved = horizon.retracted_spec(delta_x);
                let new_residuals = moved.residuals_spec();
                let new_cost = norm_spec(new_residuals);
                if U::lt_spec(new_cost, best_cost) {
                    levenberg_marquardt_spec(
                        moved,
                        U::div_spec(lambda, U::from_i32_spec(10)),
                        new_residuals,
                        new_cost,
                        (iterations - 1) as nat,
                    )
                } else {
                    levenberg_marquardt_spec(
                        moved.retracted_spec(neg_spec(delta_x)),
                        U::mul_spec(lambda, U::from_i32_spec(10)),
                        best_residuals,
                        best_cost,
                        (iterations - 1) as nat,
                    )
                }
            },
        }
    }
}

/// The Levenberg-Marquardt iterations never end above the cost they start
/// from: a step is kept only when it lowers the best cost, so the final cost
/// is the starting one or strictly below it.
pub proof fn lemma_levenberg_marquardt_never_increases_cost<
    U: LinearSolve<STATE_DIM>,
    H: OptimizationHorizon<U, STATE_DIM, RESIDUAL_DIM>,
    const STATE_DIM: usize,
    const RESIDUAL_DIM: usize,
>(horizon: H, lambda: U, best_residuals: [U; RESIDUAL_DIM], best_cost: U, iterations: nat)
    ensures
        ({
            let final_cost = levenberg_marquardt_spec::<U, H, STATE_DIM, RESIDUAL_DIM>(
                horizon,
                lambda,
                best_residuals,
                best_cost,
                iterations,
            ).1;
            final_cost == best_cost || U::lt_spec(final_cost, best_cost)
        }),
    decreases iterations,
{
    if iterations > 0 {
        let (jacobian, info) = horizon.linearize_spec();
        let jt = transpose_spec(jacobian);
        let weighted = mat_mul_spec(jt, info);
        let hessian = add_diagonal_spec(mat_mul_spec(weighted, jacobian), lambda);
        let gradient = mat_vec_spec(weighted, best_residuals);
        match U::cholesky_solve_spec(hessian, neg_spec(gradient)) {
            None => {},
            Some(delta_x) => {
                let moved = horizon.retracted_spec(delta_x);
                let new_residuals = moved.residuals_spec();
                let new_cost = norm_spec(new_residuals);
                if U::lt_spec(new_cost, best_cost) {
                    let next_lambda = U::div_spec(lambda, U::from_i32_spec(10));
                    lemma_levenberg_marquardt_never_increases_cost::<U, H, STATE_DIM, RESIDUAL_DIM>(
                        moved,
                        next_lambda,
                        new_residuals,
                        new_cost,
                        (iterations - 1) as nat,
                    );
                    let final_cost = levenberg_marquardt_spec::<U, H, STATE_DIM, RESIDUAL_DIM>(
                        moved,
                        next_lambda,
                        new_residuals,
                        new_cost,
                        (iterations - 1) as nat,
                    ).1;
                    if final_cost != new_cost {
                        U::lemma_lt_transitive(final_cost, new_cost, best_cost);
                    }
                } else {
                    lemma_levenberg_marquardt_never_increases_cost::<U, H, STATE_DIM, RESIDUAL_DIM>(
                        moved.retracted_spec(neg_spec(delta_x)),
                        U::mul_spec(lambda, U::from_i32_spec(10)),
                        best_residuals,
                        best_cost,
                        (iterations - 1) as nat,
                    );
                }
            },
        }
    }
}

/// One Levenberg-Marquardt step, in terms of the Jacobian `J` and the
/// information matrix `W` of the residuals at the current horizon: the step
/// `dx` solves the weighted damped normal equations
/// `(J^T W J + lambda I) dx = -J^T W r`, with the same `W` weighing the
/// Hessian `sum_i (sum_m J[m][a] W[m][i]) J[i][b]` and the gradient
/// `sum_i (sum_m J[m][a] W[m][i]) r[i]`. When that system has no Cholesky
/// solution the iterations stop where they are; otherwise the horizon moves
/// by `dx`, and the move is kept (damping divided by ten) when the cost of
/// the new residuals is below the best cost, else undone (damping
/// multiplied by ten), and the remaining iterations go on from there.
pub proof fn lemma_levenberg_marquardt_step<
    U: LinearSolve<STATE_DIM>,
    H: OptimizationHorizon<U, STATE_DIM, RESIDUAL_DIM>,
    const STATE_DIM: usize,
    const RESIDUAL_DIM: usize,
>(horizon: H, lambda: U, best_residuals: [U; RESIDUAL_DIM], best_cost: U, iterations: nat)
    ensures
        ({
            let (j, w) = horizon.linearize_spec();
            let r = best_residuals;
            let jt_w = |a: int, i: int| sum_to(|m: int| U::mul_spec(j[m][a], w[m][i]), RESIDUAL_DIM as int);
            let normal = |a: int, b: int| sum_to(|i: int| U::mul_spec(jt_w(a, i), j[i][b]), RESIDUAL_DIM as int);
            let hessian = tangent::array_from_fn::<[U; STATE_DIM], STATE_DIM>(
                |a: int|
                    tangent::array_from_fn::<U, STATE_DIM>(
                        |b: int|
                            if a == b {
                                U::add_spec(normal(a, b), lambda)
                            } else {
                                normal(a, b)
                            },
                    ),
            );
            let gradient = tangent::array_from_fn::<U, STATE_DIM>(
                |a: int| sum_to(|i: int| U::mul_spec(jt_w(a, i), r[i]), RESIDUAL_DIM as int),
            );
            levenberg_marquardt_spec::<U, H, STATE_DIM, RESIDUAL_DIM>(
                horizon,
                lambda,
                r,
                best_cost,
                iterations + 1,
            ) == match U::cholesky_solve_spec(hessian, neg_spec(gradient)) {
                None => (horizon, best_cost),
                Some(dx) => {
                    let moved = horizon.retracted_spec(dx);
                    if U::lt_spec(norm_spec(moved.residuals_spec()), best_cost) {
                        levenberg_marquardt_spec::<U, H, STATE_DIM, RESIDUAL_DIM>(
                            moved,
                            U::div_spec(lambda, U::from_i32_spec(10)),
                            moved.residuals_spec(),
                            norm_spec(moved.residuals_spec()),
                            iterations,
                        )
                    } else {
                        levenberg_marquardt_spec::<U, H, STATE_DIM, RESIDUAL_DIM>(
                            moved.retracted_spec(neg_spec(dx)),
                            U::mul_spec(lambda, U::from_i32_spec(10)),
                            r,
                            best_cost,
                            iterations,
                        )
                    }
                },
            }
        }),
{
    broadcast use crate::tangent::lemma_array_from_fn;

    let (j, w) = horizon.linearize_spec();
    let r = best_residuals;
    let jt = transpose_spec(j);
    let weighted = mat_mul_spec(jt, w);
    let jt_w = |a: int, i: int| sum_to(|m: int| U::mul_spec(j[m][a], w[m][i]), RESIDUAL_DIM as int);
    let normal = |a: int, b: int| sum_to(|i: int| U::mul_spec(jt_w(a, i), j[i][b]), RESIDUAL_DIM as int);
    assert forall|a: int, i: int| 0 <= a < STATE_DIM && 0 <= i < RESIDUAL_DIM implies #[trigger] weighted[a][i]
        == jt_w(a, i) by {
        lemma_mat_mul_entry(jt, w, a, i);
        let f = |m: int| U::mul_spec(jt[a][m], w[m][i]);
        let g = |m: int| U::mul_spec(j[m][a], w[m][i]);
        lemma_sum_to_congruent(f, g, RESIDUAL_DIM as int);
    }
    let product = mat_mul_spec(weighted, j);
    assert forall|a: int, b: int| 0 <= a < STATE_DIM && 0 <= b < STATE_DIM implies #[trigger] product[a][b]
        == normal(a, b) by {
        lemma_mat_mul_entry(weighted, j, a, b);
        let f = |i: int| U::mul_spec(weighted[a][i], j[i][b]);
        let g = |i: int| U::mul_spec(jt_w(a, i), j[i][b]);
        assert forall|i: int| 0 <= i < RESIDUAL_DIM implies #[trigger] f(i) == g(i) by {
            assert(weighted[a][i] == jt_w(a, i));
        }
        lemma_sum_to_congruent(f, g, RESIDUAL_DIM as int);
    }
    let hessian = tangent::array_from_fn::<[U; STATE_DIM], STATE_DIM>(
        |a: int|
            tangent::array_from_fn::<U, STATE_DIM>(
                |b: int|
                    if a == b {
                        U::add_spec(normal(a, b), lambda)
                    } else {
                        normal(a, b)
                    },
            ),
    );
    lemma_mat_eq(hessian, add_diagonal_spec(product, lambda));
    let gradient = tangent::array_from_fn::<U, STATE_DIM>(
        |a: int| sum_to(|i: int| U::mul_spec(jt_w(a, i), r[i]), RESIDUAL_DIM as int),
    );
    let gradient_by_rows = mat_vec_spec(weighted, r);
    assert forall|a: int| 0 <= a < STATE_DIM implies #[trigger] gradient_by_rows[a] == gradient[a] by {
        let f = |i: int| U::mul_spec(weighted[a][i], r[i]);
        let g = |i: int| U::mul_spec(jt_w(a, i), r[i]);
        assert forall|i: int| 0 <= i < RESIDUAL_DIM implies #[trigger] f(i) == g(i) by {
            assert(weighted[a][i] == jt_w(a, i));
        }
        lemma_sum_to_congruent(f, g, RESIDUAL_DIM as int);
    }
    assert(gradient_by_rows =~= gradient);
}

impl<U: LinearSolve<STATE_DIM>, const STATE_DIM: usize, const RESIDUAL_DIM: usize> StaticNonlinearSolver<
    U,
    STATE_DIM,
    RESIDUAL_DIM,
> for StaticLevenbergMarquardt {
    /// Runs `options.max_iterations` Levenberg-Marquardt steps at most, from
    /// damping `10^-3`.
    fn solve<H: OptimizationHorizon<U, STATE_DIM, RESIDUAL_DIM>>(
        &self,
        options: &SolverOptions<U>,
        horizon: &mut H,
    ) -> (r: SolverSummary<U>)
        ensures
            r.initial_cost == norm_spec(old(horizon).residuals_spec()),
            r.iterations == options.max_iterations,
            r.final_cost == r.initial_cost || U::lt_spec(r.final_cost, r.initial_cost),
            (*final(horizon), r.final_cost) == levenberg_marquardt_spec(
                *old(horizon),
                U::from_ratio_spec(1, 1000),
                old(horizon).residuals_spec(),
                norm_spec(old(horizon).residuals_spec()),
                options.max_iterations as nat,
            ),
    {
        let mut lambda = U::from_ratio(1, 1000);
        let mut best_residuals = horizon.compute_residuals();
        let mut best_cost = norm(&best_residuals);
        let initial_cost = best_cost;
        let mut iter: usize = 0;
        while iter < options.max_iterations
            invariant
                0 <= iter <= options.max_iterations,
                initial_cost == norm_spec(old(horizon).residuals_spec()),
                levenberg_marquardt_spec(
                    *old(horizon),
                    U::from_ratio_spec(1, 1000),
                    old(horizon).residuals_spec(),
                    norm_spec(old(horizon).residuals_spec()),
                    options.max_iterations as nat,
                ) == levenberg_marquardt_spec(
                    *horizon,
                    lambda,
                    best_residuals,
                    best_cost,
                    (options.max_iterations - iter) as nat,
                ),
            decreases options.max_iterations - iter,
        {
            let (jacobian, info) = horizon.linearize();
            let jt = transpose(&jacobian);
            let weighted = mat_mul(&jt, &info);
            let hessian = add_diagonal(&mat_mul(&weighted, &jacobian), lambda);
            let gradient = mat_vec(&weighted, &best_residuals);
            match U::cholesky_solve(&hessian, &tangent::neg(&gradient)) {
                Some(delta_x) => {
                    horizon.retract_step(&delta_x);
                    let new_residuals = horizon.compute_residuals();
                    let new_cost = norm(&new_residuals);
                    if new_cost.lt(best_cost) {
                        best_residuals = new_residuals;
                        best_cost = new_cost;
                        lambda = lambda.div(U::from_i32(10));
                    } else {
                        horizon.retract_step(&tangent::neg(&delta_x));
                        lambda = lambda.mul(U::from_i32(10));
                    }
                },
                None => {
                    proof {
                        lemma_levenberg_marquardt_never_increases_cost::<U, H, STATE_DIM, RESIDUAL_DIM>(
                            *old(horizon),
                            U::from_ratio_spec(1, 1000),
                            old(horizon).residuals_spec(),
                            norm_spec(old(horizon).residuals_spec()),
                            options.max_iterations as nat,
                        );
                    }
                    return SolverSummary {
                        initial_cost,
                        final_cost: best_cost,
                        iterations: options.max_iterations,
                    };
                },
            }
            iter += 1;
        }
        proof {
            lemma_levenberg_marquardt_never_increases_cost::<U, H, STATE_DIM, RESIDUAL_DIM>(
                *old(horizon),
                U::from_ratio_spec(1, 1000),
                old(horizon).residuals_spec(),
                norm_spec(old(horizon).residuals_spec()),
                options.max_iterations as nat,
            );
        }
        SolverSummary { initial_cost, final_cost: best_cost, iterations: options.max_iterations }
    }
}

} // verus!
