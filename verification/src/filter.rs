//! An extended Kalman filter on a manifold: the nominal state lives on the
//! manifold, its uncertainty is a covariance over the local tangent space.
use vstd::prelude::*;
use crate::scalar::{LinearSolve, RealScalar};
use crate::diff::Diff;
use crate::linalg::{
    identity, identity_spec, mat_add, mat_add_spec, mat_mul, mat_mul_spec, mat_scale, mat_scale_spec,
    mat_sub, mat_sub_spec, mat_vec, mat_vec_spec, sum_to, transpose, transpose_spec, lemma_congruence_entry,
    lemma_mat_mul_entry, lemma_sum_to_congruent,
};
use crate::manifold::{Manifold, TimeVaryingConstraint, TrajectoryDynamics};
use crate::tangent;
use crate::tangent::{neg_spec, scale_spec, sub_spec, zeros_spec};

verus! {

/// Mean-propagation scheme for the [`FilterState::predict`] time update. The
/// covariance step is the same for both; only the nominal-state advance
/// differs.
#[derive(Clone, Copy, Debug, PartialEq, Eq, Structural)]
pub enum Integrator {
    /// First-order Euler: one dynamics evaluation, `x ⊕ f(x) dt`.
    Euler,
    /// Second-order midpoint (RK2): re-evaluates the dynamics at the half-step.
    Midpoint,
}

/// The tolerance on the constraint residual under which the projection after
/// a constrained prediction stops: `1 / 10^8`.
pub open spec fn projection_tolerance_spec<S: RealScalar>() -> S {
    S::from_ratio_spec(1, 100000000)
}

/// The number of projection steps after a constrained prediction.
pub const PROJECTION_ITERATIONS: usize = 5;

/// `max(0, |v_0| + ... + |v_{N-1}|)`: the one-norm of a vector as a one-column
/// matrix norm (the largest column sum of magnitudes).
pub open spec fn one_norm_spec<S: RealScalar, const N: usize>(v: [S; N]) -> S {
    S::max_spec(S::zero_spec(), sum_to(|k: int| S::abs_spec(v[k]), N as int))
}

/// The one-norm of a vector.
pub fn one_norm<S: RealScalar, const N: usize>(v: &[S; N]) -> (r: S)
    ensures
        r == one_norm_spec(*v),
{
    let ghost f = |k: int| S::abs_spec(v[k]);
    let mut acc = S::zero();
    let mut k: usize = 0;
    while k < N
        invariant
            0 <= k <= N,
            f == (|k: int| S::abs_spec(v[k])),
            acc == sum_to(f, k as int),
        decreases N - k,
    {
        acc = acc.add(v[k].abs());
        k += 1;
    }
    S::zero().max(acc)
}

/// A nominal state on the manifold `M` and its tangent-space covariance.
pub struct FilterState<S, M, const A_DIM: usize, const T_DIM: usize> {
    /// The nominal state on the manifold.
    pub state: M,
    /// The tangent-space uncertainty covariance (`T_DIM x T_DIM`).
    pub covariance: [[S; T_DIM]; T_DIM],
}

impl<S: LinearSolve<T_DIM>, M: Manifold<S, A_DIM, T_DIM>, const A_DIM: usize, const T_DIM: usize> FilterState<
    S,
    M,
    A_DIM,
    T_DIM,
> {
    /// A filter node holding the given state and covariance.
    pub fn new(initial_state: M, initial_covariance: [[S; T_DIM]; T_DIM]) -> (r: Self)
        ensures
            r.state == initial_state,
            r.covariance == initial_covariance,
    {
        FilterState { state: initial_state, covariance: initial_covariance }
    }

    /// The mean slope over a prediction step: the dynamics at the current
    /// state (Euler) or at the half-step state (midpoint), noise zero.
    pub open spec fn velocity_spec<
        D: Diff<S, TOTAL_DIM, T_DIM>,
        const U_DIM: usize,
        const W_DIM: usize,
        const TOTAL_DIM: usize,
    >(
        self,
        dynamics: TrajectoryDynamics<S, D, A_DIM, T_DIM, U_DIM, W_DIM, TOTAL_DIM>,
        control: [S; U_DIM],
        dt: S,
        integrator: Integrator,
    ) -> [S; T_DIM] {
        let k1 = dynamics.velocity_spec(self.state.to_ambient_spec(), control, zeros_spec::<S, W_DIM>());
        match integrator {
            Integrator::Euler => k1,
            Integrator::Midpoint => {
                let half = S::from_ratio_spec(1, 2);
                let mid = self.state.retract_spec(
                    M::vector_to_tangent_spec(scale_spec(k1, S::mul_spec(dt, half))),
                );
                dynamics.velocity_spec(mid.to_ambient_spec(), control, zeros_spec::<S, W_DIM>())
            },
        }
    }

    /// The first-order step `δ₁ = f(x, u, 0) dt` along which the covariance is
    /// carried, whatever the integrator.
    pub open spec fn covariance_step_spec<
        D: Diff<S, TOTAL_DIM, T_DIM>,
        const U_DIM: usize,
        const W_DIM: usize,
        const TOTAL_DIM: usize,
    >(
        self,
        dynamics: TrajectoryDynamics<S, D, A_DIM, T_DIM, U_DIM, W_DIM, TOTAL_DIM>,
        control: [S; U_DIM],
        dt: S,
    ) -> [S; T_DIM] {
        scale_spec(self.velocity_spec(dynamics, control, dt, Integrator::Euler), dt)
    }

    /// The transport back along the covariance step, `T(-δ₁)`.
    pub open spec fn backward_transport_spec<
        D: Diff<S, TOTAL_DIM, T_DIM>,
        const U_DIM: usize,
        const W_DIM: usize,
        const TOTAL_DIM: usize,
    >(
        self,
        dynamics: TrajectoryDynamics<S, D, A_DIM, T_DIM, U_DIM, W_DIM, TOTAL_DIM>,
        control: [S; U_DIM],
        dt: S,
    ) -> [[S; T_DIM]; T_DIM] {
        self.state.parallel_transport_spec(
            M::vector_to_tangent_spec(neg_spec(self.covariance_step_spec(dynamics, control, dt))),
        )
    }

    /// The EKF time update: the state steps by `δ = f dt`, with the
    /// integrator's slope `f`; the covariance propagates, the same for every
    /// integrator, through `F = T(δ₁) T(-δ₁)^-1 + F_c dt` and `G = G_c dt` as
    /// `F P F^T + G Q G^T`, where `δ₁` is the first-order step.
    pub open spec fn predict_spec<
        D: Diff<S, TOTAL_DIM, T_DIM>,
        const U_DIM: usize,
        const W_DIM: usize,
        const TOTAL_DIM: usize,
    >(
        self,
        dynamics: TrajectoryDynamics<S, D, A_DIM, T_DIM, U_DIM, W_DIM, TOTAL_DIM>,
        control: [S; U_DIM],
        process_noise_covariance: [[S; W_DIM]; W_DIM],
        dt: S,
        integrator: Integrator,
    ) -> Self {
        let (f_continuous, g_continuous) = dynamics.linearize_spec(self.state, control);
        let displacement = scale_spec(self.velocity_spec(dynamics, control, dt, integrator), dt);
        let disp_tangent = M::vector_to_tangent_spec(displacement);
        let t_fwd = self.state.parallel_transport_spec(
            M::vector_to_tangent_spec(self.covariance_step_spec(dynamics, control, dt)),
        );
        let t_bwd = self.backward_transport_spec(dynamics, control, dt);
        let adjoint = mat_mul_spec(t_fwd, <S as LinearSolve<T_DIM>>::try_inverse_spec(t_bwd).unwrap());
        let f_discrete = mat_add_spec(adjoint, mat_scale_spec(f_continuous, dt));
        let g_discrete = mat_scale_spec(g_continuous, dt);
        FilterState {
            state: self.state.retract_spec(disp_tangent),
            covariance: mat_add_spec(
                mat_mul_spec(mat_mul_spec(f_discrete, self.covariance), transpose_spec(f_discrete)),
                mat_mul_spec(mat_mul_spec(g_discrete, process_noise_covariance), transpose_spec(g_discrete)),
            ),
        }
    }

    /// EKF time update: steps the nominal state along the manifold and
    /// propagates the tangent covariance. The transport back along the
    /// first-order step must be invertible.
    pub fn predict<D: Diff<S, TOTAL_DIM, T_DIM>, const U_DIM: usize, const W_DIM: usize, const TOTAL_DIM: usize>(
        &mut self,
        dynamics: &TrajectoryDynamics<S, D, A_DIM, T_DIM, U_DIM, W_DIM, TOTAL_DIM>,
        control: &[S; U_DIM],
        process_noise_covariance: &[[S; W_DIM]; W_DIM],
        dt: S,
        integrator: Integrator,
    )
        requires
            A_DIM + U_DIM + W_DIM <= TOTAL_DIM,
            <S as LinearSolve<T_DIM>>::try_inverse_spec(old(self).backward_transport_spec(*dynamics, *control, dt))
                is Some,
        ensures
            *final(self) == old(self).predict_spec(
                *dynamics,
                *control,
                *process_noise_covariance,
                dt,
                integrator,
            ),
    {
        let (f_continuous, g_continuous) = dynamics.linearize(&self.state, control);
        let zero_noise: [S; W_DIM] = tangent::zeros();
        let k1 = dynamics.evaluate_velocity(&self.state.to_ambient(), control, &zero_noise);
        let velocity = match integrator {
            Integrator::Euler => k1,
            Integrator::Midpoint => {
                let half = S::from_ratio(1, 2);
                let mid = self.state.retract(&M::vector_to_tangent(&tangent::scale(&k1, dt.mul(half))));
                dynamics.evaluate_velocity(&mid.to_ambient(), control, &zero_noise)
            },
        };
        let displacement = tangent::scale(&velocity, dt);
        let disp_tangent = M::vector_to_tangent(&displacement);
        let first_order = tangent::scale(&k1, dt);
        let t_fwd = self.state.parallel_transport(&M::vector_to_tangent(&first_order));
        let t_bwd = self.state.parallel_transport(&M::vector_to_tangent(&tangent::neg(&first_order)));
        let t_bwd_inv = match <S as LinearSolve<T_DIM>>::try_inverse(&t_bwd) {
            Some(inv) => inv,
            None => {
                proof {
                    assert(false);
                }
                t_bwd
            },
        };
        let adjoint = mat_mul(&t_fwd, &t_bwd_inv);
        let f_discrete = mat_add(&adjoint, &mat_scale(&f_continuous, dt));
        let g_discrete = mat_scale(&g_continuous, dt);
        let new_state = self.state.retract(&disp_tangent);
        let propagated = mat_mul(&mat_mul(&f_discrete, &self.covariance), &transpose(&f_discrete));
        let diffused = mat_mul(
            &mat_mul(&g_discrete, process_noise_covariance),
            &transpose(&g_discrete),
        );
        self.state = new_state;
        self.covariance = mat_add(&propagated, &diffused);
    }

    /// EKF time update that first tests the transport back along the
    /// covariance step: when it is invertible, predicts and returns `true`;
    /// otherwise returns `false` with nothing changed.
    pub fn try_predict<D: Diff<S, TOTAL_DIM, T_DIM>, const U_DIM: usize, const W_DIM: usize, const TOTAL_DIM: usize>(
        &mut self,
        dynamics: &TrajectoryDynamics<S, D, A_DIM, T_DIM, U_DIM, W_DIM, TOTAL_DIM>,
        control: &[S; U_DIM],
        process_noise_covariance: &[[S; W_DIM]; W_DIM],
        dt: S,
        integrator: Integrator,
    ) -> (r: bool)
        requires
            A_DIM + U_DIM + W_DIM <= TOTAL_DIM,
        ensures
            r == <S as LinearSolve<T_DIM>>::try_inverse_spec(old(self).backward_transport_spec(*dynamics, *control, dt)) is Some,
            *final(self) == (if r {
                old(self).predict_spec(*dynamics, *control, *process_noise_covariance, dt, integrator)
            } else {
                *old(self)
            }),
    {
        let zero_noise: [S; W_DIM] = tangent::zeros();
        let k1 = dynamics.evaluate_velocity(&self.state.to_ambient(), control, &zero_noise);
        let first_order = tangent::scale(&k1, dt);
        let t_bwd = self.state.parallel_transport(&M::vector_to_tangent(&tangent::neg(&first_order)));
        match <S as LinearSolve<T_DIM>>::try_inverse(&t_bwd) {
            Some(_) => {
                self.predict(dynamics, control, process_noise_covariance, dt, integrator);
                true
            },
            None => false,
        }
    }

    /// The Kalman update of the state and covariance with a linearized
    /// measurement `h_tangent`, an innovation (or negated residual), and the
    /// innovation covariance `s_matrix`; nothing when the Cholesky
    /// factorization of `s_matrix` fails.
    ///
    /// With `K = P H^T S^-1` and `δ = K ν`: the state moves to `x ⊕ δ`, and the
    /// covariance becomes `(I - K H) P`, carried into the new tangent frame by
    /// the transport `G = T(δ)` as `G P G^T`, then symmetrized as `(P + P^T) / 2`.
    pub open spec fn tangent_update_spec<const DIM: usize>(
        self,
        h_tangent: [[S; T_DIM]; DIM],
        innovation: [S; DIM],
        s_matrix: [[S; DIM]; DIM],
    ) -> Option<Self> where S: LinearSolve<DIM> {
        match <S as LinearSolve<DIM>>::cholesky_inverse_spec(s_matrix) {
            None => None,
            Some(s_inv) => {
                let gain = mat_mul_spec(mat_mul_spec(self.covariance, transpose_spec(h_tangent)), s_inv);
                let delta = M::vector_to_tangent_spec(mat_vec_spec(gain, innovation));
                let transport = self.state.parallel_transport_spec(delta);
                let reduced = mat_mul_spec(
                    mat_sub_spec(identity_spec::<S, T_DIM, T_DIM>(), mat_mul_spec(gain, h_tangent)),
                    self.covariance,
                );
                let reframed = mat_mul_spec(mat_mul_spec(transport, reduced), transpose_spec(transport));
                Some(
                    FilterState {
                        state: self.state.retract_spec(delta),
                        covariance: mat_scale_spec(
                            mat_add_spec(reframed, transpose_spec(reframed)),
                            S::from_ratio_spec(1, 2),
                        ),
                    },
                )
            },
        }
    }

    /// Applies the Kalman update; `false`, with nothing changed, when the
    /// innovation covariance cannot be factorized.
    fn apply_tangent_update<const DIM: usize>(
        &mut self,
        h_tangent: &[[S; T_DIM]; DIM],
        innovation_or_residual: &[S; DIM],
        s_matrix: [[S; DIM]; DIM],
    ) -> (r: bool) where S: LinearSolve<DIM>
        ensures
            r == old(self).tangent_update_spec(*h_tangent, *innovation_or_residual, s_matrix) is Some,
            *final(self) == (match old(self).tangent_update_spec(
                *h_tangent,
                *innovation_or_residual,
                s_matrix,
            ) {
                Some(next) => next,
                None => *old(self),
            }),
    {
        match <S as LinearSolve<DIM>>::cholesky_inverse(&s_matrix) {
            Some(s_inv) => {
                let identity_t: [[S; T_DIM]; T_DIM] = identity();
                let gain = mat_mul(&mat_mul(&self.covariance, &transpose(h_tangent)), &s_inv);
                let tangent_correction = mat_vec(&gain, innovation_or_residual);
                let delta = M::vector_to_tangent(&tangent_correction);
                let transport = self.state.parallel_transport(&delta);
                let new_state = self.state.retract(&delta);
                let reduced = mat_mul(&mat_sub(&identity_t, &mat_mul(&gain, h_tangent)), &self.covariance);
                let reframed = mat_mul(&mat_mul(&transport, &reduced), &transpose(&transport));
                let symmetric = mat_scale(&mat_add(&reframed, &transpose(&reframed)), S::from_ratio(1, 2));
                self.state = new_state;
                self.covariance = symmetric;
                true
            },
            None => false,
        }
    }

    /// The measurement update from an innovation `y - h(x)`: the Kalman update
    /// with `H = H_ambient J_oplus` and `S = H P H^T + R` (nothing changes when
    /// `S` cannot be factorized).
    pub open spec fn correction_spec<D: Diff<S, A_DIM, M_DIM>, const M_DIM: usize>(
        self,
        measurement_engine: TimeVaryingConstraint<S, D, A_DIM, T_DIM, M_DIM>,
        innovation: [S; M_DIM],
        r_covariance: [[S; M_DIM]; M_DIM],
    ) -> Self where S: LinearSolve<M_DIM> {
        let h_tangent = measurement_engine.linearize_tangent_spec(self.state);
        let s_matrix = mat_add_spec(
            mat_mul_spec(mat_mul_spec(h_tangent, self.covariance), transpose_spec(h_tangent)),
            r_covariance,
        );
        match self.tangent_update_spec(h_tangent, innovation, s_matrix) {
            Some(next) => next,
            None => self,
        }
    }

    /// Measurement update from a raw sensor outcome `y`: the update with the
    /// Euclidean innovation `y - h(x)`.
    pub fn correct_measurement<D: Diff<S, A_DIM, M_DIM>, const M_DIM: usize>(
        &mut self,
        measurement_engine: &TimeVaryingConstraint<S, D, A_DIM, T_DIM, M_DIM>,
        measurement: &[S; M_DIM],
        r_covariance: &[[S; M_DIM]; M_DIM],
    ) where S: LinearSolve<M_DIM>
        ensures
            *final(self) == old(self).correction_spec(
                *measurement_engine,
                sub_spec(
                    *measurement,
                    measurement_engine.diff_engine.eval_spec(old(self).state.to_ambient_spec()),
                ),
                *r_covariance,
            ),
    {
        let predicted = measurement_engine.evaluate(&self.state.to_ambient());
        let innovation = tangent::sub(measurement, &predicted);
        self.correct_with_innovation(measurement_engine, &innovation, r_covariance);
    }

    /// Measurement update from a pre-computed innovation `y - h(x)`.
    pub fn correct_with_innovation<D: Diff<S, A_DIM, M_DIM>, const M_DIM: usize>(
        &mut self,
        measurement_engine: &TimeVaryingConstraint<S, D, A_DIM, T_DIM, M_DIM>,
        innovation: &[S; M_DIM],
        r_covariance: &[[S; M_DIM]; M_DIM],
    ) where S: LinearSolve<M_DIM>
        ensures
            *final(self) == old(self).correction_spec(*measurement_engine, *innovation, *r_covariance),
    {
        let h_tangent = measurement_engine.linearize_tangent(&self.state);
        let s_matrix = mat_add(
            &mat_mul(&mat_mul(&h_tangent, &self.covariance), &transpose(&h_tangent)),
            r_covariance,
        );
        self.apply_tangent_update(&h_tangent, innovation, s_matrix);
    }

    /// At most `iterations` projection steps onto the constraint surface
    /// `h(x) = 0`: each stops the projection when the residual's one-norm is
    /// below `tolerance`, or when the update cannot be applied, and otherwise
    /// applies the Kalman update with the negated residual and `S = H P H^T`.
    pub open spec fn projection_spec<DC: Diff<S, A_DIM, C_DIM>, const C_DIM: usize>(
        self,
        constraint: TimeVaryingConstraint<S, DC, A_DIM, T_DIM, C_DIM>,
        tolerance: S,
        iterations: nat,
    ) -> Self where S: LinearSolve<C_DIM>
        decreases iterations,
    {
        if iterations == 0 {
            self
        } else {
            let residual = constraint.diff_engine.eval_spec(self.state.to_ambient_spec());
            if S::lt_spec(one_norm_spec(residual), tolerance) {
                self
            } else {
                let h_tangent = constraint.linearize_tangent_spec(self.state);
                let s_matrix = mat_mul_spec(
                    mat_mul_spec(h_tangent, self.covariance),
                    transpose_spec(h_tangent),
                );
                match self.tangent_update_spec(h_tangent, neg_spec(residual), s_matrix) {
                    Some(next) => next.projection_spec(constraint, tolerance, (iterations - 1) as nat),
                    None => self,
                }
            }
        }
    }

    /// Projects the state back onto the constraint surface `h(x) = 0` by at
    /// most `max_iterations` Kalman-style steps.
    pub fn project_hard_constraints<DC: Diff<S, A_DIM, C_DIM>, const C_DIM: usize>(
        &mut self,
        constraint: &TimeVaryingConstraint<S, DC, A_DIM, T_DIM, C_DIM>,
        tolerance: S,
        max_iterations: usize,
    ) where S: LinearSolve<C_DIM>
        ensures
            *final(self) == old(self).projection_spec(*constraint, tolerance, max_iterations as nat),
    {
        let mut i: usize = 0;
        while i < max_iterations
            invariant
                0 <= i <= max_iterations,
                old(self).projection_spec(*constraint, tolerance, max_iterations as nat)
                    == self.projection_spec(*constraint, tolerance, (max_iterations - i) as nat),
            decreases max_iterations - i,
        {
            let residual = constraint.evaluate(&self.state.to_ambient());
            if one_norm(&residual).lt(tolerance) {
                return;
            }
            let h_tangent = constraint.linearize_tangent(&self.state);
            let s_matrix = mat_mul(&mat_mul(&h_tangent, &self.covariance), &transpose(&h_tangent));
            if !self.apply_tangent_update(&h_tangent, &tangent::neg(&residual), s_matrix) {
                return;
            }
            i += 1;
        }
    }

    /// A prediction followed by a projection back onto the constraint surface
    /// (at most five steps, tolerance `10^-8`).
    pub fn predict_with_constraint<
        D: Diff<S, TOTAL_DIM, T_DIM>,
        DC: Diff<S, A_DIM, C_DIM>,
        const U_DIM: usize,
        const W_DIM: usize,
        const TOTAL_DIM: usize,
        const C_DIM: usize,
    >(
        &mut self,
        dynamics: &TrajectoryDynamics<S, D, A_DIM, T_DIM, U_DIM, W_DIM, TOTAL_DIM>,
        control: &[S; U_DIM],
        process_noise_covariance: &[[S; W_DIM]; W_DIM],
        constraint: &TimeVaryingConstraint<S, DC, A_DIM, T_DIM, C_DIM>,
        dt: S,
        integrator: Integrator,
    ) where S: LinearSolve<C_DIM>
        requires
            A_DIM + U_DIM + W_DIM <= TOTAL_DIM,
            <S as LinearSolve<T_DIM>>::try_inverse_spec(old(self).backward_transport_spec(*dynamics, *control, dt))
                is Some,
        ensures
            *final(self) == old(self).predict_spec(
                *dynamics,
                *control,
                *process_noise_covariance,
                dt,
                integrator,
            ).projection_spec(*constraint, projection_tolerance_spec::<S>(), PROJECTION_ITERATIONS as nat),
    {
        self.predict(dynamics, control, process_noise_covariance, dt, integrator);
        let tolerance = S::from_ratio(1, 100000000);
        self.project_hard_constraints(constraint, tolerance, PROJECTION_ITERATIONS);
    }
    /// The integrator decides the nominal-state advance only: Euler and
    /// midpoint prediction give the same covariance.
    pub proof fn lemma_integrator_leaves_covariance<
        D: Diff<S, TOTAL_DIM, T_DIM>,
        const U_DIM: usize,
        const W_DIM: usize,
        const TOTAL_DIM: usize,
    >(
        self,
        dynamics: TrajectoryDynamics<S, D, A_DIM, T_DIM, U_DIM, W_DIM, TOTAL_DIM>,
        control: [S; U_DIM],
        process_noise_covariance: [[S; W_DIM]; W_DIM],
        dt: S,
    )
        ensures
            self.predict_spec(dynamics, control, process_noise_covariance, dt, Integrator::Euler).covariance
                == self.predict_spec(
                dynamics,
                control,
                process_noise_covariance,
                dt,
                Integrator::Midpoint,
            ).covariance,
    {
    }

    /// A refused update changes nothing: when the innovation covariance
    /// `H P H^T + R` cannot be factorized, a measurement correction leaves the
    /// state and covariance as they were; and a projection stops where it is
    /// when the residual is already within tolerance, or when its step's
    /// covariance `H P H^T` cannot be factorized.
    pub proof fn lemma_refused_update_keeps_state<
        D: Diff<S, A_DIM, M_DIM>,
        DC: Diff<S, A_DIM, C_DIM>,
        const M_DIM: usize,
        const C_DIM: usize,
    >(
        self,
        measurement_engine: TimeVaryingConstraint<S, D, A_DIM, T_DIM, M_DIM>,
        innovation: [S; M_DIM],
        r_covariance: [[S; M_DIM]; M_DIM],
        constraint: TimeVaryingConstraint<S, DC, A_DIM, T_DIM, C_DIM>,
        tolerance: S,
        iterations: nat,
    ) where S: LinearSolve<M_DIM>, S: LinearSolve<C_DIM>
        ensures
            ({
                let h = measurement_engine.linearize_tangent_spec(self.state);
                let s_matrix = mat_add_spec(
                    mat_mul_spec(mat_mul_spec(h, self.covariance), transpose_spec(h)),
                    r_covariance,
                );
                <S as LinearSolve<M_DIM>>::cholesky_inverse_spec(s_matrix) is None ==> self.correction_spec(
                    measurement_engine,
                    innovation,
                    r_covariance,
                ) == self
            }),
            ({
                let residual = constraint.diff_engine.eval_spec(self.state.to_ambient_spec());
                let h = constraint.linearize_tangent_spec(self.state);
                let s_matrix = mat_mul_spec(mat_mul_spec(h, self.covariance), transpose_spec(h));
                (S::lt_spec(one_norm_spec(residual), tolerance) || <S as LinearSolve<C_DIM>>::cholesky_inverse_spec(s_matrix) is None)
                    ==> self.projection_spec(constraint, tolerance, iterations) == self
            }),
            self.projection_spec(constraint, tolerance, 0) == self,
    {
    }

    /// The Kalman update in closed form. When the innovation covariance `S`
    /// has the Cholesky inverse `S^-1`, the gain is
    /// `K[a][b] = sum_c (sum_d P[a][d] H[c][d]) S^-1[c][b]` (`P H^T S^-1`),
    /// the tangent step is `δ[a] = sum_b K[a][b] ν[b]` and the state moves to
    /// `x ⊕ δ`. The covariance is first reduced to
    /// `Q[x][y] = sum_m ([x = m] - sum_c K[x][c] H[c][m]) P[m][y]`
    /// (`(I - K H) P`), then carried by the transport `G = T(δ)` to
    /// `R[x][y] = sum_l (sum_m G[x][m] Q[m][l]) G[y][l]` (`G Q G^T`), and
    /// entry `(i, j)` of the result is `(R[i][j] + R[j][i]) / 2`.
    pub proof fn lemma_kalman_update<const DIM: usize>(
        self,
        h_tangent: [[S; T_DIM]; DIM],
        innovation: [S; DIM],
        s_matrix: [[S; DIM]; DIM],
        i: int,
        j: int,
    ) where S: LinearSolve<DIM>
        requires
            <S as LinearSolve<DIM>>::cholesky_inverse_spec(s_matrix) is Some,
            0 <= i < T_DIM,
            0 <= j < T_DIM,
        ensures
            ({
                let s_inv = <S as LinearSolve<DIM>>::cholesky_inverse_spec(s_matrix)->0;
                let p = self.covariance;
                let h = h_tangent;
                let gain = |a: int, b: int|
                    sum_to(
                        |c: int| S::mul_spec(sum_to(|d: int| S::mul_spec(p[a][d], h[c][d]), T_DIM as int), s_inv[c][b]),
                        DIM as int,
                    );
                let delta = tangent::array_from_fn::<S, T_DIM>(
                    |a: int| sum_to(|b: int| S::mul_spec(gain(a, b), innovation[b]), DIM as int),
                );
                let g = self.state.parallel_transport_spec(M::vector_to_tangent_spec(delta));
                let reduced = |x: int, y: int|
                    sum_to(
                        |m: int|
                            S::mul_spec(
                                S::sub_spec(
                                    if x == m {
                                        S::one_spec()
                                    } else {
                                        S::zero_spec()
                                    },
                                    sum_to(|c: int| S::mul_spec(gain(x, c), h[c][m]), DIM as int),
                                ),
                                p[m][y],
                            ),
                        T_DIM as int,
                    );
                let reframed = |x: int, y: int|
                    sum_to(
                        |l: int| S::mul_spec(sum_to(|m: int| S::mul_spec(g[x][m], reduced(m, l)), T_DIM as int), g[y][l]),
                        T_DIM as int,
                    );
                &&& self.tangent_update_spec(h, innovation, s_matrix) is Some
                &&& self.tangent_update_spec(h, innovation, s_matrix)->0.state == self.state.retract_spec(
                    M::vector_to_tangent_spec(delta),
                )
                &&& self.tangent_update_spec(h, innovation, s_matrix)->0.covariance[i][j] == S::mul_spec(
                    S::add_spec(reframed(i, j), reframed(j, i)),
                    S::from_ratio_spec(1, 2),
                )
            }),
    {
        broadcast use crate::tangent::lemma_array_from_fn;

        let s_inv = <S as LinearSolve<DIM>>::cholesky_inverse_spec(s_matrix)->0;
        let p = self.covariance;
        let h = h_tangent;
        let gain = |a: int, b: int|
            sum_to(
                |c: int| S::mul_spec(sum_to(|d: int| S::mul_spec(p[a][d], h[c][d]), T_DIM as int), s_inv[c][b]),
                DIM as int,
            );
        let ht = transpose_spec(h);
        let pht = mat_mul_spec(p, ht);
        let gain_m = mat_mul_spec(pht, s_inv);
        assert forall|a: int, b: int| 0 <= a < T_DIM && 0 <= b < DIM implies #[trigger] gain_m[a][b] == gain(
            a,
            b,
        ) by {
            lemma_mat_mul_entry(pht, s_inv, a, b);
            let f = |c: int| S::mul_spec(pht[a][c], s_inv[c][b]);
            let f2 = |c: int| S::mul_spec(sum_to(|d: int| S::mul_spec(p[a][d], h[c][d]), T_DIM as int), s_inv[c][b]);
            assert forall|c: int| 0 <= c < DIM implies #[trigger] f(c) == f2(c) by {
                lemma_mat_mul_entry(p, ht, a, c);
                let u = |d: int| S::mul_spec(p[a][d], ht[d][c]);
                let v = |d: int| S::mul_spec(p[a][d], h[c][d]);
                lemma_sum_to_congruent(u, v, T_DIM as int);
            }
            lemma_sum_to_congruent(f, f2, DIM as int);
        }
        let delta = tangent::array_from_fn::<S, T_DIM>(
            |a: int| sum_to(|b: int| S::mul_spec(gain(a, b), innovation[b]), DIM as int),
        );
        let step = mat_vec_spec(gain_m, innovation);
        assert forall|a: int| 0 <= a < T_DIM implies #[trigger] step[a] == delta[a] by {
            let u = |b: int| S::mul_spec(gain_m[a][b], innovation[b]);
            let v = |b: int| S::mul_spec(gain(a, b), innovation[b]);
            assert forall|b: int| 0 <= b < DIM implies #[trigger] u(b) == v(b) by {
                assert(gain_m[a][b] == gain(a, b));
            }
            lemma_sum_to_congruent(u, v, DIM as int);
        }
        assert(step =~= delta);
        let g = self.state.parallel_transport_spec(M::vector_to_tangent_spec(delta));
        let reduced = |x: int, y: int|
            sum_to(
                |m: int|
                    S::mul_spec(
                        S::sub_spec(
                            if x == m {
                                S::one_spec()
                            } else {
                                S::zero_spec()
                            },
                            sum_to(|c: int| S::mul_spec(gain(x, c), h[c][m]), DIM as int),
                        ),
                        p[m][y],
                    ),
                T_DIM as int,
            );
        let kh = mat_mul_spec(gain_m, h);
        let i_kh = mat_sub_spec(identity_spec::<S, T_DIM, T_DIM>(), kh);
        let reduced_m = mat_mul_spec(i_kh, p);
        assert forall|x: int, y: int| 0 <= x < T_DIM && 0 <= y < T_DIM implies #[trigger] reduced_m[x][y]
            == reduced(x, y) by {
            lemma_mat_mul_entry(i_kh, p, x, y);
            let u = |m: int| S::mul_spec(i_kh[x][m], p[m][y]);
            let v = |m: int|
                S::mul_spec(
                    S::sub_spec(
                        if x == m {
                            S::one_spec()
                        } else {
                            S::zero_spec()
                        },
                        sum_to(|c: int| S::mul_spec(gain(x, c), h[c][m]), DIM as int),
                    ),
                    p[m][y],
                );
            assert forall|m: int| 0 <= m < T_DIM implies #[trigger] u(m) == v(m) by {
                lemma_mat_mul_entry(gain_m, h, x, m);
                let u2 = |c: int| S::mul_spec(gain_m[x][c], h[c][m]);
                let v2 = |c: int| S::mul_spec(gain(x, c), h[c][m]);
                assert forall|c: int| 0 <= c < DIM implies #[trigger] u2(c) == v2(c) by {
                    assert(gain_m[x][c] == gain(x, c));
                }
                lemma_sum_to_congruent(u2, v2, DIM as int);
            }
            lemma_sum_to_congruent(u, v, T_DIM as int);
        }
        let reframed = |x: int, y: int|
            sum_to(
                |l: int| S::mul_spec(sum_to(|m: int| S::mul_spec(g[x][m], reduced(m, l)), T_DIM as int), g[y][l]),
                T_DIM as int,
            );
        let reframed_m = mat_mul_spec(mat_mul_spec(g, reduced_m), transpose_spec(g));
        assert forall|x: int, y: int| 0 <= x < T_DIM && 0 <= y < T_DIM implies #[trigger] reframed_m[x][y]
            == reframed(x, y) by {
            lemma_congruence_entry(g, reduced_m, x, y);
            let u = |l: int| S::mul_spec(sum_to(|m: int| S::mul_spec(g[x][m], reduced_m[m][l]), T_DIM as int), g[y][l]);
            let v = |l: int| S::mul_spec(sum_to(|m: int| S::mul_spec(g[x][m], reduced(m, l)), T_DIM as int), g[y][l]);
            assert forall|l: int| 0 <= l < T_DIM implies #[trigger] u(l) == v(l) by {
                let u2 = |m: int| S::mul_spec(g[x][m], reduced_m[m][l]);
                let v2 = |m: int| S::mul_spec(g[x][m], reduced(m, l));
                lemma_sum_to_congruent(u2, v2, T_DIM as int);
            }
            lemma_sum_to_congruent(u, v, T_DIM as int);
        }
        let next = self.tangent_update_spec(h, innovation, s_matrix)->0;
        assert(next.covariance[i][j] == S::mul_spec(
            S::add_spec(reframed_m[i][j], transpose_spec(reframed_m)[i][j]),
            S::from_ratio_spec(1, 2),
        ));
        assert(transpose_spec(reframed_m)[i][j] == reframed_m[j][i]);
    }

    /// A measurement correction is the Kalman update with the measurement's
    /// tangent Jacobian `H` and the innovation covariance
    /// `S[a][b] = sum_l (sum_k H[a][k] P[k][l]) H[b][l] + R[a][b]`
    /// (`H P H^T + R`); when that update is refused, nothing changes.
    pub proof fn lemma_correction_innovation_covariance<D: Diff<S, A_DIM, M_DIM>, const M_DIM: usize>(
        self,
        measurement_engine: TimeVaryingConstraint<S, D, A_DIM, T_DIM, M_DIM>,
        innovation: [S; M_DIM],
        r_covariance: [[S; M_DIM]; M_DIM],
    ) where S: LinearSolve<M_DIM>
        ensures
            ({
                let h = measurement_engine.linearize_tangent_spec(self.state);
                let p = self.covariance;
                let s_matrix = tangent::array_from_fn::<[S; M_DIM], M_DIM>(
                    |a: int|
                        tangent::array_from_fn::<S, M_DIM>(
                            |b: int|
                                S::add_spec(
                                    sum_to(
                                        |l: int|
                                            S::mul_spec(
                                                sum_to(|k: int| S::mul_spec(h[a][k], p[k][l]), T_DIM as int),
                                                h[b][l],
                                            ),
                                        T_DIM as int,
                                    ),
                                    r_covariance[a][b],
                                ),
                        ),
                );
                self.correction_spec(measurement_engine, innovation, r_covariance) == match self.tangent_update_spec(
                    h,
                    innovation,
                    s_matrix,
                ) {
                    Some(next) => next,
                    None => self,
                }
            }),
    {
        broadcast use crate::tangent::lemma_array_from_fn;

        let h = measurement_engine.linearize_tangent_spec(self.state);
        let p = self.covariance;
        let s_matrix = tangent::array_from_fn::<[S; M_DIM], M_DIM>(
            |a: int|
                tangent::array_from_fn::<S, M_DIM>(
                    |b: int|
                        S::add_spec(
                            sum_to(
                                |l: int| S::mul_spec(sum_to(|k: int| S::mul_spec(h[a][k], p[k][l]), T_DIM as int), h[b][l]),
                                T_DIM as int,
                            ),
                            r_covariance[a][b],
                        ),
                ),
        );
        let body = mat_add_spec(mat_mul_spec(mat_mul_spec(h, p), transpose_spec(h)), r_covariance);
        assert forall|a: int, b: int| 0 <= a < M_DIM && 0 <= b < M_DIM implies #[trigger] body[a][b]
            == s_matrix[a][b] by {
            lemma_congruence_entry(h, p, a, b);
        }
        crate::linalg::lemma_mat_eq(body, s_matrix);
    }

    /// One projection step onto the constraint surface: while the residual
    /// `h(x)` has a one-norm at or above the tolerance, the step is the Kalman
    /// update with the constraint's tangent Jacobian `H`, the innovation
    /// `-h(x)` and the covariance `S[a][b] = sum_l (sum_k H[a][k] P[k][l]) H[b][l]`
    /// (`H P H^T`, no measurement noise), and the projection goes on from the
    /// updated node; when the update is refused it stops there.
    pub proof fn lemma_projection_step<DC: Diff<S, A_DIM, C_DIM>, const C_DIM: usize>(
        self,
        constraint: TimeVaryingConstraint<S, DC, A_DIM, T_DIM, C_DIM>,
        tolerance: S,
        iterations: nat,
    ) where S: LinearSolve<C_DIM>
        requires
            !S::lt_spec(one_norm_spec(constraint.diff_engine.eval_spec(self.state.to_ambient_spec())), tolerance),
        ensures
            ({
                let residual = constraint.diff_engine.eval_spec(self.state.to_ambient_spec());
                let h = constraint.linearize_tangent_spec(self.state);
                let p = self.covariance;
                let s_matrix = tangent::array_from_fn::<[S; C_DIM], C_DIM>(
                    |a: int|
                        tangent::array_from_fn::<S, C_DIM>(
                            |b: int|
                                sum_to(
                                    |l: int|
                                        S::mul_spec(sum_to(|k: int| S::mul_spec(h[a][k], p[k][l]), T_DIM as int), h[b][l]),
                                    T_DIM as int,
                                ),
                        ),
                );
                let pull = tangent::array_from_fn::<S, C_DIM>(|a: int| S::neg_spec(residual[a]));
                self.projection_spec(constraint, tolerance, iterations + 1) == match self.tangent_update_spec(
                    h,
                    pull,
                    s_matrix,
                ) {
                    Some(next) => next.projection_spec(constraint, tolerance, iterations),
                    None => self,
                }
            }),
    {
        broadcast use crate::tangent::lemma_array_from_fn;

        let h = constraint.linearize_tangent_spec(self.state);
        let p = self.covariance;
        let s_matrix = tangent::array_from_fn::<[S; C_DIM], C_DIM>(
            |a: int|
                tangent::array_from_fn::<S, C_DIM>(
                    |b: int|
                        sum_to(
                            |l: int| S::mul_spec(sum_to(|k: int| S::mul_spec(h[a][k], p[k][l]), T_DIM as int), h[b][l]),
                            T_DIM as int,
                        ),
                ),
        );
        let body = mat_mul_spec(mat_mul_spec(h, p), transpose_spec(h));
        assert forall|a: int, b: int| 0 <= a < C_DIM && 0 <= b < C_DIM implies #[trigger] body[a][b]
            == s_matrix[a][b] by {
            lemma_congruence_entry(h, p, a, b);
        }
        crate::linalg::lemma_mat_eq(body, s_matrix);
        let residual = constraint.diff_engine.eval_spec(self.state.to_ambient_spec());
        assert(neg_spec(residual) =~= tangent::array_from_fn::<S, C_DIM>(|a: int| S::neg_spec(residual[a])));
    }

    /// A Kalman update leaves a symmetric covariance: every entry of the new
    /// covariance that is not NaN (infinite ones included) equals its mirror
    /// entry, since the update averages the reframed covariance with its
    /// transpose.
    pub proof fn lemma_update_keeps_covariance_symmetric<const DIM: usize>(
        self,
        h_tangent: [[S; T_DIM]; DIM],
        innovation: [S; DIM],
        s_matrix: [[S; DIM]; DIM],
        i: int,
        j: int,
    ) where S: LinearSolve<DIM>
        requires
            self.tangent_update_spec(h_tangent, innovation, s_matrix) is Some,
            0 <= i < T_DIM,
            0 <= j < T_DIM,
            !S::is_nan_spec(self.tangent_update_spec(h_tangent, innovation, s_matrix)->0.covariance[i][j]),
        ensures
            self.tangent_update_spec(h_tangent, innovation, s_matrix)->0.covariance[i][j]
                == self.tangent_update_spec(h_tangent, innovation, s_matrix)->0.covariance[j][i],
    {
        let s_inv = <S as LinearSolve<DIM>>::cholesky_inverse_spec(s_matrix)->0;
        let gain = mat_mul_spec(mat_mul_spec(self.covariance, transpose_spec(h_tangent)), s_inv);
        let delta = M::vector_to_tangent_spec(mat_vec_spec(gain, innovation));
        let transport = self.state.parallel_transport_spec(delta);
        let reduced = mat_mul_spec(
            mat_sub_spec(identity_spec::<S, T_DIM, T_DIM>(), mat_mul_spec(gain, h_tangent)),
            self.covariance,
        );
        let reframed = mat_mul_spec(mat_mul_spec(transport, reduced), transpose_spec(transport));
        crate::linalg::lemma_symmetrized_is_symmetric(reframed, S::from_ratio_spec(1, 2), i, j);
    }

    /// A measurement correction leaves a symmetric covariance when the
    /// innovation covariance `H P H^T + R` can be factorized: every entry of
    /// the corrected covariance that is not NaN equals its mirror
    /// entry.
    pub proof fn lemma_correction_keeps_covariance_symmetric<D: Diff<S, A_DIM, M_DIM>, const M_DIM: usize>(
        self,
        measurement_engine: TimeVaryingConstraint<S, D, A_DIM, T_DIM, M_DIM>,
        innovation: [S; M_DIM],
        r_covariance: [[S; M_DIM]; M_DIM],
        i: int,
        j: int,
    ) where S: LinearSolve<M_DIM>
        requires
            ({
                let h = measurement_engine.linearize_tangent_spec(self.state);
                <S as LinearSolve<M_DIM>>::cholesky_inverse_spec(
                    mat_add_spec(mat_mul_spec(mat_mul_spec(h, self.covariance), transpose_spec(h)), r_covariance),
                ) is Some
            }),
            0 <= i < T_DIM,
            0 <= j < T_DIM,
            !S::is_nan_spec(self.correction_spec(measurement_engine, innovation, r_covariance).covariance[i][j]),
        ensures
            self.correction_spec(measurement_engine, innovation, r_covariance).covariance[i][j]
                == self.correction_spec(measurement_engine, innovation, r_covariance).covariance[j][i],
    {
        let h = measurement_engine.linearize_tangent_spec(self.state);
        let s_matrix = mat_add_spec(mat_mul_spec(mat_mul_spec(h, self.covariance), transpose_spec(h)), r_covariance);
        self.lemma_update_keeps_covariance_symmetric(h, innovation, s_matrix, i, j);
    }
    /// The predicted covariance is the covariance of the propagated error
    /// `e' = F e + G w`: entry `(i, j)` is
    /// `sum_l (sum_k F[i][k] P[k][l]) F[j][l] + sum_l (sum_k G[i][k] Q[k][l]) G[j][l]`,
    /// that is `F P F^T + G Q G^T`, with `F = T(δ₁) T(-δ₁)^-1 + F_c dt`,
    /// `G = G_c dt`, `(F_c, G_c)` the dynamics linearized at the current state
    /// and `δ₁ = f(x, u, 0) dt` the first-order step.
    pub proof fn lemma_predicted_covariance<
        D: Diff<S, TOTAL_DIM, T_DIM>,
        const U_DIM: usize,
        const W_DIM: usize,
        const TOTAL_DIM: usize,
    >(
        self,
        dynamics: TrajectoryDynamics<S, D, A_DIM, T_DIM, U_DIM, W_DIM, TOTAL_DIM>,
        control: [S; U_DIM],
        process_noise_covariance: [[S; W_DIM]; W_DIM],
        dt: S,
        integrator: Integrator,
        i: int,
        j: int,
    )
        requires
            0 <= i < T_DIM,
            0 <= j < T_DIM,
        ensures
            ({
                let (f_c, g_c) = dynamics.linearize_spec(self.state, control);
                let step = scale_spec(
                    dynamics.velocity_spec(self.state.to_ambient_spec(), control, zeros_spec::<S, W_DIM>()),
                    dt,
                );
                let forward = self.state.parallel_transport_spec(M::vector_to_tangent_spec(step));
                let backward = self.state.parallel_transport_spec(M::vector_to_tangent_spec(neg_spec(step)));
                let f = mat_add_spec(
                    mat_mul_spec(forward, <S as LinearSolve<T_DIM>>::try_inverse_spec(backward).unwrap()),
                    mat_scale_spec(f_c, dt),
                );
                let g = mat_scale_spec(g_c, dt);
                let p = self.covariance;
                let q = process_noise_covariance;
                self.predict_spec(dynamics, control, q, dt, integrator).covariance[i][j] == S::add_spec(
                    sum_to(
                        |l: int| S::mul_spec(sum_to(|k: int| S::mul_spec(f[i][k], p[k][l]), T_DIM as int), f[j][l]),
                        T_DIM as int,
                    ),
                    sum_to(
                        |l: int| S::mul_spec(sum_to(|k: int| S::mul_spec(g[i][k], q[k][l]), W_DIM as int), g[j][l]),
                        W_DIM as int,
                    ),
                )
            }),
    {
        let (f_c, g_c) = dynamics.linearize_spec(self.state, control);
        let t_fwd = self.state.parallel_transport_spec(
            M::vector_to_tangent_spec(self.covariance_step_spec(dynamics, control, dt)),
        );
        let t_bwd = self.backward_transport_spec(dynamics, control, dt);
        let f = mat_add_spec(
            mat_mul_spec(t_fwd, <S as LinearSolve<T_DIM>>::try_inverse_spec(t_bwd).unwrap()),
            mat_scale_spec(f_c, dt),
        );
        let g = mat_scale_spec(g_c, dt);
        lemma_congruence_entry(f, self.covariance, i, j);
        lemma_congruence_entry(g, process_noise_covariance, i, j);
        broadcast use crate::tangent::lemma_array_from_fn;
        let next = self.predict_spec(dynamics, control, process_noise_covariance, dt, integrator);
        let fpf = mat_mul_spec(mat_mul_spec(f, self.covariance), transpose_spec(f));
        let gqg = mat_mul_spec(mat_mul_spec(g, process_noise_covariance), transpose_spec(g));
        assert(next.covariance == mat_add_spec(fpf, gqg));
        assert(next.covariance[i][j] == S::add_spec(fpf[i][j], gqg[i][j]));
    }
}

} // verus!
