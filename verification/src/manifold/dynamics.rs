//! System dynamics and constraints on a manifold, linearized onto its tangent
//! space through a differentiation engine.
use vstd::prelude::*;
use core::marker::PhantomData;
use crate::scalar::RealScalar;
use crate::diff::Diff;
use crate::linalg::{columns, columns_spec, mat_mul, mat_mul_spec, segment_spec};
use crate::tangent::zeros;
use super::Manifold;

verus! {

/// The packed dynamics input `[state | control | noise]`: the state at offset
/// 0, the control at `A_DIM`, the noise at `A_DIM + U_DIM`, zero elsewhere.
pub open spec fn pack_spec<
    S: RealScalar,
    const A_DIM: usize,
    const U_DIM: usize,
    const W_DIM: usize,
    const TOTAL_DIM: usize,
>(state: [S; A_DIM], control: [S; U_DIM], noise: [S; W_DIM]) -> [S; TOTAL_DIM] {
    crate::tangent::array_from_fn::<S, TOTAL_DIM>(
        |i: int|
            if i < A_DIM {
                state[i]
            } else if i < A_DIM + U_DIM {
                control[i - A_DIM]
            } else if i < A_DIM + U_DIM + W_DIM {
                noise[i - A_DIM - U_DIM]
            } else {
                S::zero_spec()
            },
    )
}

/// Packs `[state | control | noise]` into one input vector.
pub fn pack<S: RealScalar, const A_DIM: usize, const U_DIM: usize, const W_DIM: usize, const TOTAL_DIM: usize>(
    state: &[S; A_DIM],
    control: &[S; U_DIM],
    noise: &[S; W_DIM],
) -> (r: [S; TOTAL_DIM])
    ensures
        r == pack_spec::<S, A_DIM, U_DIM, W_DIM, TOTAL_DIM>(*state, *control, *noise),
{
    let mut r: [S; TOTAL_DIM] = zeros();
    let mut i: usize = 0;
    while i < TOTAL_DIM
        invariant
            0 <= i <= TOTAL_DIM,
            forall|k: int|
                0 <= k < TOTAL_DIM ==> #[trigger] r[k] == (if k >= i {
                    S::zero_spec()
                } else if k < A_DIM {
                    state[k]
                } else if k < A_DIM + U_DIM {
                    control[k - A_DIM]
                } else if k < A_DIM + U_DIM + W_DIM {
                    noise[k - A_DIM - U_DIM]
                } else {
                    S::zero_spec()
                }),
        decreases TOTAL_DIM - i,
    {
        if i < A_DIM {
            r[i] = state[i];
        } else if i - A_DIM < U_DIM {
            r[i] = control[i - A_DIM];
        } else if i - A_DIM - U_DIM < W_DIM {
            r[i] = noise[i - A_DIM - U_DIM];
        }
        i += 1;
    }
    proof {
        broadcast use crate::tangent::lemma_array_from_fn;

        assert(r =~= pack_spec::<S, A_DIM, U_DIM, W_DIM, TOTAL_DIM>(*state, *control, *noise));
    }
    r
}

/// The packed input reads back what went into it: its first `A_DIM` entries
/// are the state, the next `U_DIM` the control and the next `W_DIM` the
/// noise, when the three fit in `TOTAL_DIM`.
pub proof fn lemma_pack_segments<
    S: RealScalar,
    const A_DIM: usize,
    const U_DIM: usize,
    const W_DIM: usize,
    const TOTAL_DIM: usize,
>(state: [S; A_DIM], control: [S; U_DIM], noise: [S; W_DIM])
    requires
        A_DIM + U_DIM + W_DIM <= TOTAL_DIM,
    ensures
        segment_spec::<S, TOTAL_DIM, A_DIM>(
            pack_spec::<S, A_DIM, U_DIM, W_DIM, TOTAL_DIM>(state, control, noise),
            0,
        ) == state,
        segment_spec::<S, TOTAL_DIM, U_DIM>(
            pack_spec::<S, A_DIM, U_DIM, W_DIM, TOTAL_DIM>(state, control, noise),
            A_DIM as int,
        ) == control,
        segment_spec::<S, TOTAL_DIM, W_DIM>(
            pack_spec::<S, A_DIM, U_DIM, W_DIM, TOTAL_DIM>(state, control, noise),
            A_DIM + U_DIM,
        ) == noise,
{
    broadcast use crate::tangent::lemma_array_from_fn;

    let p = pack_spec::<S, A_DIM, U_DIM, W_DIM, TOTAL_DIM>(state, control, noise);
    assert(segment_spec::<S, TOTAL_DIM, A_DIM>(p, 0) =~= state);
    assert(segment_spec::<S, TOTAL_DIM, U_DIM>(p, A_DIM as int) =~= control);
    assert(segment_spec::<S, TOTAL_DIM, W_DIM>(p, A_DIM + U_DIM) =~= noise);
}

/// Trajectory dynamics `f(x, u, w)` on a manifold, evaluated and linearized
/// through a differentiation engine over the packed input
/// `[ambient state | control | noise]` of `TOTAL_DIM` entries.
#[verifier::reject_recursive_types(S)]
pub struct TrajectoryDynamics<
    S,
    D,
    const A_DIM: usize,
    const T_DIM: usize,
    const U_DIM: usize,
    const W_DIM: usize,
    const TOTAL_DIM: usize,
> {
    pub diff_engine: D,
    pub _marker: PhantomData<S>,
}

impl<
    S: RealScalar,
    D: Diff<S, TOTAL_DIM, T_DIM>,
    const A_DIM: usize,
    const T_DIM: usize,
    const U_DIM: usize,
    const W_DIM: usize,
    const TOTAL_DIM: usize,
> TrajectoryDynamics<S, D, A_DIM, T_DIM, U_DIM, W_DIM, TOTAL_DIM> {
    /// Links a differentiation engine to the dynamics.
    pub fn new(diff_engine: D) -> (r: Self)
        ensures
            r.diff_engine == diff_engine,
    {
        TrajectoryDynamics { diff_engine, _marker: PhantomData }
    }

    /// The velocity `f(x, u, w)` at the packed input.
    pub open spec fn velocity_spec(&self, ambient_state: [S; A_DIM], control: [S; U_DIM], noise: [S; W_DIM]) -> [S; T_DIM] {
        self.diff_engine.eval_spec(
            pack_spec::<S, A_DIM, U_DIM, W_DIM, TOTAL_DIM>(ambient_state, control, noise),
        )
    }

    /// The continuous-time tangent velocity `f(x, u, w)`.
    pub fn evaluate_velocity(
        &self,
        ambient_state: &[S; A_DIM],
        control: &[S; U_DIM],
        noise: &[S; W_DIM],
    ) -> (r: [S; T_DIM])
        requires
            A_DIM + U_DIM + W_DIM <= TOTAL_DIM,
        ensures
            r == self.velocity_spec(*ambient_state, *control, *noise),
    {
        let packed: [S; TOTAL_DIM] = pack(ambient_state, control, noise);
        self.diff_engine.eval(&packed)
    }

    /// The raw Jacobian of the dynamics at `state` and `control`, noise zero.
    pub open spec fn raw_jacobian_spec<M: Manifold<S, A_DIM, T_DIM>>(
        &self,
        state: M,
        control: [S; U_DIM],
    ) -> [[S; TOTAL_DIM]; T_DIM] {
        self.diff_engine.jacobian_spec(
            pack_spec::<S, A_DIM, U_DIM, W_DIM, TOTAL_DIM>(
                state.to_ambient_spec(),
                control,
                crate::tangent::zeros_spec::<S, W_DIM>(),
            ),
        )
    }

    /// The linearization `(F, G)` at `state` and `control`.
    pub open spec fn linearize_spec<M: Manifold<S, A_DIM, T_DIM>>(&self, state: M, control: [S; U_DIM]) -> (
        [[S; T_DIM]; T_DIM],
        [[S; W_DIM]; T_DIM],
    ) {
        (
            mat_mul_spec(
                columns_spec::<S, T_DIM, TOTAL_DIM, A_DIM>(self.raw_jacobian_spec(state, control), 0),
                state.pushforward_jacobian_spec(),
            ),
            columns_spec::<S, T_DIM, TOTAL_DIM, W_DIM>(
                self.raw_jacobian_spec(state, control),
                A_DIM + U_DIM,
            ),
        )
    }

    /// Linearizes the dynamics: the state transition `F = J_ambient J_oplus`
    /// (the state columns of the raw Jacobian pushed down onto the tangent
    /// frame) and the noise diffusion `G` (the noise columns, untouched).
    pub fn linearize<M: Manifold<S, A_DIM, T_DIM>>(&self, state: &M, control: &[S; U_DIM]) -> (r: (
        [[S; T_DIM]; T_DIM],
        [[S; W_DIM]; T_DIM],
    ))
        requires
            A_DIM + U_DIM + W_DIM <= TOTAL_DIM,
        ensures
            r == self.linearize_spec(*state, *control),
            r.0 == mat_mul_spec(
                columns_spec::<S, T_DIM, TOTAL_DIM, A_DIM>(self.raw_jacobian_spec(*state, *control), 0),
                state.pushforward_jacobian_spec(),
            ),
            r.1 == columns_spec::<S, T_DIM, TOTAL_DIM, W_DIM>(
                self.raw_jacobian_spec(*state, *control),
                A_DIM + U_DIM,
            ),
    {
        let no_noise: [S; W_DIM] = zeros();
        let packed: [S; TOTAL_DIM] = pack(&state.to_ambient(), control, &no_noise);
        let raw_jacobian = self.diff_engine.jacobian(&packed);
        let j_ambient: [[S; A_DIM]; T_DIM] = columns(&raw_jacobian, 0);
        let j_oplus = state.pushforward_jacobian();
        let f_tangent = mat_mul(&j_ambient, &j_oplus);
        let g_tangent: [[S; W_DIM]; T_DIM] = columns(&raw_jacobian, A_DIM + U_DIM);
        (f_tangent, g_tangent)
    }
}

/// An algebraic constraint (or measurement) `h(x)` of `C_DIM` components on
/// the ambient state, linearized onto the tangent space.
#[verifier::reject_recursive_types(S)]
pub struct TimeVaryingConstraint<S, D, const A_DIM: usize, const T_DIM: usize, const C_DIM: usize> {
    pub diff_engine: D,
    pub _marker: PhantomData<S>,
}

impl<
    S: RealScalar,
    D: Diff<S, A_DIM, C_DIM>,
    const A_DIM: usize,
    const T_DIM: usize,
    const C_DIM: usize,
> TimeVaryingConstraint<S, D, A_DIM, T_DIM, C_DIM> {
    /// Links a differentiation engine to the constraint.
    pub fn new(diff_engine: D) -> (r: Self)
        ensures
            r.diff_engine == diff_engine,
    {
        TimeVaryingConstraint { diff_engine, _marker: PhantomData }
    }

    /// The raw residual `h(x)` at an ambient state.
    pub fn evaluate(&self, ambient_state: &[S; A_DIM]) -> (r: [S; C_DIM])
        ensures
            r == self.diff_engine.eval_spec(*ambient_state),
    {
        self.diff_engine.eval(ambient_state)
    }

    /// The tangent Jacobian `H = H_ambient J_oplus` at `state`.
    pub open spec fn linearize_tangent_spec<M: Manifold<S, A_DIM, T_DIM>>(&self, state: M) -> [[S; T_DIM]; C_DIM] {
        mat_mul_spec(self.diff_engine.jacobian_spec(state.to_ambient_spec()), state.pushforward_jacobian_spec())
    }

    /// Projects the ambient Jacobian of the constraint onto the tangent frame
    /// of `state`.
    pub fn linearize_tangent<M: Manifold<S, A_DIM, T_DIM>>(&self, state: &M) -> (r: [[S; T_DIM]; C_DIM])
        ensures
            r == self.linearize_tangent_spec(*state),
    {
        let h_ambient = self.diff_engine.jacobian(&state.to_ambient());
        let j_oplus = state.pushforward_jacobian();
        mat_mul(&h_ambient, &j_oplus)
    }
}

} // verus!
