//! Manifolds embedded in an ambient vector space of dimension `A_DIM`, with a
//! tangent space of dimension `T_DIM`, and the Lie-group structure of some.
use vstd::prelude::*;
use crate::scalar::LinearSolve;
use crate::linalg::{mat_mul, mat_mul_spec, transpose, transpose_spec, zeros_mat};

pub mod rn;
pub mod so2;
pub mod so3;
pub mod product;
pub mod dynamics;



pub use rn::RealLine;
pub use so2::ComplexRotation;
pub use product::ProductSpace;
pub use dynamics::{TimeVaryingConstraint, TrajectoryDynamics};



verus! {

/// A manifold embedded in an ambient space of dimension `A_DIM`, with a local
/// tangent space of dimension `T_DIM`.
pub trait Manifold<S, const A_DIM: usize, const T_DIM: usize>: Sized {
    type TangentVector;

    spec fn retract_spec(&self, delta: Self::TangentVector) -> Self;

    spec fn local_lift_spec(&self, other: Self) -> Self::TangentVector;

    spec fn pushforward_jacobian_spec(&self) -> [[S; T_DIM]; A_DIM];

    spec fn apply_pushforward_spec(&self, tangent: Self::TangentVector) -> [S; A_DIM];

    spec fn vector_to_tangent_spec(vec: [S; T_DIM]) -> Self::TangentVector;

    spec fn tangent_to_vector_spec(tangent: Self::TangentVector) -> [S; T_DIM];

    spec fn from_ambient_spec(vec: [S; A_DIM]) -> Self;

    spec fn to_ambient_spec(&self) -> [S; A_DIM];

    spec fn parallel_transport_spec(&self, delta: Self::TangentVector) -> [[S; T_DIM]; T_DIM];

    /// `x ⊕ δ`: the point reached from `self` along the tangent step `delta`.
    fn retract(&self, delta: &Self::TangentVector) -> (r: Self)
        ensures
            r == self.retract_spec(*delta),
    ;

    /// `other ⊖ self`: the tangent step from `self` to `other`.
    fn local_lift(&self, other: &Self) -> (r: Self::TangentVector)
        ensures
            r == self.local_lift_spec(*other),
    ;

    /// The Jacobian of the embedding: tangent space to ambient space.
    fn pushforward_jacobian(&self) -> (r: [[S; T_DIM]; A_DIM])
        ensures
            r == self.pushforward_jacobian_spec(),
    ;

    /// The pushforward applied to a tangent vector, without forming the matrix.
    fn apply_pushforward(&self, tangent: &Self::TangentVector) -> (r: [S; A_DIM])
        ensures
            r == self.apply_pushforward_spec(*tangent),
    ;

    fn vector_to_tangent(vec: &[S; T_DIM]) -> (r: Self::TangentVector)
        ensures
            r == Self::vector_to_tangent_spec(*vec),
    ;

    fn tangent_to_vector(tangent: &Self::TangentVector) -> (r: [S; T_DIM])
        ensures
            r == Self::tangent_to_vector_spec(*tangent),
    ;

    fn from_ambient(vec: &[S; A_DIM]) -> (r: Self)
        ensures
            r == Self::from_ambient_spec(*vec),
    ;

    fn to_ambient(&self) -> (r: [S; A_DIM])
        ensures
            r == self.to_ambient_spec(),
    ;

    /// Parallel transport `T_x M -> T_{x ⊕ δ} M` of a tangent vector along the
    /// geodesic by `delta`, as a `T_DIM x T_DIM` matrix.
    fn parallel_transport(&self, delta: &Self::TangentVector) -> (r: [[S; T_DIM]; T_DIM])
        ensures
            r == self.parallel_transport_spec(*delta),
    ;
}

/// The differentiated-retraction transport `J(x ⊕ δ)^+ J(x)` of tangent
/// coordinates from `x` to `x ⊕ δ`, where `J` is the pushforward Jacobian and
/// `J^+ = (J^T J)^-1 J^T` its pseudo-inverse: a first-order parallel transport
/// for any embedded manifold.
pub open spec fn retraction_transport_spec<
    S: LinearSolve<T_DIM>,
    M: Manifold<S, A_DIM, T_DIM>,
    const A_DIM: usize,
    const T_DIM: usize,
>(x: M, delta: M::TangentVector) -> [[S; T_DIM]; T_DIM] {
    let j_old = x.pushforward_jacobian_spec();
    let j_new = x.retract_spec(delta).pushforward_jacobian_spec();
    let jnt = transpose_spec(j_new);
    let pinv = mat_mul_spec(S::try_inverse_spec(mat_mul_spec(jnt, j_new)).unwrap(), jnt);
    mat_mul_spec(pinv, j_old)
}

/// The normal matrix `J^T J` of the pushforward at `x ⊕ δ`, which the
/// differentiated-retraction transport inverts.
pub open spec fn retraction_normal_spec<
    S: LinearSolve<T_DIM>,
    M: Manifold<S, A_DIM, T_DIM>,
    const A_DIM: usize,
    const T_DIM: usize,
>(x: M, delta: M::TangentVector) -> [[S; T_DIM]; T_DIM] {
    let j_new = x.retract_spec(delta).pushforward_jacobian_spec();
    mat_mul_spec(transpose_spec(j_new), j_new)
}

/// The differentiated-retraction transport of tangent coordinates from `x` to
/// `x ⊕ δ`; the pushforward at `x ⊕ δ` must have full column rank (its normal
/// matrix must be invertible).
pub fn retraction_transport<S: LinearSolve<T_DIM>, M: Manifold<S, A_DIM, T_DIM>, const A_DIM: usize, const T_DIM: usize>(
    x: &M,
    delta: &M::TangentVector,
) -> (r: [[S; T_DIM]; T_DIM])
    requires
        S::try_inverse_spec(retraction_normal_spec::<S, M, A_DIM, T_DIM>(*x, *delta)) is Some,
    ensures
        r == retraction_transport_spec::<S, M, A_DIM, T_DIM>(*x, *delta),
{
    let j_old = x.pushforward_jacobian();
    let j_new = x.retract(delta).pushforward_jacobian();
    let jnt = transpose(&j_new);
    let normal = mat_mul(&jnt, &j_new);
    match S::try_inverse(&normal) {
        Some(inv) => {
            let pinv = mat_mul(&inv, &jnt);
            mat_mul(&pinv, &j_old)
        },
        None => {
            proof {
                assert(false);
            }
            zeros_mat()
        },
    }
}

/// The differentiated-retraction transport from `x` to `x ⊕ δ` when the
/// pushforward at `x ⊕ δ` has full column rank (its normal matrix can be
/// inverted), `None` otherwise.
pub fn try_retraction_transport<
    S: LinearSolve<T_DIM>,
    M: Manifold<S, A_DIM, T_DIM>,
    const A_DIM: usize,
    const T_DIM: usize,
>(x: &M, delta: &M::TangentVector) -> (r: Option<[[S; T_DIM]; T_DIM]>)
    ensures
        r == (if S::try_inverse_spec(retraction_normal_spec::<S, M, A_DIM, T_DIM>(*x, *delta)) is Some {
            Some(retraction_transport_spec::<S, M, A_DIM, T_DIM>(*x, *delta))
        } else {
            None
        }),
{
    let j_new = x.retract(delta).pushforward_jacobian();
    let normal = mat_mul(&transpose(&j_new), &j_new);
    match S::try_inverse(&normal) {
        Some(_) => Some(retraction_transport(x, delta)),
        None => None,
    }
}

/// A manifold that is a Lie group with a left-invariant structure.
pub trait InvariantLieGroup<S, const A_DIM: usize, const T_DIM: usize>: Manifold<S, A_DIM, T_DIM> {
    spec fn exp_spec(omega: Self::TangentVector) -> Self;

    spec fn log_spec(&self) -> Self::TangentVector;

    spec fn compose_spec(&self, other: Self) -> Self;

    spec fn inverse_spec(&self) -> Self;

    spec fn adjoint_spec(&self) -> [[S; T_DIM]; T_DIM];

    spec fn small_adjoint_spec(omega: Self::TangentVector) -> [[S; T_DIM]; T_DIM];

    /// The Lie exponential.
    fn exp(omega: &Self::TangentVector) -> (r: Self)
        ensures
            r == Self::exp_spec(*omega),
    ;

    /// The Lie logarithm.
    fn log(&self) -> (r: Self::TangentVector)
        ensures
            r == self.log_spec(),
    ;

    /// The group product.
    fn compose(&self, other: &Self) -> (r: Self)
        ensures
            r == self.compose_spec(*other),
    ;

    /// The group inverse.
    fn inverse(&self) -> (r: Self)
        ensures
            r == self.inverse_spec(),
    ;

    /// `Ad_g`.
    fn adjoint(&self) -> (r: [[S; T_DIM]; T_DIM])
        ensures
            r == self.adjoint_spec(),
    ;

    /// `ad_omega`.
    fn small_adjoint(omega: &Self::TangentVector) -> (r: [[S; T_DIM]; T_DIM])
        ensures
            r == Self::small_adjoint_spec(*omega),
    ;
}

} // verus!
