//! Planar rotations as unit complex numbers.
use vstd::prelude::*;
use crate::scalar::RealScalar;
use crate::linalg::{identity, identity_spec, zeros_mat, zeros_spec};
use super::{InvariantLieGroup, Manifold};

verus! {

/// A planar rotation, stored as the unit complex number `z = (cos θ, sin θ)`.
#[derive(Clone, Copy)]
pub struct ComplexRotation<S> {
    /// Ambient storage: the real and imaginary parts.
    pub z: [S; 2],
}

impl<S: RealScalar> ComplexRotation<S> {
    /// The rotation by zero: `z = (1, 0)`.
    pub fn identity() -> (r: Self)
        ensures
            r.z[0] == S::one_spec(),
            r.z[1] == S::zero_spec(),
    {
        ComplexRotation { z: [S::one(), S::zero()] }
    }
}

impl<S: RealScalar> Manifold<S, 2, 1> for ComplexRotation<S> {
    /// The local angular perturbation `dθ`.
    type TangentVector = S;

    /// `z * exp(i dθ)`.
    open spec fn retract_spec(&self, delta: S) -> Self {
        let c = S::cos_spec(delta);
        let s = S::sin_spec(delta);
        ComplexRotation {
            z: [
                S::sub_spec(S::mul_spec(self.z[0], c), S::mul_spec(self.z[1], s)),
                S::add_spec(S::mul_spec(self.z[1], c), S::mul_spec(self.z[0], s)),
            ],
        }
    }

    /// `dθ = arg(other * conj(self))`.
    open spec fn local_lift_spec(&self, other: Self) -> S {
        let x_diff = S::add_spec(S::mul_spec(other.z[0], self.z[0]), S::mul_spec(other.z[1], self.z[1]));
        let y_diff = S::sub_spec(S::mul_spec(other.z[1], self.z[0]), S::mul_spec(other.z[0], self.z[1]));
        S::atan2_spec(y_diff, x_diff)
    }

    /// `J = [-y, x]^T`.
    open spec fn pushforward_jacobian_spec(&self) -> [[S; 1]; 2] {
        [[S::neg_spec(self.z[1])], [self.z[0]]]
    }

    /// `J dθ = [-y dθ, x dθ]^T`.
    open spec fn apply_pushforward_spec(&self, tangent: S) -> [S; 2] {
        [S::mul_spec(S::neg_spec(self.z[1]), tangent), S::mul_spec(self.z[0], tangent)]
    }

    open spec fn vector_to_tangent_spec(vec: [S; 1]) -> S {
        vec[0]
    }

    open spec fn tangent_to_vector_spec(tangent: S) -> [S; 1] {
        [tangent]
    }

    open spec fn from_ambient_spec(vec: [S; 2]) -> Self {
        ComplexRotation { z: vec }
    }

    open spec fn to_ambient_spec(&self) -> [S; 2] {
        self.z
    }

    /// SO(2) is abelian, so transport is exactly the identity.
    open spec fn parallel_transport_spec(&self, delta: S) -> [[S; 1]; 1] {
        identity_spec::<S, 1, 1>()
    }

    fn retract(&self, delta: &S) -> (r: Self) {
        let d = *delta;
        let cos_d = d.cos();
        let sin_d = d.sin();
        let x_next = self.z[0].mul(cos_d).sub(self.z[1].mul(sin_d));
        let y_next = self.z[1].mul(cos_d).add(self.z[0].mul(sin_d));
        ComplexRotation { z: [x_next, y_next] }
    }

    fn local_lift(&self, other: &Self) -> (r: S) {
        let x_diff = other.z[0].mul(self.z[0]).add(other.z[1].mul(self.z[1]));
        let y_diff = other.z[1].mul(self.z[0]).sub(other.z[0].mul(self.z[1]));
        y_diff.atan2(x_diff)
    }

    fn pushforward_jacobian(&self) -> (r: [[S; 1]; 2]) {
        [[self.z[1].neg()], [self.z[0]]]
    }

    fn apply_pushforward(&self, tangent: &S) -> (r: [S; 2]) {
        let t = *tangent;
        [self.z[1].neg().mul(t), self.z[0].mul(t)]
    }

    fn vector_to_tangent(vec: &[S; 1]) -> (r: S) {
        vec[0]
    }

    fn tangent_to_vector(tangent: &S) -> (r: [S; 1]) {
        [*tangent]
    }

    fn from_ambient(vec: &[S; 2]) -> (r: Self) {
        ComplexRotation { z: *vec }
    }

    fn to_ambient(&self) -> (r: [S; 2]) {
        self.z
    }

    fn parallel_transport(&self, delta: &S) -> (r: [[S; 1]; 1]) {
        identity()
    }
}

impl<S: RealScalar> InvariantLieGroup<S, 2, 1> for ComplexRotation<S> {
    open spec fn exp_spec(omega: S) -> Self {
        ComplexRotation { z: [S::cos_spec(omega), S::sin_spec(omega)] }
    }

    open spec fn log_spec(&self) -> S {
        S::atan2_spec(self.z[1], self.z[0])
    }

    /// Complex multiplication.
    open spec fn compose_spec(&self, other: Self) -> Self {
        ComplexRotation {
            z: [
                S::sub_spec(S::mul_spec(self.z[0], other.z[0]), S::mul_spec(self.z[1], other.z[1])),
                S::add_spec(S::mul_spec(self.z[0], other.z[1]), S::mul_spec(self.z[1], other.z[0])),
            ],
        }
    }

    /// Complex conjugation.
    open spec fn inverse_spec(&self) -> Self {
        ComplexRotation { z: [self.z[0], S::neg_spec(self.z[1])] }
    }

    /// SO(2) is abelian: `Ad_g` is the identity.
    open spec fn adjoint_spec(&self) -> [[S; 1]; 1] {
        identity_spec::<S, 1, 1>()
    }

    /// `ad_omega = 0`.
    open spec fn small_adjoint_spec(omega: S) -> [[S; 1]; 1] {
        zeros_spec::<S, 1, 1>()
    }

    fn exp(omega: &S) -> (r: Self) {
        let o = *omega;
        ComplexRotation { z: [o.cos(), o.sin()] }
    }

    fn log(&self) -> (r: S) {
        self.z[1].atan2(self.z[0])
    }

    fn compose(&self, other: &Self) -> (r: Self) {
        let x = self.z[0].mul(other.z[0]).sub(self.z[1].mul(other.z[1]));
        let y = self.z[0].mul(other.z[1]).add(self.z[1].mul(other.z[0]));
        ComplexRotation { z: [x, y] }
    }

    fn inverse(&self) -> (r: Self) {
        ComplexRotation { z: [self.z[0], self.z[1].neg()] }
    }

    fn adjoint(&self) -> (r: [[S; 1]; 1]) {
        identity()
    }

    fn small_adjoint(omega: &S) -> (r: [[S; 1]; 1]) {
        zeros_mat()
    }
}

/// A rotation is its stored unit complex number: `from_ambient` and
/// `to_ambient` invert each other, and so do `vector_to_tangent` and
/// `tangent_to_vector` on the one-dimensional angle.
pub proof fn lemma_complex_rotation_round_trips<S: RealScalar>(x: ComplexRotation<S>, a: [S; 2], v: [S; 1], t: S)
    ensures
        ComplexRotation::<S>::from_ambient_spec(x.to_ambient_spec()) == x,
        ComplexRotation::<S>::from_ambient_spec(a).to_ambient_spec() == a,
        ComplexRotation::<S>::vector_to_tangent_spec(ComplexRotation::<S>::tangent_to_vector_spec(t)) == t,
        ComplexRotation::<S>::tangent_to_vector_spec(ComplexRotation::<S>::vector_to_tangent_spec(v)) == v,
{
    assert([v[0]] =~= v);
}

/// Planar rotations commute: `a ∘ b` and `b ∘ a` are the same rotation,
/// whenever the components of `a ∘ b` are not NaN.
pub proof fn lemma_complex_rotation_compose_commutes<S: RealScalar>(a: ComplexRotation<S>, b: ComplexRotation<S>)
    requires
        !S::is_nan_spec(a.compose_spec(b).z[0]),
        !S::is_nan_spec(a.compose_spec(b).z[1]),
    ensures
        a.compose_spec(b) == b.compose_spec(a),
{
    let p = S::mul_spec(a.z[0], b.z[0]);
    let q = S::mul_spec(a.z[1], b.z[1]);
    S::lemma_sub_not_nan(p, q);
    S::lemma_mul_commutative(a.z[0], b.z[0]);
    S::lemma_mul_commutative(a.z[1], b.z[1]);
    let u = S::mul_spec(a.z[0], b.z[1]);
    let w = S::mul_spec(a.z[1], b.z[0]);
    S::lemma_add_not_nan(u, w);
    S::lemma_mul_commutative(a.z[0], b.z[1]);
    S::lemma_mul_commutative(a.z[1], b.z[0]);
    S::lemma_add_commutative(u, w);
    assert(a.compose_spec(b).z =~= b.compose_spec(a).z);
}

} // verus!
