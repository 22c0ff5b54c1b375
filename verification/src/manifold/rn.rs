//! The real line as a (flat) manifold.
use vstd::prelude::*;
use crate::scalar::RealScalar;
use crate::linalg::{identity, identity_spec};
use super::Manifold;

verus! {

/// A point of the real line, stored as its one ambient coordinate.
#[derive(Clone, Copy)]
pub struct RealLine<S> {
    pub x: [S; 1],
}

impl<S: RealScalar> Manifold<S, 1, 1> for RealLine<S> {
    type TangentVector = S;

    open spec fn retract_spec(&self, delta: S) -> Self {
        RealLine { x: [S::add_spec(self.x[0], delta)] }
    }

    open spec fn local_lift_spec(&self, other: Self) -> S {
        S::sub_spec(other.x[0], self.x[0])
    }

    open spec fn pushforward_jacobian_spec(&self) -> [[S; 1]; 1] {
        identity_spec::<S, 1, 1>()
    }

    open spec fn apply_pushforward_spec(&self, tangent: S) -> [S; 1] {
        [tangent]
    }

    open spec fn vector_to_tangent_spec(vec: [S; 1]) -> S {
        vec[0]
    }

    open spec fn tangent_to_vector_spec(tangent: S) -> [S; 1] {
        [tangent]
    }

    open spec fn from_ambient_spec(vec: [S; 1]) -> Self {
        RealLine { x: vec }
    }

    open spec fn to_ambient_spec(&self) -> [S; 1] {
        self.x
    }

    /// Flat space: transport is the identity.
    open spec fn parallel_transport_spec(&self, delta: S) -> [[S; 1]; 1] {
        identity_spec::<S, 1, 1>()
    }

    fn retract(&self, delta: &S) -> (r: Self) {
        RealLine { x: [self.x[0].add(*delta)] }
    }

    fn local_lift(&self, other: &Self) -> (r: S) {
        other.x[0].sub(self.x[0])
    }

    fn pushforward_jacobian(&self) -> (r: [[S; 1]; 1]) {
        identity()
    }

    fn apply_pushforward(&self, tangent: &S) -> (r: [S; 1]) {
        [*tangent]
    }

    fn vector_to_tangent(vec: &[S; 1]) -> (r: S) {
        vec[0]
    }

    fn tangent_to_vector(tangent: &S) -> (r: [S; 1]) {
        [*tangent]
    }

    fn from_ambient(vec: &[S; 1]) -> (r: Self) {
        RealLine { x: *vec }
    }

    fn to_ambient(&self) -> (r: [S; 1]) {
        self.x
    }

    fn parallel_transport(&self, delta: &S) -> (r: [[S; 1]; 1]) {
        identity()
    }
}

/// On the real line, the ambient coordinates and the tangent vector are the
/// point and the step themselves: `from_ambient` and `to_ambient` invert each
/// other, and so do `vector_to_tangent` and `tangent_to_vector`.
pub proof fn lemma_real_line_round_trips<S: RealScalar>(x: RealLine<S>, v: [S; 1], t: S)
    ensures
        RealLine::<S>::from_ambient_spec(x.to_ambient_spec()) == x,
        RealLine::<S>::from_ambient_spec(v).to_ambient_spec() == v,
        RealLine::<S>::vector_to_tangent_spec(RealLine::<S>::tangent_to_vector_spec(t)) == t,
        RealLine::<S>::tangent_to_vector_spec(RealLine::<S>::vector_to_tangent_spec(v)) == v,
{
    assert([v[0]] =~= v);
}

} // verus!
