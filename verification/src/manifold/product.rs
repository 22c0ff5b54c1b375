//! The product of two manifolds, with concatenated ambient and tangent
//! coordinates.
use vstd::prelude::*;
use crate::scalar::RealScalar;
use crate::linalg::{
    block_diag, block_diag_spec, concat, concat_spec, segment, segment_spec,
};
use super::Manifold;

verus! {

/// The product `M1 x M2`: ambient coordinates `[m1 | m2]` (of `A1` and `A2`
/// entries in `A_TOTAL`), tangent coordinates `[t1 | t2]` (of `T1` and `T2`
/// entries in `T_TOTAL`).
///
/// Coordinates are laid out at fixed offsets; where the totals are smaller
/// than the sums the vectors are cut, and where larger they are padded with
/// zeros.
pub struct ProductSpace<
    M1,
    M2,
    const A1: usize,
    const T1: usize,
    const A2: usize,
    const T2: usize,
    const A_TOTAL: usize,
    const T_TOTAL: usize,
> {
    pub m1: M1,
    pub m2: M2,
}

impl<
    S: RealScalar,
    M1: Manifold<S, A1, T1>,
    M2: Manifold<S, A2, T2>,
    const A1: usize,
    const T1: usize,
    const A2: usize,
    const T2: usize,
    const A_TOTAL: usize,
    const T_TOTAL: usize,
> Manifold<S, A_TOTAL, T_TOTAL> for ProductSpace<M1, M2, A1, T1, A2, T2, A_TOTAL, T_TOTAL> {
    type TangentVector = (M1::TangentVector, M2::TangentVector);

    /// Component-wise retraction.
    open spec fn retract_spec(&self, delta: Self::TangentVector) -> Self {
        ProductSpace { m1: self.m1.retract_spec(delta.0), m2: self.m2.retract_spec(delta.1) }
    }

    /// Component-wise lift.
    open spec fn local_lift_spec(&self, other: Self) -> Self::TangentVector {
        (self.m1.local_lift_spec(other.m1), self.m2.local_lift_spec(other.m2))
    }

    /// The block-diagonal of the component Jacobians.
    open spec fn pushforward_jacobian_spec(&self) -> [[S; T_TOTAL]; A_TOTAL] {
        block_diag_spec::<S, A1, T1, A2, T2, A_TOTAL, T_TOTAL>(
            self.m1.pushforward_jacobian_spec(),
            self.m2.pushforward_jacobian_spec(),
        )
    }

    /// The component pushforwards, concatenated.
    open spec fn apply_pushforward_spec(&self, tangent: Self::TangentVector) -> [S; A_TOTAL] {
        concat_spec::<S, A1, A2, A_TOTAL>(
            self.m1.apply_pushforward_spec(tangent.0),
            self.m2.apply_pushforward_spec(tangent.1),
        )
    }

    open spec fn vector_to_tangent_spec(vec: [S; T_TOTAL]) -> Self::TangentVector {
        (
            M1::vector_to_tangent_spec(segment_spec::<S, T_TOTAL, T1>(vec, 0)),
            M2::vector_to_tangent_spec(segment_spec::<S, T_TOTAL, T2>(vec, T1 as int)),
        )
    }

    open spec fn tangent_to_vector_spec(tangent: Self::TangentVector) -> [S; T_TOTAL] {
        concat_spec::<S, T1, T2, T_TOTAL>(
            M1::tangent_to_vector_spec(tangent.0),
            M2::tangent_to_vector_spec(tangent.1),
        )
    }

    open spec fn from_ambient_spec(vec: [S; A_TOTAL]) -> Self {
        ProductSpace {
            m1: M1::from_ambient_spec(segment_spec::<S, A_TOTAL, A1>(vec, 0)),
            m2: M2::from_ambient_spec(segment_spec::<S, A_TOTAL, A2>(vec, A1 as int)),
        }
    }

    open spec fn to_ambient_spec(&self) -> [S; A_TOTAL] {
        concat_spec::<S, A1, A2, A_TOTAL>(self.m1.to_ambient_spec(), self.m2.to_ambient_spec())
    }

    /// The connection on a product is the product of the components': the
    /// transport is block-diagonal.
    open spec fn parallel_transport_spec(&self, delta: Self::TangentVector) -> [[S; T_TOTAL]; T_TOTAL] {
        block_diag_spec::<S, T1, T1, T2, T2, T_TOTAL, T_TOTAL>(
            self.m1.parallel_transport_spec(delta.0),
            self.m2.parallel_transport_spec(delta.1),
        )
    }

    fn retract(&self, delta: &Self::TangentVector) -> (r: Self) {
        ProductSpace { m1: self.m1.retract(&delta.0), m2: self.m2.retract(&delta.1) }
    }

    fn local_lift(&self, other: &Self) -> (r: Self::TangentVector) {
        (self.m1.local_lift(&other.m1), self.m2.local_lift(&other.m2))
    }

    fn pushforward_jacobian(&self) -> (r: [[S; T_TOTAL]; A_TOTAL]) {
        let j1 = self.m1.pushforward_jacobian();
        let j2 = self.m2.pushforward_jacobian();
        block_diag(&j1, &j2)
    }

    fn apply_pushforward(&self, tangent: &Self::TangentVector) -> (r: [S; A_TOTAL]) {
        let am1 = self.m1.apply_pushforward(&tangent.0);
        let am2 = self.m2.apply_pushforward(&tangent.1);
        concat(&am1, &am2)
    }

    fn vector_to_tangent(vec: &[S; T_TOTAL]) -> (r: Self::TangentVector) {
        let v1: [S; T1] = segment(vec, 0);
        let v2: [S; T2] = segment(vec, T1);
        (M1::vector_to_tangent(&v1), M2::vector_to_tangent(&v2))
    }

    fn tangent_to_vector(tangent: &Self::TangentVector) -> (r: [S; T_TOTAL]) {
        let v1 = M1::tangent_to_vector(&tangent.0);
        let v2 = M2::tangent_to_vector(&tangent.1);
        concat(&v1, &v2)
    }

    fn from_ambient(vec: &[S; A_TOTAL]) -> (r: Self) {
        let v1: [S; A1] = segment(vec, 0);
        let v2: [S; A2] = segment(vec, A1);
        ProductSpace { m1: M1::from_ambient(&v1), m2: M2::from_ambient(&v2) }
    }

    fn to_ambient(&self) -> (r: [S; A_TOTAL]) {
        let a1 = self.m1.to_ambient();
        let a2 = self.m2.to_ambient();
        concat(&a1, &a2)
    }

    fn parallel_transport(&self, delta: &Self::TangentVector) -> (r: [[S; T_TOTAL]; T_TOTAL]) {
        let g1 = self.m1.parallel_transport(&delta.0);
        let g2 = self.m2.parallel_transport(&delta.1);
        block_diag(&g1, &g2)
    }
}

/// `from_ambient` inverts `to_ambient` on a product whose components it
/// inverts, when both ambient blocks fit in the total.
pub proof fn lemma_product_ambient_round_trip<
    S: RealScalar,
    M1: Manifold<S, A1, T1>,
    M2: Manifold<S, A2, T2>,
    const A1: usize,
    const T1: usize,
    const A2: usize,
    const T2: usize,
    const A_TOTAL: usize,
    const T_TOTAL: usize,
>(p: ProductSpace<M1, M2, A1, T1, A2, T2, A_TOTAL, T_TOTAL>)
    requires
        A1 + A2 <= A_TOTAL,
        M1::from_ambient_spec(p.m1.to_ambient_spec()) == p.m1,
        M2::from_ambient_spec(p.m2.to_ambient_spec()) == p.m2,
    ensures
        ProductSpace::<M1, M2, A1, T1, A2, T2, A_TOTAL, T_TOTAL>::from_ambient_spec(p.to_ambient_spec())
            == p,
{
    crate::linalg::lemma_segment_concat::<S, A1, A2, A_TOTAL>(p.m1.to_ambient_spec(), p.m2.to_ambient_spec());
}

/// `to_ambient` inverts `from_ambient` on a product whose components it
/// inverts, when the ambient blocks cover the total exactly.
pub proof fn lemma_product_from_ambient_round_trip<
    S: RealScalar,
    M1: Manifold<S, A1, T1>,
    M2: Manifold<S, A2, T2>,
    const A1: usize,
    const T1: usize,
    const A2: usize,
    const T2: usize,
    const A_TOTAL: usize,
    const T_TOTAL: usize,
>(v: [S; A_TOTAL])
    requires
        A1 + A2 == A_TOTAL,
        M1::from_ambient_spec(segment_spec::<S, A_TOTAL, A1>(v, 0)).to_ambient_spec()
            == segment_spec::<S, A_TOTAL, A1>(v, 0),
        M2::from_ambient_spec(segment_spec::<S, A_TOTAL, A2>(v, A1 as int)).to_ambient_spec()
            == segment_spec::<S, A_TOTAL, A2>(v, A1 as int),
    ensures
        ProductSpace::<M1, M2, A1, T1, A2, T2, A_TOTAL, T_TOTAL>::from_ambient_spec(v).to_ambient_spec()
            == v,
{
    crate::linalg::lemma_concat_segment::<S, A1, A2, A_TOTAL>(v);
}

/// `vector_to_tangent` inverts `tangent_to_vector` on a product whose
/// components it inverts, when both tangent blocks fit in the total.
pub proof fn lemma_product_tangent_round_trip<
    S: RealScalar,
    M1: Manifold<S, A1, T1>,
    M2: Manifold<S, A2, T2>,
    const A1: usize,
    const T1: usize,
    const A2: usize,
    const T2: usize,
    const A_TOTAL: usize,
    const T_TOTAL: usize,
>(t: (M1::TangentVector, M2::TangentVector))
    requires
        T1 + T2 <= T_TOTAL,
        M1::vector_to_tangent_spec(M1::tangent_to_vector_spec(t.0)) == t.0,
        M2::vector_to_tangent_spec(M2::tangent_to_vector_spec(t.1)) == t.1,
    ensures
        ProductSpace::<M1, M2, A1, T1, A2, T2, A_TOTAL, T_TOTAL>::vector_to_tangent_spec(
            ProductSpace::<M1, M2, A1, T1, A2, T2, A_TOTAL, T_TOTAL>::tangent_to_vector_spec(t),
        ) == t,
{
    crate::linalg::lemma_segment_concat::<S, T1, T2, T_TOTAL>(
        M1::tangent_to_vector_spec(t.0),
        M2::tangent_to_vector_spec(t.1),
    );
}

/// `tangent_to_vector` inverts `vector_to_tangent` on a product whose
/// components it inverts, when the tangent blocks cover the total exactly.
pub proof fn lemma_product_vector_round_trip<
    S: RealScalar,
    M1: Manifold<S, A1, T1>,
    M2: Manifold<S, A2, T2>,
    const A1: usize,
    const T1: usize,
    const A2: usize,
    const T2: usize,
    const A_TOTAL: usize,
    const T_TOTAL: usize,
>(v: [S; T_TOTAL])
    requires
        T1 + T2 == T_TOTAL,
        M1::tangent_to_vector_spec(M1::vector_to_tangent_spec(segment_spec::<S, T_TOTAL, T1>(v, 0)))
            == segment_spec::<S, T_TOTAL, T1>(v, 0),
        M2::tangent_to_vector_spec(
            M2::vector_to_tangent_spec(segment_spec::<S, T_TOTAL, T2>(v, T1 as int)),
        ) == segment_spec::<S, T_TOTAL, T2>(v, T1 as int),
    ensures
        ProductSpace::<M1, M2, A1, T1, A2, T2, A_TOTAL, T_TOTAL>::tangent_to_vector_spec(
            ProductSpace::<M1, M2, A1, T1, A2, T2, A_TOTAL, T_TOTAL>::vector_to_tangent_spec(v),
        ) == v,
{
    crate::linalg::lemma_concat_segment::<S, T1, T2, T_TOTAL>(v);
}

} // verus!
