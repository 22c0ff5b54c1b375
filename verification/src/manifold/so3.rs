//! The arithmetic of unit quaternions `q = w + x i + y j + z k` (stored as
//! `[w, x, y, z]`) that the tangent structure of SO(3) uses.
use vstd::prelude::*;
use crate::scalar::RealScalar;

verus! {

/// `J_⊕ = 1/2 [[-x, -y, -z], [w, -z, y], [z, w, -x], [-y, x, w]]`: the
/// pushforward of a right tangent perturbation to the quaternion's ambient
/// coordinates.
pub open spec fn quaternion_pushforward_spec<S: RealScalar>(q: [S; 4]) -> [[S; 3]; 4] {
    let (w, x, y, z) = (q[0], q[1], q[2], q[3]);
    let half = S::div_spec(S::one_spec(), S::add_spec(S::one_spec(), S::one_spec()));
    [
        [S::mul_spec(S::neg_spec(x), half), S::mul_spec(S::neg_spec(y), half), S::mul_spec(S::neg_spec(z), half)],
        [S::mul_spec(w, half), S::mul_spec(S::neg_spec(z), half), S::mul_spec(y, half)],
        [S::mul_spec(z, half), S::mul_spec(w, half), S::mul_spec(S::neg_spec(x), half)],
        [S::mul_spec(S::neg_spec(y), half), S::mul_spec(x, half), S::mul_spec(w, half)],
    ]
}

/// The pushforward Jacobian of SO(3) at the unit quaternion `q`.
pub fn quaternion_pushforward<S: RealScalar>(q: &[S; 4]) -> (r: [[S; 3]; 4])
    ensures
        r == quaternion_pushforward_spec(*q),
{
    let (w, x, y, z) = (q[0], q[1], q[2], q[3]);
    let half = S::one().div(S::one().add(S::one()));
    [
        [x.neg().mul(half), y.neg().mul(half), z.neg().mul(half)],
        [w.mul(half), z.neg().mul(half), y.mul(half)],
        [z.mul(half), w.mul(half), x.neg().mul(half)],
        [y.neg().mul(half), x.mul(half), w.mul(half)],
    ]
}

/// The pushforward applied to the tangent vector `t`, without the matrix:
/// `1/2 [-x tx - y ty - z tz, w tx - z ty + y tz, z tx + w ty - x tz,
/// -y tx + x ty + w tz]`.
pub open spec fn quaternion_apply_pushforward_spec<S: RealScalar>(q: [S; 4], t: [S; 3]) -> [S; 4] {
    let (w, x, y, z) = (q[0], q[1], q[2], q[3]);
    let (tx, ty, tz) = (t[0], t[1], t[2]);
    let half = S::div_spec(S::one_spec(), S::add_spec(S::one_spec(), S::one_spec()));
    [
        S::mul_spec(
            S::sub_spec(S::sub_spec(S::mul_spec(S::neg_spec(x), tx), S::mul_spec(y, ty)), S::mul_spec(z, tz)),
            half,
        ),
        S::mul_spec(
            S::add_spec(S::sub_spec(S::mul_spec(w, tx), S::mul_spec(z, ty)), S::mul_spec(y, tz)),
            half,
        ),
        S::mul_spec(
            S::sub_spec(S::add_spec(S::mul_spec(z, tx), S::mul_spec(w, ty)), S::mul_spec(x, tz)),
            half,
        ),
        S::mul_spec(
            S::add_spec(S::add_spec(S::mul_spec(S::neg_spec(y), tx), S::mul_spec(x, ty)), S::mul_spec(w, tz)),
            half,
        ),
    ]
}

/// The pushforward of SO(3) at `q` applied to the tangent vector `t`.
pub fn quaternion_apply_pushforward<S: RealScalar>(q: &[S; 4], t: &[S; 3]) -> (r: [S; 4])
    ensures
        r == quaternion_apply_pushforward_spec(*q, *t),
{
    let (w, x, y, z) = (q[0], q[1], q[2], q[3]);
    let (tx, ty, tz) = (t[0], t[1], t[2]);
    let half = S::one().div(S::one().add(S::one()));
    [
        x.neg().mul(tx).sub(y.mul(ty)).sub(z.mul(tz)).mul(half),
        w.mul(tx).sub(z.mul(ty)).add(y.mul(tz)).mul(half),
        z.mul(tx).add(w.mul(ty)).sub(x.mul(tz)).mul(half),
        y.neg().mul(tx).add(x.mul(ty)).add(w.mul(tz)).mul(half),
    ]
}

/// `ad_ω = [ω]x = [[0, -ω2, ω1], [ω2, 0, -ω0], [-ω1, ω0, 0]]`.
pub open spec fn so3_small_adjoint_spec<S: RealScalar>(omega: [S; 3]) -> [[S; 3]; 3] {
    [
        [S::zero_spec(), S::neg_spec(omega[2]), omega[1]],
        [omega[2], S::zero_spec(), S::neg_spec(omega[0])],
        [S::neg_spec(omega[1]), omega[0], S::zero_spec()],
    ]
}

/// The small adjoint of SO(3) at the tangent vector `omega`.
pub fn so3_small_adjoint<S: RealScalar>(omega: &[S; 3]) -> (r: [[S; 3]; 3])
    ensures
        r == so3_small_adjoint_spec(*omega),
{
    let z = S::zero();
    [[z, omega[2].neg(), omega[1]], [omega[2], z, omega[0].neg()], [omega[1].neg(), omega[0], z]]
}

} // verus!
