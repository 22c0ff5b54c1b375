//! Differentiation engines: a function of `IN` scalars with `OUT` outputs,
//! together with its value, Jacobian and Jacobian-vector products.
use vstd::prelude::*;
use core::marker::PhantomData;
use crate::scalar::RealScalar;
use crate::dual::{
    Dual, seeded, seeded_spec, jacobian, jacobian_of, directional, directional_spec, values,
    values_of, first_tangents, first_tangents_of,
};

verus! {

/// A differentiation engine for a function `R^IN -> R^OUT`.
pub trait Diff<T, const IN: usize, const OUT: usize> {
    spec fn eval_spec(&self, x: [T; IN]) -> [T; OUT];

    spec fn jacobian_spec(&self, x: [T; IN]) -> [[T; IN]; OUT];

    spec fn jvp_spec(&self, x: [T; IN], v: [T; IN]) -> [T; OUT];

    spec fn eval_jvp_spec(&self, x: [T; IN], v: [T; IN]) -> ([T; OUT], [T; OUT]);

    /// The value `f(x)`.
    fn eval(&self, x: &[T; IN]) -> (y: [T; OUT])
        ensures
            y == self.eval_spec(*x),
    ;

    /// The `OUT x IN` Jacobian of `f` at `x`.
    fn jacobian(&self, x: &[T; IN]) -> (j: [[T; IN]; OUT])
        ensures
            j == self.jacobian_spec(*x),
    ;

    /// The Jacobian-vector product `J(x) v`.
    fn jvp(&self, x: &[T; IN], v: &[T; IN]) -> (r: [T; OUT])
        ensures
            r == self.jvp_spec(*x, *v),
    ;

    /// The value and the Jacobian-vector product together.
    fn eval_jvp(&self, x: &[T; IN], v: &[T; IN]) -> (r: ([T; OUT], [T; OUT]))
        ensures
            r == self.eval_jvp_spec(*x, *v),
    ;
}

/// A function written generically over the scalar field. Instantiating it at
/// different scalars yields different modes from a single definition: `S = T`
/// is a plain value evaluation, `S = Dual<T, IN>` produces the full batched
/// Jacobian in one pass, and `S = Dual<T, 1>` a single directional derivative.
pub trait DiffFn<const IN: usize, const OUT: usize> {
    /// The outputs at `x`, over the scalar `S`.
    spec fn eval_spec<S: RealScalar>(&self, x: [S; IN]) -> [S; OUT];

    /// Writes the outputs at `x` into `y`.
    fn eval<S: RealScalar>(&self, x: &[S; IN], y: &mut [S; OUT])
        ensures
            *final(y) == self.eval_spec::<S>(*x),
    ;
}

/// Differentiation by dual numbers of a scalar-generic function.
pub struct AutoDiff<G> {
    pub f: G,
}

impl<G> AutoDiff<G> {
    pub fn new(f: G) -> (r: Self)
        ensures
            r.f == f,
    {
        AutoDiff { f }
    }
}

impl<T: RealScalar, G: DiffFn<IN, OUT>, const IN: usize, const OUT: usize> Diff<T, IN, OUT> for AutoDiff<G> {
    /// The plain evaluation: no dual numbers.
    open spec fn eval_spec(&self, x: [T; IN]) -> [T; OUT] {
        self.f.eval_spec::<T>(x)
    }

    /// One width-`IN` dual evaluation at the fully-seeded input.
    open spec fn jacobian_spec(&self, x: [T; IN]) -> [[T; IN]; OUT] {
        jacobian_of(self.f.eval_spec::<Dual<T, IN>>(seeded_spec(x)))
    }

    /// One width-1 dual evaluation seeded with the direction `v`.
    open spec fn jvp_spec(&self, x: [T; IN], v: [T; IN]) -> [T; OUT] {
        first_tangents_of(self.f.eval_spec::<Dual<T, 1>>(directional_spec(x, v)))
    }

    /// Value and directional derivative from the same width-1 pass.
    open spec fn eval_jvp_spec(&self, x: [T; IN], v: [T; IN]) -> ([T; OUT], [T; OUT]) {
        let y = self.f.eval_spec::<Dual<T, 1>>(directional_spec(x, v));
        (values_of(y), first_tangents_of(y))
    }

    fn eval(&self, x: &[T; IN]) -> (y: [T; OUT]) {
        let mut y: [T; OUT] = crate::tangent::zeros();
        self.f.eval::<T>(x, &mut y);
        y
    }

    fn jacobian(&self, x: &[T; IN]) -> (j: [[T; IN]; OUT]) {
        let x_dual = seeded(x);
        let z = Dual::<T, IN>::from_re(T::zero());
        let mut y_dual: [Dual<T, IN>; OUT] = [z; OUT];
        self.f.eval::<Dual<T, IN>>(&x_dual, &mut y_dual);
        jacobian(&y_dual)
    }

    fn jvp(&self, x: &[T; IN], v: &[T; IN]) -> (r: [T; OUT]) {
        let x_dual = directional(x, v);
        let z = Dual::<T, 1>::from_re(T::zero());
        let mut y_dual: [Dual<T, 1>; OUT] = [z; OUT];
        self.f.eval::<Dual<T, 1>>(&x_dual, &mut y_dual);
        first_tangents(&y_dual)
    }

    fn eval_jvp(&self, x: &[T; IN], v: &[T; IN]) -> (r: ([T; OUT], [T; OUT])) {
        let x_dual = directional(x, v);
        let z = Dual::<T, 1>::from_re(T::zero());
        let mut y_dual: [Dual<T, 1>; OUT] = [z; OUT];
        self.f.eval::<Dual<T, 1>>(&x_dual, &mut y_dual);
        (values(&y_dual), first_tangents(&y_dual))
    }
}

/// Forward mode from one definition: the Jacobian is read off a single
/// evaluation at the fully-seeded input, the value and the directional
/// derivative of `eval_jvp` come from one width-1 pass, and its derivative
/// part is exactly `jvp`. `jacobian_mut` and `jvp_mut` write what the engine
/// returns.
pub proof fn lemma_autodiff_passes<T: RealScalar, G: DiffFn<IN, OUT>, const IN: usize, const OUT: usize>(
    engine: AutoDiff<G>,
    x: [T; IN],
    v: [T; IN],
)
    ensures
        <AutoDiff<G> as Diff<T, IN, OUT>>::eval_jvp_spec(&engine, x, v).1
            == <AutoDiff<G> as Diff<T, IN, OUT>>::jvp_spec(&engine, x, v),
        <AutoDiff<G> as Diff<T, IN, OUT>>::eval_jvp_spec(&engine, x, v).0 == values_of(
            engine.f.eval_spec::<Dual<T, 1>>(directional_spec(x, v)),
        ),
        <AutoDiff<G> as Diff<T, IN, OUT>>::jacobian_spec(&engine, x) == jacobian_of(
            engine.f.eval_spec::<Dual<T, IN>>(seeded_spec(x)),
        ),
        <AutoDiff<G> as Diff<T, IN, OUT>>::jvp_spec(&engine, x, v) == first_tangents_of(
            engine.f.eval_spec::<Dual<T, 1>>(directional_spec(x, v)),
        ),
        <AutoDiff<G> as Diff<T, IN, OUT>>::eval_spec(&engine, x) == engine.f.eval_spec::<T>(x),
{
}

} // verus!

verus! {

/// Differentiation by an explicit value function and its analytic Jacobian.
///
/// Both functions must be total and deterministic: each input has one output.
#[verifier::reject_recursive_types(T)]
#[verifier::reject_recursive_types(IN)]
#[verifier::reject_recursive_types(OUT)]
pub struct NormalDiff<T, F, J, const IN: usize, const OUT: usize> where
    F: Fn(&[T; IN]) -> [T; OUT],
    J: Fn(&[T; IN]) -> [[T; IN]; OUT],
 {
    f: F,
    jacobian: J,
    _marker: PhantomData<T>,
}

impl<T, F, J, const IN: usize, const OUT: usize> NormalDiff<T, F, J, IN, OUT> where
    F: Fn(&[T; IN]) -> [T; OUT],
    J: Fn(&[T; IN]) -> [[T; IN]; OUT],
 {
    /// Both functions accept every input and give one output for it.
    pub open spec fn well_defined(f: F, jacobian: J) -> bool {
        &&& forall|x: [T; IN]| #[trigger] call_requires(f, (&x,))
        &&& forall|x: [T; IN], y1: [T; OUT], y2: [T; OUT]|
            #[trigger] call_ensures(f, (&x,), y1) && #[trigger] call_ensures(f, (&x,), y2) ==> y1
                == y2
        &&& forall|x: [T; IN]| #[trigger] call_requires(jacobian, (&x,))
        &&& forall|x: [T; IN], j1: [[T; IN]; OUT], j2: [[T; IN]; OUT]|
            #[trigger] call_ensures(jacobian, (&x,), j1) && #[trigger] call_ensures(jacobian, (&x,), j2)
                ==> j1
                == j2
    }

    #[verifier::type_invariant]
    spec fn inv(self) -> bool {
        Self::well_defined(self.f, self.jacobian)
    }

    /// The value function.
    pub closed spec fn value_fn(self) -> F {
        self.f
    }

    /// The Jacobian function.
    pub closed spec fn jacobian_fn(self) -> J {
        self.jacobian
    }

    pub fn new(f: F, jacobian: J) -> (r: Self)
        requires
            Self::well_defined(f, jacobian),
        ensures
            r.value_fn() == f,
            r.jacobian_fn() == jacobian,
    {
        NormalDiff { f, jacobian, _marker: PhantomData }
    }
}

/// What the value function returns at `x`.
pub open spec fn output_of<T, F: Fn(&[T; IN]) -> [T; OUT], const IN: usize, const OUT: usize>(
    f: F,
    x: [T; IN],
) -> [T; OUT] {
    choose|y: [T; OUT]| call_ensures(f, (&x,), y)
}

/// What the Jacobian function returns at `x`.
pub open spec fn jacobian_output_of<T, J: Fn(&[T; IN]) -> [[T; IN]; OUT], const IN: usize, const OUT: usize>(
    jacobian: J,
    x: [T; IN],
) -> [[T; IN]; OUT] {
    choose|j: [[T; IN]; OUT]| call_ensures(jacobian, (&x,), j)
}

impl<T: RealScalar, F, J, const IN: usize, const OUT: usize> Diff<T, IN, OUT> for NormalDiff<
    T,
    F,
    J,
    IN,
    OUT,
> where F: Fn(&[T; IN]) -> [T; OUT], J: Fn(&[T; IN]) -> [[T; IN]; OUT] {
    open spec fn eval_spec(&self, x: [T; IN]) -> [T; OUT] {
        output_of(self.value_fn(), x)
    }

    open spec fn jacobian_spec(&self, x: [T; IN]) -> [[T; IN]; OUT] {
        jacobian_output_of(self.jacobian_fn(), x)
    }

    /// The analytic Jacobian applied to `v`.
    open spec fn jvp_spec(&self, x: [T; IN], v: [T; IN]) -> [T; OUT] {
        crate::linalg::mat_vec_spec(self.jacobian_spec(x), v)
    }

    open spec fn eval_jvp_spec(&self, x: [T; IN], v: [T; IN]) -> ([T; OUT], [T; OUT]) {
        (self.eval_spec(x), self.jvp_spec(x, v))
    }

    fn eval(&self, x: &[T; IN]) -> (y: [T; OUT]) {
        proof {
            use_type_invariant(self);
        }
        let y = (self.f)(x);
        proof {
            assert(call_ensures(self.f, (x,), y));
        }
        y
    }

    fn jacobian(&self, x: &[T; IN]) -> (j: [[T; IN]; OUT]) {
        proof {
            use_type_invariant(self);
        }
        let j = (self.jacobian)(x);
        proof {
            assert(call_ensures(self.jacobian, (x,), j));
        }
        j
    }

    fn jvp(&self, x: &[T; IN], v: &[T; IN]) -> (r: [T; OUT]) {
        let j = self.jacobian(x);
        crate::linalg::mat_vec(&j, v)
    }

    fn eval_jvp(&self, x: &[T; IN], v: &[T; IN]) -> (r: ([T; OUT], [T; OUT])) {
        let y = self.eval(x);
        let jvp = self.jvp(x, v);
        (y, jvp)
    }
}

/// With an analytic Jacobian, the directional derivative is that Jacobian
/// applied to the direction, and `eval_jvp` is the value together with it.
pub proof fn lemma_normal_diff_jvp<T: RealScalar, F, J, const IN: usize, const OUT: usize>(
    engine: NormalDiff<T, F, J, IN, OUT>,
    x: [T; IN],
    v: [T; IN],
) where F: Fn(&[T; IN]) -> [T; OUT], J: Fn(&[T; IN]) -> [[T; IN]; OUT]
    ensures
        engine.jvp_spec(x, v) == crate::linalg::mat_vec_spec(engine.jacobian_spec(x), v),
        engine.eval_jvp_spec(x, v) == (engine.eval_spec(x), engine.jvp_spec(x, v)),
{
}

} // verus!
