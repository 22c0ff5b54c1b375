# manifold

Forward-mode automatic differentiation with dual numbers, manifolds with their
tangent structure, and an extended Kalman filter and a Levenberg-Marquardt
solver on top of them, written in Verus and verified against contracts.

Every computation is generic over a scalar type that implements
`scalar::RealScalar`: each operation comes with a spec function that says what
it means, and the contracts of the library are stated over those spec
functions. `Dual<T, N>` implements the trait for every scalar `T`, so dual
numbers nest (a dual of duals gives second derivatives).

## Layout

- `src/scalar.rs`: the scalar trait, and `LinearSolve` (inverse, Cholesky
  inverse and solve) for the dense systems of the filter and the solver.
- `src/tangent.rs`, `src/linalg.rs`: fixed-size vectors and row-major
  matrices over a scalar, with their spec functions.
- `src/dual.rs`: `Dual<T, N>` (a value and `N` partial derivatives), its
  chain rules, and the batched helpers (`seeded`, `jacobian`, `jacobian_mut`,
  `jvp_mut`).
- `src/dual_linear.rs`: inverse and Cholesky solves on matrices of dual
  numbers, differentiated through `d(A^-1) = -A^-1 dA A^-1`.
- `src/diff.rs`: differentiation engines: `AutoDiff` over a scalar-generic
  function, `NormalDiff` over a value function and its analytic Jacobian.
- `src/manifold/`: the embedded-manifold trait (retraction, lift, pushforward,
  parallel transport), the real line, planar rotations, the product of two
  manifolds, the tangent structure of unit quaternions, and dynamics and
  constraints linearized onto the tangent space.
- `src/filter.rs`: the EKF on a manifold: prediction, measurement correction,
  projection onto hard constraints.
- `src/lie.rs`: SO(3) and SE(3) in matrix form with box-plus / box-minus, the
  vector transport and its derivative matrix by dual numbers, products of
  such manifolds.
- `src/optimize.rs`: Levenberg-Marquardt on stack-sized matrices.
- `app/`: the `f64` scalar (with nalgebra's decompositions), SO(3) as
  nalgebra unit quaternions, and the `product_manifold!` macro.
- `tests/`: the tests, run on an `f64` scalar.
