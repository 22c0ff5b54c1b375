//! Fixed-size vectors of scalars, as dual numbers carry them in their tangent
//! part, with the element-wise operations the chain rule needs.
use vstd::prelude::*;
use vstd::array::*;
use crate::scalar::RealScalar;

verus! {

broadcast use vstd::array::group_array_axioms;

spec fn fill_prefix<T: Copy, const N: usize>(f: spec_fn(int) -> T, k: nat) -> [T; N]
    decreases k,
{
    if k == 0 {
        spec_array_fill_for_copy_type::<T, N>(f(0))
    } else {
        spec_array_update(fill_prefix::<T, N>(f, (k - 1) as nat), k - 1, f(k - 1))
    }
}

/// The array whose `i`-th element is `f(i)`.
pub open spec fn array_from_fn<T: Copy, const N: usize>(f: spec_fn(int) -> T) -> [T; N] {
    array_build::<T, N>(f)
}

/// The array whose `i`-th element is `f(i)` (closed form of `array_from_fn`).
pub closed spec fn array_build<T: Copy, const N: usize>(f: spec_fn(int) -> T) -> [T; N] {
    fill_prefix::<T, N>(f, N as nat)
}

proof fn lemma_fill_prefix<T: Copy, const N: usize>(f: spec_fn(int) -> T, k: nat)
    requires
        k <= N,
    ensures
        forall|i: int| 0 <= i < k ==> #[trigger] fill_prefix::<T, N>(f, k)[i] == f(i),
    decreases k,
{
    if k > 0 {
        lemma_fill_prefix::<T, N>(f, (k - 1) as nat);
        let prev = fill_prefix::<T, N>(f, (k - 1) as nat);
        assert(fill_prefix::<T, N>(f, k)@ == prev@.update(k - 1, f(k - 1)));
    }
}

/// Every element of `array_from_fn(f)` is the value of `f` at its index.
pub broadcast proof fn lemma_array_from_fn<T: Copy, const N: usize>(f: spec_fn(int) -> T, i: int)
    requires
        0 <= i < N,
    ensures
        #[trigger] array_build::<T, N>(f)[i] == f(i),
{
    lemma_fill_prefix::<T, N>(f, N as nat);
}

/// An array is `array_from_fn(f)` as soon as it agrees with `f` at every index.
pub proof fn lemma_array_eq_from_fn<T: Copy, const N: usize>(a: [T; N], f: spec_fn(int) -> T)
    requires
        forall|i: int| 0 <= i < N ==> a[i] == f(i),
    ensures
        a == array_from_fn::<T, N>(f),
{
    broadcast use lemma_array_from_fn;
    assert(a =~= array_from_fn::<T, N>(f));
}

/// `a * s`, element-wise.
pub open spec fn scale_spec<T: RealScalar, const N: usize>(a: [T; N], s: T) -> [T; N] {
    array_from_fn::<T, N>(|i: int| T::mul_spec(a[i], s))
}

/// `-a`, element-wise.
pub open spec fn neg_spec<T: RealScalar, const N: usize>(a: [T; N]) -> [T; N] {
    array_from_fn::<T, N>(|i: int| T::neg_spec(a[i]))
}

/// `a - b`, element-wise.
pub open spec fn sub_spec<T: RealScalar, const N: usize>(a: [T; N], b: [T; N]) -> [T; N] {
    array_from_fn::<T, N>(|i: int| T::sub_spec(a[i], b[i]))
}

/// `a + b`, element-wise.
pub open spec fn add_spec<T: RealScalar, const N: usize>(a: [T; N], b: [T; N]) -> [T; N] {
    array_from_fn::<T, N>(|i: int| T::add_spec(a[i], b[i]))
}

/// `a / s`, element-wise.
pub open spec fn unscale_spec<T: RealScalar, const N: usize>(a: [T; N], s: T) -> [T; N] {
    array_from_fn::<T, N>(|i: int| T::div_spec(a[i], s))
}

/// The vector of zeros.
pub open spec fn zeros_spec<T: RealScalar, const N: usize>() -> [T; N] {
    array_from_fn::<T, N>(|i: int| T::zero_spec())
}

/// The vector of zeros.
pub fn zeros<T: RealScalar, const N: usize>() -> (r: [T; N])
    ensures
        r == zeros_spec::<T, N>(),
        forall|i: int| 0 <= i < N ==> r[i] == T::zero_spec(),
{
    let z = T::zero();
    let r = [z; N];
    proof {
        lemma_array_eq_from_fn(r, |i: int| T::zero_spec());
    }
    r
}

/// The unit vector `e_k`: one at index `k`, zero elsewhere.
pub fn unit<T: RealScalar, const N: usize>(k: usize) -> (r: [T; N])
    requires
        k < N,
    ensures
        forall|i: int| 0 <= i < N ==> r[i] == (if i == k { T::one_spec() } else { T::zero_spec() }),
{
    let mut r: [T; N] = zeros();
    r[k] = T::one();
    r
}

/// Element-wise sum.
pub fn add<T: RealScalar, const N: usize>(a: &[T; N], b: &[T; N]) -> (r: [T; N])
    ensures
        r == add_spec(*a, *b),
        forall|i: int| 0 <= i < N ==> r[i] == T::add_spec(a[i], b[i]),
{
    let mut r: [T; N] = *a;
    let mut k: usize = 0;
    while k < N
        invariant
            0 <= k <= N,
            forall|i: int| 0 <= i < k ==> r[i] == T::add_spec(a[i], b[i]),
        decreases N - k,
    {
        r[k] = a[k].add(b[k]);
        k += 1;
    }
    proof {
        lemma_array_eq_from_fn(r, |i: int| T::add_spec(a[i], b[i]));
    }
    r
}

/// Element-wise difference.
pub fn sub<T: RealScalar, const N: usize>(a: &[T; N], b: &[T; N]) -> (r: [T; N])
    ensures
        r == sub_spec(*a, *b),
        forall|i: int| 0 <= i < N ==> r[i] == T::sub_spec(a[i], b[i]),
{
    let mut r: [T; N] = *a;
    let mut k: usize = 0;
    while k < N
        invariant
            0 <= k <= N,
            forall|i: int| 0 <= i < k ==> r[i] == T::sub_spec(a[i], b[i]),
        decreases N - k,
    {
        r[k] = a[k].sub(b[k]);
        k += 1;
    }
    proof {
        lemma_array_eq_from_fn(r, |i: int| T::sub_spec(a[i], b[i]));
    }
    r
}

/// Element-wise negation.
pub fn neg<T: RealScalar, const N: usize>(a: &[T; N]) -> (r: [T; N])
    ensures
        r == neg_spec(*a),
        forall|i: int| 0 <= i < N ==> r[i] == T::neg_spec(a[i]),
{
    let mut r: [T; N] = *a;
    let mut k: usize = 0;
    while k < N
        invariant
            0 <= k <= N,
            forall|i: int| 0 <= i < k ==> r[i] == T::neg_spec(a[i]),
        decreases N - k,
    {
        r[k] = a[k].neg();
        k += 1;
    }
    proof {
        lemma_array_eq_from_fn(r, |i: int| T::neg_spec(a[i]));
    }
    r
}

/// Every element multiplied (on the right) by `s`.
pub fn scale<T: RealScalar, const N: usize>(a: &[T; N], s: T) -> (r: [T; N])
    ensures
        r == scale_spec(*a, s),
        forall|i: int| 0 <= i < N ==> r[i] == T::mul_spec(a[i], s),
{
    let mut r: [T; N] = *a;
    let mut k: usize = 0;
    while k < N
        invariant
            0 <= k <= N,
            forall|i: int| 0 <= i < k ==> r[i] == T::mul_spec(a[i], s),
        decreases N - k,
    {
        r[k] = a[k].mul(s);
        k += 1;
    }
    proof {
        lemma_array_eq_from_fn(r, |i: int| T::mul_spec(a[i], s));
    }
    r
}

/// Every element divided by `s`.
pub fn unscale<T: RealScalar, const N: usize>(a: &[T; N], s: T) -> (r: [T; N])
    ensures
        r == unscale_spec(*a, s),
        forall|i: int| 0 <= i < N ==> r[i] == T::div_spec(a[i], s),
{
    let mut r: [T; N] = *a;
    let mut k: usize = 0;
    while k < N
        invariant
            0 <= k <= N,
            forall|i: int| 0 <= i < k ==> r[i] == T::div_spec(a[i], s),
        decreases N - k,
    {
        r[k] = a[k].div(s);
        k += 1;
    }
    proof {
        lemma_array_eq_from_fn(r, |i: int| T::div_spec(a[i], s));
    }
    r
}

} // verus!
