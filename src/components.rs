use crate::scalar::{apply_op, arith_specified, arith_total, one_of, op_spec, zero_of, Scalar, ScalarOp};
use vstd::prelude::*;
use vstd::std_specs::cmp::PartialEqSpec;
use vstd::std_specs::ops::{AddSpec, DivSpec, MulSpec, SubSpec};

verus! {

/// Every component of `s` combined with `k` by `op`.
pub open spec fn mapped<S: Scalar>(s: Seq<S>, op: ScalarOp, k: S) -> Seq<S> {
    Seq::new(s.len(), |i: int| op_spec(op, s[i], k))
}

/// The sum `a[0] * b[0] + ... + a[n - 1] * b[n - 1]`, added from the left
/// starting at zero.
pub open spec fn dot_prefix<S: Scalar>(a: Seq<S>, b: Seq<S>, n: nat) -> S
    decreases n,
{
    if n == 0 {
        zero_of::<S>()
    } else {
        dot_prefix(a, b, (n - 1) as nat).add_spec(a[n - 1].mul_spec(b[n - 1]))
    }
}

/// The sum `s[0] * s[0] + ... + s[n - 1] * s[n - 1]`, added from the left
/// starting at zero.
pub open spec fn squares_prefix<S: Scalar>(s: Seq<S>, n: nat) -> S
    decreases n,
{
    if n == 0 {
        zero_of::<S>()
    } else {
        squares_prefix(s, (n - 1) as nat).add_spec(s[n - 1].mul_spec(s[n - 1]))
    }
}

/// The components of the three-dimensional cross product of `a` and `b`.
pub open spec fn cross_spec<S: Scalar>(a: Seq<S>, b: Seq<S>) -> Seq<S> {
    seq![
        a[1].mul_spec(b[2]).sub_spec(a[2].mul_spec(b[1])),
        a[2].mul_spec(b[0]).sub_spec(a[0].mul_spec(b[2])),
        a[0].mul_spec(b[1]).sub_spec(a[1].mul_spec(b[0])),
    ]
}

/// `n` components, one at `index` and zero elsewhere.
pub open spec fn unit_spec<S: Scalar>(n: nat, index: int) -> Seq<S> {
    Seq::new(n, |i: int| if i == index { one_of::<S>() } else { zero_of::<S>() })
}

/// `N` zero components.
pub fn zero_components<S: Scalar, const N: usize>() -> (r: [S; N])
    ensures
        arith_specified::<S>() ==> r@ == Seq::new(N as nat, |i: int| zero_of::<S>()),
{
    let z = S::from(0u8);
    let r = [z; N];
    r
}

/// `N` components: one at `index`, zero elsewhere.
pub fn unit_components<S: Scalar, const N: usize>(index: usize) -> (r: [S; N])
    requires
        index < N,
    ensures
        arith_specified::<S>() ==> r@ == unit_spec::<S>(N as nat, index as int),
{
    let mut r: [S; N] = zero_components();
    r[index] = S::from(1u8);
    proof {
        if arith_specified::<S>() {
            assert(r@ =~= unit_spec::<S>(N as nat, index as int));
        }
    }
    r
}

/// Combines every component of `a` with `k` by `op`.
pub fn map_components<S: Scalar, const N: usize>(a: &[S; N], op: ScalarOp, k: S) -> (r: [S; N])
    requires
        arith_total::<S>(),
    ensures
        arith_specified::<S>() ==> r@ == mapped(a@, op, k),
{
    let mut r: [S; N] = *a;
    let mut i: usize = 0;
    while i < N
        invariant
            arith_total::<S>(),
            r@.len() == N,
            i <= N,
            arith_specified::<S>() ==> forall|j: int|
                0 <= j < i ==> r@[j] == op_spec(op, a@[j], k),
            forall|j: int| i <= j < N ==> r@[j] == a@[j],
        decreases N - i,
    {
        r[i] = apply_op(op, r[i], k);
        i = i + 1;
    }
    proof {
        if arith_specified::<S>() {
            assert(r@ =~= mapped(a@, op, k));
        }
    }
    r
}

/// The dot product of `a` and `b`.
pub fn dot_components<S: Scalar, const N: usize>(a: &[S; N], b: &[S; N]) -> (r: S)
    requires
        arith_total::<S>(),
    ensures
        arith_specified::<S>() ==> r == dot_prefix(a@, b@, N as nat),
{
    let mut acc = S::from(0u8);
    let mut i: usize = 0;
    while i < N
        invariant
            arith_total::<S>(),
            i <= N,
            arith_specified::<S>() ==> acc == dot_prefix(a@, b@, i as nat),
        decreases N - i,
    {
        acc = acc + a[i] * b[i];
        i = i + 1;
    }
    acc
}

/// The sum of the squares of the components of `a`.
pub fn sum_of_squares_components<S: Scalar, const N: usize>(a: &[S; N]) -> (r: S)
    requires
        arith_total::<S>(),
    ensures
        arith_specified::<S>() ==> r == squares_prefix(a@, N as nat),
{
    let mut acc = S::from(0u8);
    let mut i: usize = 0;
    while i < N
        invariant
            arith_total::<S>(),
            i <= N,
            arith_specified::<S>() ==> acc == squares_prefix(a@, i as nat),
        decreases N - i,
    {
        acc = acc + a[i] * a[i];
        i = i + 1;
    }
    acc
}

/// The cross product of two three-component arrays.
pub fn cross_components<S: Scalar>(a: &[S; 3], b: &[S; 3]) -> (r: [S; 3])
    requires
        arith_total::<S>(),
    ensures
        arith_specified::<S>() ==> r@ == cross_spec(a@, b@),
{
    let r = [a[1] * b[2] - a[2] * b[1], a[2] * b[0] - a[0] * b[2], a[0] * b[1] - a[1] * b[0]];
    proof {
        if arith_specified::<S>() {
            assert(r@ =~= cross_spec(a@, b@));
        }
    }
    r
}

/// `numerator / (m_a * m_b)`, where neither magnitude is zero: the cosine or
/// the sine of the angle between two vectors, from the dot product or the
/// magnitude of the cross product.
pub fn angle_ratio<S: Scalar>(numerator: S, m_a: S, m_b: S) -> (r: S)
    requires
        arith_total::<S>(),
        !m_a.eq_spec(&zero_of::<S>()),
        !m_b.eq_spec(&zero_of::<S>()),
    ensures
        arith_specified::<S>() ==> r == numerator.div_spec(m_a.mul_spec(m_b)),
{
    numerator / (m_a * m_b)
}

} // verus!
