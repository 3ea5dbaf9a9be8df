use crate::components::{cross_spec, dot_prefix, squares_prefix, unit_spec};
use crate::scalar::{one_of, zero_of, Scalar};
use vstd::prelude::*;
use vstd::std_specs::ops::{MulSpec, SubSpec};

verus! {

/// Multiplication of `S` gives the same value in either operand order.
pub open spec fn mul_commutes<S: Scalar>() -> bool {
    forall|p: S, q: S| #[trigger] p.mul_spec(q) == q.mul_spec(p)
}

/// The unit vector along an axis holds one at that axis and zero at every
/// other.
pub proof fn axis_unit_components<S: Scalar>(n: nat, axis: int)
    requires
        0 <= axis < n,
    ensures
        unit_spec::<S>(n, axis).len() == n,
        unit_spec::<S>(n, axis)[axis] == one_of::<S>(),
        forall|j: int| 0 <= j < n && j != axis ==> #[trigger] unit_spec::<S>(n, axis)[j] == zero_of::<S>(),
{
}

/// The dot product is symmetric: `a . b == b . a`, where multiplication of
/// the components commutes.
pub proof fn dot_symmetric<S: Scalar>(a: Seq<S>, b: Seq<S>, n: nat)
    requires
        mul_commutes::<S>(),
    ensures
        dot_prefix(a, b, n) == dot_prefix(b, a, n),
    decreases n,
{
    if n > 0 {
        dot_symmetric(a, b, (n - 1) as nat);
        assert(a[n - 1].mul_spec(b[n - 1]) == b[n - 1].mul_spec(a[n - 1]));
    }
}

/// The sum of squares under the magnitude's square root is the dot product of
/// the vector with itself.
pub proof fn squares_are_self_dot<S: Scalar>(s: Seq<S>, n: nat)
    ensures
        squares_prefix(s, n) == dot_prefix(s, s, n),
    decreases n,
{
    if n > 0 {
        squares_are_self_dot(s, (n - 1) as nat);
    }
}

/// Swapping the operands of the cross product swaps the two products in every
/// component: where `a x b` holds `p - q`, `b x a` holds `q - p`, where
/// multiplication of the components commutes.
pub proof fn cross_swaps_products<S: Scalar>(a: Seq<S>, b: Seq<S>)
    requires
        mul_commutes::<S>(),
    ensures
        cross_spec(b, a)[0] == a[2].mul_spec(b[1]).sub_spec(a[1].mul_spec(b[2])),
        cross_spec(b, a)[1] == a[0].mul_spec(b[2]).sub_spec(a[2].mul_spec(b[0])),
        cross_spec(b, a)[2] == a[1].mul_spec(b[0]).sub_spec(a[0].mul_spec(b[1])),
        cross_spec(a, b)[0] == a[1].mul_spec(b[2]).sub_spec(a[2].mul_spec(b[1])),
        cross_spec(a, b)[1] == a[2].mul_spec(b[0]).sub_spec(a[0].mul_spec(b[2])),
        cross_spec(a, b)[2] == a[0].mul_spec(b[1]).sub_spec(a[1].mul_spec(b[0])),
{
    assert(b[2].mul_spec(a[1]) == a[1].mul_spec(b[2]));
    assert(b[1].mul_spec(a[2]) == a[2].mul_spec(b[1]));
    assert(b[0].mul_spec(a[2]) == a[2].mul_spec(b[0]));
    assert(b[2].mul_spec(a[0]) == a[0].mul_spec(b[2]));
    assert(b[1].mul_spec(a[0]) == a[0].mul_spec(b[1]));
    assert(b[0].mul_spec(a[1]) == a[1].mul_spec(b[0]));
}

} // verus!
