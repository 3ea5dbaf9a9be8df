use vstd::prelude::*;
use vstd::std_specs::cmp::PartialEqSpec;
use vstd::std_specs::convert::FromSpec;
use vstd::std_specs::ops::{AddSpec, DivSpec, MulSpec, SubSpec};

verus! {

/// The component type of a vector: a copyable value with the four arithmetic
/// operators, an equality, and the constants zero and one (taken from `u8`).
pub trait Scalar:
    Copy + PartialEq + core::ops::Add<Output = Self> + core::ops::Sub<Output = Self> + core::ops::Mul<
        Output = Self,
    > + core::ops::Div<Output = Self> + From<u8> {

}

impl<
    T: Copy + PartialEq + core::ops::Add<Output = T> + core::ops::Sub<Output = T> + core::ops::Mul<
        Output = T,
    > + core::ops::Div<Output = T> + From<u8>,
> Scalar for T {

}

/// The value zero of the component type.
pub open spec fn zero_of<S: Scalar>() -> S {
    S::from_spec(0u8)
}

/// The value one of the component type.
pub open spec fn one_of<S: Scalar>() -> S {
    S::from_spec(1u8)
}

/// The component type's operators and constants are described by their spec
/// functions (`add_spec`, `mul_spec`, `from_spec`, `eq_spec`, ...).
pub open spec fn arith_specified<S: Scalar>() -> bool {
    &&& S::obeys_add_spec()
    &&& S::obeys_sub_spec()
    &&& S::obeys_mul_spec()
    &&& S::obeys_div_spec()
    &&& <S as FromSpec<u8>>::obeys_from_spec()
    &&& S::obeys_eq_spec()
}

/// The component type's arithmetic never fails: as with IEEE-754 numbers,
/// overflow and division by zero give values rather than a panic.
pub open spec fn arith_total<S: Scalar>() -> bool {
    forall|p: S, q: S|
        #![trigger p.add_req(q)]
        #![trigger p.sub_req(q)]
        #![trigger p.mul_req(q)]
        #![trigger p.div_req(q)]
        p.add_req(q) && p.sub_req(q) && p.mul_req(q) && p.div_req(q)
}

/// The four scalar operations that apply a number to every component.
#[derive(PartialEq, Eq, Structural, Clone, Copy, Debug)]
pub enum ScalarOp {
    Add,
    Sub,
    Mul,
    Div,
}

/// What `op` gives on a component `x` and the number `k`.
pub open spec fn op_spec<S: Scalar>(op: ScalarOp, x: S, k: S) -> S {
    match op {
        ScalarOp::Add => x.add_spec(k),
        ScalarOp::Sub => x.sub_spec(k),
        ScalarOp::Mul => x.mul_spec(k),
        ScalarOp::Div => x.div_spec(k),
    }
}

/// Applies `op` to `x` and `k`.
pub fn apply_op<S: Scalar>(op: ScalarOp, x: S, k: S) -> (r: S)
    requires
        arith_total::<S>(),
    ensures
        arith_specified::<S>() ==> r == op_spec(op, x, k),
{
    match op {
        ScalarOp::Add => x + k,
        ScalarOp::Sub => x - k,
        ScalarOp::Mul => x * k,
        ScalarOp::Div => x / k,
    }
}

} // verus!
