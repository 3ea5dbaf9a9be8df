use crate::components::{
    angle_ratio, cross_components, cross_spec, dot_components, dot_prefix, map_components, mapped,
    squares_prefix, sum_of_squares_components, unit_components, unit_spec, zero_components,
};
use crate::scalar::{arith_specified, arith_total, one_of, op_spec, zero_of, Scalar, ScalarOp};
use vstd::prelude::*;
use vstd::std_specs::cmp::PartialEqSpec;
use vstd::std_specs::ops::{DivSpec, MulSpec};

verus! {

/// A vector of two components, `x` and `y`.
#[derive(PartialEq, Debug)]
pub struct Vec2<S>(pub [S; 2]);

impl<S> View for Vec2<S> {
    type V = Seq<S>;

    open spec fn view(&self) -> Seq<S> {
        self.0@
    }
}

impl<S: Scalar> Vec2<S> {
    /// The vector that `op` with `k` makes of this one, component by component.
    pub open spec fn mapped_spec(self, op: ScalarOp, k: S) -> Self {
        Vec2([op_spec(op, self@[0], k), op_spec(op, self@[1], k)])
    }

    /// The `x` component.
    pub fn x(&self) -> (r: S)
        ensures
            r == self@[0],
    {
        self.0[0]
    }

    /// The unit vector along `x`: one there, zero elsewhere.
    pub fn x_axis() -> (r: Self)
        ensures
            arith_specified::<S>() ==> r@ == unit_spec::<S>(2, 0),
    {
        Vec2(unit_components(0))
    }

    /// The `y` component.
    pub fn y(&self) -> (r: S)
        ensures
            r == self@[1],
    {
        self.0[1]
    }

    /// The unit vector along `y`: one there, zero elsewhere.
    pub fn y_axis() -> (r: Self)
        ensures
            arith_specified::<S>() ==> r@ == unit_spec::<S>(2, 1),
    {
        Vec2(unit_components(1))
    }

    /// The zero vector.
    pub fn new() -> (r: Self)
        ensures
            arith_specified::<S>() ==> r@ == Seq::new(2, |i: int| zero_of::<S>()),
    {
        Vec2(zero_components())
    }

    /// Every component multiplied by `scale`.
    pub fn scalar_mult(&self, scale: S) -> (r: Self)
        requires
            arith_total::<S>(),
        ensures
            arith_specified::<S>() ==> r@ == mapped(self@, ScalarOp::Mul, scale),
            arith_specified::<S>() ==> r == self.mapped_spec(ScalarOp::Mul, scale),
    {
        let r = Vec2(map_components(&self.0, ScalarOp::Mul, scale));
        proof {
            if arith_specified::<S>() {
                assert(r.0 =~= self.mapped_spec(ScalarOp::Mul, scale).0);
            }
        }
        r
    }

    /// `num` added to every component.
    pub fn scalar_add(&self, num: S) -> (r: Self)
        requires
            arith_total::<S>(),
        ensures
            arith_specified::<S>() ==> r@ == mapped(self@, ScalarOp::Add, num),
            arith_specified::<S>() ==> r == self.mapped_spec(ScalarOp::Add, num),
    {
        let r = Vec2(map_components(&self.0, ScalarOp::Add, num));
        proof {
            if arith_specified::<S>() {
                assert(r.0 =~= self.mapped_spec(ScalarOp::Add, num).0);
            }
        }
        r
    }

    /// Every component divided by `num`.
    pub fn scalar_div(&self, num: S) -> (r: Self)
        requires
            arith_total::<S>(),
        ensures
            arith_specified::<S>() ==> r@ == mapped(self@, ScalarOp::Div, num),
            arith_specified::<S>() ==> r == self.mapped_spec(ScalarOp::Div, num),
    {
        let r = Vec2(map_components(&self.0, ScalarOp::Div, num));
        proof {
            if arith_specified::<S>() {
                assert(r.0 =~= self.mapped_spec(ScalarOp::Div, num).0);
            }
        }
        r
    }

    /// `num` subtracted from every component.
    pub fn scalar_sub(&self, num: S) -> (r: Self)
        requires
            arith_total::<S>(),
        ensures
            arith_specified::<S>() ==> r@ == mapped(self@, ScalarOp::Sub, num),
            arith_specified::<S>() ==> r == self.mapped_spec(ScalarOp::Sub, num),
    {
        let r = Vec2(map_components(&self.0, ScalarOp::Sub, num));
        proof {
            if arith_specified::<S>() {
                assert(r.0 =~= self.mapped_spec(ScalarOp::Sub, num).0);
            }
        }
        r
    }

    /// The dot product with `other`.
    pub fn dot(&self, other: &Self) -> (r: S)
        requires
            arith_total::<S>(),
        ensures
            arith_specified::<S>() ==> r == dot_prefix(self@, other@, 2),
    {
        dot_components(&self.0, &other.0)
    }

    /// The sum of the squared components: the square of the magnitude.
    pub fn sum_of_squares(&self) -> (r: S)
        requires
            arith_total::<S>(),
        ensures
            arith_specified::<S>() ==> r == squares_prefix(self@, 2),
    {
        sum_of_squares_components(&self.0)
    }

    /// This vector normalised, given its magnitude: the zero vector where the
    /// magnitude is zero, else every component multiplied by `1 / magnitude`.
    pub fn normalise_by(&self, magnitude: S) -> (r: Self)
        requires
            arith_total::<S>(),
        ensures
            arith_specified::<S>() ==> r@ == if magnitude.eq_spec(&zero_of::<S>()) {
                Seq::new(2, |i: int| zero_of::<S>())
            } else {
                mapped(self@, ScalarOp::Mul, one_of::<S>().div_spec(magnitude))
            },
    {
        if magnitude == S::from(0u8) {
            return Self::new();
        }
        self.scalar_mult(S::from(1u8) / magnitude)
    }

    /// The cosine of the angle to `other`, given the magnitudes of both
    /// vectors, neither of them zero.
    pub fn cos_by(&self, other: &Self, magnitude: S, other_magnitude: S) -> (r: S)
        requires
            arith_total::<S>(),
            !magnitude.eq_spec(&zero_of::<S>()),
            !other_magnitude.eq_spec(&zero_of::<S>()),
        ensures
            arith_specified::<S>() ==> r == dot_prefix(self@, other@, 2).div_spec(
                magnitude.mul_spec(other_magnitude),
            ),
    {
        angle_ratio(self.dot(other), magnitude, other_magnitude)
    }
}

impl<S: Scalar> core::ops::Mul<S> for Vec2<S> {
    type Output = Vec2<S>;

    fn mul(self, scale: S) -> (r: Vec2<S>) {
        self.scalar_mult(scale)
    }
}

impl<S: Scalar> vstd::std_specs::ops::MulSpecImpl<S> for Vec2<S> {
    open spec fn obeys_mul_spec() -> bool {
        arith_specified::<S>()
    }

    open spec fn mul_req(self, scale: S) -> bool {
        arith_total::<S>()
    }

    open spec fn mul_spec(self, scale: S) -> Vec2<S> {
        self.mapped_spec(ScalarOp::Mul, scale)
    }
}

impl<S: Scalar> core::ops::Add<S> for Vec2<S> {
    type Output = Vec2<S>;

    fn add(self, num: S) -> (r: Vec2<S>) {
        self.scalar_add(num)
    }
}

impl<S: Scalar> vstd::std_specs::ops::AddSpecImpl<S> for Vec2<S> {
    open spec fn obeys_add_spec() -> bool {
        arith_specified::<S>()
    }

    open spec fn add_req(self, num: S) -> bool {
        arith_total::<S>()
    }

    open spec fn add_spec(self, num: S) -> Vec2<S> {
        self.mapped_spec(ScalarOp::Add, num)
    }
}

impl<S: Scalar> core::ops::Div<S> for Vec2<S> {
    type Output = Vec2<S>;

    fn div(self, num: S) -> (r: Vec2<S>) {
        self.scalar_div(num)
    }
}

impl<S: Scalar> vstd::std_specs::ops::DivSpecImpl<S> for Vec2<S> {
    open spec fn obeys_div_spec() -> bool {
        arith_specified::<S>()
    }

    open spec fn div_req(self, num: S) -> bool {
        arith_total::<S>()
    }

    open spec fn div_spec(self, num: S) -> Vec2<S> {
        self.mapped_spec(ScalarOp::Div, num)
    }
}

impl<S: Scalar> core::ops::Sub<S> for Vec2<S> {
    type Output = Vec2<S>;

    fn sub(self, num: S) -> (r: Vec2<S>) {
        self.scalar_sub(num)
    }
}

impl<S: Scalar> vstd::std_specs::ops::SubSpecImpl<S> for Vec2<S> {
    open spec fn obeys_sub_spec() -> bool {
        arith_specified::<S>()
    }

    open spec fn sub_req(self, num: S) -> bool {
        arith_total::<S>()
    }

    open spec fn sub_spec(self, num: S) -> Vec2<S> {
        self.mapped_spec(ScalarOp::Sub, num)
    }
}

/// A vector of three components, `x`, `y` and `z`.
#[derive(PartialEq, Debug)]
pub struct Vec3<S>(pub [S; 3]);

impl<S> View for Vec3<S> {
    type V = Seq<S>;

    open spec fn view(&self) -> Seq<S> {
        self.0@
    }
}

impl<S: Scalar> Vec3<S> {
    /// The vector that `op` with `k` makes of this one, component by component.
    pub open spec fn mapped_spec(self, op: ScalarOp, k: S) -> Self {
        Vec3([op_spec(op, self@[0], k), op_spec(op, self@[1], k), op_spec(op, self@[2], k)])
    }

    /// The `x` component.
    pub fn x(&self) -> (r: S)
        ensures
            r == self@[0],
    {
        self.0[0]
    }

    /// The unit vector along `x`: one there, zero elsewhere.
    pub fn x_axis() -> (r: Self)
        ensures
            arith_specified::<S>() ==> r@ == unit_spec::<S>(3, 0),
    {
        Vec3(unit_components(0))
    }

    /// The `y` component.
    pub fn y(&self) -> (r: S)
        ensures
            r == self@[1],
    {
        self.0[1]
    }

    /// The unit vector along `y`: one there, zero elsewhere.
    pub fn y_axis() -> (r: Self)
        ensures
            arith_specified::<S>() ==> r@ == unit_spec::<S>(3, 1),
    {
        Vec3(unit_components(1))
    }

    /// The `z` component.
    pub fn z(&self) -> (r: S)
        ensures
            r == self@[2],
    {
        self.0[2]
    }

    /// The unit vector along `z`: one there, zero elsewhere.
    pub fn z_axis() -> (r: Self)
        ensures
            arith_specified::<S>() ==> r@ == unit_spec::<S>(3, 2),
    {
        Vec3(unit_components(2))
    }

    /// The zero vector.
    pub fn new() -> (r: Self)
        ensures
            arith_specified::<S>() ==> r@ == Seq::new(3, |i: int| zero_of::<S>()),
    {
        Vec3(zero_components())
    }

    /// Every component multiplied by `scale`.
    pub fn scalar_mult(&self, scale: S) -> (r: Self)
        requires
            arith_total::<S>(),
        ensures
            arith_specified::<S>() ==> r@ == mapped(self@, ScalarOp::Mul, scale),
            arith_specified::<S>() ==> r == self.mapped_spec(ScalarOp::Mul, scale),
    {
        let r = Vec3(map_components(&self.0, ScalarOp::Mul, scale));
        proof {
            if arith_specified::<S>() {
                assert(r.0 =~= self.mapped_spec(ScalarOp::Mul, scale).0);
            }
        }
        r
    }

    /// `num` added to every component.
    pub fn scalar_add(&self, num: S) -> (r: Self)
        requires
            arith_total::<S>(),
        ensures
            arith_specified::<S>() ==> r@ == mapped(self@, ScalarOp::Add, num),
            arith_specified::<S>() ==> r == self.mapped_spec(ScalarOp::Add, num),
    {
        let r = Vec3(map_components(&self.0, ScalarOp::Add, num));
        proof {
            if arith_specified::<S>() {
                assert(r.0 =~= self.mapped_spec(ScalarOp::Add, num).0);
            }
        }
        r
    }

    /// Every component divided by `num`.
    pub fn scalar_div(&self, num: S) -> (r: Self)
        requires
            arith_total::<S>(),
        ensures
            arith_specified::<S>() ==> r@ == mapped(self@, ScalarOp::Div, num),
            arith_specified::<S>() ==> r == self.mapped_spec(ScalarOp::Div, num),
    {
        let r = Vec3(map_components(&self.0, ScalarOp::Div, num));
        proof {
            if arith_specified::<S>() {
                assert(r.0 =~= self.mapped_spec(ScalarOp::Div, num).0);
            }
        }
        r
    }

    /// `num` subtracted from every component.
    pub fn scalar_sub(&self, num: S) -> (r: Self)
        requires
            arith_total::<S>(),
        ensures
            arith_specified::<S>() ==> r@ == mapped(self@, ScalarOp::Sub, num),
            arith_specified::<S>() ==> r == self.mapped_spec(ScalarOp::Sub, num),
    {
        let r = Vec3(map_components(&self.0, ScalarOp::Sub, num));
        proof {
            if arith_specified::<S>() {
                assert(r.0 =~= self.mapped_spec(ScalarOp::Sub, num).0);
            }
        }
        r
    }

    /// The dot product with `other`.
    pub fn dot(&self, other: &Self) -> (r: S)
        requires
            arith_total::<S>(),
        ensures
            arith_specified::<S>() ==> r == dot_prefix(self@, other@, 3),
    {
        dot_components(&self.0, &other.0)
    }

    /// The sum of the squared components: the square of the magnitude.
    pub fn sum_of_squares(&self) -> (r: S)
        requires
            arith_total::<S>(),
        ensures
            arith_specified::<S>() ==> r == squares_prefix(self@, 3),
    {
        sum_of_squares_components(&self.0)
    }

    /// This vector normalised, given its magnitude: the zero vector where the
    /// magnitude is zero, else every component multiplied by `1 / magnitude`.
    pub fn normalise_by(&self, magnitude: S) -> (r: Self)
        requires
            arith_total::<S>(),
        ensures
            arith_specified::<S>() ==> r@ == if magnitude.eq_spec(&zero_of::<S>()) {
                Seq::new(3, |i: int| zero_of::<S>())
            } else {
                mapped(self@, ScalarOp::Mul, one_of::<S>().div_spec(magnitude))
            },
    {
        if magnitude == S::from(0u8) {
            return Self::new();
        }
        self.scalar_mult(S::from(1u8) / magnitude)
    }

    /// The cosine of the angle to `other`, given the magnitudes of both
    /// vectors, neither of them zero.
    pub fn cos_by(&self, other: &Self, magnitude: S, other_magnitude: S) -> (r: S)
        requires
            arith_total::<S>(),
            !magnitude.eq_spec(&zero_of::<S>()),
            !other_magnitude.eq_spec(&zero_of::<S>()),
        ensures
            arith_specified::<S>() ==> r == dot_prefix(self@, other@, 3).div_spec(
                magnitude.mul_spec(other_magnitude),
            ),
    {
        angle_ratio(self.dot(other), magnitude, other_magnitude)
    }

    /// The cross product with `other`.
    pub fn cross(&self, other: &Self) -> (r: Self)
        requires
            arith_total::<S>(),
        ensures
            arith_specified::<S>() ==> r@ == cross_spec(self@, other@),
    {
        Vec3(cross_components(&self.0, &other.0))
    }

    /// The sine of the angle to `other`, given the magnitude of the cross
    /// product with it and the magnitudes of both vectors, the last two not
    /// zero.
    pub fn sin_by(&self, other: &Self, cross_magnitude: S, magnitude: S, other_magnitude: S) -> (r: S)
        requires
            arith_total::<S>(),
            !magnitude.eq_spec(&zero_of::<S>()),
            !other_magnitude.eq_spec(&zero_of::<S>()),
        ensures
            arith_specified::<S>() ==> r == cross_magnitude.div_spec(
                magnitude.mul_spec(other_magnitude),
            ),
    {
        angle_ratio(cross_magnitude, magnitude, other_magnitude)
    }
}

impl<S: Scalar> core::ops::Mul<S> for Vec3<S> {
    type Output = Vec3<S>;

    fn mul(self, scale: S) -> (r: Vec3<S>) {
        self.scalar_mult(scale)
    }
}

impl<S: Scalar> vstd::std_specs::ops::MulSpecImpl<S> for Vec3<S> {
    open spec fn obeys_mul_spec() -> bool {
        arith_specified::<S>()
    }

    open spec fn mul_req(self, scale: S) -> bool {
        arith_total::<S>()
    }

    open spec fn mul_spec(self, scale: S) -> Vec3<S> {
        self.mapped_spec(ScalarOp::Mul, scale)
    }
}

impl<S: Scalar> core::ops::Add<S> for Vec3<S> {
    type Output = Vec3<S>;

    fn add(self, num: S) -> (r: Vec3<S>) {
        self.scalar_add(num)
    }
}

impl<S: Scalar> vstd::std_specs::ops::AddSpecImpl<S> for Vec3<S> {
    open spec fn obeys_add_spec() -> bool {
        arith_specified::<S>()
    }

    open spec fn add_req(self, num: S) -> bool {
        arith_total::<S>()
    }

    open spec fn add_spec(self, num: S) -> Vec3<S> {
        self.mapped_spec(ScalarOp::Add, num)
    }
}

impl<S: Scalar> core::ops::Div<S> for Vec3<S> {
    type Output = Vec3<S>;

    fn div(self, num: S) -> (r: Vec3<S>) {
        self.scalar_div(num)
    }
}

impl<S: Scalar> vstd::std_specs::ops::DivSpecImpl<S> for Vec3<S> {
    open spec fn obeys_div_spec() -> bool {
        arith_specified::<S>()
    }

    open spec fn div_req(self, num: S) -> bool {
        arith_total::<S>()
    }

    open spec fn div_spec(self, num: S) -> Vec3<S> {
        self.mapped_spec(ScalarOp::Div, num)
    }
}

impl<S: Scalar> core::ops::Sub<S> for Vec3<S> {
    type Output = Vec3<S>;

    fn sub(self, num: S) -> (r: Vec3<S>) {
        self.scalar_sub(num)
    }
}

impl<S: Scalar> vstd::std_specs::ops::SubSpecImpl<S> for Vec3<S> {
    open spec fn obeys_sub_spec() -> bool {
        arith_specified::<S>()
    }

    open spec fn sub_req(self, num: S) -> bool {
        arith_total::<S>()
    }

    open spec fn sub_spec(self, num: S) -> Vec3<S> {
        self.mapped_spec(ScalarOp::Sub, num)
    }
}

/// A vector of four components, `x`, `y`, `z` and `w`.
#[derive(PartialEq, Debug)]
pub struct Vec4<S>(pub [S; 4]);

impl<S> View for Vec4<S> {
    type V = Seq<S>;

    open spec fn view(&self) -> Seq<S> {
        self.0@
    }
}

impl<S: Scalar> Vec4<S> {
    /// The vector that `op` with `k` makes of this one, component by component.
    pub open spec fn mapped_spec(self, op: ScalarOp, k: S) -> Self {
        Vec4([op_spec(op, self@[0], k), op_spec(op, self@[1], k), op_spec(op, self@[2], k), op_spec(op, self@[3], k)])
    }

    /// The `x` component.
    pub fn x(&self) -> (r: S)
        ensures
            r == self@[0],
    {
        self.0[0]
    }

    /// The unit vector along `x`: one there, zero elsewhere.
    pub fn x_axis() -> (r: Self)
        ensures
            arith_specified::<S>() ==> r@ == unit_spec::<S>(4, 0),
    {
        Vec4(unit_components(0))
    }

    /// The `y` component.
    pub fn y(&self) -> (r: S)
        ensures
            r == self@[1],
    {
        self.0[1]
    }

    /// The unit vector along `y`: one there, zero elsewhere.
    pub fn y_axis() -> (r: Self)
        ensures
            arith_specified::<S>() ==> r@ == unit_spec::<S>(4, 1),
    {
        Vec4(unit_components(1))
    }

    /// The `z` component.
    pub fn z(&self) -> (r: S)
        ensures
            r == self@[2],
    {
        self.0[2]
    }

    /// The unit vector along `z`: one there, zero elsewhere.
    pub fn z_axis() -> (r: Self)
        ensures
            arith_specified::<S>() ==> r@ == unit_spec::<S>(4, 2),
    {
        Vec4(unit_components(2))
    }

    /// The `w` component.
    pub fn w(&self) -> (r: S)
        ensures
            r == self@[3],
    {
        self.0[3]
    }

    /// The unit vector along `w`: one there, zero elsewhere.
    pub fn w_axis() -> (r: Self)
        ensures
            arith_specified::<S>() ==> r@ == unit_spec::<S>(4, 3),
    {
        Vec4(unit_components(3))
    }

    /// The zero vector.
    pub fn new() -> (r: Self)
        ensures
            arith_specified::<S>() ==> r@ == Seq::new(4, |i: int| zero_of::<S>()),
    {
        Vec4(zero_components())
    }

    /// Every component multiplied by `scale`.
    pub fn scalar_mult(&self, scale: S) -> (r: Self)
        requires
            arith_total::<S>(),
        ensures
            arith_specified::<S>() ==> r@ == mapped(self@, ScalarOp::Mul, scale),
            arith_specified::<S>() ==> r == self.mapped_spec(ScalarOp::Mul, scale),
    {
        let r = Vec4(map_components(&self.0, ScalarOp::Mul, scale));
        proof {
            if arith_specified::<S>() {
                assert(r.0 =~= self.mapped_spec(ScalarOp::Mul, scale).0);
            }
        }
        r
    }

    /// `num` added to every component.
    pub fn scalar_add(&self, num: S) -> (r: Self)
        requires
            arith_total::<S>(),
        ensures
            arith_specified::<S>() ==> r@ == mapped(self@, ScalarOp::Add, num),
            arith_specified::<S>() ==> r == self.mapped_spec(ScalarOp::Add, num),
    {
        let r = Vec4(map_components(&self.0, ScalarOp::Add, num));
        proof {
            if arith_specified::<S>() {
                assert(r.0 =~= self.mapped_spec(ScalarOp::Add, num).0);
            }
        }
        r
    }

    /// Every component divided by `num`.
    pub fn scalar_div(&self, num: S) -> (r: Self)
        requires
            arith_total::<S>(),
        ensures
            arith_specified::<S>() ==> r@ == mapped(self@, ScalarOp::Div, num),
            arith_specified::<S>() ==> r == self.mapped_spec(ScalarOp::Div, num),
    {
        let r = Vec4(map_components(&self.0, ScalarOp::Div, num));
        proof {
            if arith_specified::<S>() {
                assert(r.0 =~= self.mapped_spec(ScalarOp::Div, num).0);
            }
        }
        r
    }

    /// `num` subtracted from every component.
    pub fn scalar_sub(&self, num: S) -> (r: Self)
        requires
            arith_total::<S>(),
        ensures
            arith_specified::<S>() ==> r@ == mapped(self@, ScalarOp::Sub, num),
            arith_specified::<S>() ==> r == self.mapped_spec(ScalarOp::Sub, num),
    {
        let r = Vec4(map_components(&self.0, ScalarOp::Sub, num));
        proof {
            if arith_specified::<S>() {
                assert(r.0 =~= self.mapped_spec(ScalarOp::Sub, num).0);
            }
        }
        r
    }

    /// The dot product with `other`.
    pub fn dot(&self, other: &Self) -> (r: S)
        requires
            arith_total::<S>(),
        ensures
            arith_specified::<S>() ==> r == dot_prefix(self@, other@, 4),
    {
        dot_components(&self.0, &other.0)
    }

    /// The sum of the squared components: the square of the magnitude.
    pub fn sum_of_squares(&self) -> (r: S)
        requires
            arith_total::<S>(),
        ensures
            arith_specified::<S>() ==> r == squares_prefix(self@, 4),
    {
        sum_of_squares_components(&self.0)
    }

    /// This vector normalised, given its magnitude: the zero vector where the
    /// magnitude is zero, else every component multiplied by `1 / magnitude`.
    pub fn normalise_by(&self, magnitude: S) -> (r: Self)
        requires
            arith_total::<S>(),
        ensures
            arith_specified::<S>() ==> r@ == if magnitude.eq_spec(&zero_of::<S>()) {
                Seq::new(4, |i: int| zero_of::<S>())
            } else {
                mapped(self@, ScalarOp::Mul, one_of::<S>().div_spec(magnitude))
            },
    {
        if magnitude == S::from(0u8) {
            return Self::new();
        }
        self.scalar_mult(S::from(1u8) / magnitude)
    }

    /// The cosine of the angle to `other`, given the magnitudes of both
    /// vectors, neither of them zero.
    pub fn cos_by(&self, other: &Self, magnitude: S, other_magnitude: S) -> (r: S)
        requires
            arith_total::<S>(),
            !magnitude.eq_spec(&zero_of::<S>()),
            !other_magnitude.eq_spec(&zero_of::<S>()),
        ensures
            arith_specified::<S>() ==> r == dot_prefix(self@, other@, 4).div_spec(
                magnitude.mul_spec(other_magnitude),
            ),
    {
        angle_ratio(self.dot(other), magnitude, other_magnitude)
    }
}

impl<S: Scalar> core::ops::Mul<S> for Vec4<S> {
    type Output = Vec4<S>;

    fn mul(self, scale: S) -> (r: Vec4<S>) {
        self.scalar_mult(scale)
    }
}

impl<S: Scalar> vstd::std_specs::ops::MulSpecImpl<S> for Vec4<S> {
    open spec fn obeys_mul_spec() -> bool {
        arith_specified::<S>()
    }

    open spec fn mul_req(self, scale: S) -> bool {
        arith_total::<S>()
    }

    open spec fn mul_spec(self, scale: S) -> Vec4<S> {
        self.mapped_spec(ScalarOp::Mul, scale)
    }
}

impl<S: Scalar> core::ops::Add<S> for Vec4<S> {
    type Output = Vec4<S>;

    fn add(self, num: S) -> (r: Vec4<S>) {
        self.scalar_add(num)
    }
}

impl<S: Scalar> vstd::std_specs::ops::AddSpecImpl<S> for Vec4<S> {
    open spec fn obeys_add_spec() -> bool {
        arith_specified::<S>()
    }

    open spec fn add_req(self, num: S) -> bool {
        arith_total::<S>()
    }

    open spec fn add_spec(self, num: S) -> Vec4<S> {
        self.mapped_spec(ScalarOp::Add, num)
    }
}

impl<S: Scalar> core::ops::Div<S> for Vec4<S> {
    type Output = Vec4<S>;

    fn div(self, num: S) -> (r: Vec4<S>) {
        self.scalar_div(num)
    }
}

impl<S: Scalar> vstd::std_specs::ops::DivSpecImpl<S> for Vec4<S> {
    open spec fn obeys_div_spec() -> bool {
        arith_specified::<S>()
    }

    open spec fn div_req(self, num: S) -> bool {
        arith_total::<S>()
    }

    open spec fn div_spec(self, num: S) -> Vec4<S> {
        self.mapped_spec(ScalarOp::Div, num)
    }
}

impl<S: Scalar> core::ops::Sub<S> for Vec4<S> {
    type Output = Vec4<S>;

    fn sub(self, num: S) -> (r: Vec4<S>) {
        self.scalar_sub(num)
    }
}

impl<S: Scalar> vstd::std_specs::ops::SubSpecImpl<S> for Vec4<S> {
    open spec fn obeys_sub_spec() -> bool {
        arith_specified::<S>()
    }

    open spec fn sub_req(self, num: S) -> bool {
        arith_total::<S>()
    }

    open spec fn sub_spec(self, num: S) -> Vec4<S> {
        self.mapped_spec(ScalarOp::Sub, num)
    }
}

} // verus!
