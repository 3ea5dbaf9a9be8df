//! Fixed-dimension vectors of two, three and four components, generic over a
//! component type with the four arithmetic operators.
//!
//! Every operation returns a new value. The magnitude is the square root of
//! `sum_of_squares`; the functions that depend on it (`normalise_by`,
//! `cos_by`, `sin_by`) take it as an argument, so that the component type need
//! offer no square root.

mod components;
mod laws;
mod scalar;
mod vectors;

pub use components::{
    angle_ratio, cross_components, cross_spec, dot_components, dot_prefix, map_components, mapped,
    squares_prefix, sum_of_squares_components, unit_components, unit_spec, zero_components,
};
pub use laws::{
    axis_unit_components, cross_swaps_products, dot_symmetric, mul_commutes, squares_are_self_dot,
};
pub use scalar::{
    apply_op, arith_specified, arith_total, one_of, op_spec, zero_of, Scalar, ScalarOp,
};
pub use vectors::{Vec2, Vec3, Vec4};
