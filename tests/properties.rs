use vecmath::{Vec2, Vec3, Vec4};

#[test]
fn axis_units_hold_one_on_their_axis() {
    let units: [Vec3<f32>; 3] = [Vec3::x_axis(), Vec3::y_axis(), Vec3::z_axis()];
    for (a, u) in units.iter().enumerate() {
        for i in 0..3 {
            assert_eq!(u.0[i], if i == a { 1.0 } else { 0.0 });
        }
    }
    assert_eq!(Vec2::<f32>::x_axis(), Vec2([1.0, 0.0]));
    assert_eq!(Vec2::<f32>::y_axis(), Vec2([0.0, 1.0]));
}

#[test]
fn new_is_zero_in_every_dimension() {
    assert_eq!(Vec2::<f32>::new(), Vec2([0.0, 0.0]));
    assert_eq!(Vec3::<f32>::new(), Vec3([0.0, 0.0, 0.0]));
    assert_eq!(Vec4::<f32>::new(), Vec4([0.0, 0.0, 0.0, 0.0]));
}

#[test]
fn normalised_vector_has_unit_magnitude() {
    let v: Vec3<f32> = Vec3([0.0, 3.0, 4.0]);
    let n = v.normalise_by(v.sum_of_squares().sqrt());
    assert_eq!(n.sum_of_squares().sqrt(), 1.0);
}

#[test]
fn dot_is_symmetric_on_values() {
    let a: Vec3<f32> = Vec3([1.5, -2.0, 7.25]);
    let b: Vec3<f32> = Vec3([-0.5, 4.0, 3.0]);
    assert_eq!(a.dot(&b), b.dot(&a));
    assert_eq!(a.dot(&b), -0.75 - 8.0 + 21.75);
}

#[test]
fn sum_of_squares_is_self_dot() {
    let v: Vec4<f32> = Vec4([1.0, -2.0, 0.5, 3.0]);
    assert_eq!(v.sum_of_squares(), v.dot(&v));
    assert_eq!(v.sum_of_squares(), 14.25);
}

#[test]
fn cross_is_anti_commutative() {
    let a: Vec3<f32> = Vec3([1.0, 2.0, 3.0]);
    let b: Vec3<f32> = Vec3([3.0, 2.0, 1.0]);
    assert_eq!(a.cross(&b), b.cross(&a) * -1.0);
    assert_eq!(b.cross(&a), Vec3([4.0, -8.0, 4.0]));
}

#[test]
fn cross_of_axes_is_right_handed() {
    let x: Vec3<f32> = Vec3::x_axis();
    let y: Vec3<f32> = Vec3::y_axis();
    assert_eq!(x.cross(&y), Vec3::z_axis());
}

#[test]
fn division_by_zero_follows_float_rules() {
    let v = Vec2([1.0f32, -1.0]) / 0.0;
    assert_eq!(v.x(), f32::INFINITY);
    assert_eq!(v.y(), f32::NEG_INFINITY);
}

#[test]
fn scalar_ops_on_larger_vectors() {
    let v: Vec4<f32> = Vec4([1.0, 2.0, 3.0, 4.0]);
    assert_eq!(Vec4([1.0f32, 2.0, 3.0, 4.0]) - 1.0, Vec4([0.0, 1.0, 2.0, 3.0]));
    assert_eq!(v.scalar_div(4.0), Vec4([0.25, 0.5, 0.75, 1.0]));
    assert_eq!(Vec3([1.0f32, 2.0, 3.0]) + 0.5, Vec3([1.5, 2.5, 3.5]));
}

#[test]
fn cos_of_parallel_vectors_is_one() {
    let v: Vec2<f32> = Vec2([3.0, 4.0]);
    let w = Vec2([3.0f32, 4.0]) * 2.0;
    let m = v.sum_of_squares().sqrt();
    let mw = w.sum_of_squares().sqrt();
    assert_eq!(v.cos_by(&w, m, mw), 1.0);
}
