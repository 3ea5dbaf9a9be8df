use vecmath::{Vec2, Vec3, Vec4};

fn magnitude2(v: &Vec2<f32>) -> f32 {
    v.sum_of_squares().sqrt()
}

fn magnitude3(v: &Vec3<f32>) -> f32 {
    v.sum_of_squares().sqrt()
}

#[test]
fn vector_axis_identifier() {
    let v: Vec4<f32> = Vec4([1.0, 2.0, 3.0, 4.0]);
    assert_eq!(v.x(), 1.0);
    assert_eq!(v.y(), 2.0);
    assert_eq!(v.z(), 3.0);
    assert_eq!(v.w(), 4.0);
}

#[test]
fn vector_axis() {
    assert_eq!(Vec4([1.0f32, 0.0, 0.0, 0.0]), Vec4::x_axis());
    assert_eq!(Vec4([0.0f32, 1.0, 0.0, 0.0]), Vec4::y_axis());
    assert_eq!(Vec4([0.0f32, 0.0, 1.0, 0.0]), Vec4::z_axis());
    assert_eq!(Vec4([0.0f32, 0.0, 0.0, 1.0]), Vec4::w_axis());
}

#[test]
fn vector_normalise() {
    let v: Vec2<f32> = Vec2([3.0, 4.0]);
    assert_eq!(v.normalise_by(magnitude2(&v)), Vec2([0.6, 0.8]));
    let z: Vec2<f32> = Vec2::new();
    assert_eq!(z.normalise_by(magnitude2(&z)), Vec2::new());
}

#[test]
fn vector_scalar_mult() {
    assert_eq!(Vec2([3.0f32, 4.0]) * 2.0, Vec2([6.0, 8.0]));
    assert_eq!(Vec2([3.0f32, 4.0]).scalar_mult(2.0), Vec2([6.0, 8.0]));
}

#[test]
fn vector_scalar_div() {
    assert_eq!(Vec2([2.0f32, 3.0]) / 2.0, Vec2([1.0, 1.5]));
}

#[test]
fn vector_scalar_add() {
    assert_eq!(Vec2([3.0f32, 4.0]) + 2.0, Vec2([5.0, 6.0]));
    assert_eq!(Vec2([3.0f32, 4.0]).scalar_add(2.0), Vec2([5.0, 6.0]));
}

#[test]
fn vector_scalar_sub() {
    assert_eq!(Vec2([3.0f32, 4.0]) - 2.0, Vec2([1.0, 2.0]));
}

#[test]
fn vector_magnitude() {
    assert_eq!(magnitude2(&Vec2([3.0, 4.0])), 5.0);
}

#[test]
fn vector_dot() {
    let v: Vec4<f32> = Vec4([1.0, 2.0, 3.0, 4.0]);
    let v2: Vec4<f32> = Vec4([4.0, 3.0, 2.0, 1.0]);
    assert_eq!(v.dot(&v2), 20.0);
}

#[test]
fn vector_cross() {
    let v: Vec3<f32> = Vec3([1.0, 2.0, 3.0]);
    let v2: Vec3<f32> = Vec3([3.0, 2.0, 1.0]);
    assert_eq!(v.cross(&v2), Vec3([-4.0, 8.0, -4.0]));
}

#[test]
fn vector_cos() {
    let v: Vec3<f32> = Vec3([1.0, 2.0, 3.0]);
    let v2: Vec3<f32> = Vec3([3.0, 2.0, 1.0]);
    assert_eq!(v.cos_by(&v2, magnitude3(&v), magnitude3(&v2)), 0.7142857)
}

#[test]
fn vector_sin() {
    let v: Vec3<f32> = Vec3([1.0, 2.0, 3.0]);
    let v2: Vec3<f32> = Vec3([3.0, 2.0, 1.0]);
    let c = v.cross(&v2);
    assert_eq!(v.sin_by(&v2, magnitude3(&c), magnitude3(&v), magnitude3(&v2)), 0.6998542)
}
