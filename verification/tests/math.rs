use voxel_mesher::math::{lerp, Vec2, Vec3};

#[test]
fn vec2_arithmetic_is_component_wise() {
    let a = Vec2::new(7, -3);
    let b = Vec2::new(2, 5);
    assert_eq!(a + b, Vec2::new(9, 2));
    assert_eq!(a - b, Vec2::new(5, -8));
    assert_eq!(a * b, Vec2::new(14, -15));
}

#[test]
fn vec3_arithmetic_is_component_wise() {
    let a = Vec3::new(7, -3, 10);
    let b = Vec3::new(2, 5, -4);
    assert_eq!(a + b, Vec3::new(9, 2, 6));
    assert_eq!(a - b, Vec3::new(5, -8, 14));
}

#[test]
fn vec3_division_truncates_every_component() {
    assert_eq!(Vec3::new(2, 1, 0) / 2, Vec3::new(1, 0, 0));
    assert_eq!(Vec3::new(7, -7, 9) / 2, Vec3::new(3, -3, 4));
}

#[test]
fn vectors_work_over_floats_too() {
    let a = Vec3::new(1.5f32, 2.0, -1.0);
    let b = Vec3::new(0.5f32, 1.0, 4.0);
    assert_eq!(a + b, Vec3::new(2.0, 3.0, 3.0));
    assert_eq!(a - b, Vec3::new(1.0, 1.0, -5.0));
    assert_eq!(
        lerp(Vec2::new(0.0f32, 10.0), Vec2::new(4.0, 20.0), Vec2::new(0.5, 0.25)),
        Vec2::new(2.0, 12.5)
    );
}

#[test]
fn cross_keeps_the_sign_of_the_middle_component() {
    let x = Vec3::new(1, 0, 0);
    let y = Vec3::new(0, 1, 0);
    let z = Vec3::new(0, 0, 1);
    assert_eq!(x.cross(y), Vec3::new(0, 0, 1));
    assert_eq!(y.cross(z), Vec3::new(1, 0, 0));
    // The textbook product of z and x is (0, 1, 0).
    assert_eq!(z.cross(x), Vec3::new(0, -1, 0));
    assert_eq!(x.cross(z), Vec3::new(0, 1, 0));
}

#[test]
fn cross_of_general_vectors() {
    let a = Vec3::new(2, 3, 4);
    let b = Vec3::new(5, 6, 7);
    // (3*7 - 4*6, 2*7 - 4*5, 2*6 - 3*5)
    assert_eq!(a.cross(b), Vec3::new(-3, -6, -3));
}

#[test]
fn lerp_on_scalars() {
    assert_eq!(lerp(10, 20, 0), 10);
    assert_eq!(lerp(10, 20, 1), 20);
    assert_eq!(lerp(10, 20, 3), 40);
    assert_eq!(lerp(5, -5, 2), -15);
}

#[test]
fn lerp_on_vectors_interpolates_each_axis_by_its_own_factor() {
    let from = Vec2::new(0, 1);
    let to = Vec2::new(1, 0);
    assert_eq!(lerp(from, to, Vec2::new(0, 0)), Vec2::new(0, 1));
    assert_eq!(lerp(from, to, Vec2::new(1, 1)), Vec2::new(1, 0));
    assert_eq!(lerp(from, to, Vec2::new(1, 0)), Vec2::new(1, 1));
    assert_eq!(lerp(Vec2::new(2, 3), Vec2::new(10, 9), Vec2::new(2, 3)), Vec2::new(18, 21));
}
