use voxel_game::math::{clamp, Vec2, Vec3, Vec4};

fn close(a: f32, b: f32, tol: f32) -> bool {
    (a - b).abs() <= tol
}

#[test]
fn new_sets_the_components_in_order() {
    let v = Vec4::new(1.0f32, 2.0, 3.0, 4.0);
    assert_eq!((v.x, v.y, v.z, v.w), (1.0, 2.0, 3.0, 4.0));
    let v = Vec3::new(5, 6, 7);
    assert_eq!((v.x, v.y, v.z), (5, 6, 7));
    let v = Vec2::new('a', 'b');
    assert_eq!((v.x, v.y), ('a', 'b'));
}

#[test]
fn all_repeats_one_value() {
    assert_eq!(Vec2::all(7.5f32), Vec2::new(7.5, 7.5));
    assert_eq!(Vec3::all(-1i32), Vec3::new(-1, -1, -1));
    assert_eq!(Vec4::all(0.25f64), Vec4::new(0.25, 0.25, 0.25, 0.25));
}

#[test]
fn pod_lists_the_components_x_first() {
    assert_eq!(Vec2::new(1.0f32, 2.0).pod(), [1.0, 2.0]);
    assert_eq!(Vec3::new(1.0f32, 2.0, 3.0).pod(), [1.0, 2.0, 3.0]);
    assert_eq!(Vec4::new(1.0f32, 2.0, 3.0, 4.0).pod(), [1.0, 2.0, 3.0, 4.0]);
}

#[test]
fn map_applies_the_function_to_each_component() {
    let v = Vec3::new(1.0f32, 2.0, 3.0).map(|c| c * 10.0);
    assert_eq!(v, Vec3::new(10.0, 20.0, 30.0));
    let v = Vec4::new(1, 2, 3, 4).map(|c| c + 1);
    assert_eq!(v, Vec4::new(2, 3, 4, 5));
}

#[test]
fn map_may_change_the_component_type() {
    let v = Vec2::new(1.5f64, -2.5).map(|c| c as f32);
    assert_eq!(v, Vec2::new(1.5f32, -2.5f32));
    let degrees = Vec3::new(180.0f32, 90.0, 0.0);
    let radians = degrees.map(f32::to_radians);
    assert!(close(radians.x, std::f32::consts::PI, 1e-6));
    assert!(close(radians.y, std::f32::consts::FRAC_PI_2, 1e-6));
    assert_eq!(radians.z, 0.0);
}

#[test]
fn vector_operators_work_componentwise() {
    let a = Vec3::new(8.0f32, 6.0, 4.0);
    let b = Vec3::new(2.0f32, 3.0, 4.0);
    assert_eq!(a + b, Vec3::new(10.0, 9.0, 8.0));
    assert_eq!(a - b, Vec3::new(6.0, 3.0, 0.0));
    assert_eq!(a * b, Vec3::new(16.0, 18.0, 16.0));
    assert_eq!(a / b, Vec3::new(4.0, 2.0, 1.0));
}

#[test]
fn vector_operators_on_two_and_four_components() {
    let a = Vec2::new(8.0f32, 6.0);
    let b = Vec2::new(2.0f32, 3.0);
    assert_eq!(a + b, Vec2::new(10.0, 9.0));
    assert_eq!(a - b, Vec2::new(6.0, 3.0));
    assert_eq!(a * b, Vec2::new(16.0, 18.0));
    assert_eq!(a / b, Vec2::new(4.0, 2.0));
    let a = Vec4::new(8.0f32, 6.0, 4.0, 2.0);
    let b = Vec4::new(2.0f32, 3.0, 4.0, 8.0);
    assert_eq!(a + b, Vec4::new(10.0, 9.0, 8.0, 10.0));
    assert_eq!(a - b, Vec4::new(6.0, 3.0, 0.0, -6.0));
    assert_eq!(a * b, Vec4::new(16.0, 18.0, 16.0, 16.0));
    assert_eq!(a / b, Vec4::new(4.0, 2.0, 1.0, 0.25));
}

#[test]
fn scalar_operators_reach_every_component() {
    let a = Vec4::new(8.0f32, 6.0, 4.0, 2.0);
    assert_eq!(a + 2.0, Vec4::new(10.0, 8.0, 6.0, 4.0));
    assert_eq!(a - 2.0, Vec4::new(6.0, 4.0, 2.0, 0.0));
    assert_eq!(a * 2.0, Vec4::new(16.0, 12.0, 8.0, 4.0));
    assert_eq!(a / 2.0, Vec4::new(4.0, 3.0, 2.0, 1.0));
    let b = Vec2::new(3i32, -5);
    assert_eq!(b * 4, Vec2::new(12, -20));
    let c = Vec3::new(9.0f64, 6.0, 3.0);
    assert_eq!(c / 3.0, Vec3::new(3.0, 2.0, 1.0));
}

#[test]
fn adding_then_subtracting_gives_the_vector_back() {
    let a = Vec2::new(1.5f32, -2.25);
    let b = Vec2::new(0.5f32, 4.0);
    assert_eq!((a + b) - b, a);
    let a = Vec3::new(1.5f32, -2.25, 8.0);
    let b = Vec3::new(0.5f32, 4.0, -16.0);
    assert_eq!((a + b) - b, a);
    let a = Vec4::new(1.5f32, -2.25, 8.0, 0.0);
    let b = Vec4::new(0.5f32, 4.0, -16.0, 3.0);
    assert_eq!((a + b) - b, a);
}

#[test]
fn adding_then_subtracting_stays_within_tolerance() {
    let a = Vec3::new(0.1f32, 0.2, 0.3);
    let b = Vec3::new(1000.7f32, -33.3, 0.0001);
    let back = (a + b) - b;
    assert!(close(back.x, a.x, 1e-3));
    assert!(close(back.y, a.y, 1e-5));
    assert!(close(back.z, a.z, 1e-6));
}

#[test]
fn scaling_then_dividing_gives_the_vector_back() {
    let a = Vec2::new(1.5f32, -2.25);
    assert_eq!(a * 4.0 / 4.0, a);
    let a = Vec3::new(1.5f32, -2.25, 8.0);
    assert_eq!(a * 0.5 / 0.5, a);
    let a = Vec4::new(0.1f32, 0.2, 0.3, 0.4);
    let back = a * 3.0 / 3.0;
    assert!(close(back.x, a.x, 1e-6));
    assert!(close(back.y, a.y, 1e-6));
    assert!(close(back.z, a.z, 1e-6));
    assert!(close(back.w, a.w, 1e-6));
}

#[test]
fn len_sq_sums_the_squares() {
    assert_eq!(Vec2::new(3.0f32, 4.0).len_sq(), 25.0);
    assert_eq!(Vec3::new(1.0f32, 2.0, 2.0).len_sq(), 9.0);
    assert_eq!(Vec4::new(1.0f32, 2.0, 3.0, 4.0).len_sq(), 30.0);
}

#[test]
fn len_is_the_root_of_len_sq() {
    assert_eq!(Vec2::new(3.0f32, 4.0).len(f32::sqrt), 5.0);
    assert_eq!(Vec3::new(1.0f32, 2.0, 2.0).len(f32::sqrt), 3.0);
    assert_eq!(Vec4::new(2.0f32, 2.0, 2.0, 2.0).len(f32::sqrt), 4.0);
}

#[test]
fn dot_sums_the_pairwise_products() {
    assert_eq!(Vec2::new(1.0f32, 2.0).dot(Vec2::new(3.0, 4.0)), 11.0);
    assert_eq!(Vec3::new(1.0f32, 2.0, 3.0).dot(Vec3::new(4.0, 5.0, 6.0)), 32.0);
    assert_eq!(Vec4::new(1.0f32, 2.0, 3.0, 4.0).dot(Vec4::new(5.0, 6.0, 7.0, 8.0)), 70.0);
}

#[test]
fn dot_of_perpendicular_axes_is_zero() {
    assert_eq!(Vec3::new(1.0f32, 0.0, 0.0).dot(Vec3::new(0.0, 1.0, 0.0)), 0.0);
}

#[test]
fn cross_of_the_two_axes_is_one() {
    assert_eq!(Vec2::new(1.0f32, 0.0).cross(Vec2::new(0.0, 1.0)), 1.0);
}

#[test]
fn cross_is_x_by_y_less_y_by_x() {
    assert_eq!(Vec2::new(2.0f32, 3.0).cross(Vec2::new(5.0, 7.0)), -1.0);
    assert_eq!(Vec2::new(0.0f32, 1.0).cross(Vec2::new(1.0, 0.0)), -1.0);
}

#[test]
fn norm_divides_by_the_length() {
    assert_eq!(Vec2::new(3.0f32, 4.0).norm(f32::sqrt), Vec2::new(3.0 / 5.0, 4.0 / 5.0));
    assert_eq!(Vec3::new(0.0f32, 0.0, -7.0).norm(f32::sqrt), Vec3::new(0.0, 0.0, -1.0));
    assert_eq!(Vec4::new(2.0f32, 2.0, 2.0, 2.0).norm(f32::sqrt), Vec4::all(0.5));
}

#[test]
fn norm_has_length_one() {
    let two = [Vec2::new(3.0f32, 4.0), Vec2::new(-0.001, 0.0002), Vec2::new(1e6, -3e5)];
    for v in two {
        assert!(close(v.norm(f32::sqrt).len(f32::sqrt), 1.0, 1e-5));
    }
    let three = [Vec3::new(1.0f32, 2.0, 3.0), Vec3::new(-5.5, 0.0, 0.25), Vec3::new(0.0, 1e-3, 0.0)];
    for v in three {
        assert!(close(v.norm(f32::sqrt).len(f32::sqrt), 1.0, 1e-5));
    }
    let four = [Vec4::new(1.0f32, 2.0, 3.0, 4.0), Vec4::new(-9.0, 0.5, 0.0, 100.0)];
    for v in four {
        assert!(close(v.norm(f32::sqrt).len(f32::sqrt), 1.0, 1e-5));
    }
}

#[test]
fn norm_of_the_zero_vector_is_not_finite() {
    let v = Vec3::new(0.0f32, 0.0, 0.0).norm(f32::sqrt);
    assert!(v.x.is_nan() && v.y.is_nan() && v.z.is_nan());
}

#[test]
fn vectors_come_from_tuples_and_arrays() {
    assert_eq!(Vec2::from((1.0f32, 2.0f32)), Vec2::new(1.0, 2.0));
    assert_eq!(Vec2::from([1.0f32, 2.0]), Vec2::new(1.0, 2.0));
    assert_eq!(Vec3::from((1, 2, 3)), Vec3::new(1, 2, 3));
    assert_eq!(Vec3::from([1, 2, 3]), Vec3::new(1, 2, 3));
    assert_eq!(Vec4::from((1.0f64, 2.0f64, 3.0f64, 4.0f64)), Vec4::new(1.0, 2.0, 3.0, 4.0));
    assert_eq!(Vec4::from([1u8, 2, 3, 4]), Vec4::new(1, 2, 3, 4));
}

#[test]
fn a_vec3_turns_into_an_array() {
    let a: [f32; 3] = Vec3::new(1.0f32, 2.0, 3.0).into();
    assert_eq!(a, [1.0, 2.0, 3.0]);
    assert_eq!(<[i32; 3]>::from(Vec3::new(7, 8, 9)), [7, 8, 9]);
}

#[test]
fn vectors_are_equal_when_their_components_are() {
    assert_eq!(Vec3::new(1, 2, 3), Vec3::new(1, 2, 3));
    assert_ne!(Vec3::new(1, 2, 3), Vec3::new(1, 2, 4));
    assert_ne!(Vec2::new(1.0f32, 2.0), Vec2::new(2.0, 1.0));
}

#[test]
fn clamp_holds_a_value_between_the_bounds() {
    assert_eq!(clamp(5.0f32, -90.0, 90.0), 5.0);
    assert_eq!(clamp(-90.5f32, -90.0, 90.0), -90.0);
    assert_eq!(clamp(1e9f32, -90.0, 90.0), 90.0);
    assert_eq!(clamp(-90.0f32, -90.0, 90.0), -90.0);
    assert_eq!(clamp(90.0f32, -90.0, 90.0), 90.0);
    assert!(clamp(f32::NAN, -90.0, 90.0).is_nan());
}

#[test]
fn dividing_by_zero_follows_the_scalar() {
    let v = Vec3::new(1.0f32, -1.0, 0.0) / 0.0;
    assert_eq!(v.x, f32::INFINITY);
    assert_eq!(v.y, f32::NEG_INFINITY);
    assert!(v.z.is_nan());
    let w = Vec2::new(1.0f32, 2.0) / Vec2::new(0.0, 4.0);
    assert_eq!(w.x, f32::INFINITY);
    assert_eq!(w.y, 0.5);
}

#[test]
fn normalizing_whole_numbers_with_a_whole_root() {
    // over the integers, with a root that is exact on the squares used
    let root = |v: i32| match v {
        25 => 5,
        _ => 1,
    };
    assert_eq!(Vec2::new(15, 20).len_sq(), 625);
    assert_eq!(Vec2::new(3, 4).len(root), 5);
    assert_eq!(Vec2::new(0, 5).norm(root), Vec2::new(0, 1));
    assert_eq!(Vec2::new(0, 5).norm(root).len_sq(), 1);
}
