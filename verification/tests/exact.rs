use voxel_game::cam::axis_rot_to_ray;
use voxel_game::math::{Mat4, Vec3, Vec4};

// Whole angles: quarter turns, whose sines and cosines are whole numbers.
fn quarter_turns(a: i32) -> (i32, i32) {
    match a.rem_euclid(4) {
        0 => (0, 1),
        1 => (1, 0),
        2 => (0, -1),
        _ => (-1, 0),
    }
}

#[test]
fn whole_matrices_multiply_exactly() {
    let a = Mat4([[1, 2, 3, 4], [5, 6, 7, 8], [9, 10, 11, 12], [13, 14, 15, 16]]);
    let b = Mat4([[1, 0, 2, 0], [0, 3, 0, 4], [5, 0, 6, 0], [0, 7, 0, 8]]);
    let p = a * b;
    // entry (col, row) is column `col` of a dotted with row `row` of b
    assert_eq!(p.get(0, 0), 1 * 1 + 5 * 0 + 9 * 2 + 13 * 0);
    assert_eq!(p.get(2, 1), 3 * 0 + 7 * 3 + 11 * 0 + 15 * 4);
    assert_eq!(
        p.pod(),
        [[19, 22, 25, 28], [67, 74, 81, 88], [59, 70, 81, 92], [139, 154, 169, 184]]
    );
}

#[test]
fn identity_squared_is_identity_over_the_integers() {
    let i = Mat4::<i64>::identity();
    assert_eq!((i * i).pod(), i.pod());
    assert_eq!(i.pod(), [[1, 0, 0, 0], [0, 1, 0, 0], [0, 0, 1, 0], [0, 0, 0, 1]]);
}

#[test]
fn opposite_quarter_turns_cancel_exactly() {
    let i = Mat4::<i32>::identity();
    for a in 0..4 {
        let there = Mat4::x_rotation(a, quarter_turns);
        let back = Mat4::x_rotation(-a, quarter_turns);
        assert_eq!((there * back).pod(), i.pod());
        let there = Mat4::y_rotation(a, quarter_turns);
        let back = Mat4::y_rotation(-a, quarter_turns);
        assert_eq!((there * back).pod(), i.pod());
        let there = Mat4::z_rotation(a, quarter_turns);
        let back = Mat4::z_rotation(-a, quarter_turns);
        assert_eq!((there * back).pod(), i.pod());
    }
}

#[test]
fn ray_of_quarter_turns_has_squared_length_one() {
    for pitch in -1..=1 {
        for yaw in 0..4 {
            let ray = axis_rot_to_ray(Vec3::new(pitch, yaw, 0), quarter_turns);
            assert_eq!(ray.len_sq(), 1);
        }
    }
    assert_eq!(axis_rot_to_ray(Vec3::new(0, 0, 0), quarter_turns), Vec3::new(0, 0, -1));
    assert_eq!(axis_rot_to_ray(Vec3::new(0, 1, 0), quarter_turns), Vec3::new(-1, 0, 0));
    assert_eq!(axis_rot_to_ray(Vec3::new(1, 0, 0), quarter_turns), Vec3::new(0, -1, 0));
}

#[test]
fn view_of_quarter_turns_sees_its_ray_straight_ahead() {
    for pitch in -1..=1 {
        for yaw in 0..4 {
            let rot = Vec3::new(pitch, yaw, 0);
            let ray = axis_rot_to_ray(rot, quarter_turns);
            let view = Mat4::view(Vec3::new(7, -8, 9), rot, quarter_turns);
            let ray4 = Vec4::new(ray.x, ray.y, ray.z, 0);
            let seen = Vec4::new(
                view.get_col(0).dot(ray4),
                view.get_col(1).dot(ray4),
                view.get_col(2).dot(ray4),
                view.get_col(3).dot(ray4),
            );
            assert_eq!(seen, Vec4::new(0, 0, -1, 0));
        }
    }
}

#[test]
fn view_moves_the_world_by_the_negated_position() {
    let view = Mat4::view(Vec3::new(7, -8, 9), Vec3::all(0), quarter_turns);
    let point = Vec4::new(7, -8, 9, 1);
    let seen = Vec3::new(
        view.get_col(0).dot(point),
        view.get_col(1).dot(point),
        view.get_col(2).dot(point),
    );
    assert_eq!(seen, Vec3::new(0, 0, 0));
}

#[test]
fn whole_projection_entries() {
    // a tangent of one, so that the horizontal scale is one
    let m = Mat4::projection(0, 3, 1, 3, |_half: i32| 1);
    assert_eq!(m.get(0, 0), 1);
    assert_eq!(m.get(1, 1), 3);
    assert_eq!(m.get(2, 2), -((3 + 1) / (3 - 1)));
    assert_eq!(m.get(3, 2), -1);
    assert_eq!(m.get(2, 3), -((2 * 1 * 3) / (3 - 1)));
    let square = Mat4::projection(0, 1, 1, 3, |_half: i32| 1);
    assert_eq!(square.get(0, 0), square.get(1, 1));
}
