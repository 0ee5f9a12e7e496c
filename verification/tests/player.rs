use voxel_game::input::{FrameInput, InputEvent, Key};
use voxel_game::math::{Vec2, Vec3};
use voxel_game::player::Player;

fn close(a: f32, b: f32, tol: f32) -> bool {
    (a - b).abs() <= tol
}

fn holding(keys: &[Key]) -> FrameInput<f32> {
    let mut input = FrameInput::new();
    for key in keys {
        input.capture_event(&InputEvent::Keyboard { key: Some(*key), pressed: true });
    }
    input
}

fn frame(player: &mut Player<f32>, input: &FrameInput<f32>) {
    player.update(input, f32::to_radians, f32::sin_cos);
}

#[test]
fn new_player_is_at_rest_with_the_camera_at_the_origin() {
    let p = Player::new(Vec3::new(0.0f32, 0.0, 4.0), Vec3::new(1.0, 2.0, 3.0));
    assert_eq!(p.pos, Vec3::new(0.0, 0.0, 4.0));
    assert_eq!(p.vel, Vec3::all(0.0));
    assert_eq!(p.acc, Vec3::all(0.0));
    assert_eq!(p.cam.pos, Vec3::all(0.0));
    assert_eq!(p.cam.rot, Vec3::new(1.0, 2.0, 3.0));
}

#[test]
fn move_cursor_turns_by_two_fifths_of_the_motion() {
    let mut p = Player::new(Vec3::all(0.0f32), Vec3::all(0.0));
    p.move_cursor(Vec2::new(10.0, 5.0));
    assert_eq!(p.cam.rot, Vec3::new(-(0.4f32 * 5.0), 0.4f32 * 10.0, 0.0));
    p.move_cursor(Vec2::new(-20.0, -15.0));
    assert_eq!(p.cam.rot.x, -2.0f32 - 0.4f32 * -15.0);
    assert_eq!(p.cam.rot.y, 4.0f32 + 0.4f32 * -20.0);
}

#[test]
fn move_cursor_clamps_the_pitch_at_minus_ninety() {
    let mut p = Player::new(Vec3::all(0.0f32), Vec3::all(0.0));
    p.move_cursor(Vec2::new(0.0, 1.0e6));
    assert_eq!(p.cam.rot.x, -90.0);
    p.move_cursor(Vec2::new(0.0, 1.0));
    assert_eq!(p.cam.rot.x, -90.0);
    p.move_cursor(Vec2::new(0.0, f32::MAX));
    assert_eq!(p.cam.rot.x, -90.0);
}

#[test]
fn move_cursor_clamps_the_pitch_at_ninety() {
    let mut p = Player::new(Vec3::all(0.0f32), Vec3::all(0.0));
    p.move_cursor(Vec2::new(0.0, -1.0e6));
    assert_eq!(p.cam.rot.x, 90.0);
    p.move_cursor(Vec2::new(0.0, -0.5));
    assert_eq!(p.cam.rot.x, 90.0);
}

#[test]
fn move_cursor_stops_exactly_at_the_limit() {
    let mut p = Player::new(Vec3::all(0.0f32), Vec3::new(-89.0, 0.0, 0.0));
    p.move_cursor(Vec2::new(0.0, 2.5));
    assert_eq!(p.cam.rot.x, -90.0);
    let mut p = Player::new(Vec3::all(0.0f32), Vec3::new(-89.0, 0.0, 0.0));
    p.move_cursor(Vec2::new(0.0, 1.25));
    assert_eq!(p.cam.rot.x, -89.0f32 - 0.4f32 * 1.25);
}

#[test]
fn move_cursor_lets_the_yaw_run_on() {
    let mut p = Player::new(Vec3::all(0.0f32), Vec3::all(0.0));
    p.move_cursor(Vec2::new(10000.0, 0.0));
    assert_eq!(p.cam.rot.y, 0.4f32 * 10000.0);
    assert!(p.cam.rot.y > 360.0);
}

#[test]
fn move_cursor_leaves_everything_but_pitch_and_yaw() {
    let mut p = Player::new(Vec3::new(1.0f32, 2.0, 3.0), Vec3::new(0.0, 0.0, 7.0));
    p.move_cursor(Vec2::new(3.0, 4.0));
    assert_eq!(p.pos, Vec3::new(1.0, 2.0, 3.0));
    assert_eq!(p.cam.pos, Vec3::all(0.0));
    assert_eq!(p.cam.rot.z, 7.0);
    assert_eq!(p.vel, Vec3::all(0.0));
    assert_eq!(p.acc, Vec3::all(0.0));
}

#[test]
fn update_with_w_held_walks_forward() {
    let mut p = Player::new(Vec3::new(0.0f32, 0.0, 4.0), Vec3::new(0.0, 0.0, 0.0));
    frame(&mut p, &holding(&[Key::W]));
    assert_eq!(p.pos, Vec3::new(0.0, 0.0, 4.0f32 - 0.1f32));
    assert_eq!(p.cam.pos, p.pos);
    assert_eq!(p.cam.rot, Vec3::new(0.0, 0.0, 0.0));
}

#[test]
fn update_without_keys_only_moves_the_camera_to_the_player() {
    let mut p = Player::new(Vec3::new(1.0f32, 2.0, 3.0), Vec3::all(0.0));
    frame(&mut p, &holding(&[]));
    assert_eq!(p.pos, Vec3::new(1.0, 2.0, 3.0));
    assert_eq!(p.cam.pos, Vec3::new(1.0, 2.0, 3.0));
}

#[test]
fn update_walks_each_way_by_one_tenth() {
    let start = Vec3::new(0.0f32, 0.0, 0.0);
    let mut p = Player::new(start, Vec3::all(0.0));
    frame(&mut p, &holding(&[Key::S]));
    assert_eq!(p.pos, Vec3::new(0.0, 0.0, 0.1));
    let mut p = Player::new(start, Vec3::all(0.0));
    frame(&mut p, &holding(&[Key::D]));
    assert_eq!(p.pos, Vec3::new(0.1, 0.0, 0.0));
    let mut p = Player::new(start, Vec3::all(0.0));
    frame(&mut p, &holding(&[Key::A]));
    assert_eq!(p.pos, Vec3::new(-0.1, 0.0, 0.0));
    let mut p = Player::new(start, Vec3::all(0.0));
    frame(&mut p, &holding(&[Key::Space]));
    assert_eq!(p.pos, Vec3::new(0.0, 0.1, 0.0));
    let mut p = Player::new(start, Vec3::all(0.0));
    frame(&mut p, &holding(&[Key::LShift]));
    assert_eq!(p.pos, Vec3::new(0.0, -0.1, 0.0));
}

#[test]
fn update_adds_up_the_keys_that_are_held_together() {
    let mut p = Player::new(Vec3::all(0.0f32), Vec3::all(0.0));
    frame(&mut p, &holding(&[Key::W, Key::D, Key::Space]));
    assert_eq!(p.pos, Vec3::new(0.1, 0.1, -0.1));
    assert_eq!(p.cam.pos, p.pos);
}

#[test]
fn update_ignores_other_keys() {
    let mut p = Player::new(Vec3::all(0.0f32), Vec3::all(0.0));
    frame(&mut p, &holding(&[Key::Other(0), Key::Other(5), Key::Other(77)]));
    assert_eq!(p.pos, Vec3::all(0.0));
}

#[test]
fn update_walks_along_the_yaw() {
    let mut p = Player::new(Vec3::all(0.0f32), Vec3::new(0.0, 90.0, 0.0));
    frame(&mut p, &holding(&[Key::W]));
    assert!(close(p.pos.x, -0.1, 1e-7));
    assert!(close(p.pos.z, 0.0, 1e-7));
    assert_eq!(p.pos.x, 0.0 - 0.1f32 * 90.0f32.to_radians().sin());
    assert_eq!(p.pos.z, 0.0 - 0.1f32 * 90.0f32.to_radians().cos());
}

#[test]
fn update_turns_by_the_reversed_cursor_motion_before_it_walks() {
    let mut input = holding(&[Key::W]);
    input.capture_event(&InputEvent::MouseMotion { delta: Vec2::new(-225.0f32, 10.0) });
    let mut p = Player::new(Vec3::all(0.0f32), Vec3::all(0.0));
    frame(&mut p, &input);
    // the motion is reversed to (225, -10): the yaw grows by 90, the pitch by 4
    assert_eq!(p.cam.rot, Vec3::new(0.0f32 - 0.4f32 * -10.0, 0.0f32 + 0.4f32 * 225.0, 0.0));
    assert_eq!(p.cam.rot.y, 90.0);
    assert_eq!(p.pos.x, 0.0 - 0.1f32 * 90.0f32.to_radians().sin());
    assert_eq!(p.cam.pos, p.pos);
}

#[test]
fn update_keeps_the_camera_on_the_player_frame_after_frame() {
    let mut p = Player::new(Vec3::new(0.0f32, 0.0, 4.0), Vec3::all(0.0));
    let mut input = holding(&[Key::W, Key::A]);
    for i in 0..50 {
        input.capture_event(&InputEvent::MouseMotion { delta: Vec2::new(i as f32, 1.0) });
        frame(&mut p, &input);
        input.clear();
        assert_eq!(p.cam.pos, p.pos);
        assert!(p.cam.rot.x >= -90.0 && p.cam.rot.x <= 90.0);
    }
}

#[test]
fn player_can_be_cloned() {
    let p = Player::new(Vec3::new(1.0f32, 2.0, 3.0), Vec3::new(4.0, 5.0, 6.0));
    let twin = p.clone();
    assert_eq!(twin.pos, p.pos);
    assert_eq!(twin.cam.rot, p.cam.rot);
}
