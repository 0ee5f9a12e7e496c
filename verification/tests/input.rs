use voxel_game::input::{FrameInput, InputEvent, Key, MouseButton};
use voxel_game::math::Vec2;

fn press(key: Key) -> InputEvent<f64> {
    InputEvent::Keyboard { key: Some(key), pressed: true }
}

fn release(key: Key) -> InputEvent<f64> {
    InputEvent::Keyboard { key: Some(key), pressed: false }
}

#[test]
fn new_input_holds_nothing_and_has_not_moved() {
    let input = FrameInput::<f64>::new();
    assert!(input.pressed_keys.is_empty());
    assert!(input.pressed_mouse_buttons.is_empty());
    assert_eq!(input.cursor_change(), Vec2::new(0.0, 0.0));
    assert_eq!(input.scroll_change(), Vec2::new(0.0, 0.0));
    assert!(!input.key_pressed(Key::W));
    assert!(!input.mouse_button_pressed(MouseButton::Left));
}

#[test]
fn a_press_holds_the_key_until_its_release() {
    let mut input = FrameInput::<f64>::new();
    assert!(input.capture_event(&press(Key::W)));
    assert!(input.key_pressed(Key::W));
    assert!(!input.key_pressed(Key::A));
    assert!(input.capture_event(&press(Key::W)));
    assert!(input.key_pressed(Key::W));
    assert!(input.capture_event(&release(Key::W)));
    assert!(!input.key_pressed(Key::W));
}

#[test]
fn keys_are_held_independently() {
    let mut input = FrameInput::<f64>::new();
    let keys = [Key::W, Key::A, Key::S, Key::D, Key::Space, Key::LShift, Key::Other(0), Key::Other(3)];
    for (i, key) in keys.iter().enumerate() {
        input.capture_event(&press(*key));
        for (j, other) in keys.iter().enumerate() {
            assert_eq!(input.key_pressed(*other), j <= i);
        }
    }
    input.capture_event(&release(Key::S));
    assert!(!input.key_pressed(Key::S));
    assert!(input.key_pressed(Key::Other(3)));
    assert!(input.key_pressed(Key::W));
}

#[test]
fn releasing_a_key_that_is_not_held_changes_nothing() {
    let mut input = FrameInput::<f64>::new();
    input.capture_event(&press(Key::A));
    assert!(input.capture_event(&release(Key::D)));
    assert!(input.key_pressed(Key::A));
    assert!(!input.key_pressed(Key::D));
}

#[test]
fn a_keyboard_event_without_a_key_is_captured_and_changes_nothing() {
    let mut input = FrameInput::<f64>::new();
    input.capture_event(&press(Key::A));
    assert!(input.capture_event(&InputEvent::Keyboard { key: None, pressed: true }));
    assert!(input.capture_event(&InputEvent::Keyboard { key: None, pressed: false }));
    assert_eq!(input.pressed_keys.len(), 1);
    assert!(input.key_pressed(Key::A));
}

#[test]
fn mouse_motion_adds_up() {
    let mut input = FrameInput::<f64>::new();
    assert!(input.capture_event(&InputEvent::MouseMotion { delta: Vec2::new(1.5, -2.0) }));
    assert!(input.capture_event(&InputEvent::MouseMotion { delta: Vec2::new(0.25, 4.0) }));
    assert_eq!(input.cursor_change(), Vec2::new(1.75, 2.0));
    assert_eq!(input.scroll_change(), Vec2::new(0.0, 0.0));
}

#[test]
fn other_events_are_not_captured() {
    let mut input = FrameInput::<f64>::new();
    input.capture_event(&press(Key::W));
    input.capture_event(&InputEvent::MouseMotion { delta: Vec2::new(1.0, 1.0) });
    assert!(!input.capture_event(&InputEvent::Other));
    assert!(input.key_pressed(Key::W));
    assert_eq!(input.cursor_change(), Vec2::new(1.0, 1.0));
}

#[test]
fn clear_resets_the_motion_and_keeps_the_keys() {
    let mut input = FrameInput::<f64>::new();
    input.capture_event(&press(Key::Space));
    input.capture_event(&InputEvent::MouseMotion { delta: Vec2::new(3.0, 4.0) });
    input.scroll_change = Vec2::new(1.0, 2.0);
    input.clear();
    assert_eq!(input.cursor_change(), Vec2::new(0.0, 0.0));
    assert_eq!(input.scroll_change(), Vec2::new(0.0, 0.0));
    assert!(input.key_pressed(Key::Space));
}

#[test]
fn mouse_buttons_are_read_from_their_set() {
    let mut input = FrameInput::<f64>::new();
    input.pressed_mouse_buttons.insert(MouseButton::Right.code());
    assert!(input.mouse_button_pressed(MouseButton::Right));
    assert!(!input.mouse_button_pressed(MouseButton::Left));
    assert!(!input.mouse_button_pressed(MouseButton::Middle));
    assert!(!input.mouse_button_pressed(MouseButton::Other(1)));
    input.capture_event(&press(Key::A));
    input.clear();
    assert!(input.mouse_button_pressed(MouseButton::Right));
}

#[test]
fn key_codes_differ() {
    let keys = [
        Key::W,
        Key::A,
        Key::S,
        Key::D,
        Key::Space,
        Key::LShift,
        Key::Other(0),
        Key::Other(1),
        Key::Other(5),
        Key::Other(u32::MAX),
    ];
    for (i, a) in keys.iter().enumerate() {
        for (j, b) in keys.iter().enumerate() {
            assert_eq!(a.code() == b.code(), i == j);
        }
    }
    assert_eq!(Key::W.code(), 0);
    assert_eq!(Key::Other(0).code(), 6);
    assert_eq!(Key::Other(u32::MAX).code(), u32::MAX as u64 + 6);
}

#[test]
fn mouse_button_codes_differ() {
    let buttons = [
        MouseButton::Left,
        MouseButton::Right,
        MouseButton::Middle,
        MouseButton::Other(0),
        MouseButton::Other(2),
        MouseButton::Other(u16::MAX),
    ];
    for (i, a) in buttons.iter().enumerate() {
        for (j, b) in buttons.iter().enumerate() {
            assert_eq!(a.code() == b.code(), i == j);
        }
    }
    assert_eq!(MouseButton::Other(0).code(), 3);
}
