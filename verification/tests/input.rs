use pixel_game_lib::geometry::Position;
use pixel_game_lib::input::{InputEvent, InputSnapshot, KeyCode, MouseButton};

const KEY_W: KeyCode = KeyCode(17);
const KEY_ESCAPE: KeyCode = KeyCode(1);

#[test]
fn new_snapshot_has_nothing_down() {
    let input = InputSnapshot::new();
    assert!(!input.key_pressed(KEY_W));
    assert!(!input.key_released(KEY_W));
    assert!(!input.key_held(KEY_W));
    assert!(!input.mouse_pressed(MouseButton::Left));
    assert!(!input.mouse_released(MouseButton::Left));
    assert!(!input.mouse_held(MouseButton::Left));
    assert_eq!(input.cursor(), None);
    assert!(!input.close_requested());
    assert!(!input.destroyed());
}

#[test]
fn key_tap_within_one_cycle_is_pressed_and_released() {
    let mut input = InputSnapshot::new();
    input.handle_event(InputEvent::KeyDown(KEY_W));
    assert!(input.key_pressed(KEY_W));
    assert!(input.key_held(KEY_W));
    assert!(!input.key_released(KEY_W));
    input.handle_event(InputEvent::KeyUp(KEY_W));
    assert!(input.key_pressed(KEY_W));
    assert!(input.key_released(KEY_W));
    assert!(!input.key_held(KEY_W));
}

#[test]
fn key_edges_last_one_cycle() {
    let mut input = InputSnapshot::new();
    input.handle_event(InputEvent::KeyDown(KEY_W));
    input.step();
    assert!(!input.key_pressed(KEY_W));
    assert!(input.key_held(KEY_W));
    input.handle_event(InputEvent::KeyUp(KEY_W));
    assert!(input.key_released(KEY_W));
    assert!(!input.key_held(KEY_W));
    input.step();
    assert!(!input.key_released(KEY_W));
    assert!(!input.key_held(KEY_W));
}

#[test]
fn repeated_key_down_is_no_new_press() {
    let mut input = InputSnapshot::new();
    input.handle_event(InputEvent::KeyDown(KEY_W));
    input.step();
    // The platform repeats the key while it is held
    input.handle_event(InputEvent::KeyDown(KEY_W));
    assert!(!input.key_pressed(KEY_W));
    assert!(input.key_held(KEY_W));
}

#[test]
fn key_up_without_key_down_is_no_release() {
    let mut input = InputSnapshot::new();
    input.handle_event(InputEvent::KeyUp(KEY_W));
    assert!(!input.key_released(KEY_W));
    assert!(!input.key_held(KEY_W));
}

#[test]
fn keys_do_not_affect_each_other() {
    let mut input = InputSnapshot::new();
    input.handle_event(InputEvent::KeyDown(KEY_W));
    assert!(!input.key_pressed(KEY_ESCAPE));
    assert!(!input.key_held(KEY_ESCAPE));
    input.handle_event(InputEvent::KeyDown(KEY_ESCAPE));
    input.handle_event(InputEvent::KeyUp(KEY_W));
    assert!(input.key_held(KEY_ESCAPE));
    assert!(!input.key_released(KEY_ESCAPE));
    assert!(input.key_released(KEY_W));
}

#[test]
fn mouse_tap_within_one_cycle_is_pressed_and_released() {
    let mut input = InputSnapshot::new();
    input.handle_event(InputEvent::MouseDown(MouseButton::Right));
    assert!(input.mouse_pressed(MouseButton::Right));
    assert!(input.mouse_held(MouseButton::Right));
    input.handle_event(InputEvent::MouseUp(MouseButton::Right));
    assert!(input.mouse_pressed(MouseButton::Right));
    assert!(input.mouse_released(MouseButton::Right));
    assert!(!input.mouse_held(MouseButton::Right));
    assert!(!input.mouse_pressed(MouseButton::Left));
}

#[test]
fn other_mouse_buttons_are_told_apart() {
    let mut input = InputSnapshot::new();
    input.handle_event(InputEvent::MouseDown(MouseButton::Other(0)));
    assert!(input.mouse_held(MouseButton::Other(0)));
    assert!(!input.mouse_held(MouseButton::Other(1)));
    assert!(!input.mouse_held(MouseButton::Forward));
    input.handle_event(InputEvent::MouseDown(MouseButton::Other(u16::MAX)));
    assert!(input.mouse_held(MouseButton::Other(u16::MAX)));
    assert!(!input.key_held(KeyCode(5)));
}

#[test]
fn mouse_button_codes_are_distinct() {
    assert_eq!(MouseButton::Left.code(), 0);
    assert_eq!(MouseButton::Right.code(), 1);
    assert_eq!(MouseButton::Middle.code(), 2);
    assert_eq!(MouseButton::Back.code(), 3);
    assert_eq!(MouseButton::Forward.code(), 4);
    assert_eq!(MouseButton::Other(0).code(), 5);
    assert_eq!(MouseButton::Other(u16::MAX).code(), 65_540);
}

#[test]
fn cursor_is_the_last_known_position() {
    let mut input = InputSnapshot::new();
    input.handle_event(InputEvent::CursorMoved(Position::new(3, 4)));
    input.handle_event(InputEvent::CursorMoved(Position::new(-5, 600)));
    assert_eq!(input.cursor(), Some(Position::new(-5, 600)));
    input.step();
    assert_eq!(input.cursor(), Some(Position::new(-5, 600)));
}

#[test]
fn close_request_lasts_one_cycle_and_destroyed_stays() {
    let mut input = InputSnapshot::new();
    input.handle_event(InputEvent::CloseRequested);
    input.handle_event(InputEvent::Destroyed);
    assert!(input.close_requested());
    assert!(input.destroyed());
    input.step();
    assert!(!input.close_requested());
    assert!(input.destroyed());
}
