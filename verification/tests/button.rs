use pixel_game_lib::geometry::{Position, Size};
use pixel_game_lib::gui::button::{Button, Rect, State};
use pixel_game_lib::input::{InputEvent, InputSnapshot, MouseButton};

fn button() -> Button {
    let mut button = Button::default();
    button.update_layout(Position::new(10, 20), Size::new(30, 10));
    button
}

#[test]
fn default_button() {
    let button = Button::default();
    assert_eq!(button.offset, Position::new(0, 0));
    assert_eq!(button.size, Size::new(0, 0));
    assert_eq!(button.click_region, None);
    assert_eq!(button.label, None);
    assert_eq!(button.state, State::Normal);
    assert_eq!(State::default(), State::Normal);
}

#[test]
fn update_layout_places_the_button() {
    let button = button();
    assert_eq!(button.offset, Position::new(10, 20));
    assert_eq!(button.size, Size::new(30, 10));
    assert_eq!(button.state, State::Normal);
}

#[test]
fn edges_belong_to_the_button() {
    let button = button();
    assert!(button.contains_point(Position::new(10, 20)));
    assert!(button.contains_point(Position::new(40, 30)));
    assert!(button.contains_point(Position::new(25, 25)));
    assert!(!button.contains_point(Position::new(9, 25)));
    assert!(!button.contains_point(Position::new(41, 25)));
    assert!(!button.contains_point(Position::new(25, 19)));
    assert!(!button.contains_point(Position::new(25, 31)));
}

#[test]
fn click_region_extends_the_button() {
    let mut button = button();
    // From 5 left of and 5 above the button, 50 wide and 5 high
    button.click_region = Some(Rect { x: -5, y: -5, width: 50, height: 5 });
    assert!(button.contains_point(Position::new(5, 15)));
    assert!(button.contains_point(Position::new(55, 15)));
    // The smallest area that holds both
    assert!(button.contains_point(Position::new(55, 30)));
    assert!(button.contains_point(Position::new(25, 25)));
    assert!(!button.contains_point(Position::new(4, 25)));
    assert!(!button.contains_point(Position::new(56, 25)));
    assert!(!button.contains_point(Position::new(25, 14)));
}

#[test]
fn click_cycle() {
    let mut button = button();
    let mut input = InputSnapshot::new();
    let inside = Some(Position::new(20, 25));
    let outside = Some(Position::new(0, 0));

    // Nothing happens while the mouse is elsewhere
    assert!(!button.update(&input, outside));
    assert_eq!(button.state, State::Normal);
    assert!(!button.update(&input, None));
    assert_eq!(button.state, State::Normal);

    // Hover
    assert!(!button.update(&input, inside));
    assert_eq!(button.state, State::Hover);
    assert!(!button.update(&input, None));
    assert_eq!(button.state, State::Hover);

    // Press
    input.handle_event(InputEvent::MouseDown(MouseButton::Left));
    assert!(!button.update(&input, inside));
    assert_eq!(button.state, State::Down);

    // Hold, also when the mouse leaves
    input.step();
    assert!(!button.update(&input, outside));
    assert_eq!(button.state, State::Down);

    // Release
    input.handle_event(InputEvent::MouseUp(MouseButton::Left));
    assert!(button.update(&input, outside));
    assert_eq!(button.state, State::Normal);
}

#[test]
fn hover_ends_when_the_mouse_leaves() {
    let mut button = button();
    let input = InputSnapshot::new();
    button.update(&input, Some(Position::new(20, 25)));
    assert_eq!(button.state, State::Hover);
    assert!(!button.update(&input, Some(Position::new(20, 35))));
    assert_eq!(button.state, State::Normal);
}

#[test]
fn no_hover_while_the_mouse_button_is_held() {
    let mut button = button();
    let mut input = InputSnapshot::new();
    input.handle_event(InputEvent::MouseDown(MouseButton::Left));
    assert!(!button.update(&input, Some(Position::new(20, 25))));
    assert_eq!(button.state, State::Normal);
    // Another button does not count
    let mut input = InputSnapshot::new();
    input.handle_event(InputEvent::MouseDown(MouseButton::Right));
    assert!(!button.update(&input, Some(Position::new(20, 25))));
    assert_eq!(button.state, State::Hover);
    assert!(!button.update(&input, Some(Position::new(20, 25))));
    assert_eq!(button.state, State::Hover);
}

#[test]
fn press_outside_does_not_hold_the_button_down() {
    let mut button = button();
    button.state = State::Hover;
    let mut input = InputSnapshot::new();
    input.handle_event(InputEvent::MouseDown(MouseButton::Left));
    assert!(!button.update(&input, None));
    assert_eq!(button.state, State::Hover);
    assert!(!button.update(&input, Some(Position::new(0, 0))));
    assert_eq!(button.state, State::Normal);
}
