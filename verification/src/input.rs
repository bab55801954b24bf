//! Snapshot of the keyboard and mouse input of one poll cycle.
//!
//! Between two polls the platform delivers events, and the snapshot records
//! for every key and mouse button whether it went down, whether it went up,
//! and whether it is down now.

use std::collections::HashSet;
use vstd::prelude::*;
use vstd::std_specs::hash::*;

use crate::geometry::Position;

verus! {

broadcast use group_hash_axioms;

/// Physical key on the keyboard, by the code that the platform gives it.
///
/// The code names a place on the keyboard and not a character, so a game's
/// controls stay in place on every keyboard layout.
#[derive(Debug, Clone, Copy, PartialEq, Eq, Hash, Structural)]
pub struct KeyCode(pub u32);

/// Button on the mouse.
#[derive(Debug, Clone, Copy, PartialEq, Eq, Hash, Structural)]
pub enum MouseButton {
    /// Primary button.
    Left,
    /// Secondary button.
    Right,
    /// Button of the wheel.
    Middle,
    /// Button that navigates back.
    Back,
    /// Button that navigates forward.
    Forward,
    /// Any other button, by the number that the platform gives it.
    Other(u16),
}

impl MouseButton {
    /// Number under which the button is recorded. No two buttons share one.
    pub open spec fn spec_code(self) -> u32 {
        match self {
            MouseButton::Left => 0,
            MouseButton::Right => 1,
            MouseButton::Middle => 2,
            MouseButton::Back => 3,
            MouseButton::Forward => 4,
            MouseButton::Other(number) => (5 + number) as u32,
        }
    }

    /// Number under which the button is recorded.
    #[verifier::when_used_as_spec(spec_code)]
    pub fn code(self) -> (code: u32)
        ensures
            code == self.spec_code(),
    {
        match self {
            MouseButton::Left => 0,
            MouseButton::Right => 1,
            MouseButton::Middle => 2,
            MouseButton::Back => 3,
            MouseButton::Forward => 4,
            MouseButton::Other(number) => 5 + number as u32,
        }
    }
}

/// Something that happened to the window or its input devices.
#[derive(Debug, Clone, Copy, PartialEq, Eq, Structural)]
pub enum InputEvent {
    /// A key is down. The platform may repeat this while the key stays down.
    KeyDown(KeyCode),
    /// A key is up.
    KeyUp(KeyCode),
    /// A mouse button is down.
    MouseDown(MouseButton),
    /// A mouse button is up.
    MouseUp(MouseButton),
    /// The cursor moved to a pixel of the window.
    CursorMoved(Position),
    /// The user or the platform asked for the window to be closed.
    CloseRequested,
    /// The window is gone.
    Destroyed,
}

/// Mathematical state of an [`InputSnapshot`].
pub struct InputView {
    /// Keys that are down now.
    pub keys_held: Set<KeyCode>,
    /// Keys that went from up to down in this poll cycle.
    pub keys_pressed: Set<KeyCode>,
    /// Keys that went from down to up in this poll cycle.
    pub keys_released: Set<KeyCode>,
    /// Mouse buttons that are down now.
    pub buttons_held: Set<MouseButton>,
    /// Mouse buttons that went from up to down in this poll cycle.
    pub buttons_pressed: Set<MouseButton>,
    /// Mouse buttons that went from down to up in this poll cycle.
    pub buttons_released: Set<MouseButton>,
    /// Last known pixel of the window under the cursor.
    pub cursor: Option<Position>,
    /// Closing the window was asked for in this poll cycle.
    pub close_requested: bool,
    /// The window is gone.
    pub destroyed: bool,
}

impl InputView {
    /// State before any event: everything is up, the cursor is unknown.
    pub open spec fn initial() -> InputView {
        InputView {
            keys_held: Set::empty(),
            keys_pressed: Set::empty(),
            keys_released: Set::empty(),
            buttons_held: Set::empty(),
            buttons_pressed: Set::empty(),
            buttons_released: Set::empty(),
            cursor: None,
            close_requested: false,
            destroyed: false,
        }
    }

    /// State at the start of the next poll cycle: the edges of the last cycle
    /// and its request to close are forgotten. What is down stays down, the
    /// cursor stays where it is, a window that is gone stays gone.
    pub open spec fn step(self) -> InputView {
        InputView {
            keys_pressed: Set::empty(),
            keys_released: Set::empty(),
            buttons_pressed: Set::empty(),
            buttons_released: Set::empty(),
            close_requested: false,
            ..self
        }
    }

    /// State after an event.
    ///
    /// Only a change makes an edge: a key or button that is already down does
    /// not go down again, and one that is up does not go up again.
    pub open spec fn apply(self, event: InputEvent) -> InputView {
        match event {
            InputEvent::KeyDown(key) => if self.keys_held.contains(key) {
                self
            } else {
                InputView {
                    keys_held: self.keys_held.insert(key),
                    keys_pressed: self.keys_pressed.insert(key),
                    ..self
                }
            },
            InputEvent::KeyUp(key) => if self.keys_held.contains(key) {
                InputView {
                    keys_held: self.keys_held.remove(key),
                    keys_released: self.keys_released.insert(key),
                    ..self
                }
            } else {
                self
            },
            InputEvent::MouseDown(button) => if self.buttons_held.contains(button) {
                self
            } else {
                InputView {
                    buttons_held: self.buttons_held.insert(button),
                    buttons_pressed: self.buttons_pressed.insert(button),
                    ..self
                }
            },
            InputEvent::MouseUp(button) => if self.buttons_held.contains(button) {
                InputView {
                    buttons_held: self.buttons_held.remove(button),
                    buttons_released: self.buttons_released.insert(button),
                    ..self
                }
            } else {
                self
            },
            InputEvent::CursorMoved(position) => InputView { cursor: Some(position), ..self },
            InputEvent::CloseRequested => InputView { close_requested: true, ..self },
            InputEvent::Destroyed => InputView { destroyed: true, ..self },
        }
    }
}

/// Keys with their code in `codes`.
pub open spec fn keys_of(codes: Set<u32>) -> Set<KeyCode> {
    Set::new(|key: KeyCode| codes.contains(key.0))
}

/// Mouse buttons with their code in `codes`.
pub open spec fn buttons_of(codes: Set<u32>) -> Set<MouseButton> {
    Set::new(|button: MouseButton| codes.contains(button.spec_code()))
}

/// Input state that can be queried at any time during a poll cycle.
#[derive(Debug)]
pub struct InputSnapshot {
    /// Codes of the keys that are down.
    keys_held: HashSet<u32>,
    /// Codes of the keys that went down in this cycle.
    keys_pressed: HashSet<u32>,
    /// Codes of the keys that went up in this cycle.
    keys_released: HashSet<u32>,
    /// Codes of the mouse buttons that are down.
    buttons_held: HashSet<u32>,
    /// Codes of the mouse buttons that went down in this cycle.
    buttons_pressed: HashSet<u32>,
    /// Codes of the mouse buttons that went up in this cycle.
    buttons_released: HashSet<u32>,
    /// Last known pixel of the window under the cursor.
    cursor: Option<Position>,
    /// Closing the window was asked for in this cycle.
    close_requested: bool,
    /// The window is gone.
    destroyed: bool,
}

impl View for InputSnapshot {
    type V = InputView;

    closed spec fn view(&self) -> InputView {
        InputView {
            keys_held: keys_of(self.keys_held@),
            keys_pressed: keys_of(self.keys_pressed@),
            keys_released: keys_of(self.keys_released@),
            buttons_held: buttons_of(self.buttons_held@),
            buttons_pressed: buttons_of(self.buttons_pressed@),
            buttons_released: buttons_of(self.buttons_released@),
            cursor: self.cursor,
            close_requested: self.close_requested,
            destroyed: self.destroyed,
        }
    }
}

impl InputSnapshot {
    /// Snapshot before any event.
    pub fn new() -> (snapshot: Self)
        ensures
            snapshot@ == InputView::initial(),
    {
        let snapshot = InputSnapshot {
            keys_held: HashSet::new(),
            keys_pressed: HashSet::new(),
            keys_released: HashSet::new(),
            buttons_held: HashSet::new(),
            buttons_pressed: HashSet::new(),
            buttons_released: HashSet::new(),
            cursor: None,
            close_requested: false,
            destroyed: false,
        };
        assert(keys_of(Set::empty()) =~= Set::empty());
        assert(buttons_of(Set::empty()) =~= Set::empty());
        snapshot
    }

    /// Start the next poll cycle.
    pub fn step(&mut self)
        ensures
            final(self)@ == old(self)@.step(),
    {
        self.keys_pressed.clear();
        self.keys_released.clear();
        self.buttons_pressed.clear();
        self.buttons_released.clear();
        self.close_requested = false;
        assert(keys_of(Set::empty()) =~= Set::empty());
        assert(buttons_of(Set::empty()) =~= Set::empty());
    }

    /// Record an event of the current poll cycle. Queries see it at once.
    pub fn handle_event(&mut self, event: InputEvent)
        ensures
            final(self)@ == old(self)@.apply(event),
    {
        match event {
            InputEvent::KeyDown(key) => {
                if self.keys_held.insert(key.0) {
                    self.keys_pressed.insert(key.0);
                    assert(keys_of(self.keys_held@) =~= keys_of(old(self).keys_held@).insert(key));
                    assert(keys_of(self.keys_pressed@) =~= keys_of(
                        old(self).keys_pressed@,
                    ).insert(key));
                } else {
                    assert(self.keys_held@ =~= old(self).keys_held@);
                }
            },
            InputEvent::KeyUp(key) => {
                if self.keys_held.remove(&key.0) {
                    self.keys_released.insert(key.0);
                    assert(keys_of(self.keys_held@) =~= keys_of(old(self).keys_held@).remove(key));
                    assert(keys_of(self.keys_released@) =~= keys_of(
                        old(self).keys_released@,
                    ).insert(key));
                } else {
                    assert(self.keys_held@ =~= old(self).keys_held@);
                }
            },
            InputEvent::MouseDown(button) => {
                if self.buttons_held.insert(button.code()) {
                    self.buttons_pressed.insert(button.code());
                    assert(buttons_of(self.buttons_held@) =~= buttons_of(
                        old(self).buttons_held@,
                    ).insert(button));
                    assert(buttons_of(self.buttons_pressed@) =~= buttons_of(
                        old(self).buttons_pressed@,
                    ).insert(button));
                } else {
                    assert(self.buttons_held@ =~= old(self).buttons_held@);
                }
            },
            InputEvent::MouseUp(button) => {
                let code: u32 = button.code();
                if self.buttons_held.remove(&code) {
                    self.buttons_released.insert(code);
                    assert(buttons_of(self.buttons_held@) =~= buttons_of(
                        old(self).buttons_held@,
                    ).remove(button));
                    assert(buttons_of(self.buttons_released@) =~= buttons_of(
                        old(self).buttons_released@,
                    ).insert(button));
                } else {
                    assert(self.buttons_held@ =~= old(self).buttons_held@);
                }
            },
            InputEvent::CursorMoved(position) => {
                self.cursor = Some(position);
            },
            InputEvent::CloseRequested => {
                self.close_requested = true;
            },
            InputEvent::Destroyed => {
                self.destroyed = true;
            },
        }
    }

    /// Whether the key went from "not pressed" to "pressed" in this cycle.
    pub fn key_pressed(&self, keycode: KeyCode) -> (pressed: bool)
        ensures
            pressed == self@.keys_pressed.contains(keycode),
    {
        self.keys_pressed.contains(&keycode.0)
    }

    /// Whether the key went from "pressed" to "not pressed" in this cycle.
    pub fn key_released(&self, keycode: KeyCode) -> (released: bool)
        ensures
            released == self@.keys_released.contains(keycode),
    {
        self.keys_released.contains(&keycode.0)
    }

    /// Whether the key is down.
    pub fn key_held(&self, keycode: KeyCode) -> (held: bool)
        ensures
            held == self@.keys_held.contains(keycode),
    {
        self.keys_held.contains(&keycode.0)
    }

    /// Whether the mouse button went from "not pressed" to "pressed" in this
    /// cycle.
    pub fn mouse_pressed(&self, mouse_button: MouseButton) -> (pressed: bool)
        ensures
            pressed == self@.buttons_pressed.contains(mouse_button),
    {
        let code: u32 = mouse_button.code();
        self.buttons_pressed.contains(&code)
    }

    /// Whether the mouse button went from "pressed" to "not pressed" in this
    /// cycle.
    pub fn mouse_released(&self, mouse_button: MouseButton) -> (released: bool)
        ensures
            released == self@.buttons_released.contains(mouse_button),
    {
        let code: u32 = mouse_button.code();
        self.buttons_released.contains(&code)
    }

    /// Whether the mouse button is down.
    pub fn mouse_held(&self, mouse_button: MouseButton) -> (held: bool)
        ensures
            held == self@.buttons_held.contains(mouse_button),
    {
        let code: u32 = mouse_button.code();
        self.buttons_held.contains(&code)
    }

    /// Last known pixel of the window under the cursor, if it was ever there.
    pub fn cursor(&self) -> (cursor: Option<Position>)
        ensures
            cursor == self@.cursor,
    {
        self.cursor
    }

    /// Whether closing the window was asked for in this cycle.
    pub fn close_requested(&self) -> (requested: bool)
        ensures
            requested == self@.close_requested,
    {
        self.close_requested
    }

    /// Whether the window is gone. Once true, this stays true.
    pub fn destroyed(&self) -> (destroyed: bool)
        ensures
            destroyed == self@.destroyed,
    {
        self.destroyed
    }
}

/// A key that is up, goes down and goes up again within one poll cycle counts
/// as pressed and as released in that cycle, and is not held once it is up.
pub proof fn lemma_key_tap_in_one_cycle(state: InputView, key: KeyCode)
    requires
        !state.keys_held.contains(key),
    ensures
        ({
            let down = state.apply(InputEvent::KeyDown(key));
            let up = down.apply(InputEvent::KeyUp(key));
            &&& down.keys_pressed.contains(key)
            &&& down.keys_held.contains(key)
            &&& up.keys_pressed.contains(key)
            &&& up.keys_released.contains(key)
            &&& !up.keys_held.contains(key)
        }),
{
}

/// A mouse button that is up, goes down and goes up again within one poll
/// cycle counts as pressed and as released in that cycle, and is not held
/// once it is up.
pub proof fn lemma_button_tap_in_one_cycle(state: InputView, button: MouseButton)
    requires
        !state.buttons_held.contains(button),
    ensures
        ({
            let down = state.apply(InputEvent::MouseDown(button));
            let up = down.apply(InputEvent::MouseUp(button));
            &&& down.buttons_pressed.contains(button)
            &&& down.buttons_held.contains(button)
            &&& up.buttons_pressed.contains(button)
            &&& up.buttons_released.contains(button)
            &&& !up.buttons_held.contains(button)
        }),
{
}

/// Edges last for one poll cycle: after the step to the next cycle nothing is
/// pressed or released, while everything that was held is held still.
pub proof fn lemma_step_forgets_edges(state: InputView, key: KeyCode, button: MouseButton)
    ensures
        !state.step().keys_pressed.contains(key),
        !state.step().keys_released.contains(key),
        !state.step().buttons_pressed.contains(button),
        !state.step().buttons_released.contains(button),
        state.step().keys_held == state.keys_held,
        state.step().buttons_held == state.buttons_held,
{
}

} // verus!
