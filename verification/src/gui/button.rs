//! A simple button widget.

use vstd::prelude::*;

use crate::geometry::{Position, Size};
use crate::input::{InputSnapshot, InputView, MouseButton};

verus! {

/// In which state the button can be.
#[derive(Debug, Clone, Copy, PartialEq, Eq, Structural)]
pub enum State {
    /// Button is doing nothing.
    Normal,
    /// Button is hovered over by the mouse.
    Hover,
    /// Button is hold down.
    Down,
}

impl Default for State {
    fn default() -> (state: Self)
        ensures
            state == State::Normal,
    {
        State::Normal
    }
}

/// Rectangle of pixels, by its top-left corner and its size.
#[derive(Debug, Clone, Copy, PartialEq, Eq, Structural)]
pub struct Rect {
    /// Leftmost column.
    pub x: i32,
    /// Topmost row.
    pub y: i32,
    /// Distance from the left edge to the right edge.
    pub width: u32,
    /// Distance from the top edge to the bottom edge.
    pub height: u32,
}

/// Area between two corners, both of which belong to it.
pub struct Bounds {
    /// Smallest horizontal coordinate.
    pub left: int,
    /// Smallest vertical coordinate.
    pub top: int,
    /// Largest horizontal coordinate.
    pub right: int,
    /// Largest vertical coordinate.
    pub bottom: int,
}

impl Bounds {
    /// Whether the point lies in the area or on its edge.
    pub open spec fn contains(self, point: Position) -> bool {
        &&& self.left <= point.x <= self.right
        &&& self.top <= point.y <= self.bottom
    }

    /// The smallest area that contains both this one and another.
    pub open spec fn union(self, other: Bounds) -> Bounds {
        Bounds {
            left: if self.left <= other.left {
                self.left
            } else {
                other.left
            },
            top: if self.top <= other.top {
                self.top
            } else {
                other.top
            },
            right: if self.right >= other.right {
                self.right
            } else {
                other.right
            },
            bottom: if self.bottom >= other.bottom {
                self.bottom
            } else {
                other.bottom
            },
        }
    }
}

/// What a button does with the mouse in one poll cycle, given whether the
/// mouse is over the button, if it is on the buffer at all: the state that
/// follows, and whether the button was clicked.
///
/// A button that does nothing starts to be hovered when the mouse is over it
/// with the left button up. A hovered button goes back when the mouse leaves
/// it, and is held down when the left button goes down over it. A button that
/// is held down is clicked when the left button goes up, wherever the mouse
/// is by then.
pub open spec fn transition(state: State, over: Option<bool>, input: InputView) -> (State, bool) {
    match state {
        State::Normal => if over == Some(true) && !input.buttons_held.contains(MouseButton::Left) {
            (State::Hover, false)
        } else {
            (State::Normal, false)
        },
        State::Hover => if over == Some(false) {
            (State::Normal, false)
        } else if over == Some(true) && input.buttons_pressed.contains(MouseButton::Left) {
            (State::Down, false)
        } else {
            (State::Hover, false)
        },
        State::Down => if input.buttons_released.contains(MouseButton::Left) {
            (State::Normal, true)
        } else {
            (State::Down, false)
        },
    }
}

/// A simple button widget.
#[derive(Debug)]
pub struct Button {
    /// Top-left position of the widget in pixels.
    pub offset: Position,
    /// Size of the button in pixels.
    pub size: Size,
    /// Extra size of the click region in pixels.
    ///
    /// Relative to the offset.
    pub click_region: Option<Rect>,
    /// A custom label with text centered at the button.
    pub label: Option<String>,
    /// Current button state.
    pub state: State,
}

impl Button {
    /// The area of the button itself.
    pub open spec fn bounds(&self) -> Bounds {
        Bounds {
            left: self.offset.x as int,
            top: self.offset.y as int,
            right: self.offset.x + self.size.width,
            bottom: self.offset.y + self.size.height,
        }
    }

    /// The area in which the mouse is over the button: the button itself, and
    /// with an extra click region the smallest area that holds them both.
    pub open spec fn click_bounds(&self) -> Bounds {
        match self.click_region {
            Some(region) => self.bounds().union(
                Bounds {
                    left: region.x + self.offset.x,
                    top: region.y + self.offset.y,
                    right: region.x + self.offset.x + region.width,
                    bottom: region.y + self.offset.y + region.height,
                },
            ),
            None => self.bounds(),
        }
    }

    /// Whether the mouse is over the button, if it is on the buffer at all.
    pub open spec fn over(&self, mouse_pos: Option<Position>) -> Option<bool> {
        match mouse_pos {
            Some(position) => Some(self.click_bounds().contains(position)),
            None => None,
        }
    }

    /// Whether a point lies in the area in which the mouse is over the button.
    pub fn contains_point(&self, point: Position) -> (inside: bool)
        ensures
            inside == self.click_bounds().contains(point),
    {
        let mut left: i128 = self.offset.x as i128;
        let mut top: i128 = self.offset.y as i128;
        let mut right: i128 = self.offset.x as i128 + self.size.width as i128;
        let mut bottom: i128 = self.offset.y as i128 + self.size.height as i128;
        if let Some(region) = self.click_region {
            let region_left: i128 = region.x as i128 + self.offset.x as i128;
            let region_top: i128 = region.y as i128 + self.offset.y as i128;
            let region_right: i128 = region_left + region.width as i128;
            let region_bottom: i128 = region_top + region.height as i128;
            if region_left < left {
                left = region_left;
            }
            if region_top < top {
                top = region_top;
            }
            if region_right > right {
                right = region_right;
            }
            if region_bottom > bottom {
                bottom = region_bottom;
            }
        }
        left <= point.x as i128 && point.x as i128 <= right && top <= point.y as i128 && point.y
            as i128 <= bottom
    }

    /// Handle the input.
    ///
    /// Return when the button is released.
    pub fn update(&mut self, input: &InputSnapshot, mouse_pos: Option<Position>) -> (clicked: bool)
        ensures
            final(self).state == transition(old(self).state, old(self).over(mouse_pos), input@).0,
            clicked == transition(old(self).state, old(self).over(mouse_pos), input@).1,
            final(self).offset == old(self).offset,
            final(self).size == old(self).size,
            final(self).click_region == old(self).click_region,
            final(self).label == old(self).label,
    {
        match self.state {
            State::Normal => {
                if let Some(mouse_pos) = mouse_pos {
                    if !input.mouse_held(MouseButton::Left) && self.contains_point(mouse_pos) {
                        self.state = State::Hover;
                    }
                }
                false
            },
            State::Hover => {
                if let Some(mouse_pos) = mouse_pos {
                    if !self.contains_point(mouse_pos) {
                        self.state = State::Normal;
                    } else if input.mouse_pressed(MouseButton::Left) {
                        self.state = State::Down;
                    }
                }
                false
            },
            State::Down => {
                if input.mouse_released(MouseButton::Left) {
                    self.state = State::Normal;
                    true
                } else {
                    false
                }
            },
        }
    }

    /// Update from layout changes.
    pub fn update_layout(&mut self, location: Position, size: Size)
        ensures
            final(self).offset == location,
            final(self).size == size,
            final(self).click_region == old(self).click_region,
            final(self).label == old(self).label,
            final(self).state == old(self).state,
    {
        self.offset = location;
        self.size = size;
    }
}

impl Default for Button {
    fn default() -> (button: Self)
        ensures
            button.offset == (Position { x: 0, y: 0 }),
            button.size == (Size { width: 0, height: 0 }),
            button.click_region.is_none(),
            button.label.is_none(),
            button.state == State::Normal,
    {
        Button {
            offset: Position { x: 0, y: 0 },
            size: Size { width: 0, height: 0 },
            label: None,
            state: State::Normal,
            click_region: None,
        }
    }
}

} // verus!
