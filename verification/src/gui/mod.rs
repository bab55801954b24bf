//! Widgets for simple in-game interfaces.

pub mod button;
