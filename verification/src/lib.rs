//! Runtime core of a pixel-art game toolkit.
//!
//! The library decouples a fixed-rate simulation step from a variable-rate
//! presentation step and keeps the state that both steps share: the frame
//! context with its input snapshot, its lazily filled resource tables and its
//! queues of work for the renderer.
//!
//! Nothing in the library reads a clock, opens a window or touches a file.
//! Its driver hands it the time that has passed and the events that have
//! arrived, and is told what to do next.
//!
//! * [`timestep`] turns the time of displayed frames into update ticks of one
//!   length.
//! * [`context`] is the state that the callbacks of a game see.
//! * [`input`] records which keys and buttons went down and up.
//! * [`assets`] keeps what was loaded, each resource under its identifier.
//! * [`sprite`], [`font`] and [`bitmap`] are what can be drawn.
//! * [`gui`] has widgets, [`config`] the settings of a game, and [`geometry`]
//!   the sizes and positions that all of them measure in.
//!
//! All measures are whole numbers: pixels, nanoseconds, thousandths of a frame
//! per second, thousandths of a degree. Ratios are exact fractions.

pub mod assets;
pub mod bitmap;
pub mod config;
pub mod context;
pub mod font;
pub mod geometry;
pub mod gui;
pub mod input;
pub mod refs;
pub mod sprite;
pub mod timestep;

pub use config::{GameConfig, RotationAlgorithm};
pub use context::Context;
pub use geometry::{Fraction, Position, Region, Size};
pub use input::{InputEvent, InputSnapshot, KeyCode, MouseButton};
pub use timestep::{Phase, Tick, Timestep};
