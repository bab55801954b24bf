//! Game configuration.

use vstd::prelude::*;

use crate::geometry::{saturated, Fraction, Size};

verus! {

/// Length of one update tick in a configuration that does not set one:
/// a thirtieth of a second, in nanoseconds.
pub const DEFAULT_UPDATE_DELTA_TIME: u64 = 33_333_333;

/// Longest time a single displayed frame may add to the simulation in a
/// configuration that does not set one: a quarter of a second, in nanoseconds.
pub const DEFAULT_MAX_FRAME_TIME: u64 = 250_000_000;

/// What 'upscale' shader algorithm to use for the sprite rotation.
///
/// Defaults to [`RotationAlgorithm::Scale3x`].
#[derive(Debug, Clone, Copy, PartialEq, Eq, Structural)]
pub enum RotationAlgorithm {
    /// 'Upscale' with the Scale3x algorithm.
    ///
    /// Rotated pixel-art looks good, at a noticeable cost per pixel.
    Scale3x,
    /// 'Upscale' with the Diag2x algorithm.
    ///
    /// Slightly less noisy than [`RotationAlgorithm::Scale2x`], at a slightly
    /// higher cost.
    Diag2x,
    /// 'Upscale' with nearest-neighbor sampling.
    ///
    /// Cheapest, but rotated pixel-art shows artifacts. Meant for games that
    /// never rotate, skew or stretch a sprite.
    NearestNeighbor,
    /// 'Upscale' with the Scale2x algorithm.
    ///
    /// Cheaper than [`RotationAlgorithm::Scale3x`] and visually noisy.
    Scale2x,
}

impl Default for RotationAlgorithm {
    fn default() -> (algorithm: Self)
        ensures
            algorithm == RotationAlgorithm::Scale3x,
    {
        RotationAlgorithm::Scale3x
    }
}

/// Initial game configuration, fixed for the lifetime of one run.
#[derive(Debug, Clone)]
pub struct GameConfig {
    /// Amount of pixels for the canvas.
    ///
    /// Defaults to `320` by `280`.
    pub buffer_size: Size,
    /// Factor applied to the buffer size for the requested window size.
    ///
    /// Only the window is scaled, coordinates on the buffer are not.
    ///
    /// Defaults to `1 / 1`.
    pub scaling: Fraction,
    /// Name in the title bar.
    ///
    /// Defaults to `"Pixel Game"`.
    pub title: String,
    /// Color of the viewport.
    ///
    /// The viewport is the area outside of the buffer when inside a bigger window.
    ///
    /// Defaults to `0xFF76428A` (purple).
    pub viewport_color: u32,
    /// Color of the background of the buffer.
    ///
    /// Defaults to `0xFF9BADB7` (gray).
    pub background_color: u32,
    /// Shader algorithm to use when rotating sprites.
    ///
    /// Defaults to [`RotationAlgorithm::Scale3x`].
    pub rotation_algorithm: RotationAlgorithm,
    /// Length of a single update tick in nanoseconds.
    ///
    /// Defaults to [`DEFAULT_UPDATE_DELTA_TIME`].
    pub update_delta_time: u64,
    /// Longest time in nanoseconds that one displayed frame may add to the
    /// simulation, however long the frame really took.
    ///
    /// Defaults to [`DEFAULT_MAX_FRAME_TIME`].
    pub max_frame_time: u64,
}

impl GameConfig {
    /// The configuration describes a game that can be run: an update tick
    /// takes time, and the window scaling is a fraction.
    pub open spec fn valid(&self) -> bool {
        &&& self.update_delta_time > 0
        &&& self.scaling.wf()
    }

    /// Whether the configuration describes a game that can be run.
    pub fn is_valid(&self) -> (valid: bool)
        ensures
            valid == self.valid(),
    {
        self.update_delta_time > 0 && self.scaling.denominator > 0
    }

    /// Logical size of the window to request: the buffer size with the
    /// scaling applied, each dimension rounded down and saturated.
    pub fn window_size(&self) -> (size: Size)
        requires
            self.scaling.wf(),
        ensures
            size.width == saturated(self.scaling.scaled(self.buffer_size.width)),
            size.height == saturated(self.scaling.scaled(self.buffer_size.height)),
    {
        Size {
            width: self.scaling.scale(self.buffer_size.width),
            height: self.scaling.scale(self.buffer_size.height),
        }
    }

    /// Smallest logical size the window may be resized to: the buffer itself,
    /// so that no pixel of the canvas is ever cut off.
    pub fn min_window_size(&self) -> (size: Size)
        ensures
            size == self.buffer_size,
    {
        self.buffer_size
    }
}

impl Default for GameConfig {
    fn default() -> (config: Self)
        ensures
            config.buffer_size == (Size { width: 320, height: 280 }),
            config.scaling == (Fraction { numerator: 1, denominator: 1 }),
            config.title@ == "Pixel Game"@,
            config.viewport_color == 0xFF76428A,
            config.background_color == 0xFF9BADB7,
            config.rotation_algorithm == RotationAlgorithm::Scale3x,
            config.update_delta_time == DEFAULT_UPDATE_DELTA_TIME,
            config.max_frame_time == DEFAULT_MAX_FRAME_TIME,
            config.valid(),
    {
        GameConfig {
            buffer_size: Size { width: 320, height: 280 },
            scaling: Fraction { numerator: 1, denominator: 1 },
            title: "Pixel Game".to_owned(),
            viewport_color: 0xFF76428A,
            background_color: 0xFF9BADB7,
            rotation_algorithm: RotationAlgorithm::Scale3x,
            update_delta_time: DEFAULT_UPDATE_DELTA_TIME,
            max_frame_time: DEFAULT_MAX_FRAME_TIME,
        }
    }
}

} // verus!
