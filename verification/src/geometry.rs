//! Plain integer geometry shared by the rest of the library.
//!
//! Everything on the pixel buffer is measured in whole pixels. Quantities that
//! are not whole numbers, such as the interpolation factor of a render tick,
//! are exact fractions of two integers.

use vstd::prelude::*;

verus! {

/// Width and height of a rectangular area in pixels.
#[derive(Debug, Clone, Copy, PartialEq, Eq, Structural)]
pub struct Size {
    /// Number of pixel columns.
    pub width: usize,
    /// Number of pixel rows.
    pub height: usize,
}

impl Size {
    /// Create a size from its two dimensions.
    pub fn new(width: usize, height: usize) -> (size: Self)
        ensures
            size.width == width,
            size.height == height,
    {
        Size { width, height }
    }

    /// Number of pixels covered by an area of this size.
    pub open spec fn area(self) -> nat {
        (self.width * self.height) as nat
    }

    /// Number of pixels covered by an area of this size, when that number is
    /// representable.
    pub fn checked_area(&self) -> (area: Option<usize>)
        ensures
            area == (if self.area() <= usize::MAX {
                Some(self.area() as usize)
            } else {
                None
            }),
    {
        self.width.checked_mul(self.height)
    }
}

/// Coordinate of a pixel, relative to the top-left corner of the buffer.
///
/// Coordinates left of or above the buffer are negative.
#[derive(Debug, Clone, Copy, PartialEq, Eq, Structural)]
pub struct Position {
    /// Horizontal coordinate, growing to the right.
    pub x: i32,
    /// Vertical coordinate, growing downwards.
    pub y: i32,
}

impl Position {
    /// Create a position from its two coordinates.
    pub fn new(x: i32, y: i32) -> (position: Self)
        ensures
            position.x == x,
            position.y == y,
    {
        Position { x, y }
    }

    /// The top-left corner.
    pub fn zero() -> (position: Self)
        ensures
            position.x == 0,
            position.y == 0,
    {
        Position { x: 0, y: 0 }
    }

    /// This position moved by `offset`, each coordinate cut off at the limits
    /// of the coordinates that exist.
    pub open spec fn translated(self, offset: Position) -> Position {
        Position { x: clamp(self.x + offset.x) as i32, y: clamp(self.y + offset.y) as i32 }
    }

    /// Move the position by `offset`. Coordinates stop at the largest and
    /// smallest that exist.
    pub fn translate(self, offset: Position) -> (moved: Position)
        ensures
            moved == self.translated(offset),
    {
        Position {
            x: clamp_coordinate(self.x as i64 + offset.x as i64),
            y: clamp_coordinate(self.y as i64 + offset.y as i64),
        }
    }
}

/// A coordinate, cut off at the limits of the coordinates that exist.
pub open spec fn clamp(coordinate: int) -> int {
    if coordinate < i32::MIN {
        i32::MIN as int
    } else if coordinate > i32::MAX {
        i32::MAX as int
    } else {
        coordinate
    }
}

/// Cut a coordinate off at the limits of the coordinates that exist.
pub fn clamp_coordinate(coordinate: i64) -> (clamped: i32)
    ensures
        clamped == clamp(coordinate as int),
{
    if coordinate < i32::MIN as i64 {
        i32::MIN
    } else if coordinate > i32::MAX as i64 {
        i32::MAX
    } else {
        coordinate as i32
    }
}

/// Axis-aligned rectangle of pixels inside a texture.
#[derive(Debug, Clone, Copy, PartialEq, Eq, Structural)]
pub struct Region {
    /// Leftmost column.
    pub x: usize,
    /// Topmost row.
    pub y: usize,
    /// Number of columns.
    pub width: usize,
    /// Number of rows.
    pub height: usize,
}

impl Region {
    /// Create a region from its top-left corner and its size.
    pub fn new(x: usize, y: usize, width: usize, height: usize) -> (region: Self)
        ensures
            region.x == x,
            region.y == y,
            region.width == width,
            region.height == height,
    {
        Region { x, y, width, height }
    }
}

/// A non-negative length, cut off at the largest representable one.
pub open spec fn saturated(length: int) -> int {
    if length <= usize::MAX {
        length
    } else {
        usize::MAX as int
    }
}

/// Exact non-negative fraction `numerator / denominator`.
#[derive(Debug, Clone, Copy, PartialEq, Eq, Structural)]
pub struct Fraction {
    /// Dividend.
    pub numerator: u64,
    /// Divisor, not zero in a well-formed fraction.
    pub denominator: u64,
}

impl Fraction {
    /// The divisor is not zero.
    pub open spec fn wf(self) -> bool {
        self.denominator > 0
    }

    /// The fraction lies in the half-open interval from zero to one.
    pub open spec fn is_proper(self) -> bool {
        self.numerator < self.denominator
    }

    /// The fraction `1 / 1`.
    pub fn one() -> (fraction: Self)
        ensures
            fraction.numerator == 1,
            fraction.denominator == 1,
    {
        Fraction { numerator: 1, denominator: 1 }
    }

    /// `length` multiplied by this fraction, rounded down.
    pub open spec fn scaled(self, length: usize) -> int {
        (length * self.numerator) / (self.denominator as int)
    }

    /// Multiply a length by this fraction, rounding down, and saturate at the
    /// largest representable length.
    pub fn scale(&self, length: usize) -> (scaled: usize)
        requires
            self.wf(),
        ensures
            scaled == saturated(self.scaled(length)),
    {
        assert(length * self.numerator <= u128::MAX) by (nonlinear_arith)
            requires
                length <= u64::MAX,
                self.numerator <= u64::MAX,
        ;
        let product: u128 = (length as u128) * (self.numerator as u128);
        let quotient: u128 = product / (self.denominator as u128);
        if quotient > usize::MAX as u128 {
            usize::MAX
        } else {
            quotient as usize
        }
    }
}

} // verus!
