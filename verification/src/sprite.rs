//! Images that can be drawn on the buffer.

use vstd::prelude::*;
use vstd::slice::slice_to_vec;

use crate::geometry::{Position, Size};

verus! {

/// Which point of a sprite lies on the position that it is drawn at.
#[derive(Debug, Clone, Copy, PartialEq, Eq, Structural)]
pub enum SpriteOffset {
    /// The middle of the sprite.
    Middle,
    /// The middle of the top edge.
    MiddleTop,
    /// The top-left corner.
    LeftTop,
    /// The pixel of the sprite at these coordinates.
    Custom(Position),
}

/// Mathematical state of a [`Sprite`].
pub struct SpriteView {
    /// Dimensions in pixels.
    pub size: Size,
    /// Color of every pixel, row by row from the top.
    pub pixels: Seq<u32>,
    /// Point that lies on the drawing position.
    pub offset: SpriteOffset,
}

impl SpriteView {
    /// There is one color for every pixel.
    pub open spec fn wf(self) -> bool {
        self.pixels.len() == self.size.area()
    }
}

/// Image made of pixels of 32 bits each, with the alpha channel in the
/// highest byte.
#[derive(Debug)]
pub struct Sprite {
    /// Dimensions in pixels.
    size: Size,
    /// Color of every pixel, row by row from the top.
    pixels: Vec<u32>,
    /// Point that lies on the drawing position.
    offset: SpriteOffset,
}

impl View for Sprite {
    type V = SpriteView;

    closed spec fn view(&self) -> SpriteView {
        SpriteView { size: self.size, pixels: self.pixels@, offset: self.offset }
    }
}

impl Sprite {
    #[verifier::type_invariant]
    spec fn inv(&self) -> bool {
        self@.wf()
    }

    /// Create a sprite from a buffer of colors, row by row from the top.
    ///
    /// There is no sprite unless the buffer holds exactly one color for each
    /// pixel of `size`.
    pub fn from_buffer(pixels: &[u32], size: Size, offset: SpriteOffset) -> (sprite: Option<Self>)
        ensures
            sprite.is_some() == (pixels@.len() == size.area()),
            sprite.is_some() ==> sprite.unwrap()@ == (SpriteView { size, pixels: pixels@, offset }),
    {
        let len: usize = pixels.len();
        match size.checked_area() {
            Some(area) => {
                if len == area {
                    Some(Sprite { size, pixels: slice_to_vec(pixels), offset })
                } else {
                    None
                }
            },
            None => None,
        }
    }

    /// Dimensions in pixels.
    pub fn size(&self) -> (size: Size)
        ensures
            size == self@.size,
    {
        self.size
    }

    /// Number of pixel columns.
    pub fn width(&self) -> (width: usize)
        ensures
            width == self@.size.width,
    {
        self.size.width
    }

    /// Number of pixel rows.
    pub fn height(&self) -> (height: usize)
        ensures
            height == self@.size.height,
    {
        self.size.height
    }

    /// Point that lies on the drawing position.
    pub fn offset(&self) -> (offset: SpriteOffset)
        ensures
            offset == self@.offset,
    {
        self.offset
    }

    /// Color of every pixel, row by row from the top.
    pub fn pixels(&self) -> (pixels: &[u32])
        ensures
            pixels@ == self@.pixels,
            pixels@.len() == self@.size.area(),
    {
        proof {
            use_type_invariant(self);
        }
        self.pixels.as_slice()
    }
}

} // verus!
