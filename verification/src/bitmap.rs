//! 2D map of booleans.
//!
//! This is not an image.
//! Can be used for various effects such as masks for destructible terrain, pixel outlines etc.

use vstd::prelude::*;

use crate::geometry::Size;
use crate::sprite::{Sprite, SpriteOffset};

verus! {

/// Packed vector of bits: a `bitvec::vec::BitVec`.
///
/// The verifier does not look inside. It knows the vector by its bits,
/// [`bits_of`], and by what the functions below say they do to them.
#[verifier::external_body]
pub struct Bits {
    bits: bitvec::vec::BitVec,
}

/// The bits of a packed vector, in order.
pub uninterp spec fn bits_of(bits: Bits) -> Seq<bool>;

/// Calls `BitVec::repeat`. Trusted: the vector has `len` bits, all of them
/// `bit`. The call panics for more bits than a bit-vector can address, which
/// is an eighth of what `usize` can count.
#[verifier::external_body]
fn bits_repeat(bit: bool, len: usize) -> (bits: Bits)
    requires
        len <= usize::MAX / 8,
    ensures
        bits_of(bits).len() == len,
        forall|i: int| 0 <= i < len ==> bits_of(bits)[i] == bit,
{
    Bits { bits: bitvec::vec::BitVec::repeat(bit, len) }
}

/// Calls `BitSlice::set`. Trusted: the bit at `index` becomes `value` and every
/// other bit stays. The call panics for an index that is out of bounds.
#[verifier::external_body]
fn bits_set(bits: &mut Bits, index: usize, value: bool)
    requires
        index < bits_of(*old(bits)).len(),
    ensures
        bits_of(*final(bits)) == bits_of(*old(bits)).update(index as int, value),
    no_unwind
{
    bits.bits.set(index, value);
}

/// Indexes a `BitSlice`. Trusted: the result is the bit at `index`. The call
/// panics for an index that is out of bounds.
#[verifier::external_body]
fn bits_get(bits: &Bits, index: usize) -> (bit: bool)
    requires
        index < bits_of(*bits).len(),
    ensures
        bit == bits_of(*bits)[index as int],
{
    bits.bits[index]
}

/// Mathematical state of a [`BitMap`].
pub struct BitMapView {
    /// Amount of pixels in both dimensions.
    pub size: Size,
    /// Value of every pixel, row by row from the top.
    pub bits: Seq<bool>,
}

impl BitMapView {
    /// There is one value for every pixel, and no more pixels than a packed
    /// vector can hold.
    pub open spec fn wf(self) -> bool {
        &&& self.bits.len() == self.size.area()
        &&& self.size.area() <= usize::MAX / 8
    }

    /// Place of a pixel in the sequence of values.
    pub open spec fn index_of(self, position: (usize, usize)) -> int {
        position.0 + position.1 * self.size.width
    }

    /// Whether the map has a pixel at these coordinates.
    pub open spec fn contains(self, position: (usize, usize)) -> bool {
        position.0 < self.size.width && position.1 < self.size.height
    }

    /// The map after a pixel is set: a pixel inside the map takes the value,
    /// a pixel outside changes nothing.
    pub open spec fn set(self, position: (usize, usize), value: bool) -> BitMapView {
        if self.contains(position) {
            BitMapView { bits: self.bits.update(self.index_of(position), value), ..self }
        } else {
            self
        }
    }

    /// The pixels of the map as an image: a `true` value is drawn in `color`,
    /// a `false` value is left transparent.
    pub open spec fn colored(self, color: u32) -> Seq<u32> {
        Seq::new(
            self.bits.len(),
            |i: int|
                if self.bits[i] {
                    color
                } else {
                    0u32
                },
        )
    }
}

/// A pixel inside a map has its place among the values of the map.
pub proof fn lemma_index_in_bounds(map: BitMapView, position: (usize, usize))
    requires
        map.wf(),
        map.contains(position),
    ensures
        0 <= map.index_of(position) < map.bits.len(),
        0 <= position.1 * map.size.width <= map.index_of(position),
{
    let x = position.0 as int;
    let y = position.1 as int;
    let w = map.size.width as int;
    let h = map.size.height as int;
    assert(x + y * w < w * h) by (nonlinear_arith)
        requires
            0 <= x < w,
            0 <= y < h,
    ;
    assert(0 <= y * w) by (nonlinear_arith)
        requires
            0 <= y,
            0 <= w,
    ;
}

/// 2D map of boolean values.
///
/// Not an image!
/// Every 'pixel' is a simple `true`/`false` value.
pub struct BitMap {
    /// Amount of pixels in both dimensions.
    size: Size,
    /// All pixel values in a packed vector.
    map: Bits,
}

impl View for BitMap {
    type V = BitMapView;

    closed spec fn view(&self) -> BitMapView {
        BitMapView { size: self.size, bits: bits_of(self.map) }
    }
}

impl BitMap {
    #[verifier::type_invariant]
    spec fn inv(&self) -> bool {
        self@.wf()
    }

    /// Create a new empty map.
    ///
    /// # Arguments
    ///
    /// * `size` - Amount of pixels in both dimensions. A map cannot have more
    ///   pixels than an eighth of what `usize` can count.
    pub fn empty(size: Size) -> (map: Self)
        requires
            size.area() <= usize::MAX / 8,
        ensures
            map@.size == size,
            map@.bits == Seq::new(size.area(), |i: int| false),
            map@.wf(),
    {
        let area: usize = size.width * size.height;
        let map = BitMap { size, map: bits_repeat(false, area) };
        assert(map@.bits =~= Seq::new(size.area(), |i: int| false));
        map
    }

    /// Set a value at a coordinate.
    ///
    /// # Arguments
    ///
    /// * `position` - Coordinate inside the map to set, if outside nothing is done.
    /// * `value` - Boolean to set at the coordinate.
    pub fn set(&mut self, position: (usize, usize), value: bool)
        ensures
            final(self)@ == old(self)@.set(position, value),
            final(self)@.wf(),
    {
        proof {
            use_type_invariant(&*self);
        }
        if position.0 >= self.size.width || position.1 >= self.size.height {
            return ;
        }
        proof {
            lemma_index_in_bounds(self@, position);
        }
        let index: usize = position.0 + position.1 * self.size.width;
        self.set_at_index(index, value);
    }

    /// Convert the value to a image where every `true` value is replaced by the color.
    ///
    /// # Arguments
    ///
    /// * `color` - Draw every boolean `true` value as a colored pixel on the image.
    /// * `offset` - Pixel offset of where the sprite will be drawn.
    pub fn to_sprite(&self, color: u32, offset: SpriteOffset) -> (sprite: Sprite)
        ensures
            sprite@.size == self@.size,
            sprite@.pixels == self@.colored(color),
            sprite@.offset == offset,
    {
        proof {
            use_type_invariant(self);
        }
        let area: usize = self.size.width * self.size.height;
        // Convert each binary value to a pixel
        let mut pixels: Vec<u32> = Vec::new();
        for index in 0..area
            invariant
                area == bits_of(self.map).len(),
                pixels@ == self@.colored(color).take(index as int),
        {
            let pixel: u32 = if bits_get(&self.map, index) {
                color
            } else {
                0
            };
            pixels.push(pixel);
            assert(pixels@ =~= self@.colored(color).take(index + 1));
        }
        assert(pixels@ =~= self@.colored(color));
        // Create a sprite from it
        match Sprite::from_buffer(pixels.as_slice(), self.size, offset) {
            Some(sprite) => sprite,
            None => {
                assert(false);
                vstd::pervasive::unreached()
            },
        }
    }

    /// Width of the map.
    pub fn width(&self) -> (width: usize)
        ensures
            width == self@.size.width,
    {
        self.size.width
    }

    /// Height of the map.
    pub fn height(&self) -> (height: usize)
        ensures
            height == self@.size.height,
    {
        self.size.height
    }

    /// Size of the map.
    pub fn size(&self) -> (size: Size)
        ensures
            size == self@.size,
    {
        self.size
    }

    /// Set a pixel at index of the map.
    fn set_at_index(&mut self, index: usize, value: bool)
        requires
            index < old(self)@.bits.len(),
        ensures
            final(self)@ == (BitMapView {
                bits: old(self)@.bits.update(index as int, value),
                ..old(self)@
            }),
            final(self)@.wf(),
    {
        proof {
            use_type_invariant(&*self);
        }
        bits_set(&mut self.map, index, value);
    }
}

} // verus!
