//! Simple ASCII bitmap font.
//!
//! A font holds one sprite of the same size for each of the characters from
//! `!` to `~`, in the order of their codes. Laying out a text decides which
//! of them goes where. Drawing them is left to the caller.

use vstd::prelude::*;
use vstd::std_specs::iter::IteratorSpec;
use vstd::string::*;

use crate::geometry::{clamp, clamp_coordinate, Position, Size};
use crate::sprite::{Sprite, SpriteOffset, SpriteView};

verus! {

/// First character that a font has a glyph for.
pub const FIRST_CHAR: char = '!';

/// Last character that a font has a glyph for.
pub const LAST_CHAR: char = '~';

/// Number of character cells that a tab moves the cursor by.
pub const TAB_WIDTH: i64 = 4;

/// Size of the cell of a single character.
#[derive(Debug, Clone, Copy, PartialEq, Eq, Structural)]
pub struct CharSize {
    /// Number of pixel columns.
    pub width: u8,
    /// Number of pixel rows.
    pub height: u8,
}

/// One character of a laid out text.
#[derive(Debug, Clone, Copy, PartialEq, Eq, Structural)]
pub struct Glyph {
    /// Which glyph of the font: the code of the character, counted from the
    /// first character that the font has.
    pub index: u8,
    /// Top-left pixel of the character's cell.
    pub position: Position,
}

/// Whether a font has a glyph for the character.
pub open spec fn has_glyph(ch: char) -> bool {
    FIRST_CHAR as u32 <= ch as u32 <= LAST_CHAR as u32
}

/// Where the cursor rests before the first character of a line of the text
/// that starts at `start`: one cell left of it.
pub open spec fn line_start(start: Position, size: CharSize) -> int {
    clamp(start.x - size.width)
}

/// Cursor after the character `ch`, in a text that starts at `start`.
///
/// Every character moves the cursor one cell to the right first. A newline
/// then sends it to the start of the next line, and a tab moves it on to a
/// total of four cells.
pub open spec fn advance(cursor: Position, ch: char, start: Position, size: CharSize) -> Position {
    let x = clamp(cursor.x + size.width);
    if ch == '\n' {
        Position { x: line_start(start, size) as i32, y: clamp(cursor.y + size.height) as i32 }
    } else if ch == '\t' {
        Position { x: clamp(x + (TAB_WIDTH - 1) * size.width) as i32, y: cursor.y }
    } else {
        Position { x: x as i32, y: cursor.y }
    }
}

/// Cursor after all characters of `text`, which starts at `start`.
pub open spec fn cursor_after(text: Seq<char>, start: Position, size: CharSize) -> Position
    decreases text.len(),
{
    if text.len() == 0 {
        Position { x: line_start(start, size) as i32, y: start.y }
    } else {
        advance(cursor_after(text.drop_last(), start, size), text.last(), start, size)
    }
}

/// The glyphs of `text` laid out from `start`, in the order of the text.
///
/// A character that the font has a glyph for is placed where the cursor is
/// after it. Any other character only moves the cursor.
pub open spec fn layout(text: Seq<char>, start: Position, size: CharSize) -> Seq<Glyph>
    decreases text.len(),
{
    if text.len() == 0 {
        Seq::empty()
    } else {
        let before = layout(text.drop_last(), start, size);
        if has_glyph(text.last()) {
            before.push(
                Glyph {
                    index: (text.last() as u32 - FIRST_CHAR as u32) as u8,
                    position: cursor_after(text, start, size),
                },
            )
        } else {
            before
        }
    }
}

/// Where a text of `length` bytes starts that is centered around `center`:
/// half of its width to the left and half a cell up, each rounded down.
pub open spec fn centered_start(length: nat, center: Position, size: CharSize) -> Position {
    Position {
        x: clamp(center.x - (length * size.width) / 2) as i32,
        y: clamp(center.y - size.height / 2) as i32,
    }
}

/// Lay out `text` from `start` in cells of `size`.
///
/// The first character is placed at `start`, each further one a cell to the
/// right of the one before it. A newline starts a new line one cell below, a
/// tab leaves four cells free, and any other character without a glyph leaves
/// one cell free. Coordinates stop at the largest and smallest that exist.
pub fn layout_text(text: &str, start: Position, size: CharSize) -> (glyphs: Vec<Glyph>)
    ensures
        glyphs@ == layout(text@, start, size),
{
    let first: i32 = clamp_coordinate(start.x as i64 - size.width as i64);
    let mut cursor = Position { x: first, y: start.y };
    let mut glyphs: Vec<Glyph> = Vec::new();
    proof {
        axiom_spec_iter(text);
        assert(text@.take(0).len() == 0);
    }
    for ch in chars: text.chars()
        invariant
            chars.seq() == text@,
            first == line_start(start, size),
            cursor == cursor_after(text@.take(chars.index() as int), start, size),
            glyphs@ == layout(text@.take(chars.index() as int), start, size),
    {
        proof {
            let done = chars.index() as int;
            assert(ch == text@[done]);
            assert(text@.take(done + 1).drop_last() == text@.take(done));
            assert(text@.take(done + 1).last() == ch);
        }
        let x: i32 = clamp_coordinate(cursor.x as i64 + size.width as i64);
        if ch == '\n' {
            cursor = Position {
                x: first,
                y: clamp_coordinate(cursor.y as i64 + size.height as i64),
            };
        } else if ch == '\t' {
            cursor = Position {
                x: clamp_coordinate(x as i64 + (TAB_WIDTH - 1) * size.width as i64),
                y: cursor.y,
            };
        } else {
            cursor = Position { x, y: cursor.y };
        }
        if FIRST_CHAR as u32 <= ch as u32 && ch as u32 <= LAST_CHAR as u32 {
            glyphs.push(Glyph { index: (ch as u32 - FIRST_CHAR as u32) as u8, position: cursor });
        }
    }
    proof {
        assert(text@.take(text@.len() as int) == text@);
    }
    glyphs
}

/// Pixel font: a sprite for each character from `!` to `~`, all of one size.
#[derive(Debug)]
pub struct Font {
    /// Glyph of each character, in the order of the character codes.
    pub sprites: Vec<Sprite>,
    /// Size of a single character.
    pub char_size: CharSize,
}

/// Color of a pixel of the cell `glyph` in a sheet of glyphs of `size` next to
/// each other: the pixel in column `x` and row `y` of the cell.
pub open spec fn sheet_pixel(sheet: SpriteView, size: CharSize, glyph: int, x: int, y: int) -> u32 {
    sheet.pixels[y * sheet.size.width + glyph * size.width + x]
}

/// The pixels of the cell `glyph` in a sheet, row by row from the top.
pub open spec fn cell_pixels(sheet: SpriteView, size: CharSize, glyph: int) -> Seq<u32> {
    Seq::new(
        (size.width * size.height) as nat,
        |i: int| sheet_pixel(sheet, size, glyph, i % (size.width as int), i / (size.width as int)),
    )
}

/// Whether a sheet can be cut into cells of `size`: a cell has a width, and
/// it is not higher than the sheet.
pub open spec fn can_cut(sheet: SpriteView, size: CharSize) -> bool {
    size.width > 0 && size.height <= sheet.size.height
}

/// A place in a cell is a place in the sheet.
proof fn lemma_cell_in_sheet(sheet: SpriteView, size: CharSize, glyph: int, x: int, y: int)
    requires
        sheet.wf(),
        can_cut(sheet, size),
        0 <= glyph < sheet.size.width / (size.width as usize),
        0 <= x < size.width,
        0 <= y < size.height,
    ensures
        0 <= glyph * size.width + x < sheet.size.width,
        0 <= y * sheet.size.width,
        0 <= y * sheet.size.width + glyph * size.width + x < sheet.pixels.len(),
        0 <= glyph * size.width,
        0 <= y * size.width + x < size.width * size.height,
        (y * size.width + x) % (size.width as int) == x,
        (y * size.width + x) / (size.width as int) == y,
{
    let w = size.width as int;
    let h = size.height as int;
    let sw = sheet.size.width as int;
    let sh = sheet.size.height as int;
    let count = sw / w;
    assert(count * w <= sw) by (nonlinear_arith)
        requires
            count == sw / w,
            w > 0,
            sw >= 0,
    ;
    assert(0 <= glyph * w && glyph * w + x < count * w) by (nonlinear_arith)
        requires
            0 <= glyph < count,
            0 <= x < w,
    ;
    assert(0 <= y * sw && y * sw + sw <= sh * sw) by (nonlinear_arith)
        requires
            0 <= y < h,
            h <= sh,
            sw >= 0,
    ;
    assert(sheet.pixels.len() == sw * sh);
    assert(sh * sw == sw * sh) by (nonlinear_arith);
    assert(0 <= y * w + x < w * h) by (nonlinear_arith)
        requires
            0 <= y < h,
            0 <= x < w,
    ;
    vstd::arithmetic::div_mod::lemma_fundamental_div_mod_converse(y * w + x, w, y, x);
}

/// Alpha above which the pixels of a sheet with a mask color count as opaque.
pub const MASK_ALPHA_TRESHOLD: u8 = 127;

/// A color with its alpha channel, the highest byte, set to fully opaque.
pub open spec fn opaque(pixel: u32) -> u32 {
    pixel | 0xFF00_0000
}

/// What a pixel of an image with an alpha channel is drawn as: nothing if its
/// alpha is below the treshold, and fully opaque otherwise.
pub open spec fn alpha_masked(pixel: u32, alpha_treshold: u8) -> u32 {
    if pixel < (alpha_treshold as u32) << 24 {
        0
    } else {
        opaque(pixel)
    }
}

/// What a pixel of an image with a mask color is drawn as: nothing if it has
/// the mask color, whatever its alpha, and fully opaque otherwise.
pub open spec fn color_masked(pixel: u32, mask_color: u32) -> u32 {
    if opaque(pixel) == opaque(mask_color) {
        0
    } else {
        opaque(pixel)
    }
}

/// Calls `blit::BlitBuffer::from_buffer` and copies the pixels of the buffer
/// that it makes. Trusted: each pixel with an alpha below the treshold has
/// become transparent black, each other pixel fully opaque, all in their
/// places. The call divides by the width, which therefore is not zero.
#[verifier::external_body]
fn blit_pixels(pixels: &[u32], width: usize, alpha_treshold: u8) -> (masked: Vec<u32>)
    requires
        width > 0,
    ensures
        masked@.len() == pixels@.len(),
        forall|i: int|
            0 <= i < pixels@.len() ==> masked@[i] == alpha_masked(pixels@[i], alpha_treshold),
{
    blit::BlitBuffer::from_buffer(pixels, width, alpha_treshold).pixels().to_vec()
}

/// The pixels of an image as they are drawn with an alpha treshold.
fn mask_by_alpha(pixels: &[u32], width: usize, alpha_treshold: u8) -> (masked: Vec<u32>)
    ensures
        masked@ == pixels@.map_values(|pixel: u32| alpha_masked(pixel, alpha_treshold)),
{
    let masked = if width > 0 {
        blit_pixels(pixels, width, alpha_treshold)
    } else {
        let mut masked: Vec<u32> = Vec::new();
        let treshold: u32 = (alpha_treshold as u32) << 24;
        for i in 0..pixels.len()
            invariant
                treshold == (alpha_treshold as u32) << 24,
                masked@.len() == i,
                forall|done: int|
                    0 <= done < i ==> masked@[done] == alpha_masked(
                        pixels@[done],
                        alpha_treshold,
                    ),
        {
            let pixel: u32 = pixels[i];
            masked.push(
                if pixel < treshold {
                    0
                } else {
                    pixel | 0xFF00_0000
                },
            );
        }
        masked
    };
    assert(masked@ =~= pixels@.map_values(|pixel: u32| alpha_masked(pixel, alpha_treshold)));
    masked
}

/// The pixels of an image as they are drawn with a mask color.
fn mask_by_color(pixels: &[u32], width: usize, mask_color: u32) -> (masked: Vec<u32>)
    ensures
        masked@ == pixels@.map_values(|pixel: u32| color_masked(pixel, mask_color)),
{
    let mask: u32 = mask_color | 0xFF00_0000;
    let mut chosen: Vec<u32> = Vec::new();
    for i in 0..pixels.len()
        invariant
            mask == opaque(mask_color),
            chosen@.len() == i,
            forall|done: int|
                0 <= done < i ==> chosen@[done] == color_masked(pixels@[done], mask_color),
    {
        let pixel: u32 = pixels[i] | 0xFF00_0000;
        chosen.push(
            if pixel == mask {
                0
            } else {
                pixel
            },
        );
    }
    let masked = mask_by_alpha(chosen.as_slice(), width, MASK_ALPHA_TRESHOLD);
    proof {
        assert forall|i: int| 0 <= i < pixels@.len() implies masked@[i] == color_masked(
            pixels@[i],
            mask_color,
        ) by {
            let pixel = pixels@[i];
            assert(alpha_masked(0, 127) == 0) by (bit_vector);
            assert(alpha_masked(pixel | 0xFF00_0000, 127) == pixel | 0xFF00_0000) by {
                assert(!((pixel | 0xFF00_0000) < (127u32 << 24))) by (bit_vector);
                assert((pixel | 0xFF00_0000) | 0xFF00_0000 == pixel | 0xFF00_0000)
                    by (bit_vector);
            }
        }
        assert(masked@ =~= pixels@.map_values(|pixel: u32| color_masked(pixel, mask_color)));
    }
    masked
}

impl Font {
    /// Construct the font from a bitmap with an alpha channel.
    ///
    /// `buffer` holds the colors of a sheet of `size`, row by row from the
    /// top, that shows the glyphs next to each other. Pixels with an alpha
    /// below `alpha` are not drawn. There is no font unless the buffer holds
    /// a color for each pixel of the sheet and the sheet can be cut into
    /// cells of `char_size`.
    pub fn from_buffer_with_alpha(buffer: &[u32], size: Size, alpha: u8, char_size: CharSize) -> (font:
        Option<Self>)
        ensures
            font.is_some() == (buffer@.len() == size.area() && size.height >= char_size.height
                && char_size.width > 0),
            font.is_some() ==> font.unwrap().is_cut_from(
                SpriteView {
                    size,
                    pixels: buffer@.map_values(|pixel: u32| alpha_masked(pixel, alpha)),
                    offset: SpriteOffset::LeftTop,
                },
                char_size,
            ),
    {
        let pixels = mask_by_alpha(buffer, size.width, alpha);
        match Sprite::from_buffer(pixels.as_slice(), size, SpriteOffset::LeftTop) {
            Some(sheet) => Font::from_sheet(&sheet, char_size),
            None => None,
        }
    }

    /// Construct the font from a bitmap where a single color is the alpha mask.
    ///
    /// `buffer` holds the colors of a sheet of `size`, row by row from the
    /// top, that shows the glyphs next to each other. Pixels of the mask
    /// color are not drawn. There is no font unless the buffer holds a color
    /// for each pixel of the sheet and the sheet can be cut into cells of
    /// `char_size`.
    pub fn from_buffer_with_mask_color(
        buffer: &[u32],
        size: Size,
        mask_color: u32,
        char_size: CharSize,
    ) -> (font: Option<Self>)
        ensures
            font.is_some() == (buffer@.len() == size.area() && size.height >= char_size.height
                && char_size.width > 0),
            font.is_some() ==> font.unwrap().is_cut_from(
                SpriteView {
                    size,
                    pixels: buffer@.map_values(|pixel: u32| color_masked(pixel, mask_color)),
                    offset: SpriteOffset::LeftTop,
                },
                char_size,
            ),
    {
        let pixels = mask_by_color(buffer, size.width, mask_color);
        match Sprite::from_buffer(pixels.as_slice(), size, SpriteOffset::LeftTop) {
            Some(sheet) => Font::from_sheet(&sheet, char_size),
            None => None,
        }
    }

    /// The font has the character size `char_size`, and its glyphs are the
    /// cells of that size of the sheet, from the left.
    pub open spec fn is_cut_from(&self, sheet: SpriteView, char_size: CharSize) -> bool {
        &&& self.char_size == char_size
        &&& self.sprites@.len() == sheet.size.width / (char_size.width as usize)
        &&& forall|glyph: int|
            0 <= glyph < self.sprites@.len() ==> (#[trigger] self.sprites@[glyph])@ == (SpriteView {
                size: Size { width: char_size.width as usize, height: char_size.height as usize },
                pixels: cell_pixels(sheet, char_size, glyph),
                offset: SpriteOffset::LeftTop,
            })
    }

    /// Create a font from a sheet that shows its glyphs next to each other,
    /// in the order of the character codes.
    ///
    /// The sheet is cut from the left into cells of `char_size`, from its top
    /// row down. What is left over on the right and below belongs to no
    /// glyph. There is no font if a cell has no width or is higher than the
    /// sheet.
    pub fn from_sheet(sheet: &Sprite, char_size: CharSize) -> (font: Option<Self>)
        ensures
            font.is_some() == can_cut(sheet@, char_size),
            font.is_some() ==> font.unwrap().is_cut_from(sheet@, char_size),
    {
        let sheet_size = sheet.size();
        if char_size.width == 0 || char_size.height as usize > sheet_size.height {
            return None;
        }
        let pixels = sheet.pixels();
        let total: usize = pixels.len();
        let width: usize = char_size.width as usize;
        let height: usize = char_size.height as usize;
        let count: usize = sheet_size.width / width;
        let size = Size { width, height };
        let mut sprites: Vec<Sprite> = Vec::new();
        for glyph in 0..count
            invariant
                sheet@.wf(),
                can_cut(sheet@, char_size),
                pixels@ == sheet@.pixels,
                total == pixels@.len(),
                sheet_size == sheet@.size,
                width == char_size.width,
                height == char_size.height,
                count == sheet@.size.width / (char_size.width as usize),
                size == (Size { width, height }),
                sprites@.len() == glyph,
                forall|done: int|
                    0 <= done < glyph ==> (#[trigger] sprites@[done])@ == (SpriteView {
                        size,
                        pixels: cell_pixels(sheet@, char_size, done),
                        offset: SpriteOffset::LeftTop,
                    }),
        {
            let mut cell: Vec<u32> = Vec::new();
            proof {
                assert(0 * width == 0) by (nonlinear_arith);
                assert(0 <= width * height) by (nonlinear_arith);
            }
            for y in 0..height
                invariant
                    cell@.len() <= width * height,
                    sheet@.wf(),
                    can_cut(sheet@, char_size),
                    pixels@ == sheet@.pixels,
                    total == pixels@.len(),
                    sheet_size == sheet@.size,
                    width == char_size.width,
                    height == char_size.height,
                    0 <= glyph < count,
                    count == sheet@.size.width / (char_size.width as usize),
                    cell@.len() == y * width,
                    forall|i: int|
                        0 <= i < cell@.len() ==> cell@[i] == cell_pixels(
                            sheet@,
                            char_size,
                            glyph as int,
                        )[i],
            {
                let ghost row = cell@;
                for x in 0..width
                    invariant
                        cell@.len() <= width * height,
                        sheet@.wf(),
                        can_cut(sheet@, char_size),
                        pixels@ == sheet@.pixels,
                        total == pixels@.len(),
                        sheet_size == sheet@.size,
                        width == char_size.width,
                        height == char_size.height,
                        0 <= glyph < count,
                        0 <= y < height,
                        count == sheet@.size.width / (char_size.width as usize),
                        row.len() == y * width,
                        cell@.len() == y * width + x,
                        forall|i: int|
                            0 <= i < cell@.len() ==> cell@[i] == cell_pixels(
                                sheet@,
                                char_size,
                                glyph as int,
                            )[i],
                {
                    proof {
                        lemma_cell_in_sheet(
                            sheet@,
                            char_size,
                            glyph as int,
                            x as int,
                            y as int,
                        );
                    }
                    let column: usize = glyph * width + x;
                    let line: usize = y * sheet_size.width;
                    let pixel: u32 = pixels[line + column];
                    cell.push(pixel);
                    proof {
                        let next = (y * width + x + 1) as int;
                        assert(next <= width * height);
                    }
                }
                proof {
                    assert(y * width + width == (y + 1) * width) by (nonlinear_arith);
                }
            }
            proof {
                assert(size.area() == width * height);
                assert(height * width == width * height) by (nonlinear_arith);
                assert(cell@ =~= cell_pixels(sheet@, char_size, glyph as int));
            }
            match Sprite::from_buffer(cell.as_slice(), size, SpriteOffset::LeftTop) {
                Some(sprite) => {
                    sprites.push(sprite);
                },
                None => {
                    assert(false);
                },
            }
        }
        Some(Font { sprites, char_size })
    }

    /// Create a font from the sprites of its characters.
    pub fn new(sprites: Vec<Sprite>, char_size: CharSize) -> (font: Self)
        ensures
            font.sprites == sprites,
            font.char_size == char_size,
    {
        Font { sprites, char_size }
    }

    /// Lay out ASCII text with its top-left corner at `position`.
    pub fn render(&self, text: &str, position: Position) -> (glyphs: Vec<Glyph>)
        ensures
            glyphs@ == layout(text@, position, self.char_size),
    {
        layout_text(text, position, self.char_size)
    }

    /// Lay out ASCII text centered around `position`.
    ///
    /// The text counts as one line, as wide as it has bytes.
    pub fn render_centered(&self, text: &str, position: Position) -> (glyphs: Vec<Glyph>)
        ensures
            glyphs@ == layout(
                text@,
                centered_start(text.spec_bytes().len(), position, self.char_size),
                self.char_size,
            ),
    {
        let length: usize = text.as_bytes().len();
        assert(length * self.char_size.width <= u128::MAX) by (nonlinear_arith)
            requires
                length <= u64::MAX,
                self.char_size.width <= u8::MAX,
        ;
        let half_width: u128 = (length as u128 * self.char_size.width as u128) / 2;
        assert(half_width == (text.spec_bytes().len() * self.char_size.width) / 2);
        let x: i32 = if half_width > u32::MAX as u128 {
            i32::MIN
        } else {
            clamp_coordinate(position.x as i64 - half_width as i64)
        };
        let y: i32 = clamp_coordinate(position.y as i64 - (self.char_size.height / 2) as i64);
        assert(Position { x, y } == centered_start(
            text.spec_bytes().len(),
            position,
            self.char_size,
        ));
        layout_text(text, Position { x, y }, self.char_size)
    }
}

} // verus!
