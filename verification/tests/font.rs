use pixel_game_lib::font::{layout_text, CharSize, Font, Glyph};
use pixel_game_lib::geometry::{Position, Size};
use pixel_game_lib::sprite::{Sprite, SpriteOffset};

const SIZE: CharSize = CharSize { width: 10, height: 12 };

fn glyph(ch: char, x: i32, y: i32) -> Glyph {
    Glyph { index: ch as u8 - b'!', position: Position::new(x, y) }
}

#[test]
fn empty_text_has_no_glyphs() {
    assert_eq!(layout_text("", Position::new(5, 5), SIZE), vec![]);
}

#[test]
fn characters_follow_each_other_to_the_right() {
    let glyphs = layout_text("Hi!", Position::new(5, 7), SIZE);
    assert_eq!(glyphs, vec![glyph('H', 5, 7), glyph('i', 15, 7), glyph('!', 25, 7)]);
    assert_eq!(glyphs[2].index, 0);
    assert_eq!(glyphs[0].index, 39);
}

#[test]
fn space_leaves_one_cell_free() {
    let glyphs = layout_text("a b", Position::new(0, 0), SIZE);
    assert_eq!(glyphs, vec![glyph('a', 0, 0), glyph('b', 20, 0)]);
}

#[test]
fn tab_leaves_four_cells_free() {
    let glyphs = layout_text("a\tb", Position::new(0, 0), SIZE);
    assert_eq!(glyphs, vec![glyph('a', 0, 0), glyph('b', 50, 0)]);
}

#[test]
fn newline_starts_the_next_line() {
    let glyphs = layout_text("ab\ncd\n\ne", Position::new(3, 4), SIZE);
    assert_eq!(
        glyphs,
        vec![
            glyph('a', 3, 4),
            glyph('b', 13, 4),
            glyph('c', 3, 16),
            glyph('d', 13, 16),
            glyph('e', 3, 40),
        ]
    );
}

#[test]
fn first_and_last_character_have_glyphs() {
    let glyphs = layout_text("!~", Position::new(0, 0), SIZE);
    assert_eq!(glyphs[0].index, 0);
    assert_eq!(glyphs[1].index, 93);
}

#[test]
fn characters_outside_the_font_only_move_the_cursor() {
    let glyphs = layout_text("a\u{7f}é\u{1f}b", Position::new(0, 0), SIZE);
    assert_eq!(glyphs, vec![glyph('a', 0, 0), glyph('b', 40, 0)]);
}

#[test]
fn negative_positions() {
    let glyphs = layout_text("ab", Position::new(-25, -3), SIZE);
    assert_eq!(glyphs, vec![glyph('a', -25, -3), glyph('b', -15, -3)]);
}

#[test]
fn coordinates_stop_at_the_limits() {
    let glyphs = layout_text("ab\nc", Position::new(i32::MAX - 5, i32::MAX - 5), SIZE);
    assert_eq!(
        glyphs,
        vec![
            glyph('a', i32::MAX - 5, i32::MAX - 5),
            glyph('b', i32::MAX, i32::MAX - 5),
            glyph('c', i32::MAX - 5, i32::MAX),
        ]
    );
}

#[test]
fn font_render_uses_its_character_size() {
    let font = Font::new(Vec::new(), CharSize { width: 4, height: 6 });
    assert_eq!(
        font.render("ab\nc", Position::new(1, 1)),
        vec![glyph('a', 1, 1), glyph('b', 5, 1), glyph('c', 1, 7)]
    );
    assert_eq!(font.char_size, CharSize { width: 4, height: 6 });
    assert!(font.sprites.is_empty());
}

#[test]
fn centered_text_starts_half_its_size_back() {
    let font = Font::new(Vec::new(), SIZE);
    // Three characters are 30 wide and 12 high
    assert_eq!(
        font.render_centered("abc", Position::new(100, 50)),
        vec![glyph('a', 85, 44), glyph('b', 95, 44), glyph('c', 105, 44)]
    );
    // Halves are rounded down
    let odd = Font::new(Vec::new(), CharSize { width: 5, height: 7 });
    assert_eq!(odd.render_centered("a", Position::new(10, 10)), vec![glyph('a', 8, 7)]);
}

#[test]
fn centered_text_counts_bytes() {
    let font = Font::new(Vec::new(), SIZE);
    // Two bytes for the one character that the font has no glyph for
    assert_eq!(font.render_centered("éa", Position::new(100, 50)), vec![glyph('a', 95, 44)]);
}

#[test]
fn sheet_is_cut_into_glyphs() {
    // Two rows of seven pixels: three cells of two by two, and one column left over
    let pixels = [
        1, 2, 3, 4, 5, 6, 7, //
        8, 9, 10, 11, 12, 13, 14, //
        15, 16, 17, 18, 19, 20, 21,
    ];
    let sheet = Sprite::from_buffer(&pixels, Size::new(7, 3), SpriteOffset::Middle).unwrap();
    let font = Font::from_sheet(&sheet, CharSize { width: 2, height: 2 }).unwrap();
    assert_eq!(font.char_size, CharSize { width: 2, height: 2 });
    assert_eq!(font.sprites.len(), 3);
    assert_eq!(font.sprites[0].pixels(), &[1, 2, 8, 9]);
    assert_eq!(font.sprites[1].pixels(), &[3, 4, 10, 11]);
    assert_eq!(font.sprites[2].pixels(), &[5, 6, 12, 13]);
    for glyph in &font.sprites {
        assert_eq!(glyph.size(), Size::new(2, 2));
        assert_eq!(glyph.offset(), SpriteOffset::LeftTop);
    }
}

#[test]
fn sheet_that_cannot_be_cut() {
    let sheet = Sprite::from_buffer(&[0; 6], Size::new(3, 2), SpriteOffset::LeftTop).unwrap();
    assert!(Font::from_sheet(&sheet, CharSize { width: 0, height: 1 }).is_none());
    assert!(Font::from_sheet(&sheet, CharSize { width: 1, height: 3 }).is_none());
    // Cells wider than the sheet leave no glyph
    let font = Font::from_sheet(&sheet, CharSize { width: 4, height: 2 }).unwrap();
    assert!(font.sprites.is_empty());
    // Cells without height are empty glyphs
    let font = Font::from_sheet(&sheet, CharSize { width: 1, height: 0 }).unwrap();
    assert_eq!(font.sprites.len(), 3);
    assert!(font.sprites[0].pixels().is_empty());
}

#[test]
fn font_from_buffer_with_alpha() {
    // A sheet of four by one pixels: two glyphs of two by one
    let buffer = [0x7F12_3456, 0x8012_3456, 0x0000_00FF, 0xFF00_0000];
    let font =
        Font::from_buffer_with_alpha(&buffer, Size::new(4, 1), 0x80, CharSize { width: 2, height: 1 })
            .unwrap();
    assert_eq!(font.char_size, CharSize { width: 2, height: 1 });
    assert_eq!(font.sprites.len(), 2);
    // Below the treshold nothing is left, at the treshold the pixel is opaque
    assert_eq!(font.sprites[0].pixels(), &[0, 0xFF12_3456]);
    assert_eq!(font.sprites[1].pixels(), &[0, 0xFF00_0000]);
    // With a treshold of zero every pixel is drawn
    let font =
        Font::from_buffer_with_alpha(&buffer, Size::new(4, 1), 0, CharSize { width: 4, height: 1 })
            .unwrap();
    assert_eq!(font.sprites[0].pixels(), &[0xFF12_3456, 0xFF12_3456, 0xFF00_00FF, 0xFF00_0000]);
}

#[test]
fn font_from_buffer_with_mask_color() {
    let buffer = [0x00FF_00FF, 0xFFFF_00FF, 0x0012_3456, 0x8000_0000];
    let font = Font::from_buffer_with_mask_color(
        &buffer,
        Size::new(2, 2),
        0x00FF_00FF,
        CharSize { width: 1, height: 2 },
    )
    .unwrap();
    assert_eq!(font.sprites.len(), 2);
    // The mask color is left out whatever its alpha, every other color is opaque
    assert_eq!(font.sprites[0].pixels(), &[0, 0xFF12_3456]);
    assert_eq!(font.sprites[1].pixels(), &[0, 0xFF00_0000]);
}

#[test]
fn font_from_buffer_that_does_not_fit() {
    let size = CharSize { width: 1, height: 1 };
    assert!(Font::from_buffer_with_alpha(&[1, 2, 3], Size::new(2, 2), 0, size).is_none());
    assert!(Font::from_buffer_with_mask_color(&[1, 2, 3], Size::new(2, 2), 0, size).is_none());
    assert!(Font::from_buffer_with_alpha(&[1, 2], Size::new(2, 1), 0, CharSize {
        width: 0,
        height: 1
    })
    .is_none());
    assert!(Font::from_buffer_with_mask_color(&[1, 2], Size::new(2, 1), 0, CharSize {
        width: 1,
        height: 2
    })
    .is_none());
    // A sheet without pixels is a font without glyphs
    let font = Font::from_buffer_with_alpha(&[], Size::new(0, 3), 9, size).unwrap();
    assert!(font.sprites.is_empty());
    let font = Font::from_buffer_with_mask_color(&[], Size::new(0, 3), 9, size).unwrap();
    assert!(font.sprites.is_empty());
}
