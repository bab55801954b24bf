use pixel_game_lib::bitmap::BitMap;
use pixel_game_lib::geometry::{Position, Size};
use pixel_game_lib::sprite::{Sprite, SpriteOffset};

#[test]
fn empty_map_is_all_false() {
    let map = BitMap::empty(Size::new(3, 2));
    assert_eq!(map.width(), 3);
    assert_eq!(map.height(), 2);
    assert_eq!(map.size(), Size::new(3, 2));
    let sprite = map.to_sprite(0xFFFF0000, SpriteOffset::LeftTop);
    assert_eq!(sprite.pixels(), &[0; 6]);
}

#[test]
fn map_without_pixels() {
    let mut map = BitMap::empty(Size::new(0, 5));
    map.set((0, 0), true);
    let sprite = map.to_sprite(1, SpriteOffset::Middle);
    assert_eq!(sprite.size(), Size::new(0, 5));
    assert!(sprite.pixels().is_empty());
}

#[test]
fn set_pixels_are_colored_row_by_row() {
    let mut map = BitMap::empty(Size::new(3, 2));
    map.set((1, 0), true);
    map.set((2, 1), true);
    map.set((0, 1), true);
    map.set((0, 1), false);
    let color = 0xFF00FF00;
    let sprite = map.to_sprite(color, SpriteOffset::MiddleTop);
    assert_eq!(sprite.pixels(), &[0, color, 0, 0, 0, color]);
    assert_eq!(sprite.size(), Size::new(3, 2));
    assert_eq!(sprite.width(), 3);
    assert_eq!(sprite.height(), 2);
    assert_eq!(sprite.offset(), SpriteOffset::MiddleTop);
}

#[test]
fn set_outside_the_map_does_nothing() {
    let mut map = BitMap::empty(Size::new(3, 2));
    map.set((3, 0), true);
    map.set((0, 2), true);
    map.set((usize::MAX, usize::MAX), true);
    // One past the end of the first row is not the start of the second
    let sprite = map.to_sprite(7, SpriteOffset::Custom(Position::new(1, 1)));
    assert_eq!(sprite.pixels(), &[0; 6]);
    assert_eq!(sprite.offset(), SpriteOffset::Custom(Position::new(1, 1)));
}

#[test]
fn sprite_from_buffer_needs_a_color_for_each_pixel() {
    let pixels = [1, 2, 3, 4, 5, 6];
    let sprite = Sprite::from_buffer(&pixels, Size::new(2, 3), SpriteOffset::LeftTop).unwrap();
    assert_eq!(sprite.pixels(), &pixels);
    assert_eq!(sprite.size(), Size::new(2, 3));
    assert!(Sprite::from_buffer(&pixels, Size::new(2, 2), SpriteOffset::LeftTop).is_none());
    assert!(Sprite::from_buffer(&pixels, Size::new(7, 1), SpriteOffset::LeftTop).is_none());
    assert!(Sprite::from_buffer(&pixels, Size::new(usize::MAX, 2), SpriteOffset::LeftTop).is_none());
    assert!(Sprite::from_buffer(&[], Size::new(0, 9), SpriteOffset::LeftTop).is_some());
}
