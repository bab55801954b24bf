use pixel_game_lib::config::GameConfig;
use pixel_game_lib::context::{Context, Instance, Texture};
use pixel_game_lib::font::{CharSize, Font};
use pixel_game_lib::geometry::{Fraction, Position, Region, Size};
use pixel_game_lib::input::{InputEvent, KeyCode, MouseButton};
use pixel_game_lib::sprite::{Sprite, SpriteOffset};
use pixel_game_lib::timestep::{Tick, Timestep};

fn sprite(color: u32) -> Sprite {
    Sprite::from_buffer(&[color; 4], Size::new(2, 2), SpriteOffset::LeftTop).unwrap()
}

fn load_sprite(color: u32) -> impl FnOnce(&str) -> Result<Sprite, String> {
    move |_: &str| Ok(sprite(color))
}

fn fail_sprite(path: &str) -> Result<Sprite, String> {
    Err(format!("missing {}", path))
}

fn font(width: u8, height: u8, glyphs: &[u32]) -> Font {
    Font::new(glyphs.iter().map(|color| sprite(*color)).collect(), CharSize { width, height })
}

#[test]
fn new_context() {
    let mut config = GameConfig::default();
    config.update_delta_time = 20_000_000;
    config.buffer_size = Size::new(64, 48);
    let ctx = Context::new(&config);
    assert!(!ctx.should_exit());
    assert_eq!(ctx.mouse(), None);
    assert_eq!(ctx.cursor(), None);
    assert!(ctx.instances().is_empty());
    assert_eq!(ctx.delta_time(), 20_000_000);
    assert_eq!(ctx.frames_per_second(), 0);
    assert_eq!(ctx.blending_factor(), Fraction { numerator: 0, denominator: 1 });
    assert_eq!(ctx.size(), Size::new(64, 48));
    assert!(ctx.loaded_sprite("player").is_none());
    assert!(ctx.loaded_font("font").is_none());
    assert!(!ctx.key_held(KeyCode(1)));
}

#[test]
fn exit_is_requested_by_the_game() {
    let mut ctx = Context::new(&GameConfig::default());
    ctx.exit();
    assert!(ctx.should_exit());
}

#[test]
fn exit_is_requested_by_the_platform() {
    let mut ctx = Context::new(&GameConfig::default());
    ctx.handle_event(InputEvent::CloseRequested);
    assert!(ctx.should_exit());
    ctx.step_input();
    assert!(!ctx.should_exit());
    ctx.handle_event(InputEvent::Destroyed);
    ctx.step_input();
    assert!(ctx.should_exit());
}

#[test]
fn input_is_seen_through_the_context() {
    let mut ctx = Context::new(&GameConfig::default());
    let key = KeyCode(30);
    ctx.handle_event(InputEvent::KeyDown(key));
    ctx.handle_event(InputEvent::MouseDown(MouseButton::Left));
    ctx.handle_event(InputEvent::CursorMoved(Position::new(8, 9)));
    assert!(ctx.key_pressed(key));
    assert!(ctx.key_held(key));
    assert!(!ctx.key_released(key));
    assert!(ctx.mouse_pressed(MouseButton::Left));
    assert!(ctx.mouse_held(MouseButton::Left));
    assert!(!ctx.mouse_released(MouseButton::Left));
    assert_eq!(ctx.cursor(), Some(Position::new(8, 9)));
    ctx.handle_event(InputEvent::KeyUp(key));
    ctx.handle_event(InputEvent::MouseUp(MouseButton::Left));
    assert!(ctx.key_pressed(key) && ctx.key_released(key) && !ctx.key_held(key));
    assert!(ctx.mouse_released(MouseButton::Left) && !ctx.mouse_held(MouseButton::Left));
    ctx.step_input();
    assert!(!ctx.key_pressed(key) && !ctx.key_released(key));
    assert!(!ctx.mouse_pressed(MouseButton::Left) && !ctx.mouse_released(MouseButton::Left));
}

/// Map a cursor on a window that shows the buffer twice as large.
fn halve(cursor: Position) -> Option<Position> {
    if cursor.x < 0 || cursor.y < 0 || cursor.x >= 640 || cursor.y >= 560 {
        None
    } else {
        Some(Position::new(cursor.x / 2, cursor.y / 2))
    }
}

#[test]
fn mouse_is_where_the_cursor_maps_to() {
    let mut ctx = Context::new(&GameConfig::default());
    // No cursor was seen yet: the map is not asked
    ctx.update_mouse(|_: Position| -> Option<Position> { Some(Position::new(1, 1)) });
    assert_eq!(ctx.mouse(), None);
    ctx.handle_event(InputEvent::CursorMoved(Position::new(101, 40)));
    ctx.update_mouse(halve);
    assert_eq!(ctx.mouse(), Some(Position::new(50, 20)));
    // The cursor stays where it is over the next poll cycle
    ctx.step_input();
    ctx.update_mouse(halve);
    assert_eq!(ctx.mouse(), Some(Position::new(50, 20)));
    // Outside the buffer there is no mouse position
    ctx.handle_event(InputEvent::CursorMoved(Position::new(640, 40)));
    ctx.update_mouse(halve);
    assert_eq!(ctx.mouse(), None);
    assert_eq!(ctx.cursor(), Some(Position::new(640, 40)));
}

#[test]
fn size_is_set_by_the_driver() {
    let mut ctx = Context::new(&GameConfig::default());
    ctx.resize(Size::new(640, 560));
    assert_eq!(ctx.size(), Size::new(640, 560));
}

#[test]
fn sprite_is_loaded_once() {
    let mut ctx = Context::new(&GameConfig::default());
    let mut loads = 0;
    let first = ctx.load_sprite_if_not_loaded("player", |_: &str| -> Result<Sprite, String> {
        loads += 1;
        Ok(sprite(1))
    });
    let second = ctx.load_sprite_if_not_loaded("player", |_: &str| -> Result<Sprite, String> {
        loads += 1;
        Ok(sprite(2))
    });
    assert_eq!(first, Ok(0));
    assert_eq!(second, Ok(0));
    assert_eq!(loads, 1);
    assert_eq!(ctx.loaded_sprite("player").unwrap().pixels(), &[1; 4]);
    assert!(std::ptr::eq(ctx.loaded_sprite("player").unwrap(), ctx.sprite_at(0)));
}

#[test]
fn font_is_loaded_once() {
    let mut ctx = Context::new(&GameConfig::default());
    let mut loads = 0;
    let first = ctx.load_font_if_not_loaded("font", |_: &str| -> Result<Font, String> {
        loads += 1;
        Ok(font(4, 6, &[1, 2]))
    });
    let second = ctx.load_font_if_not_loaded("font", |_: &str| -> Result<Font, String> {
        loads += 1;
        Ok(font(8, 8, &[]))
    });
    assert_eq!(first, Ok(0));
    assert_eq!(second, Ok(0));
    assert_eq!(loads, 1);
    assert_eq!(ctx.loaded_font("font").unwrap().char_size, CharSize { width: 4, height: 6 });
    assert_eq!(ctx.font(0).sprites.len(), 2);
    // Sprites and fonts have their own identifiers
    assert!(ctx.loaded_sprite("font").is_none());
}

#[test]
fn failed_load_leaves_the_context_as_it_was() {
    let mut ctx = Context::new(&GameConfig::default());
    assert_eq!(
        ctx.load_sprite_if_not_loaded("player", fail_sprite),
        Err("missing player".to_string())
    );
    assert!(ctx.loaded_sprite("player").is_none());
    assert_eq!(
        ctx.update_pixels("player", Region::new(0, 0, 1, 1), vec![5], fail_sprite),
        Err("missing player".to_string())
    );
    assert!(ctx.take_texture_updates().is_empty());
    let draw = ctx.sprite("player");
    assert_eq!(draw.draw(&mut ctx, fail_sprite), Err("missing player".to_string()));
    assert!(ctx.instances().is_empty());
    let draw = ctx.text("font", "hi");
    let failed = draw.draw(&mut ctx, |_: &str| -> Result<Font, u8> { Err(3) });
    assert_eq!(failed, Err(3));
    assert!(ctx.instances().is_empty());
    assert!(ctx.loaded_font("font").is_none());
}

#[test]
fn texture_updates_are_taken_once_in_order() {
    let mut ctx = Context::new(&GameConfig::default());
    assert_eq!(
        ctx.update_pixels("a", Region::new(0, 0, 1, 2), vec![10, 11], load_sprite(1)),
        Ok(0)
    );
    assert_eq!(ctx.update_pixels("b", Region::new(1, 1, 1, 1), vec![20], load_sprite(2)), Ok(1));
    assert_eq!(ctx.update_pixels("a", Region::new(1, 0, 1, 1), vec![30], fail_sprite), Ok(0));
    {
        let updates = ctx.take_texture_updates();
        assert_eq!(updates.len(), 3);
        assert_eq!(updates[0].0.pixels(), &[1; 4]);
        assert_eq!(updates[0].1, Region::new(0, 0, 1, 2));
        assert_eq!(updates[0].2, vec![10, 11]);
        assert_eq!(updates[1].0.pixels(), &[2; 4]);
        assert_eq!(updates[1].1, Region::new(1, 1, 1, 1));
        assert_eq!(updates[1].2, vec![20]);
        assert_eq!(updates[2].0.pixels(), &[1; 4]);
        assert_eq!(updates[2].1, Region::new(1, 0, 1, 1));
        assert_eq!(updates[2].2, vec![30]);
    }
    // Nothing is left for a second call
    assert!(ctx.take_texture_updates().is_empty());
    assert!(ctx.take_texture_updates().is_empty());
    // The sprites stay loaded
    assert!(ctx.loaded_sprite("a").is_some());
    assert!(ctx.loaded_sprite("b").is_some());
}

#[test]
fn texture_update_refers_to_the_sprite_in_the_context() {
    let mut ctx = Context::new(&GameConfig::default());
    ctx.update_pixels("some.long.identifier.of.a.sprite", Region::new(0, 0, 1, 1), vec![1],
        load_sprite(9)).unwrap();
    let updates = ctx.take_texture_updates();
    let taken = format!("{:p}", updates[0].0);
    drop(updates);
    let loaded = ctx.loaded_sprite("some.long.identifier.of.a.sprite").unwrap();
    assert_eq!(taken, format!("{:p}", loaded));
}

#[test]
fn drawing_a_sprite_loads_it_and_adds_an_instance() {
    let mut ctx = Context::new(&GameConfig::default());
    let draw = ctx.sprite("player");
    assert_eq!(draw.path, "player");
    assert_eq!(draw.position, Position::new(0, 0));
    assert_eq!(draw.rotation, 0);
    let draw = draw.translate(Position::new(5, -3)).translate(Position::new(1, 1)).rotate(90_000);
    assert_eq!(draw.draw(&mut ctx, load_sprite(1)), Ok(0));
    let other = ctx.sprite("other");
    assert_eq!(other.draw(&mut ctx, load_sprite(2)), Ok(1));
    assert_eq!(ctx.sprite("player").draw(&mut ctx, fail_sprite), Ok(0));
    assert_eq!(
        ctx.instances(),
        &[
            Instance {
                texture: Texture::Sprite(0),
                position: Position::new(6, -2),
                rotation: 90_000
            },
            Instance { texture: Texture::Sprite(1), position: Position::new(0, 0), rotation: 0 },
            Instance { texture: Texture::Sprite(0), position: Position::new(0, 0), rotation: 0 },
        ]
    );
    assert_eq!(ctx.loaded_sprite("player").unwrap().pixels(), &[1; 4]);
}

#[test]
fn rotation_stays_within_a_full_turn() {
    let ctx = Context::new(&GameConfig::default());
    assert_eq!(ctx.sprite("a").rotate(360_000).rotation, 0);
    assert_eq!(ctx.sprite("a").rotate(-90_000).rotation, 270_000);
    assert_eq!(ctx.sprite("a").rotate(350_000).rotate(20_000).rotation, 10_000);
    assert_eq!(ctx.sprite("a").rotate(-1).rotate(-359_999).rotation, 0);
    assert_eq!(ctx.sprite("a").rotate(i32::MAX).rotation, i32::MAX % 360_000);
    assert_eq!(ctx.sprite("a").rotate(i32::MIN).rotation, 360_000 - (i32::MAX % 360_000) - 1);
    assert_eq!(ctx.sprite("a").rotate(i32::MAX).rotate(i32::MAX).rotation,
        ((2 * (i32::MAX as i64)) % 360_000) as i32);
}

#[test]
fn drawing_text_adds_an_instance_for_each_glyph() {
    let mut ctx = Context::new(&GameConfig::default());
    ctx.load_font_if_not_loaded("first", |_: &str| -> Result<Font, ()> { Ok(font(1, 1, &[])) })
        .unwrap();
    let draw = ctx.text("font", "a b\n!");
    assert_eq!(draw.path, "font");
    assert_eq!(draw.text, "a b\n!");
    assert_eq!(draw.position, Position::new(0, 0));
    let drawn = draw
        .translate(Position::new(10, 20))
        .draw(&mut ctx, |_: &str| -> Result<Font, ()> { Ok(font(4, 6, &[1])) });
    assert_eq!(drawn, Ok(1));
    let glyph = |ch: char, x: i32, y: i32| Instance {
        texture: Texture::Glyph { font: 1, index: ch as u8 - b'!' },
        position: Position::new(x, y),
        rotation: 0,
    };
    assert_eq!(ctx.instances(), &[glyph('a', 10, 20), glyph('b', 18, 20), glyph('!', 10, 26)]);
}

#[test]
fn render_tick_starts_without_instances() {
    let mut config = GameConfig::default();
    config.update_delta_time = 10_000_000;
    config.max_frame_time = 100_000_000;
    let mut ctx = Context::new(&config);
    let mut timestep = Timestep::new(&config);
    ctx.sprite("player").draw(&mut ctx, load_sprite(1)).unwrap();
    assert_eq!(ctx.instances().len(), 1);

    // A frame of 25 ms: two updates, then a render tick half way to the next
    assert_eq!(timestep.begin_frame(25_000_000), Tick::Update);
    assert_eq!(timestep.after_update(ctx.should_exit()), Tick::Update);
    assert_eq!(timestep.after_update(ctx.should_exit()), Tick::Render);
    ctx.begin_render(&timestep);
    assert!(ctx.instances().is_empty());
    assert_eq!(ctx.blending_factor(), Fraction { numerator: 5_000_000, denominator: 10_000_000 });
    // A fifth of 40 frames per second
    assert_eq!(ctx.frames_per_second(), 8_000);
    // The sprite stays loaded
    assert!(ctx.loaded_sprite("player").is_some());

    // The frame rate is smoothed with the real time of the frame, not the clamped
    assert_eq!(timestep.begin_frame(1_000_000_000), Tick::Update);
    while timestep.after_update(false) == Tick::Update {}
    ctx.begin_render(&timestep);
    assert_eq!(ctx.frames_per_second(), (4 * 8_000 + 1_000) / 5);
    assert_eq!(ctx.blending_factor(), Fraction { numerator: 5_000_000, denominator: 10_000_000 });
}

#[test]
fn sprites_iter_mut_reaches_sprites_and_glyphs() {
    let mut ctx = Context::new(&GameConfig::default());
    ctx.load_font_if_not_loaded("f", |_: &str| -> Result<Font, ()> { Ok(font(1, 1, &[10, 11])) })
        .unwrap();
    ctx.load_sprite_if_not_loaded("a", load_sprite(1)).unwrap();
    ctx.load_font_if_not_loaded("g", |_: &str| -> Result<Font, ()> { Ok(font(1, 1, &[])) })
        .unwrap();
    ctx.load_font_if_not_loaded("h", |_: &str| -> Result<Font, ()> { Ok(font(2, 2, &[12])) })
        .unwrap();
    ctx.load_sprite_if_not_loaded("b", load_sprite(2)).unwrap();
    ctx.update_pixels("b", Region::new(0, 0, 1, 1), vec![3], fail_sprite).unwrap();
    {
        let each = ctx.sprites_iter_mut();
        let colors: Vec<u32> = each.iter().map(|sprite| sprite.pixels()[0]).collect();
        assert_eq!(colors, vec![1, 2, 10, 11, 12]);
        for sprite in each {
            let color = sprite.pixels()[0];
            *sprite = self::sprite(color + 100);
        }
    }
    assert_eq!(ctx.loaded_sprite("a").unwrap().pixels(), &[101; 4]);
    assert_eq!(ctx.loaded_sprite("b").unwrap().pixels(), &[102; 4]);
    assert_eq!(ctx.loaded_font("f").unwrap().sprites[0].pixels(), &[110; 4]);
    assert_eq!(ctx.loaded_font("f").unwrap().sprites[1].pixels(), &[111; 4]);
    assert!(ctx.loaded_font("g").unwrap().sprites.is_empty());
    assert_eq!(ctx.loaded_font("h").unwrap().sprites[0].pixels(), &[112; 4]);
    assert_eq!(ctx.loaded_font("h").unwrap().char_size, CharSize { width: 2, height: 2 });
    // The update that waited is still for the same sprite
    let updates = ctx.take_texture_updates();
    assert_eq!(updates.len(), 1);
    assert_eq!(updates[0].0.pixels(), &[102; 4]);
}
