//! Frame context: the state that the game loop shares with the update and
//! render callbacks of a game.
//!
//! There is one context per run. The driver of the game loop owns it and lends
//! it to one callback at a time.

pub mod sprite;
pub mod text;

use smol_str::SmolStr;
use vstd::prelude::*;

use crate::assets::ident::{smol_as_str, smol_new, smol_text};
use crate::assets::{ResourceMap, ResourceMapView};
use crate::config::GameConfig;
use crate::context::sprite::DrawSpriteContext;
use crate::context::text::{glyph_instance, DrawTextContext};
use crate::font::{Font, Glyph};
use crate::geometry::{Fraction, Position, Region, Size};
use crate::refs::each_mut;
use crate::input::{InputEvent, InputSnapshot, InputView, KeyCode, MouseButton};
use crate::sprite::Sprite;
use crate::timestep::{smooth_frame_rate, smoothed_frame_rate, Timestep, TimestepView};

verus! {

/// What an [`Instance`] shows.
#[derive(Debug, Clone, Copy, PartialEq, Eq, Structural)]
pub enum Texture {
    /// The sprite in this slot of the sprites of the context.
    Sprite(usize),
    /// A glyph of the font in this slot of the fonts of the context.
    Glyph {
        /// Slot of the font.
        font: usize,
        /// Number of the glyph in the font.
        index: u8,
    },
}

/// One image to draw in the current render tick.
#[derive(Debug, Clone, Copy, PartialEq, Eq, Structural)]
pub struct Instance {
    /// What to draw.
    pub texture: Texture,
    /// Where on the buffer to draw it.
    pub position: Position,
    /// Clockwise rotation in thousandths of a degree.
    pub rotation: i32,
}

/// Pixels that have to be written to the texture of a sprite.
pub struct TextureUpdate {
    /// Identifier of the sprite.
    pub path: Seq<char>,
    /// Part of the texture that the pixels replace.
    pub region: Region,
    /// The new pixels of the region, row by row from the top.
    pub pixels: Seq<u32>,
}

/// Mathematical state of a [`Context`].
pub struct ContextView {
    /// Whether the game asked to exit.
    pub exit: bool,
    /// Pixel of the buffer under the mouse, if the mouse is on the buffer.
    pub mouse: Option<Position>,
    /// Input of the current poll cycle.
    pub input: InputView,
    /// What was drawn so far in the current render tick, in drawing order.
    pub instances: Seq<Instance>,
    /// Sprites loaded so far.
    pub sprites: ResourceMapView<Sprite>,
    /// Fonts loaded so far.
    pub fonts: ResourceMapView<Font>,
    /// Updates of textures that wait to be uploaded, oldest first.
    pub texture_updates: Seq<TextureUpdate>,
    /// Length of an update tick in nanoseconds.
    pub delta_time: u64,
    /// Smoothed rate of render ticks, in thousandths of a frame per second.
    pub frames_per_second: u64,
    /// Progress towards the next update tick at the current render tick.
    pub blending_factor: Fraction,
    /// Size of the drawable part of the window in pixels.
    pub size: Size,
}

impl ContextView {
    /// The tables of resources are well-formed, the blending factor is at
    /// least zero and less than one, and every texture update that waits is
    /// for a sprite that is loaded.
    pub open spec fn wf(self) -> bool {
        &&& self.sprites.wf()
        &&& self.fonts.wf()
        &&& self.blending_factor.is_proper()
        &&& forall|i: int|
            0 <= i < self.texture_updates.len() ==> self.sprites.contains(
                #[trigger] self.texture_updates[i].path,
            )
    }

    /// Every sprite that can be drawn: the sprites in the order of their
    /// slots, then the glyphs of the fonts in the order of their slots.
    pub open spec fn all_sprites(self) -> Seq<Sprite> {
        self.sprites.resources + glyphs_of(self.fonts.resources)
    }

    /// The state differs from `other` at most in what the sprites and the
    /// glyphs of the fonts hold.
    pub open spec fn same_but_sprites(self, other: ContextView) -> bool {
        &&& self == (ContextView {
            sprites: ResourceMapView {
                names: other.sprites.names,
                resources: self.sprites.resources,
            },
            fonts: ResourceMapView { names: other.fonts.names, resources: self.fonts.resources },
            ..other
        })
        &&& self.sprites.resources.len() == other.sprites.resources.len()
        &&& self.fonts.resources.len() == other.fonts.resources.len()
        &&& forall|k: int|
            0 <= k < self.fonts.resources.len() ==> {
                &&& (#[trigger] self.fonts.resources[k]).char_size
                    == other.fonts.resources[k].char_size
                &&& self.fonts.resources[k].sprites@.len() == other.fonts.resources[k].sprites@.len()
            }
    }

    /// The state after the texture updates that wait were taken: none waits,
    /// and nothing else differs.
    pub open spec fn drained(self) -> ContextView {
        ContextView { texture_updates: Seq::empty(), ..self }
    }

    /// The state at the start of a render tick that follows the state
    /// `timestep` of the timestep: the blending factor is that of the
    /// timestep, the frame rate is smoothed with the time of its last frame,
    /// and nothing is drawn yet.
    pub open spec fn render_begun(self, timestep: TimestepView) -> ContextView {
        ContextView {
            blending_factor: Fraction {
                numerator: timestep.blending_factor().0 as u64,
                denominator: timestep.blending_factor().1 as u64,
            },
            frames_per_second: smoothed_frame_rate(
                self.frames_per_second as nat,
                timestep.frame_time,
            ) as u64,
            instances: Seq::empty(),
            ..self
        }
    }

    /// Whether the game loop has to end: the game asked to exit, or the
    /// platform asked to close the window or took it away.
    pub open spec fn should_exit(self) -> bool {
        self.exit || self.input.close_requested || self.input.destroyed
    }
}

/// Context containing most functionality for interfacing with the game engine.
pub struct Context {
    /// Whether to exit after the update loop.
    exit: bool,
    /// Mouse position.
    mouse: Option<Position>,
    /// Parsed game input.
    input: InputSnapshot,
    /// Instances of all sprites drawn this tick, also includes sprites from the fonts.
    instances: Vec<Instance>,
    /// All sprite textures to render.
    sprites: ResourceMap<Sprite>,
    /// All font textures to render.
    fonts: ResourceMap<Font>,
    /// Portions of textures that need to be re-written.
    texture_update_queue: Vec<(SmolStr, Region, Vec<u32>)>,
    /// Time in nanoseconds between every update tick.
    delta_time: u64,
    /// Frames per second for the render tick, in thousandths.
    frames_per_second: u64,
    /// Interpolation alpha for the render tick.
    blending_factor: Fraction,
    /// Size of the inner window in pixels.
    size: Size,
}

/// What a queued texture update says.
pub open spec fn texture_update(entry: (SmolStr, Region, Vec<u32>)) -> TextureUpdate {
    TextureUpdate { path: smol_text(entry.0), region: entry.1, pixels: entry.2@ }
}

impl View for Context {
    type V = ContextView;

    closed spec fn view(&self) -> ContextView {
        ContextView {
            exit: self.exit,
            mouse: self.mouse,
            input: self.input@,
            instances: self.instances@,
            sprites: self.sprites@,
            fonts: self.fonts@,
            texture_updates: self.texture_update_queue@.map_values(
                |entry: (SmolStr, Region, Vec<u32>)| texture_update(entry),
            ),
            delta_time: self.delta_time,
            frames_per_second: self.frames_per_second,
            blending_factor: self.blending_factor,
            size: self.size,
        }
    }
}

/// Render methods.
///
/// All methods use a `path` as the first argument, which is then used to
/// retrieve the assets when they haven't been loaded before.
impl Context {
    /// Handle sprite assets, mostly used for drawing.
    ///
    /// The sprite is loaded the first time that it is drawn. The result
    /// describes a drawing at the top-left corner of the buffer that is not
    /// rotated, and can be changed before it is drawn.
    pub fn sprite<'path>(&self, path: &'path str) -> (draw: DrawSpriteContext<'path>)
        ensures
            draw.path == path,
            draw.position == (Position { x: 0, y: 0 }),
            draw.rotation == 0,
    {
        DrawSpriteContext { path, position: Position::zero(), rotation: 0 }
    }

    /// Draw some text on the screen at the set position with a rotation of `0`.
    ///
    /// The font is loaded the first time that a text is drawn with it. The
    /// result describes a drawing at the top-left corner of the buffer, and
    /// can be changed before it is drawn.
    pub fn text<'path, 'text>(&self, path: &'path str, text: &'text str) -> (draw: DrawTextContext<
        'path,
        'text,
    >)
        ensures
            draw.path == path,
            draw.text == text,
            draw.position == (Position { x: 0, y: 0 }),
    {
        DrawTextContext { path, text, position: Position::zero() }
    }
}

/// State methods.
impl Context {
    /// The context is in a state that its own methods lead to.
    pub closed spec fn wf(&self) -> bool {
        &&& self@.wf()
        &&& self.sprites.wf()
        &&& self.fonts.wf()
    }

    /// A well-formed context has a well-formed state.
    pub proof fn lemma_wf_view(&self)
        requires
            self.wf(),
        ensures
            self@.wf(),
    {
    }

    /// Create a new empty context.
    pub fn new(config: &GameConfig) -> (ctx: Self)
        ensures
            ctx.wf(),
            ctx@ == (ContextView {
                exit: false,
                mouse: None,
                input: InputView::initial(),
                instances: Seq::empty(),
                sprites: ResourceMapView { names: Seq::empty(), resources: Seq::empty() },
                fonts: ResourceMapView { names: Seq::empty(), resources: Seq::empty() },
                texture_updates: Seq::empty(),
                delta_time: config.update_delta_time,
                frames_per_second: 0,
                blending_factor: Fraction { numerator: 0, denominator: 1 },
                size: config.buffer_size,
            }),
    {
        let ctx = Context {
            exit: false,
            mouse: None,
            input: InputSnapshot::new(),
            instances: Vec::new(),
            sprites: ResourceMap::new(),
            fonts: ResourceMap::new(),
            texture_update_queue: Vec::new(),
            delta_time: config.update_delta_time,
            frames_per_second: 0,
            blending_factor: Fraction { numerator: 0, denominator: 1 },
            size: config.buffer_size,
        };
        proof {
            ctx.sprites.lemma_wf_view();
            ctx.fonts.lemma_wf_view();
            assert(ctx@.texture_updates =~= Seq::empty());
            assert(ctx@.sprites == (ResourceMapView::<Sprite> {
                names: Seq::empty(),
                resources: Seq::empty(),
            }));
            assert(ctx@.fonts == (ResourceMapView::<Font> {
                names: Seq::empty(),
                resources: Seq::empty(),
            }));
        }
        ctx
    }

    /// Tell the game to exit, this will close the window and end the game loop.
    ///
    /// The rest of the tick function will still be executed.
    pub fn exit(&mut self)
        requires
            old(self).wf(),
        ensures
            final(self).wf(),
            final(self)@ == (ContextView { exit: true, ..old(self)@ }),
    {
        self.exit = true;
    }

    /// Whether the game loop has to end after the tick that is running: the
    /// game asked to exit, or the platform asked to close the window or took
    /// it away.
    pub fn should_exit(&self) -> (should_exit: bool)
        ensures
            should_exit == self@.should_exit(),
    {
        self.exit || self.input.close_requested() || self.input.destroyed()
    }

    /// Get the delta time in nanoseconds for the update tick.
    ///
    /// This is a constant set by the configuration.
    pub fn delta_time(&self) -> (delta_time: u64)
        ensures
            delta_time == self@.delta_time,
    {
        self.delta_time
    }

    /// Get the amount of frames drawn in a second, in thousandths.
    ///
    /// This counts the times the render tick is called, smoothed over the
    /// last frames.
    pub fn frames_per_second(&self) -> (frames_per_second: u64)
        ensures
            frames_per_second == self@.frames_per_second,
    {
        self.frames_per_second
    }

    /// Get the blending factor between the update states used in the render
    /// state.
    ///
    /// This is only set for the render tick. It is at least zero and less than
    /// one, and says how far the time has moved on from the latest update
    /// towards the next, for interpolating between the previous state and the
    /// current one.
    pub fn blending_factor(&self) -> (factor: Fraction)
        requires
            self.wf(),
        ensures
            factor == self@.blending_factor,
            factor.is_proper(),
    {
        self.blending_factor
    }

    /// Size of the drawable part of the window in pixels.
    ///
    /// This ignores any scaling.
    pub fn size(&self) -> (size: Size)
        ensures
            size == self@.size,
    {
        self.size
    }

    /// Take over the size of the drawable part of the window after it was
    /// resized.
    pub fn resize(&mut self, size: Size)
        requires
            old(self).wf(),
        ensures
            final(self).wf(),
            final(self)@ == (ContextView { size, ..old(self)@ }),
    {
        self.size = size;
    }

    /// Prepare the context for a render tick.
    ///
    /// Takes the blending factor from the timestep, updates the smoothed
    /// frame rate with the time that the frame took, and forgets what was
    /// drawn in the last render tick.
    pub fn begin_render(&mut self, timestep: &Timestep)
        requires
            old(self).wf(),
        ensures
            final(self).wf(),
            final(self)@ == old(self)@.render_begun(timestep@),
            final(self)@.blending_factor.is_proper(),
            final(self)@.blending_factor.numerator == timestep@.blending_factor().0,
            final(self)@.blending_factor.denominator == timestep@.blending_factor().1,
            final(self)@.frames_per_second == smoothed_frame_rate(
                old(self)@.frames_per_second as nat,
                timestep@.frame_time,
            ),
    {
        self.blending_factor = timestep.blending_factor();
        self.frames_per_second = smooth_frame_rate(self.frames_per_second, timestep.frame_time());
        self.instances.clear();
    }

    /// Draw one more image in the current render tick.
    pub(crate) fn push_instance(&mut self, instance: Instance)
        requires
            old(self).wf(),
        ensures
            final(self).wf(),
            final(self)@ == (ContextView {
                instances: old(self)@.instances.push(instance),
                ..old(self)@
            }),
    {
        self.instances.push(instance);
    }

    /// Draw glyphs of the font in a slot in the current render tick, in their
    /// order.
    pub(crate) fn push_glyphs(&mut self, font: usize, glyphs: Vec<Glyph>)
        requires
            old(self).wf(),
        ensures
            final(self).wf(),
            final(self)@ == (ContextView {
                instances: old(self)@.instances + glyphs@.map_values(
                    |glyph: Glyph| glyph_instance(font, glyph),
                ),
                ..old(self)@
            }),
    {
        let ghost drawn = glyphs@.map_values(|glyph: Glyph| glyph_instance(font, glyph));
        for i in 0..glyphs.len()
            invariant
                self.wf(),
                drawn =~= glyphs@.map_values(|glyph: Glyph| glyph_instance(font, glyph)),
                self@ == (ContextView {
                    instances: old(self)@.instances + drawn.take(i as int),
                    ..old(self)@
                }),
        {
            let glyph = glyphs[i];
            self.push_instance(
                Instance {
                    texture: Texture::Glyph { font, index: glyph.index },
                    position: glyph.position,
                    rotation: 0,
                },
            );
            assert(drawn.take(i + 1) =~= drawn.take(i as int).push(drawn[i as int]));
            assert(self@.instances =~= old(self)@.instances + drawn.take(i + 1));
        }
        assert(drawn.take(glyphs.len() as int) =~= drawn);
        assert(self@.instances =~= old(self)@.instances + glyphs@.map_values(
            |glyph: Glyph| glyph_instance(font, glyph),
        ));
    }

    /// What was drawn so far in the current render tick, in drawing order.
    pub fn instances(&self) -> (instances: &[Instance])
        ensures
            instances@ == self@.instances,
    {
        self.instances.as_slice()
    }
}

/// Input methods.
impl Context {
    /// Get the position if the mouse is inside the viewport frame.
    ///
    /// This is `Some(..`) if the mouse is inside the viewport frame, not the
    /// entire window.
    pub fn mouse(&self) -> (mouse: Option<Position>)
        ensures
            mouse == self@.mouse,
    {
        self.mouse
    }

    /// Update the position of the mouse on the buffer from the last known
    /// position of the cursor in the window.
    ///
    /// `map` translates a pixel of the window to the pixel of the buffer that
    /// is drawn there, if any. The mouse is where the cursor maps to. There is
    /// no mouse position while the cursor maps to nothing, or was never seen.
    pub fn update_mouse<F: FnOnce(Position) -> Option<Position>>(&mut self, map: F)
        requires
            old(self).wf(),
            old(self)@.input.cursor is Some ==> map.requires((old(self)@.input.cursor->Some_0,)),
        ensures
            final(self).wf(),
            final(self)@ == (ContextView { mouse: final(self)@.mouse, ..old(self)@ }),
            match old(self)@.input.cursor {
                Some(cursor) => map.ensures((cursor,), final(self)@.mouse),
                None => final(self)@.mouse is None,
            },
    {
        self.mouse = match self.input.cursor() {
            Some(cursor) => map(cursor),
            None => None,
        };
    }

    /// Last known pixel of the window under the cursor, before it is mapped
    /// to the buffer.
    pub fn cursor(&self) -> (cursor: Option<Position>)
        ensures
            cursor == self@.input.cursor,
    {
        self.input.cursor()
    }

    /// Start the next poll cycle of the input.
    pub fn step_input(&mut self)
        requires
            old(self).wf(),
        ensures
            final(self).wf(),
            final(self)@ == (ContextView { input: old(self)@.input.step(), ..old(self)@ }),
    {
        self.input.step();
    }

    /// Record an input event of the current poll cycle.
    pub fn handle_event(&mut self, event: InputEvent)
        requires
            old(self).wf(),
        ensures
            final(self).wf(),
            final(self)@ == (ContextView { input: old(self)@.input.apply(event), ..old(self)@ }),
    {
        self.input.handle_event(event);
    }

    /// Whether the mouse button goes from "not pressed" to "pressed".
    pub fn mouse_pressed(&self, mouse_button: MouseButton) -> (pressed: bool)
        ensures
            pressed == self@.input.buttons_pressed.contains(mouse_button),
    {
        self.input.mouse_pressed(mouse_button)
    }

    /// Whether the mouse button goes from "pressed" to "not pressed".
    pub fn mouse_released(&self, mouse_button: MouseButton) -> (released: bool)
        ensures
            released == self@.input.buttons_released.contains(mouse_button),
    {
        self.input.mouse_released(mouse_button)
    }

    /// Whether the mouse button is in a "pressed" state.
    pub fn mouse_held(&self, mouse_button: MouseButton) -> (held: bool)
        ensures
            held == self@.input.buttons_held.contains(mouse_button),
    {
        self.input.mouse_held(mouse_button)
    }

    /// Whether the key goes from "not pressed" to "pressed".
    ///
    /// Uses physical keys in the US layout, so for example the W key will be
    /// in the same physical key on both US and french keyboards.
    pub fn key_pressed(&self, keycode: KeyCode) -> (pressed: bool)
        ensures
            pressed == self@.input.keys_pressed.contains(keycode),
    {
        self.input.key_pressed(keycode)
    }

    /// Whether the key goes from "pressed" to "not pressed".
    pub fn key_released(&self, keycode: KeyCode) -> (released: bool)
        ensures
            released == self@.input.keys_released.contains(keycode),
    {
        self.input.key_released(keycode)
    }

    /// Whether the key is in a "pressed" state.
    pub fn key_held(&self, keycode: KeyCode) -> (held: bool)
        ensures
            held == self@.input.keys_held.contains(keycode),
    {
        self.input.key_held(keycode)
    }
}

/// Resource methods.
impl Context {
    /// Load the sprite asset if it doesn't exist yet.
    ///
    /// When the sprite is loaded already, the loader is not called and nothing
    /// changes. Otherwise the loader is called once and what it loads is kept
    /// for the rest of the run. The result is the slot of the sprite, or the
    /// error of the loader, which leaves the context as it was.
    pub fn load_sprite_if_not_loaded<E, F: FnOnce(&str) -> Result<Sprite, E>>(
        &mut self,
        path: &str,
        load: F,
    ) -> (slot: Result<usize, E>)
        requires
            old(self).wf(),
            !old(self)@.sprites.contains(path@) ==> load.requires((path,)),
        ensures
            final(self).wf(),
            match slot {
                Ok(slot) => {
                    &&& final(self)@.sprites.contains(path@)
                    &&& slot == final(self)@.sprites.slot_of(path@)
                    &&& slot < final(self)@.sprites.resources.len()
                    &&& final(self)@ == (ContextView {
                        sprites: old(self)@.sprites.request(
                            path@,
                            final(self)@.sprites.resources[slot as int],
                        ),
                        ..old(self)@
                    })
                    &&& !old(self)@.sprites.contains(path@) ==> load.ensures(
                        (path,),
                        Ok(final(self)@.sprites.resources[slot as int]),
                    )
                },
                Err(error) => {
                    &&& !old(self)@.sprites.contains(path@)
                    &&& load.ensures((path,), Err(error))
                    &&& final(self)@ == old(self)@
                },
            },
    {
        let slot = self.sprites.get_or_load(path, load);
        proof {
            self.sprites.lemma_wf_view();
            lemma_queue_stays_loaded(old(self)@, self@);
        }
        slot
    }

    /// Load the font asset if it doesn't exist yet.
    ///
    /// When the font is loaded already, the loader is not called and nothing
    /// changes. Otherwise the loader is called once and what it loads is kept
    /// for the rest of the run. The result is the slot of the font, or the
    /// error of the loader, which leaves the context as it was.
    pub fn load_font_if_not_loaded<E, F: FnOnce(&str) -> Result<Font, E>>(
        &mut self,
        path: &str,
        load: F,
    ) -> (slot: Result<usize, E>)
        requires
            old(self).wf(),
            !old(self)@.fonts.contains(path@) ==> load.requires((path,)),
        ensures
            final(self).wf(),
            match slot {
                Ok(slot) => {
                    &&& final(self)@.fonts.contains(path@)
                    &&& slot == final(self)@.fonts.slot_of(path@)
                    &&& slot < final(self)@.fonts.resources.len()
                    &&& final(self)@ == (ContextView {
                        fonts: old(self)@.fonts.request(
                            path@,
                            final(self)@.fonts.resources[slot as int],
                        ),
                        ..old(self)@
                    })
                    &&& !old(self)@.fonts.contains(path@) ==> load.ensures(
                        (path,),
                        Ok(final(self)@.fonts.resources[slot as int]),
                    )
                },
                Err(error) => {
                    &&& !old(self)@.fonts.contains(path@)
                    &&& load.ensures((path,), Err(error))
                    &&& final(self)@ == old(self)@
                },
            },
    {
        let slot = self.fonts.get_or_load(path, load);
        proof {
            self.fonts.lemma_wf_view();
        }
        slot
    }

    /// The sprite loaded for an identifier, if there is one.
    pub fn loaded_sprite(&self, path: &str) -> (sprite: Option<&Sprite>)
        requires
            self.wf(),
        ensures
            sprite.is_some() == self@.sprites.contains(path@),
            sprite.is_some() ==> *sprite.unwrap() == self@.sprites.resource_of(path@),
    {
        self.sprites.get(path)
    }

    /// The sprite in a slot.
    pub fn sprite_at(&self, slot: usize) -> (sprite: &Sprite)
        requires
            self.wf(),
            slot < self@.sprites.resources.len(),
        ensures
            *sprite == self@.sprites.resources[slot as int],
    {
        self.sprites.resource(slot)
    }

    /// The font in a slot.
    pub fn font(&self, slot: usize) -> (font: &Font)
        requires
            self.wf(),
            slot < self@.fonts.resources.len(),
        ensures
            *font == self@.fonts.resources[slot as int],
    {
        self.fonts.resource(slot)
    }

    /// The font loaded for an identifier, if there is one.
    pub fn loaded_font(&self, path: &str) -> (font: Option<&Font>)
        requires
            self.wf(),
        ensures
            font.is_some() == self@.fonts.contains(path@),
            font.is_some() ==> *font.unwrap() == self@.fonts.resource_of(path@),
    {
        self.fonts.get(path)
    }

    /// Replace a part of the texture of a sprite, loading the sprite if it is
    /// not loaded yet.
    ///
    /// The new pixels wait in a queue until the renderer takes them with
    /// [`Context::take_texture_updates`]. If the loader fails, its error is
    /// the result and nothing changes.
    pub fn update_pixels<E, F: FnOnce(&str) -> Result<Sprite, E>>(
        &mut self,
        path: &str,
        region: Region,
        pixels: Vec<u32>,
        load: F,
    ) -> (slot: Result<usize, E>)
        requires
            old(self).wf(),
            !old(self)@.sprites.contains(path@) ==> load.requires((path,)),
        ensures
            final(self).wf(),
            match slot {
                Ok(slot) => {
                    &&& final(self)@.sprites.contains(path@)
                    &&& slot == final(self)@.sprites.slot_of(path@)
                    &&& slot < final(self)@.sprites.resources.len()
                    &&& final(self)@ == (ContextView {
                        sprites: old(self)@.sprites.request(
                            path@,
                            final(self)@.sprites.resources[slot as int],
                        ),
                        texture_updates: old(self)@.texture_updates.push(
                            TextureUpdate { path: path@, region, pixels: pixels@ },
                        ),
                        ..old(self)@
                    })
                    &&& !old(self)@.sprites.contains(path@) ==> load.ensures(
                        (path,),
                        Ok(final(self)@.sprites.resources[slot as int]),
                    )
                },
                Err(error) => {
                    &&& !old(self)@.sprites.contains(path@)
                    &&& load.ensures((path,), Err(error))
                    &&& final(self)@ == old(self)@
                },
            },
    {
        let slot = self.load_sprite_if_not_loaded(path, load);
        if slot.is_ok() {
            let ghost loaded = self@;
            self.texture_update_queue.push((smol_new(path), region, pixels));
            proof {
                let update = TextureUpdate { path: path@, region, pixels: pixels@ };
                assert(self@.texture_updates =~= loaded.texture_updates.push(update));
            }
        }
        slot
    }
}

/// The glyphs of some fonts: the sprites of the first font, then those of the
/// second, and so on.
pub open spec fn glyphs_of(fonts: Seq<Font>) -> Seq<Sprite>
    decreases fonts.len(),
{
    if fonts.len() == 0 {
        Seq::empty()
    } else {
        glyphs_of(fonts.drop_last()) + fonts.last().sprites@
    }
}

/// Renderer methods.
impl Context {
    /// Get all sprites from any container with sprites: a mutable reference
    /// to every sprite in the order of the slots, followed by every glyph of
    /// every font in the order of the slots.
    ///
    /// Sprites can be changed through the references. Nothing else changes:
    /// no identifier, no slot, and no size or number of glyphs of a font.
    pub fn sprites_iter_mut(&mut self) -> (each: Vec<&mut Sprite>)
        requires
            old(self).wf(),
        ensures
            final(self).wf(),
            each@.len() == old(self)@.all_sprites().len(),
            forall|i: int|
                0 <= i < each@.len() ==> *(#[trigger] each@[i]) == old(self)@.all_sprites()[i],
            final(self)@.all_sprites().len() == each@.len(),
            forall|i: int|
                0 <= i < each@.len() ==> *final(#[trigger] each@[i])
                    == final(self)@.all_sprites()[i],
            final(self)@.same_but_sprites(old(self)@),
    {
        let ghost before = self@;
        let ghost end = *final(self);
        let ghost old_fonts = self@.fonts.resources;
        let mut each = self.sprites.each_mut();
        let font_refs = self.fonts.each_mut();
        let ghost final_sprites = Seq::new(each@.len(), |i: int| *final(each@[i]));
        let ghost final_fonts = Seq::new(font_refs@.len(), |k: int| *final(font_refs@[k]));
        proof {
            assert(old_fonts.take(0) =~= Seq::empty());
            assert(final_fonts.take(0) =~= Seq::empty());
        }
        for font in fonts: font_refs
            invariant
                old_fonts.len() == fonts.seq().len(),
                final_fonts.len() == fonts.seq().len(),
                forall|k: int|
                    0 <= k < fonts.seq().len() ==> *(#[trigger] fonts.seq()[k]) == old_fonts[k],
                forall|k: int|
                    0 <= k < fonts.seq().len() ==> *final(#[trigger] fonts.seq()[k])
                        == final_fonts[k],
                forall|k: int|
                    0 <= k < fonts.index() ==> {
                        &&& (#[trigger] final_fonts[k]).char_size == old_fonts[k].char_size
                        &&& final_fonts[k].sprites@.len() == old_fonts[k].sprites@.len()
                    },
                each@.len() == (before.sprites.resources + glyphs_of(
                    old_fonts.take(fonts.index() as int),
                )).len(),
                forall|i: int|
                    0 <= i < each@.len() ==> *(#[trigger] each@[i]) == (before.sprites.resources
                        + glyphs_of(old_fonts.take(fonts.index() as int)))[i],
                each@.len() == (final_sprites + glyphs_of(
                    final_fonts.take(fonts.index() as int),
                )).len(),
                forall|i: int|
                    0 <= i < each@.len() ==> *final(#[trigger] each@[i]) == (final_sprites
                        + glyphs_of(final_fonts.take(fonts.index() as int)))[i],
        {
            let ghost at = fonts.index() as int;
            let ghost last = *final(font);
            let ghost drawn = each@;
            let mut glyphs = each_mut(font.sprites.as_mut_slice());
            proof {
                assert(old_fonts.take(at + 1).drop_last() =~= old_fonts.take(at));
                assert(final_fonts.take(at + 1).drop_last() =~= final_fonts.take(at));
                assert(last == final_fonts[at]);
                assert(last.char_size == old_fonts[at].char_size);
            }
            each.append(&mut glyphs);
            proof {
                assert forall|i: int| 0 <= i < each@.len() implies *final(#[trigger] each@[i]) == (
                final_sprites + glyphs_of(final_fonts.take(at + 1)))[i] by {
                    if i < drawn.len() {
                        assert(each@[i] == drawn[i]);
                    }
                }
            }
        }
        proof {
            assert(old_fonts.take(old_fonts.len() as int) =~= old_fonts);
            assert(final_fonts.take(final_fonts.len() as int) =~= final_fonts);
            assert(end@.fonts.resources =~= final_fonts);
            assert(end@.sprites.resources =~= final_sprites);
            assert(end@.texture_updates == before.texture_updates);
            assert(end@.sprites.names == before.sprites.names);
        }
        each
    }

    /// Take all updates to textures that need to be done.
    ///
    /// The result holds every update that waited, oldest first, each with the
    /// sprite that it is for. Nothing waits afterwards, so no update is ever
    /// taken twice.
    pub fn take_texture_updates(&mut self) -> (updates: Vec<(&Sprite, Region, Vec<u32>)>)
        requires
            old(self).wf(),
        ensures
            final(self).wf(),
            final(self)@ == old(self)@.drained(),
            updates@.len() == old(self)@.texture_updates.len(),
            forall|i: int|
                0 <= i < updates@.len() ==> {
                    &&& *(#[trigger] updates@[i]).0 == old(self)@.sprites.resource_of(
                        old(self)@.texture_updates[i].path,
                    )
                    &&& updates@[i].1 == old(self)@.texture_updates[i].region
                    &&& updates@[i].2@ == old(self)@.texture_updates[i].pixels
                },
    {
        let mut queue: Vec<(SmolStr, Region, Vec<u32>)> = Vec::new();
        std::mem::swap(&mut self.texture_update_queue, &mut queue);
        assert(self@.texture_updates =~= Seq::empty());
        let ghost waiting = old(self)@.texture_updates;
        assert(waiting =~= queue@.map_values(
            |entry: (SmolStr, Region, Vec<u32>)| texture_update(entry),
        ));
        let sprites = &self.sprites;
        let mut updates: Vec<(&Sprite, Region, Vec<u32>)> = Vec::new();
        for entry in entries: queue
            invariant
                sprites.wf(),
                sprites@ == old(self)@.sprites,
                entries.seq().map_values(
                    |entry: (SmolStr, Region, Vec<u32>)| texture_update(entry),
                ) == waiting,
                forall|i: int|
                    0 <= i < waiting.len() ==> sprites@.contains(#[trigger] waiting[i].path),
                updates@.len() == entries.index(),
                forall|i: int|
                    0 <= i < updates@.len() ==> {
                        &&& *(#[trigger] updates@[i]).0 == sprites@.resource_of(waiting[i].path)
                        &&& updates@[i].1 == waiting[i].region
                        &&& updates@[i].2@ == waiting[i].pixels
                    },
        {
            let (path, region, pixels) = entry;
            proof {
                let at = entries.index() as int;
                assert(waiting[at] == texture_update(entries.seq()[at]));
                assert(sprites@.contains(waiting[at].path));
            }
            match sprites.get(smol_as_str(&path)) {
                Some(sprite) => {
                    updates.push((sprite, region, pixels));
                },
                None => {
                    assert(false);
                },
            }
        }
        updates
    }
}

/// Texture updates are taken once: right after they were taken none waits, so
/// taking them again yields nothing and changes nothing.
pub proof fn lemma_second_take_is_empty(ctx: ContextView)
    requires
        ctx.wf(),
    ensures
        ctx.drained().wf(),
        ctx.drained().texture_updates.len() == 0,
        ctx.drained().drained() == ctx.drained(),
{
}

/// Texture updates that waited for loaded sprites before a request for a
/// sprite still do so after it.
proof fn lemma_queue_stays_loaded(before: ContextView, after: ContextView)
    requires
        before.wf(),
        after.sprites.wf(),
        after.fonts == before.fonts,
        after.blending_factor == before.blending_factor,
        after.texture_updates == before.texture_updates,
        after.sprites == before.sprites || exists|name: Seq<char>, loaded: Sprite|
            after.sprites == before.sprites.request(name, loaded),
    ensures
        after.wf(),
{
    assert forall|i: int| 0 <= i < after.texture_updates.len() implies after.sprites.contains(
        #[trigger] after.texture_updates[i].path,
    ) by {
        let path = before.texture_updates[i].path;
        assert(before.sprites.contains(path));
        let slot = before.sprites.names.index_of(path);
        assert(before.sprites.names[slot] == path);
        assert(after.sprites.names[slot] == path);
    }
}

} // verus!
