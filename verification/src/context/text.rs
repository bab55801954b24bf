//! Drawing text.

use vstd::prelude::*;

use crate::context::{Context, ContextView, Instance, Texture};
use crate::font::{layout, Font, Glyph};
use crate::geometry::Position;

verus! {

/// The instance that shows a glyph of the font in slot `font`.
pub open spec fn glyph_instance(font: usize, glyph: Glyph) -> Instance {
    Instance {
        texture: Texture::Glyph { font, index: glyph.index },
        position: glyph.position,
        rotation: 0,
    }
}

/// Specify how a text should be drawn.
///
/// Made by [`Context::text`]. Nothing is loaded or drawn before
/// [`DrawTextContext::draw`].
#[derive(Debug, Clone, Copy)]
pub struct DrawTextContext<'path, 'text> {
    /// Asset path of the font.
    pub path: &'path str,
    /// ASCII text that is drawn character by character.
    pub text: &'text str,
    /// Where on the buffer the top-left corner of the text goes.
    pub position: Position,
}

impl<'path, 'text> DrawTextContext<'path, 'text> {
    /// Move the position of the text.
    pub fn translate(self, offset: Position) -> (moved: Self)
        ensures
            moved.path == self.path,
            moved.text == self.text,
            moved.position == self.position.translated(offset),
    {
        DrawTextContext {
            path: self.path,
            text: self.text,
            position: self.position.translate(offset),
        }
    }

    /// Draw the text in the current render tick: one instance for each glyph
    /// of the laid out text, in the order of the text.
    ///
    /// The first time a font is drawn with it is loaded. The result is the
    /// slot of the font. If loading fails, the error of the loader is the
    /// result and nothing is drawn.
    pub fn draw<E, F: FnOnce(&str) -> Result<Font, E>>(self, ctx: &mut Context, load: F) -> (drawn:
        Result<usize, E>)
        requires
            old(ctx).wf(),
            !old(ctx)@.fonts.contains(self.path@) ==> load.requires((self.path,)),
        ensures
            final(ctx).wf(),
            match drawn {
                Ok(slot) => {
                    let font = final(ctx)@.fonts.resource_of(self.path@);
                    &&& final(ctx)@.fonts.contains(self.path@)
                    &&& slot == final(ctx)@.fonts.slot_of(self.path@)
                    &&& !old(ctx)@.fonts.contains(self.path@) ==> load.ensures(
                        (self.path,),
                        Ok(font),
                    )
                    &&& final(ctx)@ == (ContextView {
                        fonts: old(ctx)@.fonts.request(self.path@, font),
                        instances: old(ctx)@.instances + layout(
                            self.text@,
                            self.position,
                            font.char_size,
                        ).map_values(|glyph: Glyph| glyph_instance(slot, glyph)),
                        ..old(ctx)@
                    })
                },
                Err(error) => {
                    &&& final(ctx)@ == old(ctx)@
                    &&& !old(ctx)@.fonts.contains(self.path@)
                    &&& load.ensures((self.path,), Err(error))
                },
            },
    {
        match ctx.load_font_if_not_loaded(self.path, load) {
            Ok(slot) => {
                let glyphs = ctx.font(slot).render(self.text, self.position);
                ctx.push_glyphs(slot, glyphs);
                Ok(slot)
            },
            Err(error) => Err(error),
        }
    }
}

} // verus!
