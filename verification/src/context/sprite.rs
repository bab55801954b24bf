//! Drawing a sprite.

use vstd::prelude::*;

use crate::context::{Context, ContextView, Instance, Texture};
use crate::geometry::Position;
use crate::sprite::Sprite;

verus! {

/// A full turn in thousandths of a degree.
pub const FULL_TURN: i32 = 360_000;

/// The rotation between zero and a full turn that looks the same as
/// `rotation`.
pub open spec fn normalized(rotation: int) -> int {
    rotation % (FULL_TURN as int)
}

/// Bring a rotation between zero and a full turn.
fn normalize(rotation: i64) -> (turned: i32)
    requires
        i32::MIN <= rotation <= i32::MAX,
    ensures
        turned == normalized(rotation as int),
        0 <= turned < FULL_TURN,
{
    let turn: i64 = FULL_TURN as i64;
    if rotation >= 0 {
        (rotation % turn) as i32
    } else {
        let back: i64 = (-rotation) % turn;
        proof {
            let r = rotation as int;
            let t = turn as int;
            let quotient = (-r) / t;
            vstd::arithmetic::div_mod::lemma_fundamental_div_mod(-r, t);
            if back == 0 {
                assert(r == (-quotient) * t + 0) by (nonlinear_arith)
                    requires
                        -r == t * quotient + 0,
                ;
                vstd::arithmetic::div_mod::lemma_fundamental_div_mod_converse(
                    r,
                    t,
                    -quotient,
                    0,
                );
            } else {
                assert(r == (-quotient - 1) * t + (t - back)) by (nonlinear_arith)
                    requires
                        -r == t * quotient + back,
                ;
                vstd::arithmetic::div_mod::lemma_fundamental_div_mod_converse(
                    r,
                    t,
                    -quotient - 1,
                    t - back,
                );
            }
        }
        if back == 0 {
            0
        } else {
            (turn - back) as i32
        }
    }
}

/// Specify how a sprite should be drawn.
///
/// Made by [`Context::sprite`]. Nothing is loaded or drawn before
/// [`DrawSpriteContext::draw`].
#[derive(Debug, Clone, Copy)]
pub struct DrawSpriteContext<'path> {
    /// Asset path of the sprite.
    pub path: &'path str,
    /// Where on the buffer the sprite goes.
    pub position: Position,
    /// Clockwise rotation in thousandths of a degree.
    pub rotation: i32,
}

impl<'path> DrawSpriteContext<'path> {
    /// Move the position of the sprite.
    pub fn translate(self, offset: Position) -> (moved: Self)
        ensures
            moved.path == self.path,
            moved.position == self.position.translated(offset),
            moved.rotation == self.rotation,
    {
        DrawSpriteContext {
            path: self.path,
            position: self.position.translate(offset),
            rotation: self.rotation,
        }
    }

    /// Rotate the sprite further, clockwise by thousandths of a degree.
    ///
    /// The sum is kept between zero and a full turn.
    pub fn rotate(self, rotation: i32) -> (turned: Self)
        ensures
            turned.path == self.path,
            turned.position == self.position,
            turned.rotation == normalized(self.rotation + rotation),
    {
        let sum: i64 = normalize(self.rotation as i64) as i64 + normalize(rotation as i64) as i64;
        proof {
            let t = FULL_TURN as int;
            vstd::arithmetic::div_mod::lemma_add_mod_noop(
                self.rotation as int,
                rotation as int,
                t,
            );
        }
        DrawSpriteContext { path: self.path, position: self.position, rotation: normalize(sum) }
    }

    /// Draw the sprite in the current render tick.
    ///
    /// The first time a sprite is drawn it is loaded. The result is the slot
    /// of the sprite. If loading fails, the error of the loader is the result
    /// and nothing is drawn.
    pub fn draw<E, F: FnOnce(&str) -> Result<Sprite, E>>(self, ctx: &mut Context, load: F) -> (drawn:
        Result<usize, E>)
        requires
            old(ctx).wf(),
            !old(ctx)@.sprites.contains(self.path@) ==> load.requires((self.path,)),
        ensures
            final(ctx).wf(),
            match drawn {
                Ok(slot) => {
                    let sprite = final(ctx)@.sprites.resource_of(self.path@);
                    &&& final(ctx)@.sprites.contains(self.path@)
                    &&& slot == final(ctx)@.sprites.slot_of(self.path@)
                    &&& !old(ctx)@.sprites.contains(self.path@) ==> load.ensures(
                        (self.path,),
                        Ok(sprite),
                    )
                    &&& final(ctx)@ == (ContextView {
                        sprites: old(ctx)@.sprites.request(self.path@, sprite),
                        instances: old(ctx)@.instances.push(
                            Instance {
                                texture: Texture::Sprite(slot),
                                position: self.position,
                                rotation: self.rotation,
                            },
                        ),
                        ..old(ctx)@
                    })
                },
                Err(error) => {
                    &&& final(ctx)@ == old(ctx)@
                    &&& !old(ctx)@.sprites.contains(self.path@)
                    &&& load.ensures((self.path,), Err(error))
                },
            },
    {
        match ctx.load_sprite_if_not_loaded(self.path, load) {
            Ok(slot) => {
                ctx.push_instance(
                    Instance {
                        texture: Texture::Sprite(slot),
                        position: self.position,
                        rotation: self.rotation,
                    },
                );
                Ok(slot)
            },
            Err(error) => Err(error),
        }
    }
}

} // verus!
