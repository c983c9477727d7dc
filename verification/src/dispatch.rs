//! The Container Dispatcher: a decoded container does not declare which
//! of the four shapes it encodes, so the interpretations are attempted
//! in a fixed priority order — animation set, animation, texture set,
//! texture — and the first success wins, with no backtracking.

use vstd::prelude::*;

use crate::animation::{animation_ok, animation_read_error, animation_read_matches, Animation};
use crate::animation_set::{
    animation_set_ok, animation_set_read_error, animation_set_read_matches, AnimationSet,
};
use crate::container::{input_indices_valid, RasterInput};
use crate::error::{ClassifyError, GraphicsError};
use crate::texture::{texture_ok, texture_read_err, texture_read_matches, Texture};
use crate::texture_set::{texture_set_ok, texture_set_read_error, texture_set_read_matches, TextureSet};

verus! {

/// The richest valid interpretation of one decoded container.
#[derive(Debug, Clone)]
pub enum Decoded {
    AnimationSet(AnimationSet),
    Animation(Animation),
    TextureSet(TextureSet),
    Texture(Texture),
}

impl Decoded {
    /// Classify one input by attempting the four interpretations in the
    /// fixed priority order, first success wins. When all four fail,
    /// the failure carries the single-animation and single-texture
    /// diagnostics, the two with the strongest per-sub-image checks.
    pub fn classify(input: &RasterInput) -> (r: Result<Decoded, ClassifyError>)
        requires
            input_indices_valid(*input),
        ensures
            (r matches Ok(d) && d is AnimationSet) <==> animation_set_ok(*input),
            (r matches Ok(d) && d is Animation) <==> !animation_set_ok(*input) && animation_ok(
                *input,
            ),
            (r matches Ok(d) && d is TextureSet) <==> !animation_set_ok(*input) && !animation_ok(
                *input,
            ) && texture_set_ok(*input),
            (r matches Ok(d) && d is Texture) <==> !animation_set_ok(*input) && !animation_ok(
                *input,
            ) && !texture_set_ok(*input) && texture_ok(*input),
            r matches Ok(d) ==> match d {
                Decoded::AnimationSet(s) => animation_set_read_matches(*input, s),
                Decoded::Animation(a) => animation_read_matches(*input, a),
                Decoded::TextureSet(s) => texture_set_read_matches(*input, s),
                Decoded::Texture(t) => texture_read_matches(*input, t),
            },
            r matches Err(e) ==> {
                &&& !animation_set_ok(*input)
                &&& !animation_ok(*input)
                &&& !texture_set_ok(*input)
                &&& !texture_ok(*input)
                &&& e.animation_error == animation_read_error(*input)
                &&& texture_read_err(*input, e.texture_error)
            },
    {
        match AnimationSet::read(input) {
            Ok(animation_set) => {
                return Ok(Decoded::AnimationSet(animation_set));
            },
            Err(_) => {},
        }
        let animation_error: GraphicsError = match Animation::read(input) {
            Ok(animation) => {
                return Ok(Decoded::Animation(animation));
            },
            Err(e) => e,
        };
        match TextureSet::read(input) {
            Ok(texture_set) => {
                return Ok(Decoded::TextureSet(texture_set));
            },
            Err(_) => {},
        }
        let texture_error: GraphicsError = match Texture::read(input) {
            Ok(texture) => {
                return Ok(Decoded::Texture(texture));
            },
            Err(e) => e,
        };
        Err(ClassifyError { animation_error, texture_error })
    }
}

} // verus!
