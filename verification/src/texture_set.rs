//! The Texture Set Builder: a list of indexed sub-images without
//! per-frame metadata becomes an ordered list of independent textures,
//! each keeping its own dimensions and offset.

use vstd::prelude::*;

use crate::container::{
    all_indices_valid, all_sizes_ok, input_indices_valid, none_have_metadata, ContainerData,
    Palette, RasterInput, SubImage,
};
use crate::error::GraphicsError;
use crate::texture::{texture_matches_sub_image, textures_match, Texture};

verus! {

/// An ordered sequence of independent textures sharing one palette.
/// Membership is defined by the absence of animation metadata on every
/// source sub-image.
#[derive(Debug, Clone)]
pub struct TextureSet {
    pub textures: Vec<Texture>,
}

/// The texture-set interpretation succeeds on this input: a non-empty
/// indexed container, no sub-image carries metadata, and every index
/// buffer is consistent with its dimensions.
pub open spec fn texture_set_ok(input: RasterInput) -> bool {
    match input {
        RasterInput::Container(ContainerData::Indexed { palette: _, sub_images }) => {
            &&& sub_images@.len() > 0
            &&& none_have_metadata(sub_images@)
            &&& all_sizes_ok(sub_images@)
        },
        _ => false,
    }
}

/// The error the builder reports for a rejected sub-image list:
/// emptiness first, then the metadata scan, then the per-image buffer
/// check.
pub open spec fn texture_set_error(subs: Seq<SubImage>) -> GraphicsError {
    if subs.len() == 0 {
        GraphicsError::Empty
    } else if !none_have_metadata(subs) {
        GraphicsError::MetadataPresent
    } else {
        GraphicsError::SizeMismatch
    }
}

/// What a successful texture-set interpretation returns.
pub open spec fn texture_set_read_matches(input: RasterInput, s: TextureSet) -> bool {
    input matches RasterInput::Container(ContainerData::Indexed { palette, sub_images })
        && textures_match(palette.colors@, sub_images@, s.textures@)
}

/// Which error the texture-set interpretation reports.
pub open spec fn texture_set_read_error(input: RasterInput) -> GraphicsError {
    match input {
        RasterInput::Container(ContainerData::Indexed { palette: _, sub_images }) =>
            texture_set_error(sub_images@),
        RasterInput::Container(ContainerData::Rgb { .. }) => GraphicsError::NotIndexed,
        RasterInput::Other(_) => GraphicsError::NotContainer,
    }
}

impl TextureSet {
    /// Build one texture per sub-image, preserving order. Fails on an
    /// empty list, on any member carrying metadata, and on the first
    /// member whose buffer disagrees with its dimensions.
    pub fn from_sub_images(palette: &Palette, sub_images: &Vec<SubImage>) -> (r: Result<
        TextureSet,
        GraphicsError,
    >)
        requires
            all_indices_valid(sub_images@, palette.colors@.len() as int),
        ensures
            r is Ok <==> {
                &&& sub_images@.len() > 0
                &&& none_have_metadata(sub_images@)
                &&& all_sizes_ok(sub_images@)
            },
            r matches Ok(s) ==> textures_match(palette.colors@, sub_images@, s.textures@),
            r matches Err(e) ==> e == texture_set_error(sub_images@),
    {
        let n = sub_images.len();
        if n == 0 {
            return Err(GraphicsError::Empty);
        }
        let mut i: usize = 0;
        while i < n
            invariant
                n == sub_images@.len(),
                i <= n,
                forall|j: int| 0 <= j < i ==> !(#[trigger] sub_images@[j]).has_metadata(),
            decreases n - i,
        {
            if sub_images[i].app_data.is_some() {
                return Err(GraphicsError::MetadataPresent);
            }
            i += 1;
        }
        let mut textures: Vec<Texture> = Vec::new();
        i = 0;
        while i < n
            invariant
                n == sub_images@.len(),
                all_indices_valid(sub_images@, palette.colors@.len() as int),
                none_have_metadata(sub_images@),
                i <= n,
                textures@.len() == i,
                forall|j: int| 0 <= j < i ==> (#[trigger] sub_images@[j]).size_ok(),
                forall|j: int|
                    0 <= j < i ==> texture_matches_sub_image(
                        palette.colors@,
                        sub_images@[j],
                        #[trigger] textures@[j],
                    ),
            decreases n - i,
        {
            match Texture::from_sub_image(palette, &sub_images[i]) {
                Ok(texture) => textures.push(texture),
                Err(e) => {
                    return Err(e);
                },
            }
            i += 1;
        }
        Ok(TextureSet { textures })
    }

    /// Interpret one input as a texture set: only a non-empty indexed
    /// container without per-frame metadata qualifies.
    pub fn read(input: &RasterInput) -> (r: Result<TextureSet, GraphicsError>)
        requires
            input_indices_valid(*input),
        ensures
            r is Ok <==> texture_set_ok(*input),
            r matches Ok(s) ==> texture_set_read_matches(*input, s),
            r matches Err(e) ==> e == texture_set_read_error(*input),
    {
        match input {
            RasterInput::Container(ContainerData::Indexed { palette, sub_images }) => {
                TextureSet::from_sub_images(palette, sub_images)
            },
            RasterInput::Container(ContainerData::Rgb { .. }) => Err(GraphicsError::NotIndexed),
            RasterInput::Other(_) => Err(GraphicsError::NotContainer),
        }
    }
}

} // verus!
