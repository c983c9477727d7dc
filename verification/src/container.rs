//! The decoded shape of a sprite container, as the format parser hands
//! it over: a palette plus indexed sub-images, or one direct-color
//! block. The builders in the other modules consume these values.

use vstd::prelude::*;

verus! {

/// One palette entry: red, green and blue, 8 bits each.
#[derive(Debug, Clone, Copy, PartialEq, Eq, Structural)]
pub struct Rgb {
    pub r: u8,
    pub g: u8,
    pub b: u8,
}

/// The palette index that is rendered fully transparent, regardless of
/// the color stored at that index.
pub const TRANSPARENT_INDEX: u8 = 0;

/// The shared color lookup table for all indexed sub-images of one
/// container.
#[derive(Debug, Clone)]
pub struct Palette {
    pub colors: Vec<Rgb>,
}

/// Per-frame metadata attached to a sub-image. A non-zero
/// `number_of_frames` on the first sub-image of a run declares how many
/// sub-images (including itself) belong to its animation.
#[derive(Debug, Clone, Copy, PartialEq, Eq, Structural)]
pub struct AppData {
    pub number_of_frames: u16,
}

/// One indexed frame as decoded from a container: dimensions, a signed
/// placement offset, one palette index per pixel, and optional
/// per-frame metadata.
#[derive(Debug)]
pub struct SubImage {
    pub width: u16,
    pub height: u16,
    pub offset_x: i16,
    pub offset_y: i16,
    pub data: Vec<u8>,
    pub app_data: Option<AppData>,
}

/// The two values describe the same sub-image.
pub open spec fn sub_image_eq(a: SubImage, b: SubImage) -> bool {
    &&& a.width == b.width
    &&& a.height == b.height
    &&& a.offset_x == b.offset_x
    &&& a.offset_y == b.offset_y
    &&& a.data@ == b.data@
    &&& a.app_data == b.app_data
}

impl Clone for SubImage {
    /// Duplicating a sub-image keeps its content.
    fn clone(&self) -> (r: SubImage)
        ensures
            sub_image_eq(r, *self),
    {
        SubImage {
            width: self.width,
            height: self.height,
            offset_x: self.offset_x,
            offset_y: self.offset_y,
            data: self.data.clone(),
            app_data: self.app_data,
        }
    }
}

/// A parsed container: indexed sub-images sharing a palette, or a
/// single block of 16-bit direct colors.
#[derive(Debug, Clone)]
pub enum ContainerData {
    Indexed { palette: Palette, sub_images: Vec<SubImage> },
    Rgb { width: u16, height: u16, data: Vec<u16> },
}

/// Input handed to the readers: a parsed container, or the raw bytes of
/// some other raster format (to be decoded by the generic fallback).
#[derive(Debug, Clone)]
pub enum RasterInput {
    Container(ContainerData),
    Other(Vec<u8>),
}

impl SubImage {
    /// The sub-image carries per-frame metadata.
    pub open spec fn has_metadata(self) -> bool {
        self.app_data is Some
    }

    /// The frame count declared by the metadata; meaningful only when
    /// metadata is present.
    pub open spec fn declared_frames(self) -> int {
        self.app_data->0.number_of_frames as int
    }

    /// The pixel index buffer holds exactly one index per pixel.
    pub open spec fn size_ok(self) -> bool {
        self.data@.len() == self.width as int * self.height as int
    }

    /// Every pixel index is a valid index into a palette of `n_colors`
    /// entries.
    pub open spec fn indices_valid(self, n_colors: int) -> bool {
        forall|i: int| 0 <= i < self.data@.len() ==> self.data@[i] < n_colors
    }
}

/// Every sub-image's pixel indices are valid for a palette of
/// `n_colors` entries.
pub open spec fn all_indices_valid(subs: Seq<SubImage>, n_colors: int) -> bool {
    forall|i: int| 0 <= i < subs.len() ==> (#[trigger] subs[i]).indices_valid(n_colors)
}

/// Every sub-image carries per-frame metadata.
pub open spec fn all_have_metadata(subs: Seq<SubImage>) -> bool {
    forall|i: int| 0 <= i < subs.len() ==> (#[trigger] subs[i]).has_metadata()
}

/// No sub-image carries per-frame metadata.
pub open spec fn none_have_metadata(subs: Seq<SubImage>) -> bool {
    forall|i: int| 0 <= i < subs.len() ==> !(#[trigger] subs[i]).has_metadata()
}

/// Every sub-image's index buffer length matches its dimensions.
pub open spec fn all_sizes_ok(subs: Seq<SubImage>) -> bool {
    forall|i: int| 0 <= i < subs.len() ==> (#[trigger] subs[i]).size_ok()
}

/// The pixel indices of an input are valid for its own palette. An
/// input that is not an indexed container constrains nothing.
pub open spec fn input_indices_valid(input: RasterInput) -> bool {
    input matches RasterInput::Container(ContainerData::Indexed { palette, sub_images })
        ==> all_indices_valid(sub_images@, palette.colors@.len() as int)
}

} // verus!
