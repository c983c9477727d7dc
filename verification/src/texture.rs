//! The Texture Builder: one indexed sub-image or one direct-color
//! block becomes a single flat RGBA pixel buffer with declared
//! dimensions and placement offset.

use vstd::prelude::*;

use crate::container::{
    input_indices_valid, ContainerData, Palette, RasterInput, Rgb, SubImage, TRANSPARENT_INDEX,
};
use crate::error::GraphicsError;

verus! {

#[verifier::external_type_specification]
#[verifier::external_body]
pub struct ExImageError(image::ImageError);

/// The dimensions and flattened RGBA bytes that the generic raster
/// decoder yields for these input bytes, `None` where it rejects them.
/// Decoding already-buffered bytes is a pure function of the bytes.
pub uninterp spec fn generic_decoded(bytes: Seq<u8>) -> Option<(u32, u32, Seq<u8>)>;

/// Relies on image::guess_format, image::load_from_memory_with_format,
/// DynamicImage::to_rgba8 and ImageBuffer::{dimensions, into_raw}:
/// guess the raster format from the magic bytes, decode with the
/// built-in decoder for that format, flatten to 8-bit RGBA, and hand
/// back the dimensions with the raw buffer. This call path consults no
/// process-global state (unlike load_from_memory, whose format
/// guessing and decoding read registries of installed hooks), so the
/// composite result is a function of the bytes alone, named by
/// `generic_decoded`.
#[verifier::external_body]
fn decode_generic(bytes: &Vec<u8>) -> (r: Result<(u32, u32, Vec<u8>), image::ImageError>)
    ensures
        r matches Ok(d) ==> generic_decoded(bytes@) matches Some(g) && d.0 == g.0 && d.1 == g.1
            && d.2@ == g.2,
        r is Err <==> generic_decoded(bytes@) is None,
{
    let format = image::guess_format(bytes.as_slice())?;
    let img = image::load_from_memory_with_format(bytes.as_slice(), format)?;
    let rgba = img.to_rgba8();
    let (width, height) = rgba.dimensions();
    Ok((width, height, rgba.into_raw()))
}

/// The generic raster decoder accepts the bytes, and its buffer is
/// consistent with its dimensions.
pub open spec fn generic_ok(bytes: Seq<u8>) -> bool {
    generic_decoded(bytes) matches Some(g) && g.2.len() == g.0 as int * g.1 as int * 4
}

/// `t` is the texture decoded from raw raster bytes: the decoder's
/// dimensions and buffer, zero offset.
pub open spec fn texture_matches_generic(bytes: Seq<u8>, t: Texture) -> bool {
    generic_decoded(bytes) matches Some(g) && t.width == g.0 && t.height == g.1 && t.offset_x
        == 0i32 && t.offset_y == 0i32 && t.data@ == g.2
}

/// The sub-image is usable as a still texture: it declares no frames.
/// Texture usage implies a non-animated single frame, so metadata with
/// a non-zero frame count is a structural error; a zero count or
/// absent metadata is acceptable.
pub open spec fn non_animated(s: SubImage) -> bool {
    s.app_data matches Some(ad) ==> ad.number_of_frames == 0
}

/// The texture interpretation succeeds on this input: one non-animated
/// indexed sub-image with a consistent buffer, a consistent
/// direct-color block, or bytes the generic decoder accepts.
pub open spec fn texture_ok(input: RasterInput) -> bool {
    match input {
        RasterInput::Container(ContainerData::Indexed { palette: _, sub_images }) => {
            &&& sub_images@.len() == 1
            &&& non_animated(sub_images@[0])
            &&& sub_images@[0].size_ok()
        },
        RasterInput::Container(ContainerData::Rgb { width, height, data }) => data@.len()
            == width as int * height as int,
        RasterInput::Other(bytes) => generic_ok(bytes@),
    }
}

/// What a successful texture interpretation returns, by input shape.
pub open spec fn texture_read_matches(input: RasterInput, t: Texture) -> bool {
    match input {
        RasterInput::Container(ContainerData::Indexed { palette, sub_images }) =>
            texture_matches_sub_image(palette.colors@, sub_images@[0], t),
        RasterInput::Container(ContainerData::Rgb { width, height, data }) => texture_matches_rgb(
            data@,
            width as u32,
            height as u32,
            t,
        ),
        RasterInput::Other(bytes) => texture_matches_generic(bytes@, t),
    }
}

/// Which error the texture interpretation reports, by input shape.
pub open spec fn texture_read_err(input: RasterInput, e: GraphicsError) -> bool {
    match input {
        RasterInput::Container(ContainerData::Indexed { palette: _, sub_images }) => {
            if sub_images@.len() != 1 {
                e == GraphicsError::NotSingleSubImage
            } else if !non_animated(sub_images@[0]) {
                e == GraphicsError::NonzeroFrameCount
            } else {
                e == GraphicsError::SizeMismatch
            }
        },
        RasterInput::Container(ContainerData::Rgb { .. }) => e == GraphicsError::SizeMismatch,
        RasterInput::Other(bytes) => {
            if generic_decoded(bytes@) is None {
                e == GraphicsError::ImageDecode
            } else {
                e == GraphicsError::SizeMismatch
            }
        },
    }
}

/// One fully-resolved RGBA raster: dimensions, placement offset, and a
/// pixel buffer of exactly four bytes (red, green, blue, alpha) per
/// pixel, row-major.
#[derive(Debug, Clone)]
pub struct Texture {
    pub width: u32,
    pub height: u32,
    pub offset_x: i32,
    pub offset_y: i32,
    pub data: Vec<u8>,
}

impl Texture {
    /// The pixel buffer length matches the dimensions exactly.
    pub open spec fn size_ok(self) -> bool {
        self.data@.len() == self.width as int * self.height as int * 4
    }
}

/// Channel `k` (red, green, blue, alpha in that order) of the RGBA
/// color that palette index `idx` resolves to: the stored color with
/// full alpha, except that the designated transparent index gets alpha
/// zero regardless of its stored color.
pub open spec fn palette_rgba(colors: Seq<Rgb>, idx: u8, k: int) -> u8 {
    if k == 0 {
        colors[idx as int].r
    } else if k == 1 {
        colors[idx as int].g
    } else if k == 2 {
        colors[idx as int].b
    } else if idx == TRANSPARENT_INDEX {
        0u8
    } else {
        255u8
    }
}

/// Byte `j` of the RGBA buffer built from an indexed pixel buffer: the
/// index at position `j / 4` resolved through the palette, channel
/// `j % 4`.
pub open spec fn sub_image_rgba_byte(colors: Seq<Rgb>, indices: Seq<u8>, j: int) -> u8 {
    palette_rgba(colors, indices[j / 4], j % 4)
}

/// The red channel of a 16-bit 5-6-5 color, widened to 8 bits.
pub open spec fn rgb565_r8(c: u16) -> u8 {
    (((c >> 11) & 0x1f) << 3) as u8
}

/// The green channel of a 16-bit 5-6-5 color, widened to 8 bits.
pub open spec fn rgb565_g8(c: u16) -> u8 {
    (((c >> 5) & 0x3f) << 2) as u8
}

/// The blue channel of a 16-bit 5-6-5 color, widened to 8 bits.
pub open spec fn rgb565_b8(c: u16) -> u8 {
    ((c & 0x1f) << 3) as u8
}

/// Channel `k` of the RGBA expansion of one direct color: the widened
/// channels with alpha fixed at 255 (direct-color blocks carry no
/// transparency).
pub open spec fn rgba_of_565(c: u16, k: int) -> u8 {
    if k == 0 {
        rgb565_r8(c)
    } else if k == 1 {
        rgb565_g8(c)
    } else if k == 2 {
        rgb565_b8(c)
    } else {
        255u8
    }
}

/// `t` is exactly the texture that the indexed sub-image `s` resolves
/// to through `colors`: same dimensions and offset, and every byte of
/// the pixel buffer is the palette resolution of the matching index.
pub open spec fn texture_matches_sub_image(colors: Seq<Rgb>, s: SubImage, t: Texture) -> bool {
    &&& t.width as int == s.width as int
    &&& t.height as int == s.height as int
    &&& t.offset_x as int == s.offset_x as int
    &&& t.offset_y as int == s.offset_y as int
    &&& t.data@.len() == 4 * s.data@.len()
    &&& forall|j: int|
        0 <= j < t.data@.len() ==> t.data@[j] == sub_image_rgba_byte(colors, s.data@, j)
}

/// Every texture is the palette resolution of the matching sub-image,
/// in input order.
pub open spec fn textures_match(colors: Seq<Rgb>, subs: Seq<SubImage>, ts: Seq<Texture>) -> bool {
    &&& ts.len() == subs.len()
    &&& forall|i: int| 0 <= i < subs.len() ==> texture_matches_sub_image(colors, subs[i], ts[i])
}

/// `t` is exactly the texture that the direct-color buffer `pixels`
/// expands to: the given dimensions, zero offset, and every byte the
/// RGBA expansion of the matching 16-bit color.
pub open spec fn texture_matches_rgb(pixels: Seq<u16>, width: u32, height: u32, t: Texture) -> bool {
    &&& t.width == width
    &&& t.height == height
    &&& t.offset_x == 0i32
    &&& t.offset_y == 0i32
    &&& t.data@.len() == 4 * pixels.len()
    &&& forall|j: int| 0 <= j < t.data@.len() ==> t.data@[j] == rgba_of_565(pixels[j / 4], j % 4)
}

/// Palette Resolver: append the four RGBA bytes of one palette index.
fn push_resolved(colors: &Vec<Rgb>, idx: u8, out: &mut Vec<u8>)
    requires
        (idx as int) < colors@.len(),
    ensures
        final(out)@.len() == old(out)@.len() + 4,
        forall|j: int| 0 <= j < old(out)@.len() ==> final(out)@[j] == old(out)@[j],
        forall|k: int|
            0 <= k < 4 ==> final(out)@[old(out)@.len() + k] == palette_rgba(colors@, idx, k),
{
    let c = colors[idx as usize];
    out.push(c.r);
    out.push(c.g);
    out.push(c.b);
    if idx == TRANSPARENT_INDEX {
        out.push(0);
    } else {
        out.push(255);
    }
}

impl Texture {
    /// The single universal guard of all factory paths: a texture
    /// exists exactly when the supplied buffer holds four bytes per
    /// declared pixel.
    pub fn new(width: u32, height: u32, offset_x: i32, offset_y: i32, data: Vec<u8>) -> (r: Result<
        Texture,
        GraphicsError,
    >)
        ensures
            r is Ok <==> data@.len() == width as int * height as int * 4,
            r matches Ok(t) ==> {
                &&& t.width == width
                &&& t.height == height
                &&& t.offset_x == offset_x
                &&& t.offset_y == offset_y
                &&& t.data@ == data@
            },
            r matches Err(e) ==> e == GraphicsError::SizeMismatch,
    {
        let len: usize = data.len();
        if let Some(pixels) = (width as usize).checked_mul(height as usize) {
            if let Some(expected) = pixels.checked_mul(4) {
                if len == expected {
                    return Ok(Texture { width, height, offset_x, offset_y, data });
                }
            }
        }
        Err(GraphicsError::SizeMismatch)
    }

    /// Expand a 16-bit 5-6-5 direct-color buffer to RGBA, one texture
    /// with zero offset.
    pub fn from_rgb565(width: u32, height: u32, data: &Vec<u16>) -> (r: Result<
        Texture,
        GraphicsError,
    >)
        ensures
            r is Ok <==> data@.len() == width as int * height as int,
            r matches Ok(t) ==> texture_matches_rgb(data@, width, height, t),
            r matches Err(e) ==> e == GraphicsError::SizeMismatch,
    {
        let n = data.len();
        let mut rgba: Vec<u8> = Vec::new();
        let mut i: usize = 0;
        while i < n
            invariant
                n == data@.len(),
                i <= n,
                rgba@.len() == 4 * i,
                forall|j: int|
                    0 <= j < 4 * i ==> rgba@[j] == rgba_of_565(data@[j / 4], j % 4),
            decreases n - i,
        {
            let c = data[i];
            rgba.push((((c >> 11) & 0x1f) << 3) as u8);
            rgba.push((((c >> 5) & 0x3f) << 2) as u8);
            rgba.push(((c & 0x1f) << 3) as u8);
            rgba.push(255);
            i += 1;
        }
        Texture::new(width, height, 0, 0, rgba)
    }

    /// Pixel resolution shared by the still-texture and animation
    /// paths: resolve every pixel index of one sub-image through the
    /// palette, paying no attention to metadata. The result carries the
    /// sub-image's dimensions and placement offset. The caller has
    /// validated the index buffer against the palette size.
    pub(crate) fn resolve_sub_image(palette: &Palette, sub_image: &SubImage) -> (r: Result<
        Texture,
        GraphicsError,
    >)
        requires
            sub_image.indices_valid(palette.colors@.len() as int),
        ensures
            r is Ok <==> sub_image.size_ok(),
            r matches Ok(t) ==> texture_matches_sub_image(palette.colors@, *sub_image, t),
            r matches Err(e) ==> e == GraphicsError::SizeMismatch,
    {
        let n = sub_image.data.len();
        let mut data: Vec<u8> = Vec::new();
        let mut i: usize = 0;
        while i < n
            invariant
                n == sub_image.data@.len(),
                sub_image.indices_valid(palette.colors@.len() as int),
                i <= n,
                data@.len() == 4 * i,
                forall|j: int|
                    0 <= j < 4 * i ==> data@[j] == sub_image_rgba_byte(
                        palette.colors@,
                        sub_image.data@,
                        j,
                    ),
            decreases n - i,
        {
            let idx = sub_image.data[i];
            assert(sub_image.data@[i as int] < palette.colors@.len());
            push_resolved(&palette.colors, idx, &mut data);
            i += 1;
        }
        Texture::new(
            sub_image.width as u32,
            sub_image.height as u32,
            sub_image.offset_x as i32,
            sub_image.offset_y as i32,
            data,
        )
    }

    /// Resolve one sub-image into a still texture. Texture usage
    /// implies a non-animated single frame: metadata declaring a
    /// non-zero frame count is a structural error here; a zero count or
    /// absent metadata is accepted.
    pub fn from_sub_image(palette: &Palette, sub_image: &SubImage) -> (r: Result<
        Texture,
        GraphicsError,
    >)
        requires
            sub_image.indices_valid(palette.colors@.len() as int),
        ensures
            r is Ok <==> non_animated(*sub_image) && sub_image.size_ok(),
            r matches Ok(t) ==> texture_matches_sub_image(palette.colors@, *sub_image, t),
            r matches Err(e) ==> e == (if !non_animated(*sub_image) {
                GraphicsError::NonzeroFrameCount
            } else {
                GraphicsError::SizeMismatch
            }),
    {
        if let Some(app_data) = &sub_image.app_data {
            if app_data.number_of_frames != 0 {
                return Err(GraphicsError::NonzeroFrameCount);
            }
        }
        Texture::resolve_sub_image(palette, sub_image)
    }

    /// Fallback for input that is not the proprietary container:
    /// delegate to the generic raster decoder and wrap the flattened
    /// RGBA buffer; offset (0, 0).
    pub fn from_generic_image(bytes: &Vec<u8>) -> (r: Result<Texture, GraphicsError>)
        ensures
            r is Ok <==> generic_ok(bytes@),
            r matches Ok(t) ==> texture_matches_generic(bytes@, t),
            r matches Err(e) ==> {
                &&& (e == GraphicsError::ImageDecode <==> generic_decoded(bytes@) is None)
                &&& (e == GraphicsError::ImageDecode || e == GraphicsError::SizeMismatch)
            },
    {
        match decode_generic(bytes) {
            Ok((width, height, data)) => Texture::new(width, height, 0, 0, data),
            Err(_) => Err(GraphicsError::ImageDecode),
        }
    }

    /// Interpret one input as a single texture: an indexed container
    /// with exactly one non-animated sub-image, a direct-color block,
    /// or, for any other input, whatever the generic decoder accepts.
    pub fn read(input: &RasterInput) -> (r: Result<Texture, GraphicsError>)
        requires
            input_indices_valid(*input),
        ensures
            r is Ok <==> texture_ok(*input),
            r matches Ok(t) ==> texture_read_matches(*input, t),
            r matches Err(e) ==> texture_read_err(*input, e),
    {
        match input {
            RasterInput::Container(ContainerData::Indexed { palette, sub_images }) => {
                if sub_images.len() != 1 {
                    return Err(GraphicsError::NotSingleSubImage);
                }
                Texture::from_sub_image(palette, &sub_images[0])
            },
            RasterInput::Container(ContainerData::Rgb { width, height, data }) => {
                Texture::from_rgb565(*width as u32, *height as u32, data)
            },
            RasterInput::Other(bytes) => Texture::from_generic_image(bytes),
        }
    }
}

} // verus!
