//! The Animation Builder: metadata-bearing sub-images become one
//! time-ordered sequence of key-frame textures, and frame
//! normalization repositions every key frame on a shared canvas so
//! that all emitted frames of one animation have identical dimensions.

use vstd::prelude::*;

use crate::container::{
    all_have_metadata, all_indices_valid, all_sizes_ok, input_indices_valid, ContainerData,
    Palette, RasterInput, SubImage,
};
use crate::error::GraphicsError;
use crate::texture::{texture_matches_sub_image, textures_match, Texture};

verus! {

/// One time-ordered sequence of key-frame textures. Key frames are
/// stored tightly cropped, each with its own dimensions and offset.
#[derive(Debug, Clone)]
pub struct Animation {
    pub key_frames: Vec<Texture>,
}

/// One normalized output frame: canvas-sized RGBA data and a fixed
/// display duration, given as a ratio of milliseconds.
#[derive(Debug, Clone)]
pub struct Frame {
    pub width: u32,
    pub height: u32,
    pub data: Vec<u8>,
    pub delay_numer_ms: u32,
    pub delay_denom_ms: u32,
}

/// Numerator of the fixed display duration: every output frame shows
/// for 1000/60 milliseconds, a sixtieth of a second.
pub const FRAME_DELAY_NUMER_MS: u32 = 1000;

/// Denominator of the fixed display duration.
pub const FRAME_DELAY_DENOM_MS: u32 = 60;

/// The right edge of a key frame in placement coordinates.
pub open spec fn extent_x(t: Texture) -> int {
    t.offset_x as int + t.width as int
}

/// The bottom edge of a key frame in placement coordinates.
pub open spec fn extent_y(t: Texture) -> int {
    t.offset_y as int + t.height as int
}

/// The least placement x-offset among the key frames.
pub open spec fn min_offset_x(frames: Seq<Texture>) -> int
    recommends
        frames.len() > 0,
    decreases frames.len(),
{
    if frames.len() <= 1 {
        frames[0].offset_x as int
    } else {
        let prev = min_offset_x(frames.drop_last());
        let last = frames.last().offset_x as int;
        if last < prev {
            last
        } else {
            prev
        }
    }
}

/// The least placement y-offset among the key frames.
pub open spec fn min_offset_y(frames: Seq<Texture>) -> int
    recommends
        frames.len() > 0,
    decreases frames.len(),
{
    if frames.len() <= 1 {
        frames[0].offset_y as int
    } else {
        let prev = min_offset_y(frames.drop_last());
        let last = frames.last().offset_y as int;
        if last < prev {
            last
        } else {
            prev
        }
    }
}

/// The greatest right edge among the key frames.
pub open spec fn max_extent_x(frames: Seq<Texture>) -> int
    recommends
        frames.len() > 0,
    decreases frames.len(),
{
    if frames.len() <= 1 {
        extent_x(frames[0])
    } else {
        let prev = max_extent_x(frames.drop_last());
        let last = extent_x(frames.last());
        if last > prev {
            last
        } else {
            prev
        }
    }
}

/// The greatest bottom edge among the key frames.
pub open spec fn max_extent_y(frames: Seq<Texture>) -> int
    recommends
        frames.len() > 0,
    decreases frames.len(),
{
    if frames.len() <= 1 {
        extent_y(frames[0])
    } else {
        let prev = max_extent_y(frames.drop_last());
        let last = extent_y(frames.last());
        if last > prev {
            last
        } else {
            prev
        }
    }
}

/// Width of the shared canvas that frame normalization computes.
pub open spec fn canvas_width(frames: Seq<Texture>) -> int {
    max_extent_x(frames) - min_offset_x(frames)
}

/// Height of the shared canvas that frame normalization computes.
pub open spec fn canvas_height(frames: Seq<Texture>) -> int {
    max_extent_y(frames) - min_offset_y(frames)
}

/// Every key frame lies inside the shared canvas bounds.
pub proof fn lemma_canvas_bounds(frames: Seq<Texture>, k: int)
    requires
        0 <= k < frames.len(),
    ensures
        min_offset_x(frames) <= frames[k].offset_x as int,
        min_offset_y(frames) <= frames[k].offset_y as int,
        extent_x(frames[k]) <= max_extent_x(frames),
        extent_y(frames[k]) <= max_extent_y(frames),
    decreases frames.len(),
{
    if frames.len() > 1 && k < frames.len() - 1 {
        lemma_canvas_bounds(frames.drop_last(), k);
        assert(frames.drop_last()[k] == frames[k]);
    }
}

/// The shared canvas is addressable: its dimensions fit in `u32` and
/// its byte count in `usize`.
pub open spec fn canvas_fits(frames: Seq<Texture>) -> bool {
    &&& canvas_width(frames) <= u32::MAX
    &&& canvas_height(frames) <= u32::MAX
    &&& canvas_width(frames) * canvas_height(frames) * 4 <= usize::MAX
}

/// The byte at channel `k` of canvas position `(cx, cy)` when key
/// frame `kf` is blitted at its offset relative to the canvas origin
/// `(minx, miny)`: the key frame's own pixel inside its rectangle,
/// zero (fully transparent) outside it.
pub open spec fn canvas_byte(kf: Texture, minx: int, miny: int, cx: int, cy: int, k: int) -> u8 {
    let fx = cx - (kf.offset_x as int - minx);
    let fy = cy - (kf.offset_y as int - miny);
    if 0 <= fx < kf.width as int && 0 <= fy < kf.height as int {
        kf.data@[4 * (fy * kf.width as int + fx) + k]
    } else {
        0u8
    }
}

/// Output frame `i` of the normalized animation: canvas-sized, fixed
/// duration, and every byte is the blit of key frame `i`.
pub open spec fn frame_matches(kfs: Seq<Texture>, i: int, f: Frame) -> bool {
    let minx = min_offset_x(kfs);
    let miny = min_offset_y(kfs);
    let cw = canvas_width(kfs);
    let ch = canvas_height(kfs);
    &&& f.width as int == cw
    &&& f.height as int == ch
    &&& f.delay_numer_ms == FRAME_DELAY_NUMER_MS
    &&& f.delay_denom_ms == FRAME_DELAY_DENOM_MS
    &&& f.data@.len() == cw * ch * 4
    &&& forall|cx: int, cy: int, k: int|
        0 <= cx < cw && 0 <= cy < ch && 0 <= k < 4 ==> f.data@[4 * (cy * cw + cx) + k]
            == #[trigger] canvas_byte(kfs[i], minx, miny, cx, cy, k)
}

/// Every key frame's buffer agrees with its dimensions.
pub open spec fn all_textures_size_ok(ts: Seq<Texture>) -> bool {
    forall|i: int| 0 <= i < ts.len() ==> (#[trigger] ts[i]).size_ok()
}

/// The error frame normalization reports: emptiness first (re-validated
/// here because this step is reachable on its own), else a key-frame
/// buffer that disagrees with its dimensions.
pub open spec fn frames_error(kfs: Seq<Texture>) -> GraphicsError {
    if kfs.len() == 0 {
        GraphicsError::Empty
    } else {
        GraphicsError::SizeMismatch
    }
}

/// The animation interpretation succeeds on this sub-image list: it is
/// non-empty, every member carries metadata, the first member declares
/// exactly the list's length, and every index buffer is consistent.
pub open spec fn animation_subs_ok(subs: Seq<SubImage>) -> bool {
    &&& subs.len() > 0
    &&& all_have_metadata(subs)
    &&& subs[0].declared_frames() == subs.len()
    &&& all_sizes_ok(subs)
}

/// The animation interpretation succeeds on this input.
pub open spec fn animation_ok(input: RasterInput) -> bool {
    match input {
        RasterInput::Container(ContainerData::Indexed { palette: _, sub_images }) =>
            animation_subs_ok(sub_images@),
        _ => false,
    }
}

/// The error the builder reports for a rejected sub-image list:
/// emptiness first, then the metadata scan, then the declared count,
/// then the per-image buffer check.
pub open spec fn animation_error(subs: Seq<SubImage>) -> GraphicsError {
    if subs.len() == 0 {
        GraphicsError::Empty
    } else if !all_have_metadata(subs) {
        GraphicsError::MetadataMissing
    } else if subs[0].declared_frames() != subs.len() {
        GraphicsError::CountMismatch
    } else {
        GraphicsError::SizeMismatch
    }
}

/// What a successful animation interpretation returns.
pub open spec fn animation_read_matches(input: RasterInput, a: Animation) -> bool {
    input matches RasterInput::Container(ContainerData::Indexed { palette, sub_images })
        && textures_match(palette.colors@, sub_images@, a.key_frames@)
}

/// Which error the animation interpretation reports.
pub open spec fn animation_read_error(input: RasterInput) -> GraphicsError {
    match input {
        RasterInput::Container(ContainerData::Indexed { palette: _, sub_images }) =>
            animation_error(sub_images@),
        RasterInput::Container(ContainerData::Rgb { .. }) => GraphicsError::NotIndexed,
        RasterInput::Other(_) => GraphicsError::NotContainer,
    }
}

impl Animation {
    /// Build one key-frame texture per sub-image, in order. Fails on an
    /// empty list, on any member lacking metadata, and when the first
    /// member's declared frame count is not exactly the list's length
    /// (other members' counts are not cross-checked).
    pub fn from_sub_images(palette: &Palette, sub_images: &Vec<SubImage>) -> (r: Result<
        Animation,
        GraphicsError,
    >)
        requires
            all_indices_valid(sub_images@, palette.colors@.len() as int),
        ensures
            r is Ok <==> animation_subs_ok(sub_images@),
            r matches Ok(a) ==> textures_match(palette.colors@, sub_images@, a.key_frames@),
            r matches Err(e) ==> e == animation_error(sub_images@),
    {
        let n = sub_images.len();
        if n == 0 {
            return Err(GraphicsError::Empty);
        }
        let mut i: usize = 0;
        while i < n
            invariant
                n == sub_images@.len(),
                i <= n,
                forall|j: int| 0 <= j < i ==> (#[trigger] sub_images@[j]).has_metadata(),
            decreases n - i,
        {
            if sub_images[i].app_data.is_none() {
                return Err(GraphicsError::MetadataMissing);
            }
            i += 1;
        }
        let number_of_frames = match &sub_images[0].app_data {
            Some(app_data) => app_data.number_of_frames,
            None => {
                return Err(GraphicsError::MetadataMissing);
            },
        };
        if number_of_frames as usize != n {
            return Err(GraphicsError::CountMismatch);
        }
        let mut key_frames: Vec<Texture> = Vec::new();
        i = 0;
        while i < n
            invariant
                n == sub_images@.len(),
                all_indices_valid(sub_images@, palette.colors@.len() as int),
                all_have_metadata(sub_images@),
                sub_images@[0].declared_frames() == n,
                i <= n,
                key_frames@.len() == i,
                forall|j: int| 0 <= j < i ==> (#[trigger] sub_images@[j]).size_ok(),
                forall|j: int|
                    0 <= j < i ==> texture_matches_sub_image(
                        palette.colors@,
                        sub_images@[j],
                        #[trigger] key_frames@[j],
                    ),
            decreases n - i,
        {
            match Texture::resolve_sub_image(palette, &sub_images[i]) {
                Ok(texture) => key_frames.push(texture),
                Err(e) => {
                    return Err(e);
                },
            }
            i += 1;
        }
        Ok(Animation { key_frames })
    }

    /// Frame normalization: compute the shared canvas from the key
    /// frames' offsets and extents, then emit one canvas-sized frame
    /// per key frame, with the key frame's own pixels blitted at its
    /// offset relative to the canvas origin, transparent pixels
    /// everywhere else, and the same fixed display duration.
    pub fn into_frames(&self) -> (r: Result<Vec<Frame>, GraphicsError>)
        requires
            self.key_frames@.len() > 0 ==> canvas_fits(self.key_frames@),
        ensures
            r is Ok <==> self.key_frames@.len() > 0 && all_textures_size_ok(self.key_frames@),
            r matches Err(e) ==> e == frames_error(self.key_frames@),
            r matches Ok(frames) ==> {
                &&& frames@.len() == self.key_frames@.len()
                &&& forall|i: int|
                    0 <= i < frames@.len() ==> frame_matches(
                        self.key_frames@,
                        i,
                        #[trigger] frames@[i],
                    )
            },
    {
        let ghost kfs = self.key_frames@;
        let n = self.key_frames.len();
        if n == 0 {
            return Err(GraphicsError::Empty);
        }
        let mut min_x: i64 = self.key_frames[0].offset_x as i64;
        let mut min_y: i64 = self.key_frames[0].offset_y as i64;
        let mut max_x: i64 = self.key_frames[0].offset_x as i64 + self.key_frames[0].width as i64;
        let mut max_y: i64 = self.key_frames[0].offset_y as i64 + self.key_frames[0].height as i64;
        proof {
            assert(kfs.subrange(0, 1).len() == 1);
            assert(kfs.subrange(0, 1)[0] == kfs[0]);
        }
        let mut i: usize = 1;
        while i < n
            invariant
                kfs == self.key_frames@,
                n == kfs.len(),
                1 <= i <= n,
                i32::MIN <= min_x <= i32::MAX,
                i32::MIN <= min_y <= i32::MAX,
                i32::MIN <= max_x <= i32::MAX as i64 + u32::MAX as i64,
                i32::MIN <= max_y <= i32::MAX as i64 + u32::MAX as i64,
                min_x as int == min_offset_x(kfs.subrange(0, i as int)),
                min_y as int == min_offset_y(kfs.subrange(0, i as int)),
                max_x as int == max_extent_x(kfs.subrange(0, i as int)),
                max_y as int == max_extent_y(kfs.subrange(0, i as int)),
            decreases n - i,
        {
            proof {
                assert(kfs.subrange(0, i as int + 1).drop_last() =~= kfs.subrange(0, i as int));
                assert(kfs.subrange(0, i as int + 1).last() == kfs[i as int]);
            }
            let ox = self.key_frames[i].offset_x as i64;
            let oy = self.key_frames[i].offset_y as i64;
            let ex = self.key_frames[i].offset_x as i64 + self.key_frames[i].width as i64;
            let ey = self.key_frames[i].offset_y as i64 + self.key_frames[i].height as i64;
            if ox < min_x {
                min_x = ox;
            }
            if oy < min_y {
                min_y = oy;
            }
            if ex > max_x {
                max_x = ex;
            }
            if ey > max_y {
                max_y = ey;
            }
            i += 1;
        }
        proof {
            assert(kfs.subrange(0, n as int) =~= kfs);
            lemma_canvas_bounds(kfs, 0);
        }
        let cw64: i64 = max_x - min_x;
        let ch64: i64 = max_y - min_y;
        let cw: u32 = cw64 as u32;
        let ch: u32 = ch64 as u32;
        let mut frames: Vec<Frame> = Vec::new();
        let mut fi: usize = 0;
        while fi < n
            invariant
                kfs == self.key_frames@,
                n == kfs.len(),
                n > 0,
                fi <= n,
                canvas_fits(kfs),
                min_x as int == min_offset_x(kfs),
                min_y as int == min_offset_y(kfs),
                cw as int == canvas_width(kfs),
                ch as int == canvas_height(kfs),
                frames@.len() == fi,
                forall|j: int| 0 <= j < fi ==> (#[trigger] kfs[j]).size_ok(),
                forall|j: int| 0 <= j < fi ==> frame_matches(kfs, j, #[trigger] frames@[j]),
            decreases n - fi,
        {
            let kf = &self.key_frames[fi];
            // Re-validate the buffer against the dimensions before
            // blitting from it; every factory establishes this.
            let klen = kf.data.len();
            let size_valid = match (kf.width as usize).checked_mul(kf.height as usize) {
                Some(pixels) => match pixels.checked_mul(4) {
                    Some(expected) => klen == expected,
                    None => false,
                },
                None => false,
            };
            if !size_valid {
                return Err(GraphicsError::SizeMismatch);
            }
            proof {
                lemma_canvas_bounds(kfs, fi as int);
            }
            let dx: i64 = kf.offset_x as i64 - min_x;
            let dy: i64 = kf.offset_y as i64 - min_y;
            let dxu: u32 = dx as u32;
            let dyu: u32 = dy as u32;
            let mut data: Vec<u8> = Vec::new();
            let mut cy: u32 = 0;
            while cy < ch
                invariant
                    kfs == self.key_frames@,
                    n == kfs.len(),
                    fi < n,
                    *kf == kfs[fi as int],
                    kf.size_ok(),
                    kf.data@.len() <= usize::MAX,
                    canvas_fits(kfs),
                    cw as int == canvas_width(kfs),
                    ch as int == canvas_height(kfs),
                    min_x as int == min_offset_x(kfs),
                    min_y as int == min_offset_y(kfs),
                    dxu as int == kf.offset_x as int - min_x as int,
                    dyu as int == kf.offset_y as int - min_y as int,
                    dxu as int + kf.width as int <= cw as int,
                    dyu as int + kf.height as int <= ch as int,
                    cy <= ch,
                    data@.len() == 4 * ((cy as int) * (cw as int)),
                    forall|cx2: int, cy2: int, k2: int|
                        0 <= cy2 < cy as int && 0 <= cx2 < cw as int && 0 <= k2 < 4
                            ==> data@[4 * (cy2 * (cw as int) + cx2) + k2] == #[trigger] canvas_byte(
                            kfs[fi as int],
                            min_x as int,
                            min_y as int,
                            cx2,
                            cy2,
                            k2,
                        ),
                decreases ch - cy,
            {
                let mut cx: u32 = 0;
                while cx < cw
                    invariant
                        kfs == self.key_frames@,
                        n == kfs.len(),
                        fi < n,
                        *kf == kfs[fi as int],
                        kf.size_ok(),
                        kf.data@.len() <= usize::MAX,
                        canvas_fits(kfs),
                        cw as int == canvas_width(kfs),
                        ch as int == canvas_height(kfs),
                        min_x as int == min_offset_x(kfs),
                        min_y as int == min_offset_y(kfs),
                        dxu as int == kf.offset_x as int - min_x as int,
                        dyu as int == kf.offset_y as int - min_y as int,
                        dxu as int + kf.width as int <= cw as int,
                        dyu as int + kf.height as int <= ch as int,
                        cy < ch,
                        cx <= cw,
                        data@.len() == 4 * ((cy as int) * (cw as int)) + 4 * (cx as int),
                        forall|cx2: int, cy2: int, k2: int|
                            0 <= cy2 < cy as int && 0 <= cx2 < cw as int && 0 <= k2 < 4
                                ==> data@[4 * (cy2 * (cw as int) + cx2) + k2]
                                == #[trigger] canvas_byte(
                                kfs[fi as int],
                                min_x as int,
                                min_y as int,
                                cx2,
                                cy2,
                                k2,
                            ),
                        forall|cx2: int, k2: int|
                            0 <= cx2 < cx as int && 0 <= k2 < 4 ==> data@[4 * ((cy as int) * (
                            cw as int) + cx2) + k2] == #[trigger] canvas_byte(
                                kfs[fi as int],
                                min_x as int,
                                min_y as int,
                                cx2,
                                cy as int,
                                k2,
                            ),
                    decreases cw - cx,
                {
                    let ghost prior = data@;
                    if cx >= dxu && cx - dxu < kf.width && cy >= dyu && cy - dyu < kf.height {
                        let fx = (cx - dxu) as usize;
                        let fy = (cy - dyu) as usize;
                        proof {
                            assert((fy as int) * (kf.width as int) + (fx as int) < (kf.width as int)
                                * (kf.height as int)) by (nonlinear_arith)
                                requires
                                    0 <= (fx as int) < (kf.width as int),
                                    0 <= (fy as int) < (kf.height as int),
                            ;
                            assert(kf.data@.len() == (kf.width as int) * (kf.height as int) * 4);
                        }
                        let base = 4 * (fy * (kf.width as usize) + fx);
                        data.push(kf.data[base]);
                        data.push(kf.data[base + 1]);
                        data.push(kf.data[base + 2]);
                        data.push(kf.data[base + 3]);
                    } else {
                        data.push(0);
                        data.push(0);
                        data.push(0);
                        data.push(0);
                    }
                    proof {
                        let cwi = cw as int;
                        let cyi = cy as int;
                        let cxi = cx as int;
                        assert forall|cx2: int, cy2: int, k2: int|
                            0 <= cy2 < cyi && 0 <= cx2 < cwi && 0 <= k2 < 4 implies data@[4 * (cy2
                            * cwi + cx2) + k2] == canvas_byte(
                            kfs[fi as int],
                            min_x as int,
                            min_y as int,
                            cx2,
                            cy2,
                            k2,
                        ) by {
                            assert(4 * (cy2 * cwi + cx2) + k2 < 4 * (cyi * cwi)) by (nonlinear_arith)
                                requires
                                    0 <= cx2 < cwi,
                                    0 <= k2 < 4,
                                    0 <= cy2,
                                    cy2 + 1 <= cyi,
                            ;
                            assert(data@[4 * (cy2 * cwi + cx2) + k2] == prior[4 * (cy2 * cwi + cx2)
                                + k2]);
                        }
                        assert forall|cx2: int, k2: int|
                            0 <= cx2 < cxi + 1 && 0 <= k2 < 4 implies data@[4 * (cyi * cwi + cx2)
                            + k2] == canvas_byte(
                            kfs[fi as int],
                            min_x as int,
                            min_y as int,
                            cx2,
                            cyi,
                            k2,
                        ) by {
                            if cx2 < cxi {
                                assert(data@[4 * (cyi * cwi + cx2) + k2] == prior[4 * (cyi * cwi
                                    + cx2) + k2]);
                            } else {
                                assert(data@[4 * (cyi * cwi + cx2) + k2] == data@[prior.len() as int
                                    + k2]);
                            }
                        }
                    }
                    cx += 1;
                }
                proof {
                    assert(4 * (((cy as int) + 1) * (cw as int)) == 4 * ((cy as int) * (cw as int))
                        + 4 * (cw as int)) by (nonlinear_arith);
                }
                cy += 1;
            }
            let frame = Frame {
                width: cw,
                height: ch,
                data,
                delay_numer_ms: FRAME_DELAY_NUMER_MS,
                delay_denom_ms: FRAME_DELAY_DENOM_MS,
            };
            proof {
                assert(4 * ((ch as int) * (cw as int)) == (cw as int) * (ch as int) * 4)
                    by (nonlinear_arith);
            }
            frames.push(frame);
            fi += 1;
        }
        Ok(frames)
    }

    /// Interpret one input as an animation: only a non-empty indexed
    /// container whose sub-images all carry metadata qualifies.
    pub fn read(input: &RasterInput) -> (r: Result<Animation, GraphicsError>)
        requires
            input_indices_valid(*input),
        ensures
            r is Ok <==> animation_ok(*input),
            r matches Ok(a) ==> animation_read_matches(*input, a),
            r matches Err(e) ==> e == animation_read_error(*input),
    {
        match input {
            RasterInput::Container(ContainerData::Indexed { palette, sub_images }) => {
                Animation::from_sub_images(palette, sub_images)
            },
            RasterInput::Container(ContainerData::Rgb { .. }) => Err(GraphicsError::NotIndexed),
            RasterInput::Other(_) => Err(GraphicsError::NotContainer),
        }
    }
}

} // verus!
