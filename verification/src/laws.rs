//! Laws that relate the builders to one another: which interpretations
//! a container shape admits, and that decoding the same input always
//! yields bit-identical output buffers.

use vstd::prelude::*;
use vstd::arithmetic::div_mod::{lemma_fundamental_div_mod, lemma_mod_division_less_than_divisor};

use crate::animation::{animation_ok, animation_subs_ok, frame_matches, Frame};
use crate::animation_set::{
    animation_set_ok, animation_set_subs_ok, partition_ok, run_starts,
};
use crate::container::{
    all_have_metadata, all_sizes_ok, ContainerData, Palette, RasterInput, Rgb, SubImage,
};
use crate::texture::{texture_matches_sub_image, texture_ok, Texture};
use crate::texture_set::texture_set_ok;

verus! {

/// A direct-color block never satisfies the animation-set, animation,
/// or texture-set interpretation: those demand indexed data. Only the
/// texture interpretation can accept it, exactly when its color buffer
/// matches its dimensions.
pub proof fn lemma_rgb_block_only_texture(width: u16, height: u16, data: Vec<u16>)
    ensures
        !animation_set_ok(RasterInput::Container(ContainerData::Rgb { width, height, data })),
        !animation_ok(RasterInput::Container(ContainerData::Rgb { width, height, data })),
        !texture_set_ok(RasterInput::Container(ContainerData::Rgb { width, height, data })),
        texture_ok(RasterInput::Container(ContainerData::Rgb { width, height, data })) <==> data@.len()
            == width as int * height as int,
{
}

/// Metadata separates the interpretations: a sub-image list whose
/// members all carry animation metadata never satisfies the texture-set
/// interpretation, and one with any member lacking it never satisfies
/// the animation or animation-set interpretation. Texture-set
/// membership is defined by the absence of metadata, animation
/// membership by its presence.
pub proof fn lemma_metadata_separates_interpretations(palette: Palette, sub_images: Vec<SubImage>)
    requires
        sub_images@.len() > 0,
    ensures
        all_have_metadata(sub_images@) ==> !texture_set_ok(
            RasterInput::Container(ContainerData::Indexed { palette, sub_images }),
        ),
        !all_have_metadata(sub_images@) ==> !animation_ok(
            RasterInput::Container(ContainerData::Indexed { palette, sub_images }),
        ) && !animation_set_ok(
            RasterInput::Container(ContainerData::Indexed { palette, sub_images }),
        ),
{
    assert(all_have_metadata(sub_images@) ==> sub_images@[0].has_metadata());
}

/// A sequence whose declared counts partition it into exactly one run
/// is one whole animation: its first member declares the full length.
/// The animation set deliberately rejects it, so that the plain
/// animation interpretation claims it.
pub proof fn lemma_single_run_is_animation(subs: Seq<SubImage>)
    requires
        subs.len() > 0,
        all_have_metadata(subs),
        all_sizes_ok(subs),
        partition_ok(subs, 0),
        run_starts(subs, 0).len() == 1,
    ensures
        !animation_set_subs_ok(subs),
        animation_subs_ok(subs),
{
    let d = subs[0].declared_frames();
    assert(run_starts(subs, 0) == seq![0int] + run_starts(subs, d));
    assert(run_starts(subs, d).len() == 0);
    assert(d == subs.len());
}

/// Texture building is deterministic: two textures built from the same
/// palette and sub-image agree in dimensions, offset, and every byte of
/// the pixel buffer.
pub proof fn lemma_texture_build_deterministic(
    colors: Seq<Rgb>,
    s: SubImage,
    t1: Texture,
    t2: Texture,
)
    requires
        texture_matches_sub_image(colors, s, t1),
        texture_matches_sub_image(colors, s, t2),
    ensures
        t1.width == t2.width,
        t1.height == t2.height,
        t1.offset_x == t2.offset_x,
        t1.offset_y == t2.offset_y,
        t1.data@ == t2.data@,
{
    assert(t1.data@ =~= t2.data@);
}

/// Frame normalization is deterministic: two frames normalized from the
/// same key frames at the same position agree in dimensions, duration,
/// and every byte of the canvas.
pub proof fn lemma_frame_deterministic(kfs: Seq<Texture>, i: int, f1: Frame, f2: Frame)
    requires
        frame_matches(kfs, i, f1),
        frame_matches(kfs, i, f2),
    ensures
        f1.width == f2.width,
        f1.height == f2.height,
        f1.delay_numer_ms == f2.delay_numer_ms,
        f1.delay_denom_ms == f2.delay_denom_ms,
        f1.data@ == f2.data@,
{
    let cw = crate::animation::canvas_width(kfs);
    let ch = crate::animation::canvas_height(kfs);
    assert forall|j: int| 0 <= j < f1.data@.len() implies f1.data@[j] == f2.data@[j] by {
        assert(cw > 0 && ch > 0) by (nonlinear_arith)
            requires
                cw * ch * 4 > j >= 0,
                cw >= 0,
                ch >= 0,
        ;
        lemma_fundamental_div_mod(j, 4);
        lemma_mod_division_less_than_divisor(j, 4);
        let p = j / 4;
        let k = j % 4;
        lemma_fundamental_div_mod(p, cw);
        lemma_mod_division_less_than_divisor(p, cw);
        let cy = p / cw;
        let cx = p % cw;
        assert(4 * p <= j);
        assert(p < cw * ch) by (nonlinear_arith)
            requires
                4 * p <= j,
                j < cw * ch * 4,
        ;
        assert(0 <= cy < ch) by (nonlinear_arith)
            requires
                p == cw * cy + cx,
                0 <= cx < cw,
                0 <= p,
                p < cw * ch,
        ;
        assert(4 * (cy * cw + cx) == 4 * p) by (nonlinear_arith)
            requires
                p == cw * cy + cx,
        ;
        assert(j == 4 * (cy * cw + cx) + k);
        let minx = crate::animation::min_offset_x(kfs);
        let miny = crate::animation::min_offset_y(kfs);
        let b = crate::animation::canvas_byte(kfs[i], minx, miny, cx, cy, k);
        assert(f1.data@[4 * (cy * cw + cx) + k] == b);
        assert(f2.data@[4 * (cy * cw + cx) + k] == b);
    }
    assert(f1.data@ =~= f2.data@);
}

} // verus!
