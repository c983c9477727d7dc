//! The Animation Set Builder: one flat sequence of metadata-bearing
//! sub-images, holding multiple back-to-back animations with no
//! separator markers, is split into runs via each run's self-declared
//! frame count, and every run is assembled by the Animation Builder.

use vstd::prelude::*;

use crate::animation::{
    all_textures_size_ok, canvas_fits, frame_matches, frames_error, Animation, Frame,
};
use crate::container::{
    all_have_metadata, all_indices_valid, all_sizes_ok, input_indices_valid, sub_image_eq,
    ContainerData, Palette, RasterInput, Rgb, SubImage,
};
use crate::error::GraphicsError;
use crate::texture::{texture_matches_sub_image, textures_match, Texture};

verus! {

/// An ordered sequence of independent animations sharing one palette,
/// recovered by exhaustively partitioning one flat sub-image sequence.
#[derive(Debug, Clone)]
pub struct AnimationSet {
    pub animations: Vec<Animation>,
}

/// The flat sequence partitions exhaustively into runs from `pos` on:
/// each run's first element declares the run's length, at least one
/// and never more than remain.
pub open spec fn partition_ok(subs: Seq<SubImage>, pos: int) -> bool
    recommends
        0 <= pos <= subs.len(),
    decreases subs.len() - pos,
{
    if pos == subs.len() {
        true
    } else if !(0 <= pos < subs.len()) {
        false
    } else {
        let d = subs[pos].declared_frames();
        &&& d >= 1
        &&& pos + d <= subs.len()
        &&& partition_ok(subs, pos + d)
    }
}

/// The start index of every run the partition yields from `pos` on.
pub open spec fn run_starts(subs: Seq<SubImage>, pos: int) -> Seq<int>
    recommends
        0 <= pos <= subs.len(),
    decreases subs.len() - pos,
{
    if !(0 <= pos < subs.len()) {
        Seq::empty()
    } else {
        let d = subs[pos].declared_frames();
        if d >= 1 && pos + d <= subs.len() {
            seq![pos] + run_starts(subs, pos + d)
        } else {
            seq![pos]
        }
    }
}

/// The sub-images of the run starting at `start`.
pub open spec fn run_at(subs: Seq<SubImage>, start: int) -> Seq<SubImage> {
    subs.subrange(start, start + subs[start].declared_frames())
}

/// `starts` lists consecutive run starts leading from `pos` to `end`.
pub open spec fn is_run_chain(subs: Seq<SubImage>, starts: Seq<int>, pos: int, end: int) -> bool
    decreases starts.len(),
{
    if starts.len() == 0 {
        pos == end
    } else {
        &&& 0 <= pos < subs.len()
        &&& starts[0] == pos
        &&& subs[pos].declared_frames() >= 1
        &&& pos + subs[pos].declared_frames() <= subs.len()
        &&& is_run_chain(subs, starts.drop_first(), pos + subs[pos].declared_frames(), end)
    }
}

/// A chain grows by the run that starts at its end.
proof fn lemma_run_chain_push(subs: Seq<SubImage>, starts: Seq<int>, pos: int, end: int)
    requires
        is_run_chain(subs, starts, pos, end),
        0 <= end < subs.len(),
        subs[end].declared_frames() >= 1,
        end + subs[end].declared_frames() <= subs.len(),
    ensures
        is_run_chain(subs, starts.push(end), pos, end + subs[end].declared_frames()),
    decreases starts.len(),
{
    if starts.len() == 0 {
        assert(starts.push(end).drop_first() =~= Seq::<int>::empty());
        assert(is_run_chain(
            subs,
            Seq::<int>::empty(),
            end + subs[end].declared_frames(),
            end + subs[end].declared_frames(),
        ));
    } else {
        lemma_run_chain_push(
            subs,
            starts.drop_first(),
            pos + subs[pos].declared_frames(),
            end,
        );
        assert(starts.push(end).drop_first() =~= starts.drop_first().push(end));
    }
}

/// A chain that reaches the end of the sequence is exactly the
/// partition's run list.
proof fn lemma_run_chain_complete(subs: Seq<SubImage>, starts: Seq<int>, pos: int)
    requires
        0 <= pos <= subs.len(),
        is_run_chain(subs, starts, pos, subs.len() as int),
    ensures
        partition_ok(subs, pos),
        run_starts(subs, pos) == starts,
    decreases starts.len(),
{
    if starts.len() == 0 {
        assert(run_starts(subs, pos) =~= starts);
    } else {
        let d = subs[pos].declared_frames();
        lemma_run_chain_complete(subs, starts.drop_first(), pos + d);
        assert(run_starts(subs, pos) =~= starts);
    }
}

/// The texture relation depends only on sub-image content.
proof fn lemma_textures_match_content(
    colors: Seq<Rgb>,
    a: Seq<SubImage>,
    b: Seq<SubImage>,
    ts: Seq<Texture>,
)
    requires
        a.len() == b.len(),
        forall|i: int| 0 <= i < a.len() ==> sub_image_eq(#[trigger] a[i], b[i]),
        textures_match(colors, a, ts),
    ensures
        textures_match(colors, b, ts),
{
    assert forall|i: int| 0 <= i < b.len() implies texture_matches_sub_image(
        colors,
        b[i],
        ts[i],
    ) by {
        assert(texture_matches_sub_image(colors, a[i], ts[i]));
        assert(a[i].data@ == b[i].data@);
    }
}

/// The animation-set interpretation succeeds on this sub-image list:
/// it is non-empty, every member carries metadata, the declared counts
/// partition it exhaustively into at least two runs, and every index
/// buffer is consistent.
pub open spec fn animation_set_subs_ok(subs: Seq<SubImage>) -> bool {
    &&& subs.len() > 0
    &&& all_have_metadata(subs)
    &&& partition_ok(subs, 0)
    &&& all_sizes_ok(subs)
    &&& run_starts(subs, 0).len() >= 2
}

/// The animation-set interpretation succeeds on this input.
pub open spec fn animation_set_ok(input: RasterInput) -> bool {
    match input {
        RasterInput::Container(ContainerData::Indexed { palette: _, sub_images }) =>
            animation_set_subs_ok(sub_images@),
        _ => false,
    }
}

/// The reported error is consistent with the rejected sub-image list:
/// emptiness and the metadata scan come first and are exact; a
/// truncation error only arises when the declared counts do not
/// partition the sequence, and a size error only when some buffer
/// disagrees with its dimensions; too-few is exact for a list that
/// partitions cleanly into fewer than two runs.
pub open spec fn animation_set_error_ok(subs: Seq<SubImage>, e: GraphicsError) -> bool {
    &&& (e == GraphicsError::Empty <==> subs.len() == 0)
    &&& (e == GraphicsError::MetadataMissing <==> subs.len() > 0 && !all_have_metadata(subs))
    &&& (e == GraphicsError::Truncation ==> !partition_ok(subs, 0))
    &&& (e == GraphicsError::SizeMismatch ==> !all_sizes_ok(subs))
    &&& (e == GraphicsError::TooFewAnimations <==> subs.len() > 0 && all_have_metadata(subs)
        && partition_ok(subs, 0) && all_sizes_ok(subs) && run_starts(subs, 0).len() < 2)
    &&& (e == GraphicsError::Empty || e == GraphicsError::MetadataMissing || e
        == GraphicsError::Truncation || e == GraphicsError::SizeMismatch || e
        == GraphicsError::TooFewAnimations)
}

/// Every animation is built from the matching run of the partition, in
/// input order.
pub open spec fn animations_match(
    colors: Seq<Rgb>,
    subs: Seq<SubImage>,
    anims: Seq<Animation>,
) -> bool {
    let starts = run_starts(subs, 0);
    &&& anims.len() == starts.len()
    &&& forall|i: int|
        0 <= i < anims.len() ==> textures_match(
            colors,
            run_at(subs, starts[i]),
            (#[trigger] anims[i]).key_frames@,
        )
}

/// What a successful animation-set interpretation returns.
pub open spec fn animation_set_read_matches(input: RasterInput, s: AnimationSet) -> bool {
    input matches RasterInput::Container(ContainerData::Indexed { palette, sub_images })
        && animations_match(palette.colors@, sub_images@, s.animations@)
}

/// Which error the animation-set interpretation reports.
pub open spec fn animation_set_read_error(input: RasterInput, e: GraphicsError) -> bool {
    match input {
        RasterInput::Container(ContainerData::Indexed { palette: _, sub_images }) =>
            animation_set_error_ok(sub_images@, e),
        RasterInput::Container(ContainerData::Rgb { .. }) => e == GraphicsError::NotIndexed,
        RasterInput::Other(_) => e == GraphicsError::NotContainer,
    }
}

impl AnimationSet {
    /// One partitioning step: take the sub-image at `pos` as a run's
    /// first element and consume exactly the count it declares,
    /// including itself; `None` once the sequence is exhausted. Fails
    /// with a truncation error when fewer sub-images remain than the
    /// run declares, or when it declares none at all.
    pub fn next_animation(sub_images: &Vec<SubImage>, pos: usize) -> (r: Result<
        Option<(Vec<SubImage>, usize)>,
        GraphicsError,
    >)
        requires
            pos < sub_images@.len() ==> sub_images@[pos as int].has_metadata(),
        ensures
            pos >= sub_images@.len() ==> (r matches Ok(opt) && opt is None),
            pos < sub_images@.len() ==> ({
                let d = sub_images@[pos as int].declared_frames();
                if 1 <= d && pos + d <= sub_images@.len() {
                    &&& r matches Ok(opt)
                    &&& opt matches Some(step)
                    &&& step.0@.len() == d
                    &&& forall|k: int|
                        0 <= k < d ==> sub_image_eq(#[trigger] step.0@[k], sub_images@[pos + k])
                    &&& step.1 as int == pos + d
                } else {
                    r matches Err(e) && e == GraphicsError::Truncation
                }
            }),
    {
        let n = sub_images.len();
        if pos >= n {
            return Ok(None);
        }
        let number_of_frames = sub_images[pos].app_data.unwrap().number_of_frames;
        if number_of_frames == 0 {
            return Err(GraphicsError::Truncation);
        }
        let count = number_of_frames as usize;
        if count > n - pos {
            return Err(GraphicsError::Truncation);
        }
        let mut key_frames: Vec<SubImage> = Vec::new();
        let mut i: usize = pos;
        while i < pos + count
            invariant
                n == sub_images@.len(),
                pos + count <= n,
                pos <= i <= pos + count,
                key_frames@.len() == i - pos,
                forall|k: int|
                    0 <= k < i - pos ==> sub_image_eq(
                        #[trigger] key_frames@[k],
                        sub_images@[pos + k],
                    ),
            decreases pos + count - i,
        {
            key_frames.push(sub_images[i].clone());
            i += 1;
        }
        Ok(Some((key_frames, pos + count)))
    }

    /// Partition the flat sequence into runs and assemble each run via
    /// the Animation Builder. Fails on an empty list, on a member
    /// lacking metadata, on a truncated run, on a buffer that disagrees
    /// with its dimensions, and when fewer than two runs complete: a
    /// single completed run is a plain animation, not a set.
    pub fn from_sub_images(palette: &Palette, sub_images: &Vec<SubImage>) -> (r: Result<
        AnimationSet,
        GraphicsError,
    >)
        requires
            all_indices_valid(sub_images@, palette.colors@.len() as int),
        ensures
            r is Ok <==> animation_set_subs_ok(sub_images@),
            r matches Ok(s) ==> animations_match(palette.colors@, sub_images@, s.animations@),
            r matches Err(e) ==> animation_set_error_ok(sub_images@, e),
    {
        let ghost subs = sub_images@;
        let n = sub_images.len();
        if n == 0 {
            return Err(GraphicsError::Empty);
        }
        let mut i: usize = 0;
        while i < n
            invariant
                subs == sub_images@,
                n == subs.len(),
                i <= n,
                forall|j: int| 0 <= j < i ==> (#[trigger] subs[j]).has_metadata(),
            decreases n - i,
        {
            if sub_images[i].app_data.is_none() {
                return Err(GraphicsError::MetadataMissing);
            }
            i += 1;
        }
        let mut animations: Vec<Animation> = Vec::new();
        let mut pos: usize = 0;
        let ghost mut starts: Seq<int> = Seq::empty();
        loop
            invariant
                subs == sub_images@,
                n == subs.len(),
                n > 0,
                all_indices_valid(subs, palette.colors@.len() as int),
                all_have_metadata(subs),
                pos <= n,
                is_run_chain(subs, starts, 0, pos as int),
                partition_ok(subs, 0) ==> partition_ok(subs, pos as int),
                animations@.len() == starts.len(),
                forall|j: int| 0 <= j < pos ==> (#[trigger] subs[j]).size_ok(),
                forall|i2: int|
                    0 <= i2 < starts.len() ==> textures_match(
                        palette.colors@,
                        run_at(subs, starts[i2]),
                        (#[trigger] animations@[i2]).key_frames@,
                    ),
            ensures
                subs == sub_images@,
                pos == n,
                is_run_chain(subs, starts, 0, n as int),
                animations@.len() == starts.len(),
                all_sizes_ok(subs),
                forall|i2: int|
                    0 <= i2 < starts.len() ==> textures_match(
                        palette.colors@,
                        run_at(subs, starts[i2]),
                        (#[trigger] animations@[i2]).key_frames@,
                    ),
            decreases n - pos,
        {
            match AnimationSet::next_animation(sub_images, pos) {
                Ok(Some(step)) => {
                    let (key_frames, new_pos) = step;
                    let ghost d = subs[pos as int].declared_frames();
                    proof {
                        assert forall|k: int|
                            0 <= k < key_frames@.len() implies (#[trigger] key_frames@[k]).indices_valid(
                            palette.colors@.len() as int,
                        ) by {
                            assert(sub_image_eq(key_frames@[k], subs[pos + k]));
                            assert(subs[pos + k].indices_valid(palette.colors@.len() as int));
                        }
                        assert forall|k: int|
                            0 <= k < key_frames@.len() implies (#[trigger] key_frames@[k]).has_metadata() by {
                            assert(sub_image_eq(key_frames@[k], subs[pos + k]));
                        }
                        assert(key_frames@[0].declared_frames() == key_frames@.len());
                    }
                    match Animation::from_sub_images(palette, &key_frames) {
                        Ok(animation) => {
                            proof {
                                assert forall|j: int|
                                    pos <= j < new_pos implies (#[trigger] subs[j]).size_ok() by {
                                    assert(sub_image_eq(key_frames@[j - pos], subs[j]));
                                    assert(key_frames@[j - pos].size_ok());
                                }
                                lemma_run_chain_push(subs, starts, 0, pos as int);
                                lemma_textures_match_content(
                                    palette.colors@,
                                    key_frames@,
                                    run_at(subs, pos as int),
                                    animation.key_frames@,
                                );
                                starts = starts.push(pos as int);
                            }
                            animations.push(animation);
                            pos = new_pos;
                        },
                        Err(e) => {
                            proof {
                                assert(!all_sizes_ok(key_frames@));
                                let k = choose|k: int|
                                    0 <= k < key_frames@.len() && !(#[trigger] key_frames@[k]).size_ok();
                                assert(sub_image_eq(key_frames@[k], subs[pos + k]));
                                assert(!subs[pos + k].size_ok());
                                assert(!all_sizes_ok(subs));
                            }
                            return Err(e);
                        },
                    }
                },
                Ok(None) => {
                    break;
                },
                Err(e) => {
                    proof {
                        if partition_ok(subs, 0) {
                            assert(partition_ok(subs, pos as int));
                            assert(false);
                        }
                    }
                    return Err(e);
                },
            }
        }
        proof {
            lemma_run_chain_complete(subs, starts, 0);
        }
        if animations.len() < 2 {
            return Err(GraphicsError::TooFewAnimations);
        }
        Ok(AnimationSet { animations })
    }

    /// Interpret one input as an animation set: only a non-empty
    /// indexed container that partitions into at least two runs
    /// qualifies.
    pub fn read(input: &RasterInput) -> (r: Result<AnimationSet, GraphicsError>)
        requires
            input_indices_valid(*input),
        ensures
            r is Ok <==> animation_set_ok(*input),
            r matches Ok(s) ==> animation_set_read_matches(*input, s),
            r matches Err(e) ==> animation_set_read_error(*input, e),
    {
        match input {
            RasterInput::Container(ContainerData::Indexed { palette, sub_images }) => {
                AnimationSet::from_sub_images(palette, sub_images)
            },
            RasterInput::Container(ContainerData::Rgb { .. }) => Err(GraphicsError::NotIndexed),
            RasterInput::Other(_) => Err(GraphicsError::NotContainer),
        }
    }

    /// Normalize every animation of the set in order, one uniform-size
    /// frame sequence per animation.
    pub fn into_frames(&self) -> (r: Result<Vec<Vec<Frame>>, GraphicsError>)
        requires
            forall|i: int|
                0 <= i < self.animations@.len() ==> ((#[trigger] self.animations@[i]).key_frames@.len()
                    > 0 ==> canvas_fits(self.animations@[i].key_frames@)),
        ensures
            r is Ok <==> forall|i: int|
                0 <= i < self.animations@.len() ==> (#[trigger] self.animations@[i]).key_frames@.len()
                    > 0 && all_textures_size_ok(self.animations@[i].key_frames@),
            r matches Ok(fs) ==> {
                &&& fs@.len() == self.animations@.len()
                &&& forall|i: int|
                    0 <= i < fs@.len() ==> (#[trigger] fs@[i])@.len()
                        == self.animations@[i].key_frames@.len()
                &&& forall|i: int, j: int|
                    0 <= i < fs@.len() && 0 <= j < fs@[i]@.len() ==> frame_matches(
                        self.animations@[i].key_frames@,
                        j,
                        #[trigger] fs@[i]@[j],
                    )
            },
            r matches Err(e) ==> exists|i: int|
                0 <= i < self.animations@.len() && e == frames_error(
                    (#[trigger] self.animations@[i]).key_frames@,
                ) && !(self.animations@[i].key_frames@.len() > 0 && all_textures_size_ok(
                    self.animations@[i].key_frames@,
                )),
    {
        let n = self.animations.len();
        let mut out: Vec<Vec<Frame>> = Vec::new();
        let mut i: usize = 0;
        while i < n
            invariant
                n == self.animations@.len(),
                forall|i2: int|
                    0 <= i2 < n ==> ((#[trigger] self.animations@[i2]).key_frames@.len() > 0
                        ==> canvas_fits(self.animations@[i2].key_frames@)),
                i <= n,
                out@.len() == i,
                forall|i2: int|
                    0 <= i2 < i ==> (#[trigger] self.animations@[i2]).key_frames@.len() > 0
                        && all_textures_size_ok(self.animations@[i2].key_frames@),
                forall|i2: int|
                    0 <= i2 < i ==> (#[trigger] out@[i2])@.len()
                        == self.animations@[i2].key_frames@.len(),
                forall|i2: int, j: int|
                    0 <= i2 < i && 0 <= j < out@[i2]@.len() ==> frame_matches(
                        self.animations@[i2].key_frames@,
                        j,
                        #[trigger] out@[i2]@[j],
                    ),
            decreases n - i,
        {
            match self.animations[i].into_frames() {
                Ok(frames) => out.push(frames),
                Err(e) => {
                    return Err(e);
                },
            }
            i += 1;
        }
        Ok(out)
    }
}

} // verus!
