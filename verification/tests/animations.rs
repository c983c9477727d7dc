use stci_assets::animation::Animation;
use stci_assets::animation_set::AnimationSet;
use stci_assets::container::{AppData, Palette, Rgb, SubImage};
use stci_assets::error::GraphicsError;

fn palette(colors: Vec<(u8, u8, u8)>) -> Palette {
    let mut out: Vec<Rgb> = Vec::new();
    for (r, g, b) in colors {
        out.push(Rgb { r, g, b });
    }
    Palette { colors: out }
}

fn sub(w: u16, h: u16, ox: i16, oy: i16, data: Vec<u8>, frames: Option<u16>) -> SubImage {
    SubImage {
        width: w,
        height: h,
        offset_x: ox,
        offset_y: oy,
        data,
        app_data: frames.map(|number_of_frames| AppData { number_of_frames }),
    }
}

#[test]
fn animation_accepts_matching_declared_count() {
    let p = palette(vec![(1, 1, 1), (2, 2, 2)]);
    let subs = vec![
        sub(1, 1, 0, 0, vec![1], Some(2)),
        sub(1, 1, 3, 4, vec![0], Some(7)),
    ];
    let a = Animation::from_sub_images(&p, &subs).unwrap();
    assert_eq!(a.key_frames.len(), 2);
    assert_eq!(a.key_frames[0].data, vec![2, 2, 2, 255]);
    assert_eq!((a.key_frames[1].offset_x, a.key_frames[1].offset_y), (3, 4));
}

#[test]
fn animation_rejects_count_mismatch() {
    let p = palette(vec![(0, 0, 0)]);
    let subs = vec![
        sub(1, 1, 0, 0, vec![0], Some(3)),
        sub(1, 1, 0, 0, vec![0], Some(3)),
    ];
    assert_eq!(
        Animation::from_sub_images(&p, &subs).unwrap_err(),
        GraphicsError::CountMismatch
    );
}

#[test]
fn animation_rejects_missing_metadata() {
    let p = palette(vec![(0, 0, 0)]);
    let subs = vec![
        sub(1, 1, 0, 0, vec![0], Some(2)),
        sub(1, 1, 0, 0, vec![0], None),
    ];
    assert_eq!(
        Animation::from_sub_images(&p, &subs).unwrap_err(),
        GraphicsError::MetadataMissing
    );
}

#[test]
fn animation_rejects_empty_list() {
    let p = palette(vec![(0, 0, 0)]);
    let subs: Vec<SubImage> = Vec::new();
    assert_eq!(
        Animation::from_sub_images(&p, &subs).unwrap_err(),
        GraphicsError::Empty
    );
}

#[test]
fn into_frames_normalizes_to_shared_canvas() {
    // two 4x4 key frames at offsets (0,0) and (2,2): the canvas is 6x6,
    // the first blitted at (0,0), the second at (2,2)
    let p = palette(vec![(9, 9, 9), (5, 5, 5)]);
    let subs = vec![
        sub(4, 4, 0, 0, vec![1; 16], Some(2)),
        sub(4, 4, 2, 2, vec![1; 16], Some(0)),
    ];
    let a = Animation::from_sub_images(&p, &subs).unwrap();
    let frames = a.into_frames().unwrap();
    assert_eq!(frames.len(), 2);
    for f in &frames {
        assert_eq!((f.width, f.height), (6, 6));
        assert_eq!(f.data.len(), 6 * 6 * 4);
        assert_eq!(
            (f.delay_numer_ms, f.delay_denom_ms),
            (frames[0].delay_numer_ms, frames[0].delay_denom_ms)
        );
    }
    let px = |f: &stci_assets::animation::Frame, x: usize, y: usize| {
        let base = 4 * (y * 6 + x);
        (
            f.data[base],
            f.data[base + 1],
            f.data[base + 2],
            f.data[base + 3],
        )
    };
    // first frame: pixels fill (0,0)..(4,4), transparent elsewhere
    assert_eq!(px(&frames[0], 0, 0), (5, 5, 5, 255));
    assert_eq!(px(&frames[0], 3, 3), (5, 5, 5, 255));
    assert_eq!(px(&frames[0], 4, 4), (0, 0, 0, 0));
    assert_eq!(px(&frames[0], 5, 5), (0, 0, 0, 0));
    // second frame: pixels fill (2,2)..(6,6), transparent elsewhere
    assert_eq!(px(&frames[1], 0, 0), (0, 0, 0, 0));
    assert_eq!(px(&frames[1], 1, 1), (0, 0, 0, 0));
    assert_eq!(px(&frames[1], 2, 2), (5, 5, 5, 255));
    assert_eq!(px(&frames[1], 5, 5), (5, 5, 5, 255));
}

#[test]
fn into_frames_rejects_empty_animation() {
    let a = Animation {
        key_frames: Vec::new(),
    };
    assert_eq!(a.into_frames().unwrap_err(), GraphicsError::Empty);
}

#[test]
fn animation_set_partitions_runs_in_order() {
    // [a declares 2, b, c declares 1] yields exactly [a, b] and [c]
    let p = palette(vec![(1, 2, 3)]);
    let subs = vec![
        sub(1, 1, 10, 0, vec![0], Some(2)),
        sub(1, 1, 11, 0, vec![0], Some(9)),
        sub(1, 1, 12, 0, vec![0], Some(1)),
    ];
    let set = AnimationSet::from_sub_images(&p, &subs).unwrap();
    assert_eq!(set.animations.len(), 2);
    assert_eq!(set.animations[0].key_frames.len(), 2);
    assert_eq!(set.animations[0].key_frames[0].offset_x, 10);
    assert_eq!(set.animations[0].key_frames[1].offset_x, 11);
    assert_eq!(set.animations[1].key_frames.len(), 1);
    assert_eq!(set.animations[1].key_frames[0].offset_x, 12);
}

#[test]
fn animation_set_reports_truncated_run() {
    let p = palette(vec![(0, 0, 0)]);
    let subs = vec![
        sub(1, 1, 0, 0, vec![0], Some(3)),
        sub(1, 1, 0, 0, vec![0], Some(0)),
    ];
    assert_eq!(
        AnimationSet::from_sub_images(&p, &subs).unwrap_err(),
        GraphicsError::Truncation
    );
}

#[test]
fn animation_set_rejects_one_complete_two_frame_run() {
    // a run that consumes the whole sequence completes, so only the
    // run count is at fault
    let p = palette(vec![(0, 0, 0)]);
    let subs = vec![
        sub(1, 1, 0, 0, vec![0], Some(2)),
        sub(1, 1, 0, 0, vec![0], Some(2)),
    ];
    assert_eq!(
        AnimationSet::from_sub_images(&p, &subs).unwrap_err(),
        GraphicsError::TooFewAnimations
    );
    assert_eq!(Animation::from_sub_images(&p, &subs).unwrap().key_frames.len(), 2);
}

#[test]
fn animation_set_rejects_single_run_as_plain_animation() {
    // one completed run is a plain animation, not a set
    let p = palette(vec![(0, 0, 0)]);
    let subs = vec![sub(1, 1, 0, 0, vec![0], Some(1))];
    assert_eq!(
        AnimationSet::from_sub_images(&p, &subs).unwrap_err(),
        GraphicsError::TooFewAnimations
    );
    let a = Animation::from_sub_images(&p, &subs).unwrap();
    assert_eq!(a.key_frames.len(), 1);
}

#[test]
fn animation_set_requires_metadata_on_every_member() {
    let p = palette(vec![(0, 0, 0)]);
    let subs = vec![
        sub(1, 1, 0, 0, vec![0], Some(1)),
        sub(1, 1, 0, 0, vec![0], None),
    ];
    assert_eq!(
        AnimationSet::from_sub_images(&p, &subs).unwrap_err(),
        GraphicsError::MetadataMissing
    );
}

#[test]
fn animation_set_rejects_empty_list() {
    let p = palette(vec![(0, 0, 0)]);
    let subs: Vec<SubImage> = Vec::new();
    assert_eq!(
        AnimationSet::from_sub_images(&p, &subs).unwrap_err(),
        GraphicsError::Empty
    );
}

#[test]
fn animation_set_into_frames_normalizes_every_run() {
    let p = palette(vec![(7, 8, 9)]);
    let subs = vec![
        sub(1, 1, 0, 0, vec![0], Some(1)),
        sub(2, 2, 0, 0, vec![0; 4], Some(1)),
    ];
    let set = AnimationSet::from_sub_images(&p, &subs).unwrap();
    let all = set.into_frames().unwrap();
    assert_eq!(all.len(), 2);
    assert_eq!(all[0].len(), 1);
    assert_eq!((all[0][0].width, all[0][0].height), (1, 1));
    assert_eq!((all[1][0].width, all[1][0].height), (2, 2));
}

#[test]
fn decoding_twice_is_bit_identical() {
    let build = || {
        let p = palette(vec![(1, 2, 3), (4, 5, 6)]);
        let subs = vec![
            sub(2, 1, 0, 0, vec![0, 1], Some(2)),
            sub(1, 2, 1, 1, vec![1, 0], Some(0)),
        ];
        let a = Animation::from_sub_images(&p, &subs).unwrap();
        a.into_frames().unwrap()
    };
    let first = build();
    let second = build();
    assert_eq!(first.len(), second.len());
    for (f1, f2) in first.iter().zip(second.iter()) {
        assert_eq!(f1.width, f2.width);
        assert_eq!(f1.height, f2.height);
        assert_eq!(f1.data, f2.data);
    }
}
