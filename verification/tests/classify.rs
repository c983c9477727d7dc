use std::io::Cursor;

use stci_assets::animation::Animation;
use stci_assets::animation_set::AnimationSet;
use stci_assets::container::{AppData, ContainerData, Palette, RasterInput, Rgb, SubImage};
use stci_assets::dispatch::Decoded;
use stci_assets::error::GraphicsError;
use stci_assets::file_type::{file_type_from_path, FileType};
use stci_assets::texture::Texture;
use stci_assets::texture_set::TextureSet;

fn palette(colors: Vec<(u8, u8, u8)>) -> Palette {
    let mut out: Vec<Rgb> = Vec::new();
    for (r, g, b) in colors {
        out.push(Rgb { r, g, b });
    }
    Palette { colors: out }
}

fn sub(w: u16, h: u16, ox: i16, oy: i16, data: Vec<u8>, frames: Option<u16>) -> SubImage {
    SubImage {
        width: w,
        height: h,
        offset_x: ox,
        offset_y: oy,
        data,
        app_data: frames.map(|number_of_frames| AppData { number_of_frames }),
    }
}

fn indexed(palette: Palette, sub_images: Vec<SubImage>) -> RasterInput {
    RasterInput::Container(ContainerData::Indexed {
        palette,
        sub_images,
    })
}

#[test]
fn rgb_block_classifies_only_as_texture() {
    let input = RasterInput::Container(ContainerData::Rgb {
        width: 2,
        height: 1,
        data: vec![0xF800, 0x001F],
    });
    assert_eq!(
        AnimationSet::read(&input).unwrap_err(),
        GraphicsError::NotIndexed
    );
    assert_eq!(
        Animation::read(&input).unwrap_err(),
        GraphicsError::NotIndexed
    );
    assert_eq!(
        TextureSet::read(&input).unwrap_err(),
        GraphicsError::NotIndexed
    );
    let t = Texture::read(&input).unwrap();
    assert_eq!((t.width, t.height), (2, 1));
    match Decoded::classify(&input).unwrap() {
        Decoded::Texture(t) => assert_eq!(t.data.len(), 8),
        _ => panic!("a direct-color block must classify as a texture"),
    }
}

#[test]
fn metadata_bearing_container_classifies_as_animation() {
    let p = palette(vec![(1, 1, 1)]);
    let subs = vec![
        sub(1, 1, 0, 0, vec![0], Some(2)),
        sub(1, 1, 0, 0, vec![0], Some(2)),
    ];
    match Decoded::classify(&indexed(p, subs)).unwrap() {
        Decoded::Animation(a) => assert_eq!(a.key_frames.len(), 2),
        _ => panic!("a single metadata run must classify as an animation"),
    }
}

#[test]
fn two_runs_classify_as_animation_set() {
    let p = palette(vec![(1, 1, 1)]);
    let subs = vec![
        sub(1, 1, 0, 0, vec![0], Some(1)),
        sub(1, 1, 0, 0, vec![0], Some(1)),
    ];
    match Decoded::classify(&indexed(p, subs)).unwrap() {
        Decoded::AnimationSet(s) => assert_eq!(s.animations.len(), 2),
        _ => panic!("two runs must classify as an animation set"),
    }
}

#[test]
fn single_metadata_free_sub_image_classifies_as_texture_set() {
    // both the texture-set and the texture interpretation accept this
    // input; the fixed priority order reports the texture set
    let p = palette(vec![(1, 1, 1)]);
    let subs = vec![sub(1, 1, 0, 0, vec![0], None)];
    match Decoded::classify(&indexed(p, subs)).unwrap() {
        Decoded::TextureSet(s) => assert_eq!(s.textures.len(), 1),
        _ => panic!("dispatch order must report the texture set first"),
    }
}

#[test]
fn texture_read_accepts_zero_frame_metadata_only() {
    let p = palette(vec![(1, 1, 1)]);
    let ok_absent = indexed(p.clone(), vec![sub(1, 1, 0, 0, vec![0], None)]);
    assert!(Texture::read(&ok_absent).is_ok());
    let ok_zero = indexed(p.clone(), vec![sub(1, 1, 0, 0, vec![0], Some(0))]);
    assert!(Texture::read(&ok_zero).is_ok());
    let bad = indexed(p.clone(), vec![sub(1, 1, 0, 0, vec![0], Some(1))]);
    assert_eq!(
        Texture::read(&bad).unwrap_err(),
        GraphicsError::NonzeroFrameCount
    );
    let two = indexed(
        p,
        vec![
            sub(1, 1, 0, 0, vec![0], None),
            sub(1, 1, 0, 0, vec![0], None),
        ],
    );
    assert_eq!(
        Texture::read(&two).unwrap_err(),
        GraphicsError::NotSingleSubImage
    );
}

#[test]
fn classification_failure_carries_both_diagnostics() {
    let input = RasterInput::Container(ContainerData::Rgb {
        width: 2,
        height: 2,
        data: vec![0u16; 3],
    });
    let e = Decoded::classify(&input).unwrap_err();
    assert_eq!(e.animation_error, GraphicsError::NotIndexed);
    assert_eq!(e.texture_error, GraphicsError::SizeMismatch);
}

#[test]
fn non_container_input_rejected_by_container_readers() {
    let input = RasterInput::Other(vec![1, 2, 3]);
    assert_eq!(
        AnimationSet::read(&input).unwrap_err(),
        GraphicsError::NotContainer
    );
    assert_eq!(
        Animation::read(&input).unwrap_err(),
        GraphicsError::NotContainer
    );
    assert_eq!(
        TextureSet::read(&input).unwrap_err(),
        GraphicsError::NotContainer
    );
}

#[test]
fn generic_decoder_round_trips_png_bytes() {
    let pixels: Vec<u8> = vec![10, 20, 30, 255, 40, 50, 60, 255];
    let img = image::RgbaImage::from_raw(2, 1, pixels.clone()).unwrap();
    let mut bytes: Vec<u8> = Vec::new();
    img.write_to(&mut Cursor::new(&mut bytes), image::ImageFormat::Png)
        .unwrap();
    let t = Texture::from_generic_image(&bytes).unwrap();
    assert_eq!((t.width, t.height), (2, 1));
    assert_eq!((t.offset_x, t.offset_y), (0, 0));
    assert_eq!(t.data, pixels);
}

#[test]
fn generic_decoder_rejects_garbage() {
    let bytes: Vec<u8> = vec![0, 1, 2, 3, 4, 5, 6, 7];
    assert_eq!(
        Texture::from_generic_image(&bytes).unwrap_err(),
        GraphicsError::ImageDecode
    );
    let input = RasterInput::Other(bytes);
    assert_eq!(
        Texture::read(&input).unwrap_err(),
        GraphicsError::ImageDecode
    );
}

#[test]
fn file_types_follow_extensions() {
    assert_eq!(file_type_from_path("mods/data.slf"), FileType::Slf);
    assert_eq!(file_type_from_path("TILESETS/0/GRASS.STI"), FileType::Stci);
    assert_eq!(file_type_from_path("face.pcx"), FileType::Pcx);
    assert_eq!(file_type_from_path("shot.Tga"), FileType::Tga);
    assert_eq!(file_type_from_path("walk.gap"), FileType::Gap);
    assert_eq!(file_type_from_path("speech.WAV"), FileType::Wav);
    assert_eq!(file_type_from_path("body.jsd"), FileType::Jsd);
    assert_eq!(file_type_from_path("readme"), FileType::Unknown);
    assert_eq!(file_type_from_path(".hidden"), FileType::Unknown);
    assert_eq!(file_type_from_path("dir.d/file"), FileType::Unknown);
    assert_eq!(file_type_from_path("note.txt"), FileType::Unknown);
    assert_eq!(file_type_from_path("a.stci"), FileType::Unknown);
}
