use stci_assets::container::{AppData, Palette, Rgb, SubImage};
use stci_assets::error::GraphicsError;
use stci_assets::texture::Texture;
use stci_assets::texture_set::TextureSet;

fn palette(colors: Vec<(u8, u8, u8)>) -> Palette {
    let mut out: Vec<Rgb> = Vec::new();
    for (r, g, b) in colors {
        out.push(Rgb { r, g, b });
    }
    Palette { colors: out }
}

fn sub(w: u16, h: u16, ox: i16, oy: i16, data: Vec<u8>, frames: Option<u16>) -> SubImage {
    SubImage {
        width: w,
        height: h,
        offset_x: ox,
        offset_y: oy,
        data,
        app_data: frames.map(|number_of_frames| AppData { number_of_frames }),
    }
}

#[test]
fn texture_new_round_trips_valid_buffer() {
    let data: Vec<u8> = (0..16).collect();
    let t = Texture::new(2, 2, -3, 7, data.clone()).unwrap();
    assert_eq!(t.width, 2);
    assert_eq!(t.height, 2);
    assert_eq!(t.offset_x, -3);
    assert_eq!(t.offset_y, 7);
    assert_eq!(t.data, data);
}

#[test]
fn texture_new_rejects_wrong_length() {
    let r = Texture::new(2, 2, 0, 0, vec![0u8; 15]);
    assert_eq!(r.unwrap_err(), GraphicsError::SizeMismatch);
    let r = Texture::new(2, 2, 0, 0, vec![0u8; 17]);
    assert_eq!(r.unwrap_err(), GraphicsError::SizeMismatch);
}

#[test]
fn texture_new_accepts_empty_image() {
    let t = Texture::new(0, 0, 0, 0, Vec::new()).unwrap();
    assert_eq!(t.data.len(), 0);
}

#[test]
fn rgb565_expands_primary_colors() {
    let t = Texture::from_rgb565(3, 1, &vec![0xF800, 0x07E0, 0x001F]).unwrap();
    assert_eq!(t.data, vec![0xF8, 0, 0, 255, 0, 0xFC, 0, 255, 0, 0, 0xF8, 255]);
    assert_eq!(t.offset_x, 0);
    assert_eq!(t.offset_y, 0);
}

#[test]
fn rgb565_rejects_wrong_pixel_count() {
    let r = Texture::from_rgb565(2, 2, &vec![0u16; 3]);
    assert_eq!(r.unwrap_err(), GraphicsError::SizeMismatch);
}

#[test]
fn sub_image_resolves_palette_with_transparent_index() {
    let p = palette(vec![(1, 2, 3), (4, 5, 6)]);
    let s = sub(2, 1, -1, 2, vec![0, 1], None);
    let t = Texture::from_sub_image(&p, &s).unwrap();
    // index 0 is the designated transparent index: alpha 0
    assert_eq!(t.data, vec![1, 2, 3, 0, 4, 5, 6, 255]);
    assert_eq!((t.width, t.height), (2, 1));
    assert_eq!((t.offset_x, t.offset_y), (-1, 2));
}

#[test]
fn sub_image_texture_rejects_nonzero_frame_count() {
    // texture usage implies a non-animated frame: a declared count of
    // zero or absent metadata succeeds, anything else is structural
    let p = palette(vec![(1, 2, 3)]);
    let declared = sub(1, 1, 0, 0, vec![0], Some(2));
    assert_eq!(
        Texture::from_sub_image(&p, &declared).unwrap_err(),
        GraphicsError::NonzeroFrameCount
    );
    let zero = sub(1, 1, 0, 0, vec![0], Some(0));
    assert!(Texture::from_sub_image(&p, &zero).is_ok());
    let absent = sub(1, 1, 0, 0, vec![0], None);
    assert!(Texture::from_sub_image(&p, &absent).is_ok());
}

#[test]
fn sub_image_rejects_wrong_index_count() {
    let p = palette(vec![(1, 2, 3)]);
    let s = sub(2, 2, 0, 0, vec![0, 0, 0], None);
    assert_eq!(
        Texture::from_sub_image(&p, &s).unwrap_err(),
        GraphicsError::SizeMismatch
    );
}

#[test]
fn texture_set_preserves_order_and_count() {
    let p = palette(vec![(9, 9, 9), (1, 1, 1)]);
    let subs = vec![
        sub(1, 1, 0, 0, vec![1], None),
        sub(2, 1, 5, 6, vec![0, 1], None),
        sub(1, 2, -2, -4, vec![1, 0], None),
    ];
    let set = TextureSet::from_sub_images(&p, &subs).unwrap();
    assert_eq!(set.textures.len(), 3);
    assert_eq!((set.textures[0].width, set.textures[0].height), (1, 1));
    assert_eq!((set.textures[1].offset_x, set.textures[1].offset_y), (5, 6));
    assert_eq!((set.textures[2].offset_x, set.textures[2].offset_y), (-2, -4));
    assert_eq!(set.textures[1].data, vec![9, 9, 9, 0, 1, 1, 1, 255]);
}

#[test]
fn texture_set_rejects_empty_list() {
    let p = palette(vec![(0, 0, 0)]);
    let subs: Vec<SubImage> = Vec::new();
    assert_eq!(
        TextureSet::from_sub_images(&p, &subs).unwrap_err(),
        GraphicsError::Empty
    );
}

#[test]
fn texture_set_rejects_metadata() {
    let p = palette(vec![(0, 0, 0)]);
    let subs = vec![
        sub(1, 1, 0, 0, vec![0], None),
        sub(1, 1, 0, 0, vec![0], Some(0)),
    ];
    assert_eq!(
        TextureSet::from_sub_images(&p, &subs).unwrap_err(),
        GraphicsError::MetadataPresent
    );
}
