use dragon_lair::loader::{icon_image, inverted_icon_image};
use dragon_lair::sprite_sheet::{folder_frame_images, frame_images, is_png_file_name, SpriteSheet};
use std::io::Cursor;
use std::num::NonZeroU32;

fn png(width: u32, height: u32, pixels: Vec<u8>) -> Vec<u8> {
    let img = image::RgbaImage::from_raw(width, height, pixels).unwrap();
    let mut bytes = Vec::new();
    img.write_to(&mut Cursor::new(&mut bytes), image::ImageFormat::Png).unwrap();
    bytes
}

fn pixel(v: u8) -> [u8; 4] {
    [v, v + 1, v + 2, 255]
}

/// A 5 x 2 image whose pixel (x, y) is pixel(10 * y + x).
fn sheet() -> Vec<u8> {
    let mut pixels = Vec::new();
    for y in 0..2u8 {
        for x in 0..5u8 {
            pixels.extend_from_slice(&pixel(10 * y + x));
        }
    }
    png(5, 2, pixels)
}

#[test]
fn icon_decodes_png() {
    let img = icon_image(&png(1, 2, vec![1, 2, 3, 4, 5, 6, 7, 8])).unwrap();
    assert_eq!((img.width, img.height), (1, 2));
    assert_eq!(img.pixels, vec![1, 2, 3, 4, 5, 6, 7, 8]);
}

#[test]
fn icon_rejects_garbage() {
    assert!(icon_image(&[1, 2, 3, 4]).is_none());
    assert!(inverted_icon_image(&[]).is_none());
}

#[test]
fn inverted_icon_inverts_colours() {
    let img = inverted_icon_image(&png(1, 1, vec![0, 100, 255, 80])).unwrap();
    assert_eq!(img.pixels, vec![255, 155, 0, 80]);
}

#[test]
fn sheet_cut_into_frames_row_by_row() {
    let frames = frame_images(&sheet(), 2, 1).unwrap();
    // 5 / 2 = 2 frames per row, 2 rows.
    assert_eq!(frames.len(), 4);
    for f in &frames {
        assert_eq!((f.width, f.height), (2, 1));
    }
    let mut expected = Vec::new();
    expected.extend_from_slice(&pixel(0));
    expected.extend_from_slice(&pixel(1));
    assert_eq!(frames[0].pixels, expected);
    let mut expected = Vec::new();
    expected.extend_from_slice(&pixel(2));
    expected.extend_from_slice(&pixel(3));
    assert_eq!(frames[1].pixels, expected);
    let mut expected = Vec::new();
    expected.extend_from_slice(&pixel(12));
    expected.extend_from_slice(&pixel(13));
    assert_eq!(frames[3].pixels, expected);
}

#[test]
fn frames_larger_than_sheet_give_none_in_list() {
    let frames = frame_images(&sheet(), 6, 1).unwrap();
    assert!(frames.is_empty());
}

#[test]
fn unreadable_sheet() {
    assert!(frame_images(b"not a png", 16, 16).is_none());
}

#[test]
fn folder_frames_in_order() {
    let files = vec![png(1, 1, vec![1, 1, 1, 1]), png(1, 1, vec![2, 2, 2, 2])];
    let frames = folder_frame_images(&files).unwrap();
    assert_eq!(frames.len(), 2);
    assert_eq!(frames[1].pixels, vec![2, 2, 2, 2]);
    let bad = vec![png(1, 1, vec![1, 1, 1, 1]), vec![0, 1]];
    assert!(folder_frame_images(&bad).is_none());
}

#[test]
fn png_names() {
    assert!(is_png_file_name("slash_01.png"));
    assert!(is_png_file_name("a.b.png"));
    assert!(is_png_file_name("..png"));
    assert!(!is_png_file_name(".png"));
    assert!(!is_png_file_name("png"));
    assert!(!is_png_file_name("image.PNG"));
    assert!(!is_png_file_name("image.png.txt"));
    assert!(!is_png_file_name("imagepng"));
}

fn tex(n: u32) -> glow::NativeTexture {
    glow::NativeTexture(NonZeroU32::new(n).unwrap())
}

#[test]
fn frames_cycle() {
    let sheet = SpriteSheet::new(vec![tex(3), tex(4), tex(5)]);
    assert_eq!(sheet.get_frame_count_native(), 3);
    assert_eq!(sheet.get_frame_native(0), tex(3));
    assert_eq!(sheet.get_frame_native(2), tex(5));
    assert_eq!(sheet.get_frame_native(4), tex(4));
    assert_eq!(sheet.get_frame_native(4 + 3), sheet.get_frame_native(4));
}
