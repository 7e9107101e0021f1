//! Decoded RGBA images held as plain values, and the two image operations
//! the sprite loader needs from the `image` crate: decoding and cropping.

use vstd::prelude::*;

verus! {

/// An 8-bit RGBA image: `pixels` holds `width * height` pixels row by row,
/// four bytes each (red, green, blue, alpha).
#[derive(Clone, Debug)]
pub struct RgbaImage {
    pub width: u32,
    pub height: u32,
    pub pixels: Vec<u8>,
}

impl RgbaImage {
    /// The pixel buffer has exactly the size the dimensions call for.
    pub open spec fn wf(&self) -> bool {
        self.pixels@.len() == 4 * self.width * self.height
    }

    /// The image as plain values: width, height and bytes.
    pub open spec fn as_tuple(&self) -> (u32, u32, Seq<u8>) {
        (self.width, self.height, self.pixels@)
    }
}

/// What decoding `bytes` (in any format the `image` crate recognises) and
/// converting the result to 8-bit RGBA gives: width, height and pixel bytes,
/// or `None` when the bytes are not a readable image.
pub uninterp spec fn decoded_rgba(bytes: Seq<u8>) -> Option<(u32, u32, Seq<u8>)>;

/// Calls `image::load_from_memory` and converts the result with
/// `DynamicImage::to_rgba8`. Claimed: the result is the named decoding of
/// the bytes (`None` exactly when decoding fails), and its buffer holds four
/// bytes per pixel, as `to_rgba8` allocates it.
#[verifier::external_body]
pub(crate) fn decode_rgba(bytes: &[u8]) -> (res: Option<RgbaImage>)
    ensures
        match res {
            Some(img) => decoded_rgba(bytes@) == Some(img.as_tuple()) && img.wf(),
            None => decoded_rgba(bytes@) is None,
        },
{
    match image::load_from_memory(bytes) {
        Ok(decoded) => {
            let rgba = decoded.to_rgba8();
            let (width, height) = rgba.dimensions();
            Some(RgbaImage { width, height, pixels: rgba.into_raw() })
        },
        Err(_) => None,
    }
}

pub open spec fn min_u32(a: u32, b: u32) -> u32 {
    if a <= b {
        a
    } else {
        b
    }
}

/// Left edge of a crop once held inside the image.
pub open spec fn crop_x(img_width: u32, x: u32) -> u32 {
    min_u32(x, img_width)
}

/// Top edge of a crop once held inside the image.
pub open spec fn crop_y(img_height: u32, y: u32) -> u32 {
    min_u32(y, img_height)
}

/// Width of a crop once held inside the image.
pub open spec fn crop_width(img_width: u32, x: u32, width: u32) -> u32 {
    min_u32(width, (img_width - crop_x(img_width, x)) as u32)
}

/// Height of a crop once held inside the image.
pub open spec fn crop_height(img_height: u32, y: u32, height: u32) -> u32 {
    min_u32(height, (img_height - crop_y(img_height, y)) as u32)
}

/// Byte `k` of a crop: channel `k % 4` of the source pixel that lies at the
/// crop's origin plus the position of pixel `k / 4` inside the crop.
pub open spec fn cropped_byte(
    img: (u32, u32, Seq<u8>),
    x: u32,
    y: u32,
    width: u32,
    k: int,
) -> u8 {
    let cx = crop_x(img.0, x) as int;
    let cy = crop_y(img.1, y) as int;
    let cw = crop_width(img.0, x, width) as int;
    let p = k / 4;
    img.2[4 * ((cy + p / cw) * img.0 + cx + p % cw) + k % 4]
}

/// The part of `img` at (`x`, `y`) of size `width` x `height`, cut down to
/// what lies inside the image, as `image::imageops::crop_imm` defines it.
pub open spec fn cropped(img: (u32, u32, Seq<u8>), x: u32, y: u32, width: u32, height: u32) -> (
    u32,
    u32,
    Seq<u8>,
) {
    let cw = crop_width(img.0, x, width);
    let ch = crop_height(img.1, y, height);
    (cw, ch, Seq::new((4 * cw * ch) as nat, |k: int| cropped_byte(img, x, y, width, k)))
}

/// Calls `image::imageops::crop_imm` on the image and copies the view out
/// with `SubImage::to_image`. Claimed: the result is the crop as
/// `crop_imm`'s source defines it (origin and size clamped to the image,
/// pixels copied row by row).
#[verifier::external_body]
pub(crate) fn crop_rgba(img: &RgbaImage, x: u32, y: u32, width: u32, height: u32) -> (res:
    RgbaImage)
    requires
        img.wf(),
    ensures
        res.as_tuple() == cropped(img.as_tuple(), x, y, width, height),
        res.wf(),
{
    let buffer = image::RgbaImage::from_raw(img.width, img.height, img.pixels.clone()).unwrap();
    let part = image::imageops::crop_imm(&buffer, x, y, width, height).to_image();
    let (w, h) = part.dimensions();
    RgbaImage { width: w, height: h, pixels: part.into_raw() }
}

} // verus!
