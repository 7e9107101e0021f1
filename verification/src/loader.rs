//! Preparation of the icon images: decoding, and the inverted variant used
//! on light backgrounds.

use vstd::prelude::*;
use crate::image_data::{RgbaImage, decode_rgba, decoded_rgba};
use crate::pixels::{invert_rgb, inverted_byte};

verus! {

/// Decodes an icon (any image format the `image` crate reads) into RGBA;
/// `None` when the bytes are not a readable image, in which case the icon is
/// skipped.
pub fn icon_image(bytes: &[u8]) -> (res: Option<RgbaImage>)
    ensures
        match res {
            Some(img) => decoded_rgba(bytes@) == Some(img.as_tuple()) && img.wf(),
            None => decoded_rgba(bytes@) is None,
        },
{
    decode_rgba(bytes)
}

/// Decodes an icon and inverts the red, green and blue channel of every
/// pixel, keeping alpha; `None` when the bytes are not a readable image.
pub fn inverted_icon_image(bytes: &[u8]) -> (res: Option<RgbaImage>)
    ensures
        decoded_rgba(bytes@) is None <==> res is None,
        res matches Some(img) ==> {
            let d = decoded_rgba(bytes@).unwrap();
            &&& img.wf()
            &&& img.width == d.0
            &&& img.height == d.1
            &&& img.pixels@.len() == d.2.len()
            &&& forall|j: int|
                0 <= j < img.pixels@.len() ==> #[trigger] img.pixels@[j] == inverted_byte(d.2, j)
        },
{
    match decode_rgba(bytes) {
        Some(img) => {
            let mut img = img;
            invert_rgb(&mut img.pixels);
            Some(img)
        },
        None => None,
    }
}

} // verus!
