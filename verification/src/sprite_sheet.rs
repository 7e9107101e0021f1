//! Sprite sheets: cutting a sheet image into animation frames, decoding
//! folders of single-frame images, and picking frames of an animation.

use vstd::prelude::*;
use vstd::arithmetic::div_mod::{
    lemma_fundamental_div_mod,
    lemma_fundamental_div_mod_converse,
    lemma_mod_pos_bound,
};
use vstd::arithmetic::mul::lemma_mul_inequality;
use crate::image_data::{RgbaImage, crop_rgba, cropped, decode_rgba, decoded_rgba};

verus! {

#[verifier::external_type_specification]
#[verifier::external_body]
pub struct ExNativeTexture(glow::NativeTexture);

/// The pixel position (left, top) of frame `k` on a sheet with `per_row`
/// frames in each row of frames of size `frame_width` x `frame_height`;
/// frames are numbered row by row.
pub open spec fn frame_origin(k: int, per_row: int, frame_width: int, frame_height: int) -> (
    int,
    int,
) {
    ((k % per_row) * frame_width, (k / per_row) * frame_height)
}

/// Frame `i` of a row (or column) of frames of size `size` lies inside a
/// sheet of extent `total` when `i` is below `total / size`.
proof fn lemma_frame_fits(i: int, size: int, total: int)
    requires
        size > 0,
        total >= 0,
        0 <= i < total / size,
    ensures
        i * size + size <= total,
        0 <= i * size,
{
    lemma_fundamental_div_mod(total, size);
    lemma_mul_inequality(i + 1, total / size, size);
    assert((i + 1) * size == i * size + size) by (nonlinear_arith);
    assert(size * (total / size) == (total / size) * size) by (nonlinear_arith);
    assert(0 <= i * size) by (nonlinear_arith)
        requires
            0 <= i,
            size > 0,
    ;
}

/// Cuts a sprite sheet (an image file in memory) into frames of
/// `frame_width` x `frame_height` pixels, row by row, left to right; partial
/// frames at the right and bottom edges are dropped. `None` when the bytes
/// are not a readable image.
pub fn frame_images(bytes: &[u8], frame_width: u32, frame_height: u32) -> (res: Option<
    Vec<RgbaImage>,
>)
    requires
        frame_width > 0,
        frame_height > 0,
    ensures
        decoded_rgba(bytes@) is None <==> res is None,
        res matches Some(frames) ==> {
            let sheet = decoded_rgba(bytes@).unwrap();
            let per_row = sheet.0 / frame_width;
            let per_column = sheet.1 / frame_height;
            &&& frames.len() == per_row * per_column
            &&& forall|k: int|
                0 <= k < frames.len() ==> {
                    let o = frame_origin(k, per_row as int, frame_width as int, frame_height as int);
                    &&& (#[trigger] frames[k]).as_tuple() == cropped(
                        sheet,
                        o.0 as u32,
                        o.1 as u32,
                        frame_width,
                        frame_height,
                    )
                    &&& frames[k].width == frame_width
                    &&& frames[k].height == frame_height
                    &&& frames[k].wf()
                }
        },
{
    let sheet = match decode_rgba(bytes) {
        Some(sheet) => sheet,
        None => return None,
    };
    let ghost d = sheet.as_tuple();
    let per_row = sheet.width / frame_width;
    let per_column = sheet.height / frame_height;
    let mut frames: Vec<RgbaImage> = Vec::new();
    let mut y: u32 = 0;
    while y < per_column
        invariant
            sheet.wf(),
            d == sheet.as_tuple(),
            frame_width > 0,
            frame_height > 0,
            per_row == sheet.width / frame_width,
            per_column == sheet.height / frame_height,
            y <= per_column,
            frames.len() == y * per_row,
            forall|k: int|
                0 <= k < frames.len() ==> {
                    let o = frame_origin(k, per_row as int, frame_width as int, frame_height as int);
                    &&& (#[trigger] frames[k]).as_tuple() == cropped(
                        d,
                        o.0 as u32,
                        o.1 as u32,
                        frame_width,
                        frame_height,
                    )
                    &&& frames[k].width == frame_width
                    &&& frames[k].height == frame_height
                    &&& frames[k].wf()
                },
        decreases per_column - y,
    {
        proof {
            lemma_frame_fits(y as int, frame_height as int, sheet.height as int);
        }
        let top = y * frame_height;
        let mut x: u32 = 0;
        while x < per_row
            invariant
                sheet.wf(),
                d == sheet.as_tuple(),
                frame_width > 0,
                frame_height > 0,
                per_row == sheet.width / frame_width,
                per_column == sheet.height / frame_height,
                y < per_column,
                top == y * frame_height,
                top + frame_height <= sheet.height,
                x <= per_row,
                frames.len() == y * per_row + x,
                forall|k: int|
                    0 <= k < frames.len() ==> {
                        let o = frame_origin(
                            k,
                            per_row as int,
                            frame_width as int,
                            frame_height as int,
                        );
                        &&& (#[trigger] frames[k]).as_tuple() == cropped(
                            d,
                            o.0 as u32,
                            o.1 as u32,
                            frame_width,
                            frame_height,
                        )
                        &&& frames[k].width == frame_width
                        &&& frames[k].height == frame_height
                        &&& frames[k].wf()
                    },
            decreases per_row - x,
        {
            proof {
                lemma_frame_fits(x as int, frame_width as int, sheet.width as int);
                lemma_fundamental_div_mod_converse(
                    (y * per_row + x) as int,
                    per_row as int,
                    y as int,
                    x as int,
                );
            }
            let left = x * frame_width;
            let frame = crop_rgba(&sheet, left, top, frame_width, frame_height);
            frames.push(frame);
            x = x + 1;
            proof {
                assert((y * per_row + (x - 1)) + 1 == y * per_row + x) by (nonlinear_arith);
            }
        }
        proof {
            assert(y * per_row + per_row == (y + 1) * per_row) by (nonlinear_arith);
        }
        y = y + 1;
    }
    proof {
        assert(per_column * per_row == per_row * per_column) by (nonlinear_arith);
    }
    Some(frames)
}

/// Decodes a folder's images, one frame each, in the order given; `None`
/// when any of them is not a readable image.
pub fn folder_frame_images(files: &Vec<Vec<u8>>) -> (res: Option<Vec<RgbaImage>>)
    ensures
        res is None <==> exists|i: int| 0 <= i < files.len() && decoded_rgba(#[trigger] files@[i]@) is None,
        res matches Some(frames) ==> {
            &&& frames.len() == files.len()
            &&& forall|i: int|
                0 <= i < frames.len() ==> Some((#[trigger] frames[i]).as_tuple()) == decoded_rgba(
                    files@[i]@,
                ) && frames[i].wf()
        },
{
    let mut frames: Vec<RgbaImage> = Vec::new();
    let n = files.len();
    for i in 0..n
        invariant
            n == files.len(),
            frames.len() == i,
            forall|j: int| 0 <= j < i ==> decoded_rgba(#[trigger] files@[j]@) is Some,
            forall|j: int|
                0 <= j < i ==> Some((#[trigger] frames[j]).as_tuple()) == decoded_rgba(files@[j]@)
                    && frames[j].wf(),
    {
        match decode_rgba(files[i].as_slice()) {
            Some(frame) => frames.push(frame),
            None => {
                return None;
            },
        }
    }
    Some(frames)
}

/// Whether a file name has the extension `png`, as `Path::extension` reads
/// it: some name, then a dot, then `png`, where the name may not be empty
/// (a name that starts with its only dot has no extension).
pub open spec fn spec_is_png_file_name(name: Seq<char>) -> bool {
    name.len() > 4 && name.subrange(name.len() - 4, name.len() as int) == seq!['.', 'p', 'n', 'g']
}

/// Whether a file belongs in a sprite folder: its extension is `png`.
pub fn is_png_file_name(name: &str) -> (res: bool)
    ensures
        res == spec_is_png_file_name(name@),
{
    let n = name.unicode_len();
    if n <= 4 {
        return false;
    }
    let c0 = name.get_char(n - 4);
    let c1 = name.get_char(n - 3);
    let c2 = name.get_char(n - 2);
    let c3 = name.get_char(n - 1);
    let res = c0 == '.' && c1 == 'p' && c2 == 'n' && c3 == 'g';
    proof {
        let tail = name@.subrange(n - 4, n as int);
        if res {
            assert(tail =~= seq!['.', 'p', 'n', 'g']);
        } else {
            if tail == seq!['.', 'p', 'n', 'g'] {
                assert(tail[0] == c0);
                assert(tail[1] == c1);
                assert(tail[2] == c2);
                assert(tail[3] == c3);
            }
        }
    }
    res
}

/// The frames of an animation, each an OpenGL texture.
#[derive(Clone)]
pub struct SpriteSheet {
    pub frame_texture_ids: Vec<glow::NativeTexture>,
}

impl SpriteSheet {
    /// A sheet made of the given frame textures, in animation order.
    pub fn new(frame_texture_ids: Vec<glow::NativeTexture>) -> (s: SpriteSheet)
        ensures
            s.frame_texture_ids@ == frame_texture_ids@,
    {
        SpriteSheet { frame_texture_ids }
    }

    /// The texture of frame `index`, counting round the animation again once
    /// it has run past the last frame.
    pub fn get_frame_native(&self, index: usize) -> (t: glow::NativeTexture)
        requires
            self.frame_texture_ids.len() > 0,
        ensures
            t == self.frame_texture_ids@[(index % self.frame_texture_ids.len()) as int],
    {
        self.frame_texture_ids[index % self.frame_texture_ids.len()]
    }

    /// The number of frames.
    pub fn get_frame_count_native(&self) -> (n: usize)
        ensures
            n == self.frame_texture_ids.len(),
    {
        self.frame_texture_ids.len()
    }
}

/// Frame choice wraps around: frame `index` and frame `index + count` are
/// the same texture.
pub proof fn lemma_frame_choice_cycles(ids: Seq<glow::NativeTexture>, index: int)
    requires
        ids.len() > 0,
        index >= 0,
    ensures
        ids[(index + ids.len()) % (ids.len() as int)] == ids[index % (ids.len() as int)],
{
    let n = ids.len() as int;
    lemma_fundamental_div_mod(index, n);
    lemma_mod_pos_bound(index, n);
    assert((index / n + 1) * n == n * (index / n) + n) by (nonlinear_arith);
    lemma_fundamental_div_mod_converse(index + n, n, index / n + 1, index % n);
}

} // verus!
