//! Edits of RGBA pixel buffers (four bytes per pixel: red, green, blue,
//! alpha). Trailing bytes that do not make up a whole pixel are left alone.

use vstd::prelude::*;

verus! {

/// Number of bytes of `pixels` that belong to whole four-byte pixels.
pub open spec fn whole_pixel_bytes(len: int) -> int {
    len - len % 4
}

/// Byte `j` of a buffer after the colour channels of every whole pixel were
/// inverted (`255 - v`); alpha bytes and trailing bytes keep their value.
pub open spec fn inverted_byte(old: Seq<u8>, j: int) -> u8 {
    if j < whole_pixel_bytes(old.len() as int) && j % 4 != 3 {
        (255 - old[j]) as u8
    } else {
        old[j]
    }
}

/// Inverts the red, green and blue channel of every whole pixel, keeping alpha.
pub fn invert_rgb(pixels: &mut Vec<u8>)
    ensures
        final(pixels).len() == old(pixels).len(),
        forall|j: int|
            0 <= j < whole_pixel_bytes(old(pixels).len() as int) && j % 4 != 3
                ==> #[trigger] final(pixels)@[j] == 255 - old(pixels)@[j],
        forall|j: int|
            0 <= j < old(pixels).len() && (j % 4 == 3 || j >= whole_pixel_bytes(
                old(pixels).len() as int,
            )) ==> #[trigger] final(pixels)@[j] == old(pixels)@[j],
        forall|j: int|
            0 <= j < final(pixels).len() ==> #[trigger] final(pixels)@[j] == inverted_byte(
                old(pixels)@,
                j,
            ),
{
    let ghost orig = pixels@;
    let len = pixels.len();
    let whole = len - len % 4;
    let mut k: usize = 0;
    while k < whole
        invariant
            len == pixels.len(),
            orig.len() == len,
            whole == whole_pixel_bytes(len as int),
            k <= whole,
            k % 4 == 0,
            forall|j: int| 0 <= j < k ==> #[trigger] pixels@[j] == inverted_byte(orig, j),
            forall|j: int| k <= j < len ==> #[trigger] pixels@[j] == orig[j],
        decreases whole - k,
    {
        let r = pixels[k];
        pixels.set(k, 255 - r);
        let g = pixels[k + 1];
        pixels.set(k + 1, 255 - g);
        let b = pixels[k + 2];
        pixels.set(k + 2, 255 - b);
        k = k + 4;
    }
}

/// Whether the whole pixel starting at byte `start` is white and fully transparent.
pub open spec fn is_transparent_white(old: Seq<u8>, start: int) -> bool {
    old[start] == 255 && old[start + 1] == 255 && old[start + 2] == 255 && old[start + 3] == 0
}

/// Byte `j` after every fully transparent white pixel was made transparent black.
pub open spec fn blackened_byte(old: Seq<u8>, j: int) -> u8 {
    if j < whole_pixel_bytes(old.len() as int) && j % 4 != 3 && is_transparent_white(
        old,
        j - j % 4,
    ) {
        0
    } else {
        old[j]
    }
}

/// Turns every fully transparent white pixel (255, 255, 255, 0) into fully
/// transparent black (0, 0, 0, 0); every other byte is kept.
pub fn blacken_transparent_white(pixels: &mut Vec<u8>)
    ensures
        final(pixels).len() == old(pixels).len(),
        forall|s: int|
            #![trigger final(pixels)@[s]]
            0 <= s && s + 3 < old(pixels).len() && s % 4 == 0 && is_transparent_white(
                old(pixels)@,
                s,
            ) ==> final(pixels)@[s] == 0 && final(pixels)@[s + 1] == 0 && final(pixels)@[s + 2] == 0
                && final(pixels)@[s + 3] == 0,
        forall|s: int|
            #![trigger final(pixels)@[s]]
            0 <= s && s + 3 < old(pixels).len() && s % 4 == 0 && !is_transparent_white(
                old(pixels)@,
                s,
            ) ==> final(pixels)@[s] == old(pixels)@[s] && final(pixels)@[s + 1] == old(pixels)@[s
                + 1] && final(pixels)@[s + 2] == old(pixels)@[s + 2] && final(pixels)@[s + 3]
                == old(pixels)@[s + 3],
        forall|j: int|
            whole_pixel_bytes(old(pixels).len() as int) <= j < old(pixels).len()
                ==> #[trigger] final(pixels)@[j] == old(pixels)@[j],
        forall|j: int|
            0 <= j < final(pixels).len() ==> #[trigger] final(pixels)@[j] == blackened_byte(
                old(pixels)@,
                j,
            ),
{
    let ghost orig = pixels@;
    let len = pixels.len();
    let whole = len - len % 4;
    let mut k: usize = 0;
    while k < whole
        invariant
            len == pixels.len(),
            orig.len() == len,
            whole == whole_pixel_bytes(len as int),
            k <= whole,
            k % 4 == 0,
            forall|j: int| 0 <= j < k ==> #[trigger] pixels@[j] == blackened_byte(orig, j),
            forall|j: int| k <= j < len ==> #[trigger] pixels@[j] == orig[j],
        decreases whole - k,
    {
        if pixels[k] == 255 && pixels[k + 1] == 255 && pixels[k + 2] == 255 && pixels[k + 3]
            == 0 {
            pixels.set(k, 0);
            pixels.set(k + 1, 0);
            pixels.set(k + 2, 0);
        }
        k = k + 4;
    }
}

/// Inverting twice gives back the original buffer.
pub proof fn lemma_invert_involution(old: Seq<u8>, once: Seq<u8>, twice: Seq<u8>)
    requires
        once.len() == old.len(),
        twice.len() == once.len(),
        forall|j: int| 0 <= j < once.len() ==> #[trigger] once[j] == inverted_byte(old, j),
        forall|j: int| 0 <= j < twice.len() ==> #[trigger] twice[j] == inverted_byte(once, j),
    ensures
        twice == old,
{
    assert forall|j: int| 0 <= j < twice.len() implies twice[j] == old[j] by {
        assert(twice[j] == inverted_byte(once, j));
        assert(once[j] == inverted_byte(old, j));
    }
    assert(twice =~= old);
}

/// Inverting leaves every alpha byte unchanged.
pub proof fn lemma_invert_keeps_alpha(old: Seq<u8>, j: int)
    requires
        0 <= j < old.len(),
        j % 4 == 3,
    ensures
        inverted_byte(old, j) == old[j],
{
}

/// Making transparent white black a second time changes nothing more.
pub proof fn lemma_blacken_idempotent(old: Seq<u8>, once: Seq<u8>, twice: Seq<u8>)
    requires
        once.len() == old.len(),
        twice.len() == once.len(),
        forall|j: int| 0 <= j < once.len() ==> #[trigger] once[j] == blackened_byte(old, j),
        forall|j: int| 0 <= j < twice.len() ==> #[trigger] twice[j] == blackened_byte(once, j),
    ensures
        twice == once,
{
    assert forall|j: int| 0 <= j < twice.len() implies twice[j] == once[j] by {
        let s = j - j % 4;
        if j < whole_pixel_bytes(once.len() as int) && j % 4 != 3 {
            assert(s + 3 < once.len());
            assert(once[s + 3] == blackened_byte(old, s + 3));
            assert(once[s] == blackened_byte(old, s));
            assert((s + 3) % 4 == 3);
            assert(s % 4 == 0);
        }
    }
    assert(twice =~= once);
}

/// Blackening only ever touches colour bytes of transparent pixels: every
/// alpha byte is kept.
pub proof fn lemma_blacken_keeps_alpha(old: Seq<u8>, j: int)
    requires
        0 <= j < old.len(),
        j % 4 == 3,
    ensures
        blackened_byte(old, j) == old[j],
{
}

/// Inverting turns every colour byte of every whole pixel into 255 minus
/// its value, whatever the pixel's alpha, and keeps alpha and trailing bytes.
pub proof fn lemma_invert_every_pixel(old: Seq<u8>, j: int)
    requires
        0 <= j < old.len(),
    ensures
        j < whole_pixel_bytes(old.len() as int) && j % 4 != 3 ==> inverted_byte(old, j) + old[j]
            == 255,
        j >= whole_pixel_bytes(old.len() as int) || j % 4 == 3 ==> inverted_byte(old, j) == old[j],
{
}

} // verus!
