//! Colours and the shading used for hover and press effects.

use vstd::prelude::*;

verus! {

/// An 8-bit-per-channel colour with alpha, in the order red, green, blue, alpha.
#[derive(Clone, Copy, Debug, PartialEq, Eq, Structural)]
pub struct Colour {
    pub r: u8,
    pub g: u8,
    pub b: u8,
    pub a: u8,
}

impl Colour {
    /// An opaque colour from its three channels.
    pub fn from_rgb(r: u8, g: u8, b: u8) -> (c: Colour)
        ensures
            c == (Colour { r, g, b, a: 255 }),
    {
        Colour { r, g, b, a: 255 }
    }
}

/// The channel `value` shifted by `amount` and held to the range 0..=255.
pub open spec fn adjusted_channel(value: u8, amount: i8) -> u8 {
    let v = value as int + amount as int;
    if v < 0 {
        0
    } else if v > 255 {
        255
    } else {
        v as u8
    }
}

/// `colour` with each of its red, green and blue channels shifted by `amount`
/// (clamped to 0..=255); the result is always opaque.
pub open spec fn lightened(colour: Colour, amount: i8) -> Colour {
    Colour {
        r: adjusted_channel(colour.r, amount),
        g: adjusted_channel(colour.g, amount),
        b: adjusted_channel(colour.b, amount),
        a: 255,
    }
}

fn adjust_channel(value: u8, amount: i8) -> (res: u8)
    ensures
        res == adjusted_channel(value, amount),
{
    let shifted: i16 = value as i16 + amount as i16;
    if shifted < 0 {
        0
    } else if shifted > 255 {
        255
    } else {
        shifted as u8
    }
}

/// Lightens (positive `amount`) or darkens (negative `amount`) a colour.
/// The alpha channel of the result is always 255.
pub fn lighten_colour(colour: Colour, amount: i8) -> (res: Colour)
    ensures
        res == lightened(colour, amount),
{
    Colour::from_rgb(
        adjust_channel(colour.r, amount),
        adjust_channel(colour.g, amount),
        adjust_channel(colour.b, amount),
    )
}

/// Shading never produces a see-through colour, and a channel never moves
/// further than `amount` nor past the end of its range.
pub proof fn lemma_lightened_bounds(colour: Colour, amount: i8)
    ensures
        lightened(colour, amount).a == 255,
        amount >= 0 ==> lightened(colour, amount).r >= colour.r,
        amount <= 0 ==> lightened(colour, amount).r <= colour.r,
        amount >= 0 ==> lightened(colour, amount).r - colour.r <= amount,
        amount <= 0 ==> colour.r - lightened(colour, amount).r <= -amount,
{
}

/// Shading an opaque colour by zero leaves it unchanged.
pub proof fn lemma_lighten_zero_identity(colour: Colour)
    requires
        colour.a == 255,
    ensures
        lightened(colour, 0) == colour,
{
}

/// Shading by `amount` and then by `-amount` gives back an opaque colour,
/// provided no channel was clamped on the way.
pub proof fn lemma_lighten_undo(colour: Colour, amount: i8)
    requires
        colour.a == 255,
        amount > i8::MIN,
        0 <= colour.r + amount <= 255,
        0 <= colour.g + amount <= 255,
        0 <= colour.b + amount <= 255,
    ensures
        lightened(lightened(colour, amount), (-amount) as i8) == colour,
{
}

/// Shading is monotone: a larger amount never gives a darker channel.
pub proof fn lemma_lighten_monotone(colour: Colour, a1: i8, a2: i8)
    requires
        a1 <= a2,
    ensures
        lightened(colour, a1).r <= lightened(colour, a2).r,
        lightened(colour, a1).g <= lightened(colour, a2).g,
        lightened(colour, a1).b <= lightened(colour, a2).b,
{
}

} // verus!
