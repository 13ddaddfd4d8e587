//! The colour of one pixel.

use vstd::prelude::*;

verus! {

/// One pixel: three independent 8-bit brightness channels.
///
/// Every combination of channel values is a valid colour; equality is exact
/// per channel.
#[derive(Clone, Copy, Debug, PartialEq, Eq, Structural)]
pub struct Color {
    /// Red channel.
    pub r: u8,
    /// Green channel.
    pub g: u8,
    /// Blue channel.
    pub b: u8,
}

/// How far apart two channel values are.
pub open spec fn channel_distance(a: u8, b: u8) -> int {
    if a < b {
        b - a
    } else {
        a - b
    }
}

impl Color {
    /// The colour of a pixel that is fully off.
    pub open spec fn off() -> Color {
        Color { r: 0, g: 0, b: 0 }
    }

    /// The brightest of the three channels.
    pub open spec fn brightest(self) -> int {
        vstd::math::max(self.r as int, vstd::math::max(self.g as int, self.b as int))
    }

    /// The largest per-channel distance between `self` and `other`.
    pub open spec fn distance(self, other: Color) -> int {
        vstd::math::max(
            channel_distance(self.r, other.r),
            vstd::math::max(channel_distance(self.g, other.g), channel_distance(self.b, other.b)),
        )
    }

    /// Creates a colour from its red, green and blue channels.
    pub fn new(r: u8, g: u8, b: u8) -> (color: Color)
        ensures
            color == (Color { r, g, b }),
    {
        Color { r, g, b }
    }
}

/// Creates a pixel buffer of `num_pixels` LEDs that are all off.
pub fn all_off(num_pixels: usize) -> (pixels: Vec<Color>)
    ensures
        pixels@ == Seq::new(num_pixels as nat, |i: int| Color::off()),
{
    let mut pixels: Vec<Color> = Vec::new();
    let mut i: usize = 0;
    while i < num_pixels
        invariant
            i <= num_pixels,
            pixels@.len() == i,
            forall|j: int| 0 <= j < i ==> pixels@[j] == Color::off(),
        decreases num_pixels - i,
    {
        pixels.push(Color::new(0, 0, 0));
        i = i + 1;
    }
    assert(pixels@ =~= Seq::new(num_pixels as nat, |i: int| Color::off()));
    pixels
}

} // verus!
