//! Frame-by-frame colour computation for addressable RGB LED strips.
//!
//! Every animation owns a fixed-length pixel buffer and advances it by one
//! frame per call of [`RgbLedAnimation::next_frame`]. All colour arithmetic is
//! saturating integer arithmetic; nothing here allocates after construction,
//! blocks, or uses floating point.

use vstd::prelude::*;

pub mod color;
pub mod led_animation;
pub mod led_helpers;

pub use color::Color;

verus! {

/// Trait for structs that can handle performing an RGB LED animation.
pub trait RgbLedAnimation {
    /// Calculates next frame of animation.
    fn next_frame(&mut self);
}

/// The three primary LED colours.
#[derive(Clone, Copy, Debug, PartialEq, Eq, Structural)]
pub enum PixelColor {
    Red,
    Blue,
    Green,
}

/// Direction for the animation to move in.
#[derive(Clone, Copy, Debug, PartialEq, Eq, Structural)]
pub enum Direction {
    Forward,
    Backward,
}

} // verus!
