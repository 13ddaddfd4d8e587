//! Saturating per-channel fades.
//!
//! A fade moves one colour channel toward a desired value by at most a fixed
//! step per frame. It never wraps: a channel stops at the desired value, at 0
//! or at 255.

use vstd::prelude::*;

use crate::color::Color;

verus! {

/// The value of a channel after one fade step toward `desired`.
///
/// The channel moves by `step`, or by what is left of the way if that is
/// less, and stays where it is once it has arrived.
pub open spec fn fade_toward(current: u8, desired: u8, step: u8) -> u8 {
    if current < desired {
        (current + vstd::math::min(step as int, desired - current)) as u8
    } else if current > desired {
        (current - vstd::math::min(step as int, current - desired)) as u8
    } else {
        current
    }
}

/// The value of a channel after one fade step toward `desired` with
/// over-fade.
///
/// A channel that starts below `desired` is first faded toward it and then
/// pushed up by a further `over_step`, stopping at 255, so that it may end
/// above `desired`. A channel at or above `desired` fades as in
/// [`fade_toward`].
pub open spec fn fade_toward_over(current: u8, desired: u8, step: u8, over_step: u8) -> u8 {
    let reached = fade_toward(current, desired, step);
    if current < desired {
        (reached + vstd::math::min(over_step as int, 255 - reached)) as u8
    } else {
        reached
    }
}

/// The colour of a pixel after one frame of fading in toward `target`.
pub open spec fn faded_in(pixel: Color, target: Color, step: u8, over_step: u8) -> Color {
    Color {
        r: fade_toward_over(pixel.r, target.r, step, over_step),
        g: fade_toward_over(pixel.g, target.g, step, over_step),
        b: fade_toward_over(pixel.b, target.b, step, over_step),
    }
}

/// The colour of a pixel after one frame of fading out toward off.
pub open spec fn faded_out(pixel: Color, step: u8) -> Color {
    Color {
        r: fade_toward(pixel.r, 0, step),
        g: fade_toward(pixel.g, 0, step),
        b: fade_toward(pixel.b, 0, step),
    }
}

/// Fades toward a particular color value.
///
/// * `cur_color`: The current color value.
/// * `desired_color`: The desired color value.
/// * `fade_step_value`: The amount to fade toward per frame.
/// * `over_fade_value`: The amount to over fade in per frame, for a flickering effect.
///
/// The over fade only affects a value that has not yet reached its desired
/// color from below. A value pushed past its desired color comes back down
/// on the following frames, `fade_step_value` at a time.
pub fn handle_fade(
    cur_color: &mut u8,
    desired_color: u8,
    fade_step_value: u8,
    over_fade_value: u8,
)
    ensures
        *final(cur_color) == fade_toward_over(
            *old(cur_color),
            desired_color,
            fade_step_value,
            over_fade_value,
        ),
{
    if *cur_color < desired_color {
        // the most we want to increase by is what is left of the way
        let remaining: u8 = desired_color - *cur_color;
        let increase_by: u8 = if fade_step_value < remaining {
            fade_step_value
        } else {
            remaining
        };
        *cur_color = *cur_color + increase_by;

        // the over fade stops at the maximum value
        *cur_color = cur_color.saturating_add(over_fade_value);
    } else if *cur_color > desired_color {
        // the most we want to decrease by is what is left of the way
        let remaining: u8 = *cur_color - desired_color;
        let decrease_by: u8 = if fade_step_value < remaining {
            fade_step_value
        } else {
            remaining
        };
        *cur_color = *cur_color - decrease_by;
    }
}

/// Fades an LED in on this frame.
///
/// * `pixel`: The pixel (LED) to fade in.
/// * `fade_to_color`: The color that we wish to fade into.
/// * `fade_step_value`: The amount to fade in per frame.
/// * `over_fade_value`: The amount to over fade in per frame, for a flickering effect.
pub fn fade_in_led(
    pixel: &mut Color,
    fade_to_color: &Color,
    fade_step_value: u8,
    over_fade_value: u8,
)
    ensures
        *final(pixel) == faded_in(*old(pixel), *fade_to_color, fade_step_value, over_fade_value),
{
    handle_fade(&mut pixel.r, fade_to_color.r, fade_step_value, over_fade_value);
    handle_fade(&mut pixel.g, fade_to_color.g, fade_step_value, over_fade_value);
    handle_fade(&mut pixel.b, fade_to_color.b, fade_step_value, over_fade_value);
}

/// Checks that an LED is faded in already.
///
/// * `pixel`: The pixel (LED) to check.
/// * `fade_to_color`: The color that we wish to fade into.
pub fn is_led_faded_in(pixel: &Color, fade_to_color: &Color) -> (faded_in: bool)
    ensures
        faded_in <==> *pixel == *fade_to_color,
{
    pixel.r == fade_to_color.r && pixel.g == fade_to_color.g && pixel.b == fade_to_color.b
}

/// Checks that an LED is faded out already.
///
/// * `pixel`: The pixel (LED) to check.
pub fn is_led_faded_out(pixel: &Color) -> (faded_out: bool)
    ensures
        faded_out <==> *pixel == Color::off(),
{
    pixel.r == 0 && pixel.g == 0 && pixel.b == 0
}

/// Fades an LED out on this frame toward being turned off.
///
/// * `pixel`: The pixel (LED) to fade out.
/// * `fade_step_value`: The amount to fade out per frame. No channel goes
///   under 0.
pub fn fade_out_led(pixel: &mut Color, fade_step_value: u8)
    ensures
        *final(pixel) == faded_out(*old(pixel), fade_step_value),
{
    handle_fade(&mut pixel.r, 0, fade_step_value, 0);
    handle_fade(&mut pixel.g, 0, fade_step_value, 0);
    handle_fade(&mut pixel.b, 0, fade_step_value, 0);
}

} // verus!
