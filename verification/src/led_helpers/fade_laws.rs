//! What repeated fading does: how far a channel is from its goal after a
//! number of frames, and when a pixel has arrived.

use vstd::prelude::*;

use crate::color::{channel_distance, Color};
use crate::led_helpers::led_fade::{fade_toward, fade_toward_over, faded_in, faded_out};

verus! {

/// The value of a channel after `frames` fade steps toward `desired`.
pub open spec fn fade_toward_n(current: u8, desired: u8, step: u8, frames: nat) -> u8
    decreases frames,
{
    if frames == 0 {
        current
    } else {
        fade_toward(fade_toward_n(current, desired, step, (frames - 1) as nat), desired, step)
    }
}

/// The colour of a pixel after `frames` frames of fading in toward `target`.
pub open spec fn faded_in_n(
    pixel: Color,
    target: Color,
    step: u8,
    over_step: u8,
    frames: nat,
) -> Color
    decreases frames,
{
    if frames == 0 {
        pixel
    } else {
        faded_in(
            faded_in_n(pixel, target, step, over_step, (frames - 1) as nat),
            target,
            step,
            over_step,
        )
    }
}

/// The colour of a pixel after `frames` frames of fading out.
pub open spec fn faded_out_n(pixel: Color, step: u8, frames: nat) -> Color
    decreases frames,
{
    if frames == 0 {
        pixel
    } else {
        faded_out(faded_out_n(pixel, step, (frames - 1) as nat), step)
    }
}

/// The number of frames that a fade needs to cover `distance` at `step` per
/// frame: the quotient, rounded up.
pub open spec fn frames_needed(distance: int, step: int) -> int
    recommends
        step > 0,
{
    (distance + step - 1) / step
}

/// One fade step lands between the current and the desired value, on the
/// side it started from, and shortens the distance to the desired value by
/// `step`, or to nothing if less than `step` was left.
pub proof fn lemma_fade_toward_step(current: u8, desired: u8, step: u8)
    ensures
        current <= desired ==> current <= fade_toward(current, desired, step) <= desired,
        current >= desired ==> current >= fade_toward(current, desired, step) >= desired,
        channel_distance(fade_toward(current, desired, step), desired) == vstd::math::max(
            0,
            channel_distance(current, desired) - step,
        ),
        current != desired && step > 0 ==> channel_distance(
            fade_toward(current, desired, step),
            desired,
        ) < channel_distance(current, desired),
{
}

/// Without over-fade, a fade step with over-fade is a plain fade step.
pub proof fn lemma_no_over_fade(current: u8, desired: u8, step: u8)
    ensures
        fade_toward_over(current, desired, step, 0) == fade_toward(current, desired, step),
{
}

/// Repeated fading approaches the desired value monotonically: after each
/// further frame the channel is at least as close as before, and closer if
/// the step is positive and it had not arrived; it never leaves the side it
/// started from; and after `frames` frames what is left of the distance is
/// the distance at the start less `frames` steps, or nothing.
pub proof fn lemma_fade_toward_n_distance(current: u8, desired: u8, step: u8, frames: nat)
    ensures
        current <= desired ==> current <= fade_toward_n(current, desired, step, frames) <= desired,
        current >= desired ==> current >= fade_toward_n(current, desired, step, frames) >= desired,
        channel_distance(fade_toward_n(current, desired, step, frames), desired) == vstd::math::max(
            0,
            channel_distance(current, desired) - frames * step,
        ),
        channel_distance(fade_toward_n(current, desired, step, frames + 1), desired)
            <= channel_distance(fade_toward_n(current, desired, step, frames), desired),
        step > 0 && fade_toward_n(current, desired, step, frames) != desired ==> channel_distance(
            fade_toward_n(current, desired, step, frames + 1),
            desired,
        ) < channel_distance(fade_toward_n(current, desired, step, frames), desired),
    decreases frames,
{
    let here = fade_toward_n(current, desired, step, frames);
    lemma_fade_toward_step(here, desired, step);
    assert(fade_toward_n(current, desired, step, frames + 1) == fade_toward(here, desired, step));
    if frames > 0 {
        let before = fade_toward_n(current, desired, step, (frames - 1) as nat);
        lemma_fade_toward_n_distance(current, desired, step, (frames - 1) as nat);
        lemma_fade_toward_step(before, desired, step);
        assert(frames * step == (frames - 1) * step + step) by (nonlinear_arith);
        assert((frames - 1) * step >= 0) by (nonlinear_arith)
            requires
                frames >= 1,
                step >= 0,
        ;
    }
}

/// With a positive step, `frames` steps cover a distance exactly when
/// `frames` is at least the distance divided by the step, rounded up.
pub proof fn lemma_frames_needed(distance: int, step: int, frames: nat)
    requires
        distance >= 0,
        step > 0,
    ensures
        frames * step >= distance <==> frames >= frames_needed(distance, step),
{
    let q = frames_needed(distance, step);
    let r = (distance + step - 1) % step;
    vstd::arithmetic::div_mod::lemma_fundamental_div_mod(distance + step - 1, step);
    assert(distance + step - 1 == step * q + r);
    assert(0 <= r < step);
    if frames >= q {
        assert(frames * step >= q * step) by (nonlinear_arith)
            requires
                frames >= q,
                step > 0,
        ;
        assert(q * step == step * q) by (nonlinear_arith);
    } else {
        assert(frames * step <= (q - 1) * step) by (nonlinear_arith)
            requires
                frames <= q - 1,
                step > 0,
        ;
        assert((q - 1) * step == step * q - step) by (nonlinear_arith);
    }
}

/// A fade with a positive step has reached the desired value after exactly
/// the distance divided by the step, rounded up, frames: not earlier, and at
/// every frame from then on.
pub proof fn lemma_fade_toward_reaches(current: u8, desired: u8, step: u8, frames: nat)
    requires
        step > 0,
    ensures
        fade_toward_n(current, desired, step, frames) == desired <==> frames >= frames_needed(
            channel_distance(current, desired),
            step as int,
        ),
{
    lemma_fade_toward_n_distance(current, desired, step, frames);
    lemma_frames_needed(channel_distance(current, desired), step as int, frames);
}

/// A channel that has reached the desired value stays there, whatever the
/// step and the over-fade.
pub proof fn lemma_fade_toward_stays(desired: u8, step: u8, over_step: u8, frames: nat)
    ensures
        fade_toward(desired, desired, step) == desired,
        fade_toward_over(desired, desired, step, over_step) == desired,
        fade_toward_n(desired, desired, step, frames) == desired,
    decreases frames,
{
    if frames > 0 {
        lemma_fade_toward_stays(desired, step, over_step, (frames - 1) as nat);
    }
}

/// Fading out repeatedly fades each channel toward 0.
pub proof fn lemma_faded_out_n_channels(pixel: Color, step: u8, frames: nat)
    ensures
        faded_out_n(pixel, step, frames) == (Color {
            r: fade_toward_n(pixel.r, 0, step, frames),
            g: fade_toward_n(pixel.g, 0, step, frames),
            b: fade_toward_n(pixel.b, 0, step, frames),
        }),
    decreases frames,
{
    if frames > 0 {
        lemma_faded_out_n_channels(pixel, step, (frames - 1) as nat);
    }
}

/// Fading in repeatedly without over-fade fades each channel toward the
/// target's channel.
pub proof fn lemma_faded_in_n_channels(pixel: Color, target: Color, step: u8, frames: nat)
    ensures
        faded_in_n(pixel, target, step, 0, frames) == (Color {
            r: fade_toward_n(pixel.r, target.r, step, frames),
            g: fade_toward_n(pixel.g, target.g, step, frames),
            b: fade_toward_n(pixel.b, target.b, step, frames),
        }),
    decreases frames,
{
    if frames > 0 {
        lemma_faded_in_n_channels(pixel, target, step, (frames - 1) as nat);
    }
}

/// Fading out drives every pixel to off and keeps it there: after `frames`
/// frames the pixel is off exactly when `frames` steps cover its brightest
/// channel. An off pixel stays off.
pub proof fn lemma_fade_out_reaches_off(pixel: Color, step: u8, frames: nat)
    ensures
        faded_out_n(pixel, step, frames) == Color::off() <==> frames * step >= pixel.brightest(),
        step > 0 ==> (faded_out_n(pixel, step, frames) == Color::off() <==> frames
            >= frames_needed(pixel.brightest(), step as int)),
        faded_out(Color::off(), step) == Color::off(),
{
    lemma_faded_out_n_channels(pixel, step, frames);
    lemma_fade_toward_n_distance(pixel.r, 0, step, frames);
    lemma_fade_toward_n_distance(pixel.g, 0, step, frames);
    lemma_fade_toward_n_distance(pixel.b, 0, step, frames);
    if step > 0 {
        lemma_frames_needed(pixel.brightest(), step as int, frames);
    }
}

/// Fading in without over-fade drives every pixel to exactly the target and
/// keeps it there: after `frames` frames the pixel has the target color
/// exactly when `frames` steps cover the largest distance of a channel from
/// its target. A pixel of the target color stays, with or without over-fade.
pub proof fn lemma_fade_in_reaches_target(pixel: Color, target: Color, step: u8, frames: nat)
    ensures
        faded_in_n(pixel, target, step, 0, frames) == target <==> frames * step >= pixel.distance(
            target,
        ),
        step > 0 ==> (faded_in_n(pixel, target, step, 0, frames) == target <==> frames
            >= frames_needed(pixel.distance(target), step as int)),
        forall|over_step: u8| #[trigger] faded_in(target, target, step, over_step) == target,
{
    lemma_faded_in_n_channels(pixel, target, step, frames);
    lemma_fade_toward_n_distance(pixel.r, target.r, step, frames);
    lemma_fade_toward_n_distance(pixel.g, target.g, step, frames);
    lemma_fade_toward_n_distance(pixel.b, target.b, step, frames);
    if step > 0 {
        lemma_frames_needed(pixel.distance(target), step as int, frames);
    }
}

} // verus!
