//! A single lit LED that fades in, optionally flickering, while every other
//! LED fades out.

use vstd::prelude::*;

use crate::color::{all_off, Color};
use crate::color::channel_distance;
use crate::led_helpers::fade_laws::{
    faded_in_n, faded_out_n, lemma_fade_toward_n_distance, lemma_faded_in_n_channels,
};
use crate::led_helpers::led_fade::{
    fade_in_led, fade_out_led, faded_in, faded_out, is_led_faded_out,
};
use crate::RgbLedAnimation;

verus! {

/// Flicker rolls are reduced to the range `0..RAND_FLICKER_MOD`.
pub const RAND_FLICKER_MOD: u32 = 100;

/// A reduced roll below this value makes the LED flicker on this frame.
pub const RAND_CHANCE_TO_FLICKER: u32 = 33;

/// A reduced roll below this value ends the flickering for good.
pub const RAND_CHANCE_STOP_FLICKER: u32 = 33;

/// The step by which a flickering LED fades back out: one and a half times
/// the fade step, and at most 255.
pub open spec fn flicker_fade_step(fade_step: u8) -> u8 {
    vstd::math::min(fade_step + fade_step / 2, 255) as u8
}

/// What a [`Rgb8SingleLedFadeAnimation`] holds between two frames.
pub struct SingleLedState {
    /// The color that the lit LED fades toward.
    pub pixel_color: Color,
    /// The pixel buffer, first LED first.
    pub pixels: Seq<Color>,
    /// The LED that is on, if any.
    pub current_on_index: Option<int>,
    /// Amount to fade in and out per frame.
    pub fade_step: u8,
    /// Amount to over fade in per frame.
    pub over_fade_step: u8,
    /// Whether the LED that is turning on may still flicker.
    pub flicker_enabled: bool,
    /// Whether the LED flickered on the frame before.
    pub flickered_last_frame: bool,
}

impl SingleLedState {
    /// The LED that is on, if any, lies within the buffer.
    pub open spec fn wf(self) -> bool {
        self.current_on_index matches Some(i) ==> 0 <= i < self.pixels.len()
    }

    /// The state of a new animation: all LEDs off, none selected.
    pub open spec fn initial(
        num_pixels: nat,
        pixel_color: Color,
        fade_step: u8,
        over_fade_step: u8,
    ) -> SingleLedState {
        SingleLedState {
            pixel_color,
            pixels: Seq::new(num_pixels, |i: int| Color::off()),
            current_on_index: None,
            fade_step,
            over_fade_step,
            flicker_enabled: false,
            flickered_last_frame: false,
        }
    }

    /// Whether the next frame consults the flicker rolls: an LED is on, it
    /// may still flicker, it did not flicker on the frame before, and it is
    /// not fully off.
    pub open spec fn flicker_pending(self) -> bool {
        &&& self.current_on_index is Some
        &&& self.flicker_enabled
        &&& !self.flickered_last_frame
        &&& self.pixels[self.current_on_index->0] != Color::off()
    }

    /// Whether the lit LED flickers on the next frame, given the first roll.
    pub open spec fn flicker_fires(self, flicker_roll: u32) -> bool {
        self.flicker_pending() && flicker_roll % RAND_FLICKER_MOD < RAND_CHANCE_TO_FLICKER
    }

    /// Whether the next frame ends the flickering, given the second roll.
    pub open spec fn flicker_stops(self, stop_flicker_roll: u32) -> bool {
        self.flicker_pending() && stop_flicker_roll % RAND_FLICKER_MOD
            < RAND_CHANCE_STOP_FLICKER
    }

    /// The color of LED `i` after the next frame.
    ///
    /// The lit LED fades out by the flicker step if it flickers and fades in
    /// toward the pixel color if it does not; every other LED fades out.
    pub open spec fn next_pixel(self, i: int, flicker_roll: u32) -> Color {
        if self.current_on_index == Some(i) {
            if self.flicker_fires(flicker_roll) {
                faded_out(self.pixels[i], flicker_fade_step(self.fade_step))
            } else {
                faded_in(self.pixels[i], self.pixel_color, self.fade_step, self.over_fade_step)
            }
        } else {
            faded_out(self.pixels[i], self.fade_step)
        }
    }

    /// The state after the next frame, given the two flicker rolls.
    pub open spec fn next_frame(self, flicker_roll: u32, stop_flicker_roll: u32) -> SingleLedState {
        SingleLedState {
            pixels: Seq::new(self.pixels.len(), |i: int| self.next_pixel(i, flicker_roll)),
            flicker_enabled: self.flicker_enabled && !self.flicker_stops(stop_flicker_roll),
            flickered_last_frame: if self.current_on_index is Some {
                self.flicker_fires(flicker_roll)
            } else {
                self.flickered_last_frame
            },
            ..self
        }
    }

    /// The state after one frame for each pair of flicker rolls in `rolls`,
    /// first pair first.
    pub open spec fn after_frames(self, rolls: Seq<(u32, u32)>) -> SingleLedState
        decreases rolls.len(),
    {
        if rolls.len() == 0 {
            self
        } else {
            self.after_frames(rolls.drop_last()).next_frame(rolls.last().0, rolls.last().1)
        }
    }
}

/// Struct for setting a single color on an LED strip. All other LEDs will be shut off when one is
/// turned on.
#[derive(Debug)]
pub struct Rgb8SingleLedFadeAnimation {
    /// The pixel color that we desire for the LED turning on.
    pixel_color: Color,
    pixels: Vec<Color>,
    num_pixels: usize,
    current_idx_on: Option<usize>,
    /// Amount to fade in and out.
    fade_step_value: u8,
    /// Amount to over fade in (for extra flickering)
    over_fade_value: u8,
    /// Whether the LED turning on should flicker
    flicker: bool,
    flickered_last_frame: bool,
}

impl View for Rgb8SingleLedFadeAnimation {
    type V = SingleLedState;

    closed spec fn view(&self) -> SingleLedState {
        SingleLedState {
            pixel_color: self.pixel_color,
            pixels: self.pixels@,
            current_on_index: match self.current_idx_on {
                Some(idx) => Some(idx as int),
                None => None,
            },
            fade_step: self.fade_step_value,
            over_fade_step: self.over_fade_value,
            flicker_enabled: self.flicker,
            flickered_last_frame: self.flickered_last_frame,
        }
    }
}

/// Draws a `u32` with `rand::random`, which hands out uniformly distributed
/// values from the thread's generator.
///
/// Nothing is claimed of the value drawn: two draws may differ, and every
/// `u32` may come back. The call aborts with a panic only where the operating
/// system cannot seed the generator.
#[verifier::external_body]
fn random_u32() -> u32 {
    rand::random::<u32>()
}

/// Computes one and a half times the fade step, stopping at 255.
fn flicker_step(fade_step_value: u8) -> (step: u8)
    ensures
        step == flicker_fade_step(fade_step_value),
{
    fade_step_value.saturating_add(fade_step_value / 2)
}

impl Rgb8SingleLedFadeAnimation {
    #[verifier::type_invariant]
    spec fn inv(self) -> bool {
        &&& self.num_pixels == self.pixels@.len()
        &&& self.current_idx_on matches Some(idx) ==> idx < self.num_pixels
    }

    /// Creates a new `Rgb8SingleLedFadeAnimation`, for setting a single LED at a time. The LED
    /// will use the specified color. All other LEDs will be set back to off.
    ///
    /// Useful for situations where an LED specifies a single value, such as an elevator floor
    /// number LED.
    pub fn new(
        num_pixels: usize,
        pixel_color: Color,
        fade_step_value: u8,
        over_fade_value: u8,
    ) -> (animation: Self)
        ensures
            animation@ == SingleLedState::initial(
                num_pixels as nat,
                pixel_color,
                fade_step_value,
                over_fade_value,
            ),
    {
        Self {
            pixel_color,
            // the pixels should default to being all off
            pixels: all_off(num_pixels),
            num_pixels,
            current_idx_on: None,  // since none of the lights are on
            fade_step_value,
            over_fade_value,
            flicker: false,
            flickered_last_frame: false,
        }
    }

    /// Performs the next frame for this animation with the two flicker rolls
    /// given by the caller.
    ///
    /// The rolls are consulted only while the lit LED is in the middle of
    /// turning on with flicker enabled, and each is reduced to `0..100` first.
    /// A first roll under 33 fades the lit LED back out by one and a half
    /// fade steps instead of fading it in; a second roll under 33 disables
    /// the flicker until an LED is set on with flicker again. All other LEDs
    /// fade out.
    pub fn next_frame_with_rolls(&mut self, flicker_roll: u32, stop_flicker_roll: u32)
        ensures
            final(self)@ == old(self)@.next_frame(flicker_roll, stop_flicker_roll),
            final(self)@.wf(),
    {
        proof {
            use_type_invariant(&*self);
        }
        // fade in only the LED that we have set currently
        if let Some(current_idx_on) = self.current_idx_on {
            // flicker only while in the middle of turning on
            let flicker_pending = !is_led_faded_out(&self.pixels[current_idx_on]) && self.flicker
                && !self.flickered_last_frame;
            if flicker_pending && flicker_roll % RAND_FLICKER_MOD < RAND_CHANCE_TO_FLICKER {
                // randomly fade back out instead
                let flicker_fade_step = flicker_step(self.fade_step_value);
                fade_out_led(&mut self.pixels[current_idx_on], flicker_fade_step);
                self.flickered_last_frame = true;
            } else {
                fade_in_led(
                    &mut self.pixels[current_idx_on],
                    &self.pixel_color,
                    self.fade_step_value,
                    self.over_fade_value,
                );
                self.flickered_last_frame = false;
            }
            // roll to stop flickering
            if flicker_pending && stop_flicker_roll % RAND_FLICKER_MOD < RAND_CHANCE_STOP_FLICKER {
                self.flicker = false;
            }
        }

        // fade out all other LEDs that are off
        let mut i: usize = 0;
        while i < self.num_pixels
            invariant
                i <= self.num_pixels,
                self.num_pixels == self.pixels@.len(),
                self.pixels@.len() == old(self).pixels@.len(),
                self.current_idx_on == old(self).current_idx_on,
                self.current_idx_on matches Some(idx) ==> idx < self.num_pixels,
                self.pixel_color == old(self).pixel_color,
                self.fade_step_value == old(self).fade_step_value,
                self.over_fade_value == old(self).over_fade_value,
                self@.flicker_enabled == old(self)@.next_frame(
                    flicker_roll,
                    stop_flicker_roll,
                ).flicker_enabled,
                self@.flickered_last_frame == old(self)@.next_frame(
                    flicker_roll,
                    stop_flicker_roll,
                ).flickered_last_frame,
                forall|j: int|
                    0 <= j < self.pixels@.len() ==> #[trigger] self.pixels@[j] == if j < i
                        || old(self).current_idx_on == Some(j as usize) {
                        old(self)@.next_pixel(j, flicker_roll)
                    } else {
                        old(self).pixels@[j]
                    },
            decreases self.num_pixels - i,
        {
            let do_fade = match self.current_idx_on {
                // only do the fade out if the index isn't the LED that is currently on
                Some(current_idx_on) => i != current_idx_on,
                // all LEDs are off, we can fade this one
                None => true,
            };
            if do_fade {
                fade_out_led(&mut self.pixels[i], self.fade_step_value);
            }
            i = i + 1;
        }
        assert(self@.pixels =~= old(self)@.next_frame(flicker_roll, stop_flicker_roll).pixels);
    }

    /// Whether the next frame will consult the flicker rolls: an LED is on
    /// and in the middle of turning on, flicker is enabled, and the LED did
    /// not flicker on the frame before.
    pub fn flicker_pending(&self) -> (pending: bool)
        ensures
            pending == self@.flicker_pending(),
    {
        proof {
            use_type_invariant(self);
        }
        match self.current_idx_on {
            Some(current_idx_on) => !is_led_faded_out(&self.pixels[current_idx_on])
                && self.flicker && !self.flickered_last_frame,
            None => false,
        }
    }

    /// Sets the specified pixel on based on the input index. All other LEDs will be set to turn off.
    ///
    /// * `idx`: The LED index to light up.
    /// * `flicker`: Whether the LED that's turning on should flicker.
    ///
    /// Fails with `Err(())`, and changes nothing, if `idx` is not the index
    /// of an LED of this animation.
    pub fn set_led_on(&mut self, idx: usize, flicker: bool) -> (result: Result<(), ()>)
        ensures
            result is Err <==> idx >= old(self)@.pixels.len(),
            result is Err ==> final(self)@ == old(self)@,
            result is Ok ==> final(self)@ == (SingleLedState {
                current_on_index: Some(idx as int),
                flicker_enabled: flicker,
                ..old(self)@
            }),
            final(self)@.wf(),
    {
        proof {
            use_type_invariant(&*self);
        }
        if idx >= self.num_pixels {
            // the specified index goes beyond the number of pixels that we have
            Err(())
        } else {
            self.flicker = flicker;
            self.current_idx_on = Some(idx);
            Ok(())
        }
    }

    /// The LED that is on, if any.
    pub fn current_idx_on(&self) -> (current_idx_on: Option<usize>)
        ensures
            self@.wf(),
            self@.current_on_index == match current_idx_on {
                Some(idx) => Some(idx as int),
                None => None,
            },
    {
        proof {
            use_type_invariant(self);
        }
        self.current_idx_on
    }

    /// Whether the LED that is turning on may still flicker.
    pub fn flicker(&self) -> (flicker: bool)
        ensures
            flicker == self@.flicker_enabled,
    {
        self.flicker
    }

    /// Turns the current LED that is on, off.
    pub fn turn_led_off(&mut self)
        ensures
            final(self)@ == (SingleLedState { current_on_index: None, ..old(self)@ }),
            final(self)@.wf(),
    {
        proof {
            use_type_invariant(&*self);
        }
        self.current_idx_on = None;
    }
}

impl RgbLedAnimation for Rgb8SingleLedFadeAnimation {
    /// Perform the next frame for this animation. This will fade the light in that is on and will
    /// fade out lights that are off.
    ///
    /// While the lit LED may flicker, two random rolls are drawn and the
    /// frame is the one that [`Rgb8SingleLedFadeAnimation::next_frame_with_rolls`]
    /// computes from them. Otherwise nothing is drawn and the frame does not
    /// depend on chance.
    fn next_frame(&mut self)
        ensures
            exists|flicker_roll: u32, stop_flicker_roll: u32|
                final(self)@ == old(self)@.next_frame(flicker_roll, stop_flicker_roll),
            !old(self)@.flicker_pending() ==> forall|flicker_roll: u32, stop_flicker_roll: u32|
                final(self)@ == #[trigger] old(self)@.next_frame(flicker_roll, stop_flicker_roll),
            final(self)@.wf(),
    {
        if self.flicker_pending() {
            let flicker_roll = random_u32();
            let stop_flicker_roll = random_u32();
            self.next_frame_with_rolls(flicker_roll, stop_flicker_roll);
        } else {
            self.next_frame_with_rolls(0, 0);
            proof {
                assert forall|flicker_roll: u32, stop_flicker_roll: u32|
                    self@ == #[trigger] old(self)@.next_frame(
                        flicker_roll,
                        stop_flicker_roll,
                    ) by {
                    lemma_rolls_matter_only_while_pending(
                        old(self)@,
                        (0, 0),
                        (flicker_roll, stop_flicker_roll),
                    );
                }
            }
        }
    }
}

impl AsRef<Vec<Color>> for Rgb8SingleLedFadeAnimation {
    fn as_ref(&self) -> (pixels: &Vec<Color>)
        ensures
            pixels@ == self@.pixels,
    {
        &self.pixels
    }
}

/// A frame changes nothing but the colors of the pixels and the two
/// flicker flags: the strip keeps its length, the same LED stays selected and
/// the parameters stay as they were set. Flicker that is disabled stays
/// disabled.
pub proof fn lemma_frames_keep_selection(state: SingleLedState, rolls: Seq<(u32, u32)>)
    ensures
        state.after_frames(rolls).pixels.len() == state.pixels.len(),
        state.after_frames(rolls).current_on_index == state.current_on_index,
        state.after_frames(rolls).pixel_color == state.pixel_color,
        state.after_frames(rolls).fade_step == state.fade_step,
        state.after_frames(rolls).over_fade_step == state.over_fade_step,
        state.wf() ==> state.after_frames(rolls).wf(),
        !state.flicker_enabled ==> !state.after_frames(rolls).flicker_enabled,
    decreases rolls.len(),
{
    if rolls.len() > 0 {
        lemma_frames_keep_selection(state, rolls.drop_last());
    }
}

/// The rolls matter only while a flicker is pending: in every other state
/// the next frame is the same whatever is rolled.
pub proof fn lemma_rolls_matter_only_while_pending(
    state: SingleLedState,
    rolls: (u32, u32),
    other_rolls: (u32, u32),
)
    requires
        !state.flicker_pending(),
    ensures
        state.next_frame(rolls.0, rolls.1) == state.next_frame(other_rolls.0, other_rolls.1),
{
    assert(state.next_frame(rolls.0, rolls.1).pixels =~= state.next_frame(
        other_rolls.0,
        other_rolls.1,
    ).pixels);
}

/// The lit LED never flickers on two frames in a row: the frame after a
/// flicker fades it in, whatever is rolled.
pub proof fn lemma_no_flicker_twice_in_a_row(
    state: SingleLedState,
    rolls: (u32, u32),
    next_rolls: (u32, u32),
)
    requires
        state.flicker_fires(rolls.0),
    ensures
        state.next_frame(rolls.0, rolls.1).flickered_last_frame,
        !state.next_frame(rolls.0, rolls.1).flicker_fires(next_rolls.0),
        !state.next_frame(rolls.0, rolls.1).next_frame(
            next_rolls.0,
            next_rolls.1,
        ).flickered_last_frame,
{
}

/// With flicker disabled the frames do not depend on chance: after any
/// number of frames, whatever was rolled, the lit LED has faded in toward the
/// pixel color once per frame and every other LED has faded out once per
/// frame.
pub proof fn lemma_steady_fade_without_flicker(
    state: SingleLedState,
    rolls: Seq<(u32, u32)>,
    i: int,
)
    requires
        state.wf(),
        !state.flicker_enabled,
        0 <= i < state.pixels.len(),
    ensures
        state.current_on_index == Some(i) ==> state.after_frames(rolls).pixels[i] == faded_in_n(
            state.pixels[i],
            state.pixel_color,
            state.fade_step,
            state.over_fade_step,
            rolls.len(),
        ),
        state.current_on_index != Some(i) ==> state.after_frames(rolls).pixels[i] == faded_out_n(
            state.pixels[i],
            state.fade_step,
            rolls.len(),
        ),
    decreases rolls.len(),
{
    if rolls.len() > 0 {
        lemma_steady_fade_without_flicker(state, rolls.drop_last(), i);
        lemma_frames_keep_selection(state, rolls.drop_last());
    }
}

/// With flicker disabled and no over-fade, every channel of the lit LED
/// approaches the pixel color monotonically: after `rolls.len()` frames it
/// lies on the side of its target where it started, and what is left of its
/// distance is the distance at the start less one fade step per frame, or
/// nothing.
pub proof fn lemma_lit_led_approaches_color(
    state: SingleLedState,
    rolls: Seq<(u32, u32)>,
    i: int,
)
    requires
        state.wf(),
        !state.flicker_enabled,
        state.over_fade_step == 0,
        state.current_on_index == Some(i),
    ensures
        ({
            let start = state.pixels[i];
            let lit = state.after_frames(rolls).pixels[i];
            let target = state.pixel_color;
            let covered = rolls.len() * state.fade_step;
            &&& channel_distance(lit.r, target.r) == vstd::math::max(
                0,
                channel_distance(start.r, target.r) - covered,
            )
            &&& channel_distance(lit.g, target.g) == vstd::math::max(
                0,
                channel_distance(start.g, target.g) - covered,
            )
            &&& channel_distance(lit.b, target.b) == vstd::math::max(
                0,
                channel_distance(start.b, target.b) - covered,
            )
            &&& start.r <= target.r ==> start.r <= lit.r <= target.r
            &&& start.r >= target.r ==> start.r >= lit.r >= target.r
            &&& start.g <= target.g ==> start.g <= lit.g <= target.g
            &&& start.g >= target.g ==> start.g >= lit.g >= target.g
            &&& start.b <= target.b ==> start.b <= lit.b <= target.b
            &&& start.b >= target.b ==> start.b >= lit.b >= target.b
        }),
{
    let start = state.pixels[i];
    let target = state.pixel_color;
    lemma_steady_fade_without_flicker(state, rolls, i);
    lemma_faded_in_n_channels(start, target, state.fade_step, rolls.len());
    lemma_fade_toward_n_distance(start.r, target.r, state.fade_step, rolls.len());
    lemma_fade_toward_n_distance(start.g, target.g, state.fade_step, rolls.len());
    lemma_fade_toward_n_distance(start.b, target.b, state.fade_step, rolls.len());
}

/// With flicker disabled, no over-fade and a positive fade step, every
/// frame brings each channel of the lit LED strictly closer to the pixel
/// color until the channel has arrived.
pub proof fn lemma_lit_led_gets_closer_each_frame(
    state: SingleLedState,
    rolls: Seq<(u32, u32)>,
    next_rolls: (u32, u32),
    i: int,
)
    requires
        state.wf(),
        !state.flicker_enabled,
        state.over_fade_step == 0,
        state.fade_step > 0,
        state.current_on_index == Some(i),
    ensures
        ({
            let lit = state.after_frames(rolls).pixels[i];
            let next = state.after_frames(rolls.push(next_rolls)).pixels[i];
            let target = state.pixel_color;
            &&& lit.r != target.r ==> channel_distance(next.r, target.r) < channel_distance(
                lit.r,
                target.r,
            )
            &&& lit.g != target.g ==> channel_distance(next.g, target.g) < channel_distance(
                lit.g,
                target.g,
            )
            &&& lit.b != target.b ==> channel_distance(next.b, target.b) < channel_distance(
                lit.b,
                target.b,
            )
            &&& lit == target ==> next == target
        }),
{
    let start = state.pixels[i];
    let target = state.pixel_color;
    let frames = rolls.len();
    assert(rolls.push(next_rolls).drop_last() =~= rolls);
    lemma_steady_fade_without_flicker(state, rolls, i);
    lemma_steady_fade_without_flicker(state, rolls.push(next_rolls), i);
    lemma_faded_in_n_channels(start, target, state.fade_step, frames);
    lemma_faded_in_n_channels(start, target, state.fade_step, frames + 1);
    lemma_fade_toward_n_distance(start.r, target.r, state.fade_step, frames);
    lemma_fade_toward_n_distance(start.g, target.g, state.fade_step, frames);
    lemma_fade_toward_n_distance(start.b, target.b, state.fade_step, frames);
}

} // verus!
