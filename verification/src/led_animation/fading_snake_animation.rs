//! A window of lit LEDs whose position is set by its owner.
//!
//! Unlike the elevator, this animation never moves its window by itself: a
//! frame only fades the pixels toward what the window says. The window
//! starts just before the first LED, so a new animation lights nothing until
//! its owner places the window on the strip.

use vstd::prelude::*;

use crate::color::{all_off, Color};
use crate::led_helpers::led_fade::{fade_in_led, fade_out_led, faded_in, faded_out};
use crate::led_helpers::led_index::{clamp_index, led_within};
use crate::{Direction, RgbLedAnimation};

verus! {

/// What a [`Rgb8FadingSnakeWindowAnimation`] holds between two frames.
pub struct SnakeWindowState {
    /// The color of the snake.
    pub color: Color,
    /// The pixel buffer, first LED first.
    pub pixels: Seq<Color>,
    /// The upper end of the window.
    pub head_index: int,
    /// The lower end of the window.
    pub tail_index: int,
    /// The number of LEDs that the snake was made to cover.
    pub length: nat,
    /// The direction the snake is said to move in.
    pub direction: Direction,
    /// Amount to fade in and out per frame.
    pub fade_step: u8,
}

impl SnakeWindowState {
    /// The state of a new animation: all LEDs off, the head just before the
    /// first LED and the tail `length` LEDs before the position after the
    /// head.
    pub open spec fn initial(
        color: Color,
        num_pixels: nat,
        length: nat,
        fade_step: u8,
    ) -> SnakeWindowState {
        SnakeWindowState {
            color,
            pixels: Seq::new(num_pixels, |i: int| Color::off()),
            head_index: -1,
            tail_index: clamp_index(-1 + 1 - length),
            length,
            direction: Direction::Forward,
            fade_step,
        }
    }

    /// Whether index `i` lies in the window: from the tail up to the head,
    /// both included. A window whose tail lies above its head is empty.
    pub open spec fn covers(self, i: int) -> bool {
        self.tail_index <= i <= self.head_index
    }

    /// The state after the next frame: every LED in the window has faded in
    /// toward the snake's color by one step, every other LED has faded out
    /// by one step, and the window is where it was.
    pub open spec fn next_frame(self) -> SnakeWindowState {
        SnakeWindowState {
            pixels: Seq::new(
                self.pixels.len(),
                |i: int|
                    if self.covers(i) {
                        faded_in(self.pixels[i], self.color, self.fade_step, 0)
                    } else {
                        faded_out(self.pixels[i], self.fade_step)
                    },
            ),
            ..self
        }
    }
}

/// Struct to handle performing a fading snake window animation. This animation is a
/// window, which fades in the body of the snake and fades out everywhere else.
pub struct Rgb8FadingSnakeWindowAnimation {
    snake_color: Color,
    pixels: Vec<Color>,
    // we want to go above or below, so we need to be able to go negative (so we're using isize)
    head_idx: isize,
    tail_idx: isize,
    snake_length: usize,
    snake_direction: Direction,  // direction snake is moving in
    fade_step_value: u8,
}

impl View for Rgb8FadingSnakeWindowAnimation {
    type V = SnakeWindowState;

    closed spec fn view(&self) -> SnakeWindowState {
        SnakeWindowState {
            color: self.snake_color,
            pixels: self.pixels@,
            head_index: self.head_idx as int,
            tail_index: self.tail_idx as int,
            length: self.snake_length as nat,
            direction: self.snake_direction,
            fade_step: self.fade_step_value,
        }
    }
}

impl Rgb8FadingSnakeWindowAnimation {
    /// Creates a new animation, with all lights off at the start.
    pub fn new(
        snake_color: Color,
        num_pixels: usize,
        snake_length: usize,
        fade_step_value: u8,
    ) -> (animation: Self)
        ensures
            animation@ == SnakeWindowState::initial(
                snake_color,
                num_pixels as nat,
                snake_length as nat,
                fade_step_value,
            ),
    {
        // let's start off with all off
        let head_idx: isize = -1;  // off screen
        let tail_idx: isize = match (head_idx + 1).checked_sub_unsigned(snake_length) {
            Some(tail_idx) => tail_idx,
            None => isize::MIN,
        };
        Self {
            snake_color,
            pixels: all_off(num_pixels),
            head_idx,
            tail_idx,
            snake_length,
            snake_direction: Direction::Forward,
            fade_step_value,
        }
    }

    /// The position of the upper end of the window.
    pub fn head_idx(&self) -> (head_idx: isize)
        ensures
            head_idx == self@.head_index,
    {
        self.head_idx
    }

    /// The position of the lower end of the window.
    pub fn tail_idx(&self) -> (tail_idx: isize)
        ensures
            tail_idx == self@.tail_index,
    {
        self.tail_idx
    }

    /// Places the window: from `tail_idx` up to `head_idx`, both included.
    ///
    /// The pixels follow with the next frames.
    pub fn set_window(&mut self, head_idx: isize, tail_idx: isize)
        ensures
            final(self)@ == (SnakeWindowState {
                head_index: head_idx as int,
                tail_index: tail_idx as int,
                ..old(self)@
            }),
    {
        self.head_idx = head_idx;
        self.tail_idx = tail_idx;
    }
}

impl RgbLedAnimation for Rgb8FadingSnakeWindowAnimation {
    /// Fades every LED by one step: toward the snake color in the window,
    /// toward off elsewhere. The window does not move.
    fn next_frame(&mut self)
        ensures
            final(self)@ == old(self)@.next_frame(),
    {
        let mut i: usize = 0;
        while i < self.pixels.len()
            invariant
                i <= self.pixels@.len(),
                self.pixels@.len() == old(self).pixels@.len(),
                self@ == (SnakeWindowState { pixels: self.pixels@, ..old(self)@ }),
                forall|j: int|
                    0 <= j < self.pixels@.len() ==> #[trigger] self.pixels@[j] == if j < i {
                        old(self)@.next_frame().pixels[j]
                    } else {
                        old(self).pixels@[j]
                    },
            decreases self.pixels@.len() - i,
        {
            if led_within(i, self.tail_idx, self.head_idx) {
                // fade in body
                fade_in_led(&mut self.pixels[i], &self.snake_color, self.fade_step_value, 0);
            } else {
                // fade out rest
                fade_out_led(&mut self.pixels[i], self.fade_step_value);
            }
            i = i + 1;
        }
        assert(self@.pixels =~= old(self)@.next_frame().pixels);
    }
}

impl AsRef<Vec<Color>> for Rgb8FadingSnakeWindowAnimation {
    fn as_ref(&self) -> (pixels: &Vec<Color>)
        ensures
            pixels@ == self@.pixels,
    {
        &self.pixels
    }
}

} // verus!
