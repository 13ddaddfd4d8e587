//! A bar of lit LEDs that slides along the strip and can reverse.
//!
//! The bar lives in an index space that is larger than the strip, so that it
//! can enter and leave at either end: its head and tail may be negative or lie
//! beyond the last LED. Positions stop at the ends of the `isize` range.

use vstd::prelude::*;

use crate::color::{all_off, Color};
use crate::led_helpers::led_fade::{fade_in_led, fade_out_led, faded_in, faded_out};
use crate::led_helpers::led_index::{clamp_index, led_within};
use crate::RgbLedAnimation;

verus! {

/// Represents the direction the elevator is moving in.
#[derive(Clone, Copy, Debug, PartialEq, Eq, Structural)]
pub enum ElevatorDirection {
    Up,
    Down,
}

/// Keeps track of where the elevator is located when the animation starts, in respect to the
/// `num_pixels` used to represent the elevator.
#[derive(Clone, Copy, Debug, PartialEq, Eq, Structural)]
pub enum ElevatorStartingPosition {
    Above,
    Below,
    Center,
}

/// Where the upper end of the bar starts.
pub open spec fn starting_top(
    num_pixels: nat,
    elevator_length: nat,
    position: ElevatorStartingPosition,
) -> int {
    match position {
        ElevatorStartingPosition::Above => num_pixels + elevator_length - 1,
        ElevatorStartingPosition::Center => elevator_length - 1,
        ElevatorStartingPosition::Below => -1,
    }
}

/// Where the lower end of the bar starts.
pub open spec fn starting_bottom(
    num_pixels: nat,
    elevator_length: nat,
    position: ElevatorStartingPosition,
) -> int {
    match position {
        ElevatorStartingPosition::Above => num_pixels as int,
        ElevatorStartingPosition::Center => 0,
        ElevatorStartingPosition::Below => -elevator_length,
    }
}

/// What a [`Rgb8ElevatorAnimation`] holds between two frames.
pub struct ElevatorState {
    /// The color of the bar.
    pub color: Color,
    /// The pixel buffer, first LED first.
    pub pixels: Seq<Color>,
    /// The end of the bar that faces the direction of travel.
    pub head_index: int,
    /// The trailing end of the bar.
    pub tail_index: int,
    /// The number of LEDs that the bar was made to cover.
    pub length: nat,
    /// The direction of travel.
    pub direction: ElevatorDirection,
    /// Whether the bar stands still.
    pub stopped: bool,
    /// Amount to fade in and out per frame.
    pub fade_step: u8,
    /// The number of LEDs that the bar moves per frame.
    pub speed: nat,
}

impl ElevatorState {
    /// Head and tail are positions that an elevator can hold.
    pub open spec fn wf(self) -> bool {
        &&& clamp_index(self.head_index) == self.head_index
        &&& clamp_index(self.tail_index) == self.tail_index
    }

    /// The state of a new animation: all LEDs off, the bar at its starting
    /// position with the head facing the direction of travel.
    pub open spec fn initial(
        color: Color,
        num_pixels: nat,
        length: nat,
        fade_step: u8,
        stopped: bool,
        direction: ElevatorDirection,
        speed: nat,
        position: ElevatorStartingPosition,
    ) -> ElevatorState {
        let top = clamp_index(starting_top(num_pixels, length, position));
        let bottom = clamp_index(starting_bottom(num_pixels, length, position));
        ElevatorState {
            color,
            pixels: Seq::new(num_pixels, |i: int| Color::off()),
            head_index: if direction == ElevatorDirection::Up {
                top
            } else {
                bottom
            },
            tail_index: if direction == ElevatorDirection::Up {
                bottom
            } else {
                top
            },
            length,
            direction,
            stopped,
            fade_step,
            speed,
        }
    }

    /// Whether index `i` lies on the bar: between head and tail, both
    /// included, whichever of the two is the larger.
    pub open spec fn covers(self, i: int) -> bool {
        (self.tail_index <= i <= self.head_index) || (self.head_index <= i <= self.tail_index)
    }

    /// The LEDs of the strip that lie on the bar.
    pub open spec fn lit_indices(self) -> Set<int> {
        Set::new(|i: int| 0 <= i < self.pixels.len() && self.covers(i))
    }

    /// How far a moving bar travels per frame: up is positive.
    pub open spec fn displacement(self) -> int {
        match self.direction {
            ElevatorDirection::Up => self.speed as int,
            ElevatorDirection::Down => -(self.speed as int),
        }
    }

    /// The state after the bar has moved by one frame's displacement, or has
    /// stayed if it is stopped. The pixels are untouched.
    pub open spec fn moved(self) -> ElevatorState {
        if self.stopped {
            self
        } else {
            ElevatorState {
                head_index: clamp_index(self.head_index + self.displacement()),
                tail_index: clamp_index(self.tail_index + self.displacement()),
                ..self
            }
        }
    }

    /// The state after every LED on the bar has faded in toward the bar's
    /// color by one step and every other LED has faded out by one step.
    pub open spec fn faded(self) -> ElevatorState {
        ElevatorState {
            pixels: Seq::new(
                self.pixels.len(),
                |i: int|
                    if self.covers(i) {
                        faded_in(self.pixels[i], self.color, self.fade_step, 0)
                    } else {
                        faded_out(self.pixels[i], self.fade_step)
                    },
            ),
            ..self
        }
    }

    /// The state after the next frame: the bar moves, then the pixels fade.
    pub open spec fn next_frame(self) -> ElevatorState {
        self.moved().faded()
    }

    /// The state after `frames` frames.
    pub open spec fn after_frames(self, frames: nat) -> ElevatorState
        decreases frames,
    {
        if frames == 0 {
            self
        } else {
            self.after_frames((frames - 1) as nat).next_frame()
        }
    }

    /// The state after the direction has changed: head and tail have swapped
    /// and the bar travels the other way.
    pub open spec fn reversed(self) -> ElevatorState {
        ElevatorState {
            head_index: self.tail_index,
            tail_index: self.head_index,
            direction: match self.direction {
                ElevatorDirection::Up => ElevatorDirection::Down,
                ElevatorDirection::Down => ElevatorDirection::Up,
            },
            ..self
        }
    }
}

/// Struct to handle performing an elevator animation. This animation will be a sliding
/// bar, which fades in the body of the elevator and fades out everywhere else. When changing
/// directions, the head and tail indices switch.
pub struct Rgb8ElevatorAnimation {
    elevator_color: Color,
    pixels: Vec<Color>,
    // we want to go above or below, so we need to be able to go negative (so we're using isize)
    head_idx: isize,
    tail_idx: isize,
    elevator_length: usize,
    elevator_direction: ElevatorDirection,
    elevator_stopped: bool,
    /// Amount to fade in and out as the elevator moves
    fade_step_value: u8,
    elevator_speed: usize,
}

impl View for Rgb8ElevatorAnimation {
    type V = ElevatorState;

    closed spec fn view(&self) -> ElevatorState {
        ElevatorState {
            color: self.elevator_color,
            pixels: self.pixels@,
            head_index: self.head_idx as int,
            tail_index: self.tail_idx as int,
            length: self.elevator_length as nat,
            direction: self.elevator_direction,
            stopped: self.elevator_stopped,
            fade_step: self.fade_step_value,
            speed: self.elevator_speed as nat,
        }
    }
}

/// The position nearest to a count of LEDs.
fn index_of_count(count: usize) -> (index: isize)
    ensures
        index == clamp_index(count as int),
{
    if count > isize::MAX as usize {
        isize::MAX
    } else {
        count as isize
    }
}

/// Moves a position by `speed` in `direction`, stopping at the ends of the
/// range of positions.
fn shift_index(index: isize, direction: ElevatorDirection, speed: usize) -> (shifted: isize)
    ensures
        direction == ElevatorDirection::Up ==> shifted == clamp_index(index + speed),
        direction == ElevatorDirection::Down ==> shifted == clamp_index(index - speed),
{
    match direction {
        ElevatorDirection::Up => match index.checked_add_unsigned(speed) {
            Some(shifted) => shifted,
            None => isize::MAX,
        },
        ElevatorDirection::Down => match index.checked_sub_unsigned(speed) {
            Some(shifted) => shifted,
            None => isize::MIN,
        },
    }
}

impl Rgb8ElevatorAnimation {
    /// Creates a new animation, with all lights off at the start.
    ///
    /// The bar starts above the strip with its lower end just past the last
    /// LED, below the strip with its upper end just before the first LED, or
    /// with its lower end on the first LED. The head is the end that faces
    /// `elevator_direction`.
    pub fn new(
        elevator_color: Color,
        num_pixels: usize,
        elevator_length: usize,
        fade_step_value: u8,
        elevator_stopped: bool,
        elevator_direction: ElevatorDirection,
        elevator_speed: usize,
        elevator_starting_position: ElevatorStartingPosition,
    ) -> (animation: Self)
        ensures
            animation@ == ElevatorState::initial(
                elevator_color,
                num_pixels as nat,
                elevator_length as nat,
                fade_step_value,
                elevator_stopped,
                elevator_direction,
                elevator_speed as nat,
                elevator_starting_position,
            ),
    {
        // let's calculate the starting position of the head and tail indices
        let (top_idx, bottom_idx): (isize, isize) = match elevator_starting_position {
            ElevatorStartingPosition::Above => (
                match num_pixels.checked_add(elevator_length) {
                    Some(0) => -1,
                    Some(past_top) => index_of_count(past_top - 1),
                    None => isize::MAX,
                },
                index_of_count(num_pixels),
            ),
            ElevatorStartingPosition::Center => (
                shift_index(-1, ElevatorDirection::Up, elevator_length),
                0,
            ),
            ElevatorStartingPosition::Below => (
                -1,
                shift_index(0, ElevatorDirection::Down, elevator_length),
            ),
        };

        // the head is always facing the direction that the elevator is moving in
        let (head_idx, tail_idx) = match elevator_direction {
            ElevatorDirection::Up => (top_idx, bottom_idx),
            ElevatorDirection::Down => (bottom_idx, top_idx),
        };

        Self {
            elevator_color,
            pixels: all_off(num_pixels),
            head_idx,
            tail_idx,
            elevator_length,
            elevator_stopped,
            elevator_direction,
            fade_step_value,
            elevator_speed,
        }
    }

    /// The position of the end of the bar that faces the direction of travel.
    pub fn head_idx(&self) -> (head_idx: isize)
        ensures
            head_idx == self@.head_index,
    {
        self.head_idx
    }

    /// The position of the trailing end of the bar.
    pub fn tail_idx(&self) -> (tail_idx: isize)
        ensures
            tail_idx == self@.tail_index,
    {
        self.tail_idx
    }

    /// The direction that the elevator is moving in.
    pub fn direction(&self) -> (direction: ElevatorDirection)
        ensures
            direction == self@.direction,
    {
        self.elevator_direction
    }

    /// Changes the direction of the elevator.
    ///
    /// Head and tail swap, so the bar covers the same LEDs as before and
    /// starts to travel the other way with the next frame.
    pub fn change_direction(&mut self)
        ensures
            final(self)@ == old(self)@.reversed(),
    {
        let head_idx = self.head_idx;
        self.head_idx = self.tail_idx;
        self.tail_idx = head_idx;
        self.elevator_direction = match self.elevator_direction {
            ElevatorDirection::Up => ElevatorDirection::Down,
            ElevatorDirection::Down => ElevatorDirection::Up,
        };
    }

    /// Sets the speed of the elevator.
    ///
    /// * `elevator_speed`: The new speed.
    pub fn set_speed(&mut self, elevator_speed: usize)
        ensures
            final(self)@ == (ElevatorState { speed: elevator_speed as nat, ..old(self)@ }),
    {
        self.elevator_speed = elevator_speed;
    }

    /// Sets the color of the Elevator.
    ///
    /// * `elevator_color`: The new color of the elevator.
    pub fn set_color(&mut self, elevator_color: Color)
        ensures
            final(self)@ == (ElevatorState { color: elevator_color, ..old(self)@ }),
    {
        self.elevator_color = elevator_color;
    }
}

impl RgbLedAnimation for Rgb8ElevatorAnimation {
    /// Moves the bar, unless it is stopped, and then fades every LED by one
    /// step: toward the elevator color on the bar, toward off elsewhere.
    fn next_frame(&mut self)
        ensures
            final(self)@ == old(self)@.next_frame(),
    {
        if !self.elevator_stopped {
            // both move in the same direction, obviously
            self.head_idx = shift_index(self.head_idx, self.elevator_direction, self.elevator_speed);
            self.tail_idx = shift_index(self.tail_idx, self.elevator_direction, self.elevator_speed);
        }
        let ghost moved = self@;
        assert(moved == old(self)@.moved());

        let mut i: usize = 0;
        while i < self.pixels.len()
            invariant
                i <= self.pixels@.len(),
                self.pixels@.len() == moved.pixels.len(),
                self@ == (ElevatorState { pixels: self.pixels@, ..moved }),
                forall|j: int|
                    0 <= j < self.pixels@.len() ==> #[trigger] self.pixels@[j] == if j < i {
                        moved.faded().pixels[j]
                    } else {
                        moved.pixels[j]
                    },
            decreases self.pixels@.len() - i,
        {
            if led_within(i, self.tail_idx, self.head_idx) || led_within(
                i,
                self.head_idx,
                self.tail_idx,
            ) {
                // fade in body
                fade_in_led(&mut self.pixels[i], &self.elevator_color, self.fade_step_value, 0);
            } else {
                // fade out rest
                fade_out_led(&mut self.pixels[i], self.fade_step_value);
            }
            i = i + 1;
        }
        assert(self@.pixels =~= moved.faded().pixels);
    }
}

impl AsRef<Vec<Color>> for Rgb8ElevatorAnimation {
    fn as_ref(&self) -> (pixels: &Vec<Color>)
        ensures
            pixels@ == self@.pixels,
    {
        &self.pixels
    }
}

/// Changing direction swaps head and tail and nothing else that shows:
/// the bar covers the same indices, the same LEDs of the strip are lit, the
/// pixels are untouched, and the fade that the next frame applies to the
/// pixels is the same. Changing direction twice restores the state.
pub proof fn lemma_reverse_keeps_lit_indices(state: ElevatorState)
    ensures
        forall|i: int| state.reversed().covers(i) == state.covers(i),
        state.reversed().lit_indices() == state.lit_indices(),
        state.reversed().pixels == state.pixels,
        state.reversed().faded().pixels == state.faded().pixels,
        state.reversed().reversed() == state,
{
    assert(state.reversed().lit_indices() =~= state.lit_indices());
    assert(state.reversed().faded().pixels =~= state.faded().pixels);
}

/// A frame changes nothing but the positions and the colors of the pixels:
/// the strip keeps its length and the parameters stay as they were set.
pub proof fn lemma_frames_keep_parameters(state: ElevatorState, frames: nat)
    ensures
        state.after_frames(frames).pixels.len() == state.pixels.len(),
        state.after_frames(frames).color == state.color,
        state.after_frames(frames).length == state.length,
        state.after_frames(frames).direction == state.direction,
        state.after_frames(frames).stopped == state.stopped,
        state.after_frames(frames).fade_step == state.fade_step,
        state.after_frames(frames).speed == state.speed,
        state.wf() ==> state.after_frames(frames).wf(),
    decreases frames,
{
    if frames > 0 {
        lemma_frames_keep_parameters(state, (frames - 1) as nat);
    }
}

/// After `frames` frames a moving bar has travelled `frames` times its
/// displacement, as far as the range of positions lets it; a stopped bar is
/// where it was.
pub proof fn lemma_position_after_frames(state: ElevatorState, frames: nat)
    requires
        state.wf(),
    ensures
        !state.stopped ==> state.after_frames(frames).head_index == clamp_index(
            state.head_index + frames * state.displacement(),
        ),
        !state.stopped ==> state.after_frames(frames).tail_index == clamp_index(
            state.tail_index + frames * state.displacement(),
        ),
        state.stopped ==> state.after_frames(frames).head_index == state.head_index,
        state.stopped ==> state.after_frames(frames).tail_index == state.tail_index,
    decreases frames,
{
    if frames > 0 {
        let before = (frames - 1) as nat;
        let step = state.displacement();
        lemma_position_after_frames(state, before);
        lemma_frames_keep_parameters(state, before);
        assert(frames * step == before * step + step) by (nonlinear_arith)
            requires
                before == frames - 1,
        ;
        assert(step >= 0 ==> before * step >= 0) by (nonlinear_arith);
        assert(step <= 0 ==> before * step <= 0) by (nonlinear_arith);
    }
}

/// A bar that starts below the strip and rises: after `frames` frames its
/// tail is `frames` times the speed above `-elevator_length` and its head is
/// as far above `-1`, as far as the range of positions lets them.
pub proof fn lemma_rising_from_below(
    color: Color,
    num_pixels: nat,
    elevator_length: nat,
    fade_step: u8,
    speed: nat,
    frames: nat,
)
    ensures
        ({
            let start = ElevatorState::initial(
                color,
                num_pixels,
                elevator_length,
                fade_step,
                false,
                ElevatorDirection::Up,
                speed,
                ElevatorStartingPosition::Below,
            );
            &&& start.after_frames(frames).tail_index == clamp_index(
                clamp_index(-elevator_length) + frames * speed,
            )
            &&& start.after_frames(frames).head_index == clamp_index(-1 + frames * speed)
        }),
{
    let start = ElevatorState::initial(
        color,
        num_pixels,
        elevator_length,
        fade_step,
        false,
        ElevatorDirection::Up,
        speed,
        ElevatorStartingPosition::Below,
    );
    lemma_position_after_frames(start, frames);
}

/// No LED lights before the bar reaches it: an LED that is off and does not
/// lie on the bar once the bar has moved is still off after the frame.
pub proof fn lemma_dark_off_the_bar(state: ElevatorState, i: int)
    requires
        0 <= i < state.pixels.len(),
        state.pixels[i] == Color::off(),
        !state.moved().covers(i),
    ensures
        state.next_frame().pixels[i] == Color::off(),
{
}

} // verus!
