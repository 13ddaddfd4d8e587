//! The animations.

pub mod elevator_animation;
pub mod fading_snake_animation;
pub mod single_led_fade_animation;
