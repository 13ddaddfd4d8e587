//! Helpers shared by the animations.

pub mod fade_laws;
pub mod led_fade;
pub mod led_index;
