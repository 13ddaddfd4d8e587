[package]
name = "rgb_led_animation"
version = "0.1.0"
edition = "2021"
publish = false

[dependencies]
rand = "*"
smart-leds = "*"
