//! Procedural animation for a strip of WS2812 LEDs: a rainbow chase whose
//! brightness breathes slowly and sparkles along the strip.
//!
//! Everything here is integer arithmetic on a frame counter and an LED index.
//! The caller owns the hardware: it asks the generator what to do next, does
//! it, and asks again.

pub mod animation;
pub mod color;
pub mod generator;
pub mod pixel;
pub mod wave;
