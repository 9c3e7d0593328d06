//! A tilt-controlled marker on a grid of RGB LEDs.
//!
//! `mpu6886` decodes the accelerometer's samples and `fusion` says what the
//! tilt angles are taken of, `minigame` turns tilt into movement, `matrix`
//! holds the picture, `encoder` turns the picture into the pulses of a one-wire
//! LED protocol, and `frame` puts one frame together. Reading the sensor,
//! evaluating arctangents and sending the pulses are left to the caller.

pub mod encoder;
pub mod frame;
pub mod fusion;
pub mod matrix;
pub mod minigame;
pub mod mpu6886;
