//! Logic of a small light-switch node: one addressable RGB pixel for local
//! feedback, one push button, and a networked lamp that is told which scene
//! to show.
//!
//! The crate holds everything the node decides or computes, and nothing that
//! touches hardware or the network:
//!
//! * [`color`]: colours, and the conversion from HSV to RGB;
//! * [`pulse`]: the pulse frame that puts a colour on the pixel's data line;
//! * [`neopixel`]: the pixel itself, as far as the encoder is concerned;
//! * [`scene`]: the two scenes of the lamp and the command that selects one;
//! * [`controller`]: the debounced button and the scene toggle it drives;
//! * [`error`]: the ways in which the node can fail.
//!
//! A caller samples the button, hands each sample to the controller, and
//! carries out what the controller answers.

pub mod color;
pub mod controller;
pub mod error;
pub mod neopixel;
pub mod pulse;
pub mod scene;
