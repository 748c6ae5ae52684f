//! A control panel for a small two-dimensional scene, and the quad that the
//! panel paints by hand.
//!
//! Every scalar is a whole number of hundredths: a length of `2000` is twenty
//! logical pixels, a colour channel of `80` is 0.8, an angle of `314` is 3.14
//! radians. One hundredth is the step of every slider on the panel, so each
//! state that the panel can reach is held exactly.
//!
//! * [`geometry`]: vectors, sizes, rectangles and layout limits.
//! * [`color`]: colours with four channels.
//! * [`quad`]: the quad widget, which measures itself and turns its layout
//!   bounds into draw primitives.
//! * [`panel`]: the panel's state, the messages that change it and the
//!   commands that it hands to the scene.
pub mod color;
mod entropy;
pub mod geometry;
pub mod panel;
pub mod quad;
