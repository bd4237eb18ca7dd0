//! Geometry of an animated sketch of wavy lines, in exact fixed-point
//! arithmetic.
//!
//! A frame of the sketch is a stack of lines. Each line is a row of
//! [`grid::SAMPLES`] points that starts as a flat, evenly spaced row in
//! normalized space (both axes running from minus one to one), is pushed
//! up or down by a wave, and is then mapped linearly into the rectangle
//! of a window.
//!
//! The sines and the coherent noise that make up the waves are evaluated
//! by the caller: this crate says where to evaluate them and what to do
//! with the values. Everything here works on integers. A normalized
//! coordinate is a count of millionths ([`fixed::UNIT`] steps to one),
//! and every function states its result as an exact rational value
//! rounded down, brought back into the range of its type if it leaves
//! it.
//!
//! * [`fixed`]: clamping, saturation, products and linear range mapping.
//! * [`grid`]: where the samples of a line and the lines of a frame sit.
//! * [`wave`]: where the waves are evaluated and how they displace a
//!   point.
//! * [`window`]: the mapping from normalized space into a window.
//! * [`line`]: the two line generators.
//! * [`frame`]: all lines of a frame, and the order in which they are
//!   drawn.
//! * [`touch`]: the line height driven by touchpad pressure.

pub mod fixed;
pub mod frame;
pub mod grid;
pub mod line;
pub mod touch;
pub mod wave;
pub mod window;
