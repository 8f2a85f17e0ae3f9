//! Three-component vector arithmetic and a time-driven linear
//! interpolation ("tween") driver.
//!
//! `vector::Vector` is a generic 3-vector whose operators are exactly as
//! capable as the element type's own arithmetic; `tween::Tween` drives a
//! value linearly from a start to an end over a wall-clock duration.

pub mod tween;
pub mod vector;
