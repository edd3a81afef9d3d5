//! An animated, color-cycling heart for the terminal.
//!
//! The library holds everything the animation decides: which palette
//! entry a tick selects, how the heart outline is sampled and layered,
//! and what one iteration of the render/input loop does. Terminal I/O
//! and the floating-point evaluation of the outline live outside, in
//! the binary, which hands the library plain values.

pub mod color;
pub mod curve;
pub mod engine;
