//! A verified core for a small pan/zoom graphics sandbox.
//!
//! The crate owns the two pieces of per-frame logic: a 2D camera/viewport
//! controller driven by latched key state, and a frame state machine that
//! cycles between render modes and describes the GPU work of each frame as
//! plain data. All camera arithmetic is exact rational arithmetic, so every
//! contract pins the resulting values down precisely.

pub mod camera;
pub mod frac;
pub mod renderer;
