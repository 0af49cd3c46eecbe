//! Verified core of a key-driven rotating-quad renderer.
//!
//! The library holds the per-tick control logic: which keys are held, how the
//! render loop is paced to a target frame interval, how held keys are
//! integrated into rotation angles over elapsed time, and how a decoded
//! texture's bytes are grouped into pixels. Time is carried in whole
//! nanoseconds and angles in whole nanoradians, so every step is exact
//! integer arithmetic. The surrounding driver reads the clock, sleeps,
//! converts window events, builds the floating-point view-projection matrix
//! and issues draw calls; it feeds this library plain values and acts on what
//! comes back.

pub mod assets;
pub mod input;
pub mod rotation;
pub mod timing;
