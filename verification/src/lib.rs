//! Core of an orbit-camera quad renderer: the camera state, the binary
//! frame-payload layout handed to the shader, and the bookkeeping that keeps
//! the depth buffer in step with the output surface.
//!
//! Values that the GPU consumes as 32-bit floats are carried here as their
//! IEEE-754 bit patterns, so that the layout and bookkeeping logic can be
//! stated and checked exactly; the surrounding application converts at the
//! boundary.

pub mod bytes;
pub mod camera;
pub mod pipeline;
pub mod render;
pub mod viewport;
