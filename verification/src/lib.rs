//! Verified core of a hot-reloadable OpenGL resource pipeline.
//!
//! The library models the graphics driver as a trait whose methods carry
//! contracts over an explicit device state, wraps each GPU object (shader,
//! program, buffer, vertex array) in an owner responsible for exactly one
//! release, resolves and validates disk resources, and drives in-place
//! reloads that preserve the previous state on failure.

pub mod render_gl;
pub mod debug;
pub mod rectangle;
pub mod resources;
pub mod triangle;
