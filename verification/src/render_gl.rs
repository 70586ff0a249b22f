//! GPU-side wrappers: the device contract, shaders and programs, buffers
//! and vertex arrays, vertex data descriptions, and an in-memory capture
//! device that implements the contract.

pub mod api;
pub mod buffer;
pub mod capture;
pub mod data;
pub mod shader;

pub use self::shader::Error;
pub use self::shader::Program;
pub use self::shader::Shader;
