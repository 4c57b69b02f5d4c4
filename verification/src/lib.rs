//! Bookkeeping for drawable objects, materials and textures on top of an
//! immediate-mode GPU interface.
//!
//! Nothing in this crate talks to a driver. Every operation updates the
//! library's own records and returns the GPU calls to issue, as plain values;
//! what the driver answers (fresh names, compile status, logs) comes back in as
//! arguments. The contracts pin down both the records and the calls.

pub mod scalar;
pub mod gpu;
pub mod texture;
pub mod shader;
pub mod material;
pub mod render;
pub mod object;
pub mod transform;
