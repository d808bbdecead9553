//! A verified core for a minimal real-time 3D rendering harness.
//!
//! The crate models the GPU-resource layer of an OpenGL-style renderer as a
//! verified state machine: buffer objects, vertex-array layouts, shader
//! program linking, textures, and a free-look camera. Every mutating
//! operation updates a [`device::Device`] model — the specification of what
//! the driver's hidden "currently bound" state becomes — and hands back the
//! raw [`command::GlCommand`]s an unverified shell replays against the real
//! driver.

pub mod buffer;
pub mod camera;
pub mod command;
pub mod device;
pub mod shader_program;
pub mod texture;
pub mod vertex_array;
