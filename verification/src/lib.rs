//! Batched drawing of triangle meshes.
//!
//! A frame's meshes share one vertex buffer, one index buffer and one buffer
//! of uniform records. The library keeps the bookkeeping of those buffers,
//! lays the meshes out in them, packs the uniform records, and plans the
//! uploads and draw calls of a frame; a GPU backend carries the plan out.
//! Floating-point values appear here only as their bit patterns.
pub mod buffer;
pub mod bytes;
pub mod descriptor;
pub mod mesh;
pub mod pipeline;
pub mod uniforms;
