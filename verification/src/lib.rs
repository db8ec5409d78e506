//! A voxel terrain core: dense 64x64x64 chunks, a density-field terrain
//! generator, face-visibility culling, per-vertex ambient occlusion, a mesh
//! builder, and a streaming manager that rate-limits chunk integration.
//!
//! All quantities are plain integers. Ambient-occlusion factors are levels
//! in 0..=3 (the displayed factor is level/3), colors are in thousandths,
//! and mesh colors are in three-thousandths, so every value is exact.

pub mod coords;
pub mod block;
pub mod dir;
pub mod ao;
pub mod grid;
pub mod chunk;
pub mod cull;
pub mod mesh;
pub mod gen;
pub mod world;
