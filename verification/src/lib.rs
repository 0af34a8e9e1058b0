//! Voxel world core: deterministic chunk generation from density samples,
//! block classification, neighbor-aware boundary stitching and per-voxel
//! occlusion culling.
//!
//! Floating-point concerns (noise sampling, rendering) live outside this
//! crate; the core works on integer voxel positions and on the sign of the
//! combined density value, which is all the classification rules read.

pub mod creation;
pub mod game_specs;
