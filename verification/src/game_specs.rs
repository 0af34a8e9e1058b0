use vstd::prelude::*;

verus! {

/// Horizontal footprint of a chunk, in voxels, per axis.
pub const CHUNK_SIZE: usize = 16;

/// Side length, in chunks, of the initial world grid.
pub const NUM_CHUNKS: usize = 6;

/// Vertical footprint of a chunk, in voxels.
pub const MAX_CHUNK_HEIGHT: usize = 10;

} // verus!
