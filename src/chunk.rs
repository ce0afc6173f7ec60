//! Chunk keys and voxel contents.
use vstd::prelude::*;

verus! {

/// Position of a chunk in chunk space (not in world units).
#[derive(PartialEq, Eq, Structural, Clone, Copy, Debug, Hash)]
pub struct ChunkKey {
    pub x: i32,
    pub y: i32,
    pub z: i32,
}

impl ChunkKey {
    /// The chunk key at chunk-space coordinates `(x, y, z)`.
    pub fn new(x: i32, y: i32, z: i32) -> (r: ChunkKey)
        ensures
            r == (ChunkKey { x, y, z }),
    {
        ChunkKey { x, y, z }
    }
}

/// Content of one unit cell of a chunk.
#[derive(PartialEq, Eq, Structural, Clone, Copy, Debug, Hash)]
pub enum Voxel {
    /// Air: not set by any pass yet.
    Empty,
    Stone,
    Soil,
    DrySoil,
    Grass,
    Snow,
    Sand,
    Water,
}

} // verus!
