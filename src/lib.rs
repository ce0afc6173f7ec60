//! Chunk-addressed procedural biome generation for a voxel world.
//!
//! The library maps between linear buffer indices and local chunk
//! coordinates, selects a biome for every surface column from its noise
//! attribute, and lets the selected biome lay down its surface material in
//! the chunk's voxel buffer.
pub mod attribute;
pub mod biomes;
pub mod chunk;
pub mod play_state;
pub mod shape;
