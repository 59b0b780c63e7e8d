use vstd::prelude::*;

pub mod coords;
pub mod data;
pub mod generator;
pub mod mesh;

verus! {

/// Side length of a chunk, in tiles.
pub const TILEMAP_CHUNK_SIZE: u32 = 32;

/// Number of tiles in a chunk: the square of the side length.
pub const CHUNK_TILES: usize = 1024;

} // verus!
