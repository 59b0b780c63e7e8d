use vstd::prelude::*;
use crate::tilemap::TILEMAP_CHUNK_SIZE;

verus! {

/// A point of the signed integer grid: a global tile position or a chunk index.
#[derive(Debug, Clone, Copy, PartialEq, Eq, Structural)]
pub struct IVec2 {
    pub x: i32,
    pub y: i32,
}

/// A point of the unsigned integer grid: a tile position inside a chunk.
#[derive(Debug, Clone, Copy, PartialEq, Eq, Structural)]
pub struct UVec2 {
    pub x: u32,
    pub y: u32,
}

/// An axis-aligned rectangle of the signed integer grid, given by two
/// opposite corners; both corners belong to it.
#[derive(Debug, Clone, Copy, PartialEq, Eq, Structural)]
pub struct IRect {
    pub min: IVec2,
    pub max: IVec2,
}

impl IRect {
    /// The rectangle whose two corners are the origin.
    pub open spec fn zero() -> IRect {
        IRect { min: IVec2 { x: 0, y: 0 }, max: IVec2 { x: 0, y: 0 } }
    }

    /// Whether the point `(x, y)` lies in the rectangle.
    pub open spec fn covers(self, x: int, y: int) -> bool {
        self.min.x <= x <= self.max.x && self.min.y <= y <= self.max.y
    }
}

impl IVec2 {
    pub fn new(x: i32, y: i32) -> (v: Self)
        ensures
            v.x == x,
            v.y == y,
    {
        IVec2 { x, y }
    }
}

impl UVec2 {
    pub fn new(x: u32, y: u32) -> (v: Self)
        ensures
            v.x == x,
            v.y == y,
    {
        UVec2 { x, y }
    }
}

/// Index, along one axis, of the chunk that holds the global coordinate `g`:
/// the quotient of `g` by the chunk size, rounded towards minus infinity.
pub open spec fn chunk_index(g: int) -> int {
    g / (TILEMAP_CHUNK_SIZE as int)
}

/// Offset of the global coordinate `g` from the origin of its chunk, along
/// one axis: the remainder of `g` by the chunk size, never negative.
pub open spec fn local_offset(g: int) -> int {
    g % (TILEMAP_CHUNK_SIZE as int)
}

/// Global coordinate, along one axis, of the first tile of chunk `c`.
pub open spec fn chunk_origin(c: int) -> int {
    c * (TILEMAP_CHUNK_SIZE as int)
}

/// The offset inside a chunk is never negative and always below the chunk
/// size, for negative coordinates too.
pub proof fn lemma_local_offset_in_chunk(g: int)
    ensures
        0 <= local_offset(g) < TILEMAP_CHUNK_SIZE,
{
}

/// A global coordinate is rebuilt from its two parts: the origin of its
/// chunk plus its offset inside the chunk.
pub proof fn lemma_chunk_origin_plus_offset(g: int)
    ensures
        chunk_origin(chunk_index(g)) + local_offset(g) == g,
{
}

/// The two parts of a global coordinate are the only ones that rebuild it:
/// a chunk index and an offset inside a chunk determine the coordinate, and
/// the coordinate determines both.
pub proof fn lemma_fold_is_unique(g: int, c: int, l: int)
    requires
        0 <= l < TILEMAP_CHUNK_SIZE,
        chunk_origin(c) + l == g,
    ensures
        c == chunk_index(g),
        l == local_offset(g),
{
}

} // verus!
