use vstd::prelude::*;
use crate::tilemap::coords::{chunk_index, chunk_origin, local_offset, IVec2};
use crate::tilemap::data::{tile_at, with_tile, ChunkData, TileData, TilemapData};
use crate::tilemap::{CHUNK_TILES, TILEMAP_CHUNK_SIZE};

verus! {

/// Smallest global coordinate of the generated region, on both axes.
pub const REGION_MIN: i32 = -10;

/// Largest global coordinate of the generated region, on both axes.
pub const REGION_MAX: i32 = 10;

/// Number of tiles along one side of the generated region.
pub const REGION_SIDE: usize = 21;

/// Number of tiles in the generated region.
pub const REGION_TILES: usize = 441;

/// Builds the map of the square region around the origin from one atlas
/// index per tile. The indices come row by row: all tiles of the lowest `y`
/// first, each row by rising `x`.
pub struct RandomTilemapGenerator {}

/// Whether the global position `(x, y)` lies in the generated region.
pub open spec fn region_contains(x: int, y: int) -> bool {
    REGION_MIN <= x <= REGION_MAX && REGION_MIN <= y <= REGION_MAX
}

/// Place of the tile at `(x, y)` in the row-by-row order of the region.
pub open spec fn sample_index(x: int, y: int) -> int {
    (y - REGION_MIN) * REGION_SIDE + (x - REGION_MIN)
}

/// Global `x` of the tile with place `k` in the row-by-row order.
pub open spec fn sample_x(k: int) -> int {
    REGION_MIN + k % (REGION_SIDE as int)
}

/// Global `y` of the tile with place `k` in the row-by-row order.
pub open spec fn sample_y(k: int) -> int {
    REGION_MIN + k / (REGION_SIDE as int)
}

/// The tile that an atlas index stands for: that index, without a tint.
pub open spec fn sample_tile(atlas_index: u16) -> TileData {
    TileData { atlas_index: atlas_index as usize, color: None }
}

/// The tile at global position `(gx, gy)` once the first `count` indices
/// were placed: the tile of its index where the position is in the region
/// and its place is below `count`, the default tile elsewhere.
pub open spec fn placed_tile(atlas_indices: Seq<u16>, count: int, gx: int, gy: int) -> TileData {
    if region_contains(gx, gy) && sample_index(gx, gy) < count {
        sample_tile(atlas_indices[sample_index(gx, gy)])
    } else {
        TileData::spec_default()
    }
}

/// Whether one of the first `count` tiles of the region lies in chunk `(cx, cy)`.
pub open spec fn chunk_touched(count: int, cx: int, cy: int) -> bool {
    exists|k: int|
        0 <= k < count && #[trigger] chunk_index(sample_x(k)) == cx && chunk_index(sample_y(k))
            == cy
}

/// The tiles of chunk `(cx, cy)` once the first `count` indices were placed.
pub open spec fn placed_chunk(atlas_indices: Seq<u16>, count: int, cx: int, cy: int) -> Seq<
    TileData,
> {
    Seq::new(
        CHUNK_TILES as nat,
        |i: int|
            placed_tile(
                atlas_indices,
                count,
                chunk_origin(cx) + i / (TILEMAP_CHUNK_SIZE as int),
                chunk_origin(cy) + i % (TILEMAP_CHUNK_SIZE as int),
            ),
    )
}

/// The map once the first `count` indices were placed: the chunks that hold
/// one of the first `count` tiles, each filled with default tiles but for
/// the tiles placed so far.
pub open spec fn placed_map(atlas_indices: Seq<u16>, count: int) -> Map<(int, int), Seq<TileData>> {
    Map::new(
        |c: (int, int)| chunk_touched(count, c.0, c.1),
        |c: (int, int)| placed_chunk(atlas_indices, count, c.0, c.1),
    )
}

/// The generated map: the four chunks around the origin, which hold the
/// tiles of the region and default tiles around them.
pub open spec fn region_map(atlas_indices: Seq<u16>) -> Map<(int, int), Seq<TileData>> {
    Map::new(
        |c: (int, int)|
            chunk_index(REGION_MIN as int) <= c.0 <= chunk_index(REGION_MAX as int) && chunk_index(
                REGION_MIN as int,
            ) <= c.1 <= chunk_index(REGION_MAX as int),
        |c: (int, int)| placed_chunk(atlas_indices, REGION_TILES as int, c.0, c.1),
    )
}

/// Placing no index gives the map without chunks.
proof fn lemma_placed_none(atlas_indices: Seq<u16>)
    ensures
        placed_map(atlas_indices, 0) == Map::<(int, int), Seq<TileData>>::empty(),
{
    assert(placed_map(atlas_indices, 0) =~= Map::<(int, int), Seq<TileData>>::empty());
}

/// Placing one more index is one write to the map.
proof fn lemma_placed_next(atlas_indices: Seq<u16>, count: int)
    requires
        0 <= count < REGION_TILES,
        atlas_indices.len() == REGION_TILES,
    ensures
        placed_map(atlas_indices, count + 1) == with_tile(
            placed_map(atlas_indices, count),
            sample_x(count),
            sample_y(count),
            sample_tile(atlas_indices[count]),
        ),
{
    let before = placed_map(atlas_indices, count);
    let x = sample_x(count);
    let y = sample_y(count);
    let after = with_tile(before, x, y, sample_tile(atlas_indices[count]));
    let next = placed_map(atlas_indices, count + 1);
    let cx = chunk_index(x);
    let cy = chunk_index(y);
    assert(sample_index(x, y) == count);
    assert(chunk_index(sample_x(count)) == cx && chunk_index(sample_y(count)) == cy);
    assert forall|c: (int, int)| next.contains_key(c) <==> after.contains_key(c) by {
        if chunk_touched(count + 1, c.0, c.1) {
            let k = choose|k: int|
                0 <= k < count + 1 && #[trigger] chunk_index(sample_x(k)) == c.0 && chunk_index(
                    sample_y(k),
                ) == c.1;
            if k < count {
                assert(chunk_touched(count, c.0, c.1));
            }
        }
        if chunk_touched(count, c.0, c.1) {
            let k = choose|k: int|
                0 <= k < count && #[trigger] chunk_index(sample_x(k)) == c.0 && chunk_index(
                    sample_y(k),
                ) == c.1;
            assert(0 <= k < count + 1);
        }
    }
    assert forall|c: (int, int)| next.contains_key(c) implies next[c] =~= after[c] by {
        let slot = ChunkData::spec_tile_index_at(local_offset(x), local_offset(y));
        assert forall|i: int| 0 <= i < CHUNK_TILES implies next[c][i] == after[c][i] by {
            let gx = chunk_origin(c.0) + i / (TILEMAP_CHUNK_SIZE as int);
            let gy = chunk_origin(c.1) + i % (TILEMAP_CHUNK_SIZE as int);
            assert(chunk_index(gx) == c.0 && chunk_index(gy) == c.1);
            if region_contains(gx, gy) {
                let k = sample_index(gx, gy);
                assert(sample_x(k) == gx && sample_y(k) == gy);
                if k < count {
                    assert(chunk_index(sample_x(k)) == c.0 && chunk_index(sample_y(k)) == c.1);
                    assert(chunk_touched(count, c.0, c.1));
                }
            }
            if c == (cx, cy) && i == slot {
                assert(gx == x && gy == y);
            } else {
                assert(!(gx == x && gy == y));
            }
        }
    }
    assert(next =~= after);
}

/// Once every index was placed, the map is the generated map.
proof fn lemma_placed_all(atlas_indices: Seq<u16>)
    ensures
        placed_map(atlas_indices, REGION_TILES as int) == region_map(atlas_indices),
{
    let all = placed_map(atlas_indices, REGION_TILES as int);
    let region = region_map(atlas_indices);
    assert forall|c: (int, int)| all.contains_key(c) <==> region.contains_key(c) by {
        if region.contains_key(c) {
            let k: int = (if c.1 == 0 { 210int } else { 0int }) + (if c.0 == 0 { 10int } else { 0int });
            assert(chunk_index(sample_x(k)) == c.0 && chunk_index(sample_y(k)) == c.1);
        }
    }
    assert(all =~= region);
}

/// Generation is a function of the atlas indices alone: two maps generated
/// from the same indices hold the same chunks with the same tiles.
pub proof fn lemma_generation_is_deterministic(
    first: TilemapData,
    second: TilemapData,
    atlas_indices: Seq<u16>,
)
    requires
        first@ == region_map(atlas_indices),
        second@ == region_map(atlas_indices),
    ensures
        first@ == second@,
        forall|x: int, y: int| tile_at(first@, x, y) == tile_at(second@, x, y),
{
}

/// What the generated map holds at each global position: inside the region
/// the tile of the position's atlas index, in the rest of the four chunks
/// around the origin the default tile, and nothing beyond them.
pub proof fn lemma_generated_tiles(atlas_indices: Seq<u16>, x: int, y: int)
    ensures
        tile_at(region_map(atlas_indices), x, y) == (if region_contains(x, y) {
            Some(sample_tile(atlas_indices[sample_index(x, y)]))
        } else if -(TILEMAP_CHUNK_SIZE as int) <= x < TILEMAP_CHUNK_SIZE && -(TILEMAP_CHUNK_SIZE
            as int) <= y < TILEMAP_CHUNK_SIZE {
            Some(TileData::spec_default())
        } else {
            None
        }),
{
}

impl RandomTilemapGenerator {
    /// The global position of the tile with place `k` in the row-by-row
    /// order of the region.
    pub fn sample_location(k: usize) -> (location: IVec2)
        requires
            k < REGION_TILES,
        ensures
            location.x == sample_x(k as int),
            location.y == sample_y(k as int),
            region_contains(location.x as int, location.y as int),
            sample_index(location.x as int, location.y as int) == k,
    {
        IVec2::new(REGION_MIN + (k % REGION_SIDE) as i32, REGION_MIN + (k / REGION_SIDE) as i32)
    }

    pub fn generate(atlas_indices: &[u16; REGION_TILES]) -> (tilemap: TilemapData)
        ensures
            tilemap@ == region_map(atlas_indices@),
    {
        let mut tilemap = TilemapData::new();
        proof {
            lemma_placed_none(atlas_indices@);
        }
        let mut k: usize = 0;
        while k < REGION_TILES
            invariant
                k <= REGION_TILES,
                tilemap@ == placed_map(atlas_indices@, k as int),
            decreases REGION_TILES - k,
        {
            proof {
                lemma_placed_next(atlas_indices@, k as int);
            }
            let location = Self::sample_location(k);
            tilemap.set_tile(location, TileData::new(atlas_indices[k] as usize));
            k += 1;
        }
        proof {
            lemma_placed_all(atlas_indices@);
        }
        tilemap
    }
}

} // verus!
