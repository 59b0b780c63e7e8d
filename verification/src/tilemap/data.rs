use vstd::prelude::*;
use crate::arrays::array_from_fn;
use std::collections::BTreeMap;
use vstd::std_specs::iter::IteratorSpec;
use crate::tilemap::coords::{
    chunk_index, chunk_origin, local_offset, IRect, IVec2, UVec2,
};
use crate::tilemap::{CHUNK_TILES, TILEMAP_CHUNK_SIZE};

verus! {

/// A colour tint with eight bits per channel.
#[derive(Debug, Clone, Copy, PartialEq, Eq)]
pub struct TileColor {
    pub red: u8,
    pub green: u8,
    pub blue: u8,
    pub alpha: u8,
}

/// What one cell of the map holds: the index of its image in the atlas and
/// an optional tint.
#[derive(Debug, Clone, Copy, PartialEq, Eq)]
pub struct TileData {
    pub atlas_index: usize,
    pub color: Option<TileColor>,
}

/// A square block of `TILEMAP_CHUNK_SIZE` by `TILEMAP_CHUNK_SIZE` tiles. The
/// tile at local position `(x, y)` is stored at index `y + x * TILEMAP_CHUNK_SIZE`.
#[derive(Debug)]
pub struct ChunkData {
    pub tiles: [TileData; CHUNK_TILES],
}

impl TileData {
    /// The tile that a fresh chunk is filled with.
    pub open spec fn spec_default() -> TileData {
        TileData { atlas_index: 0, color: None }
    }

    /// A tile with the given image and no tint.
    pub fn new(atlas_index: usize) -> (tile: Self)
        ensures
            tile == (TileData { atlas_index, color: None }),
    {
        TileData { atlas_index, color: None }
    }
}

impl Default for TileData {
    fn default() -> (tile: Self)
        ensures
            tile == TileData::spec_default(),
    {
        TileData { atlas_index: 0, color: None }
    }
}

/// A sparse map of chunks, keyed by chunk index: first along x, then along y.
/// A chunk is present as soon as one of its tiles was written.
#[derive(Debug)]
pub struct TilemapData {
    pub chunks: BTreeMap<i32, BTreeMap<i32, ChunkData>>,
}

impl View for ChunkData {
    type V = Seq<TileData>;

    open spec fn view(&self) -> Seq<TileData> {
        self.tiles@
    }
}

impl Clone for ChunkData {
    fn clone(&self) -> (chunk: Self)
        ensures
            chunk@ == self@,
    {
        ChunkData { tiles: self.tiles }
    }
}

impl ChunkData {
    /// The tiles of a chunk in which nothing was written yet.
    pub open spec fn spec_empty() -> Seq<TileData> {
        Seq::new(CHUNK_TILES as nat, |i: int| TileData::spec_default())
    }

    /// Storage index of the tile at local position `(x, y)`.
    pub open spec fn spec_tile_index_at(x: int, y: int) -> int {
        y + x * (TILEMAP_CHUNK_SIZE as int)
    }

    /// The position inside its chunk of the tile at a global position.
    pub open spec fn spec_tilemap_to_chunk_tile(location: IVec2) -> UVec2 {
        UVec2 {
            x: local_offset(location.x as int) as u32,
            y: local_offset(location.y as int) as u32,
        }
    }

    /// The position inside its chunk of the tile at a global position: on
    /// each axis the remainder by the chunk size, brought into the chunk
    /// where the coordinate is negative.
    pub fn tilemap_to_chunk_tile(location: IVec2) -> (local: UVec2)
        ensures
            local == Self::spec_tilemap_to_chunk_tile(location),
            local.x == local_offset(location.x as int),
            local.y == local_offset(location.y as int),
            local.x < TILEMAP_CHUNK_SIZE,
            local.y < TILEMAP_CHUNK_SIZE,
    {
        let x: i32 = location.x % TILEMAP_CHUNK_SIZE as i32;
        let y: i32 = location.y % TILEMAP_CHUNK_SIZE as i32;
        UVec2::new(
            if x < 0 {
                (TILEMAP_CHUNK_SIZE as i32 + x) as u32
            } else {
                x as u32
            },
            if y < 0 {
                (TILEMAP_CHUNK_SIZE as i32 + y) as u32
            } else {
                y as u32
            },
        )
    }

    /// A chunk filled with default tiles.
    pub fn new() -> (chunk: Self)
        ensures
            chunk@ == Self::spec_empty(),
    {
        let make = |_i: usize| -> (tile: TileData)
            ensures
                tile == TileData::spec_default(),
            { TileData::default() };
        let chunk = ChunkData { tiles: array_from_fn(make) };
        assert(chunk@ =~= Self::spec_empty());
        chunk
    }

    /// Storage index of the tile at local position `(x, y)`.
    pub fn tile_index_at(x: u32, y: u32) -> (index: usize)
        requires
            Self::spec_tile_index_at(x as int, y as int) <= usize::MAX,
        ensures
            index == Self::spec_tile_index_at(x as int, y as int),
    {
        y as usize + x as usize * TILEMAP_CHUNK_SIZE as usize
    }

    /// Storage index of the tile at a local position.
    pub fn tile_index(location: UVec2) -> (index: usize)
        requires
            Self::spec_tile_index_at(location.x as int, location.y as int) <= usize::MAX,
        ensures
            index == Self::spec_tile_index_at(location.x as int, location.y as int),
    {
        Self::tile_index_at(location.x, location.y)
    }

    /// The tile at local position `(x, y)`.
    pub fn get_tile_at(&self, x: u32, y: u32) -> (tile: &TileData)
        requires
            Self::spec_tile_index_at(x as int, y as int) < CHUNK_TILES,
        ensures
            *tile == self@[Self::spec_tile_index_at(x as int, y as int)],
    {
        &self.tiles[Self::tile_index_at(x, y)]
    }

    /// The tile at a local position.
    pub fn get_tile(&self, location: UVec2) -> (tile: &TileData)
        requires
            Self::spec_tile_index_at(location.x as int, location.y as int) < CHUNK_TILES,
        ensures
            *tile == self@[Self::spec_tile_index_at(location.x as int, location.y as int)],
    {
        self.get_tile_at(location.x, location.y)
    }

    /// Writes the tile at local position `(x, y)`; no other tile changes.
    pub fn set_tile_at(&mut self, x: u32, y: u32, tile: TileData)
        requires
            Self::spec_tile_index_at(x as int, y as int) < CHUNK_TILES,
        ensures
            final(self)@ == old(self)@.update(Self::spec_tile_index_at(x as int, y as int), tile),
    {
        self.tiles[Self::tile_index_at(x, y)] = tile;
    }

    /// Writes the tile at a local position; no other tile changes.
    pub fn set_tile(&mut self, location: UVec2, tile: TileData)
        requires
            Self::spec_tile_index_at(location.x as int, location.y as int) < CHUNK_TILES,
        ensures
            final(self)@ == old(self)@.update(
                Self::spec_tile_index_at(location.x as int, location.y as int),
                tile,
            ),
    {
        self.set_tile_at(location.x, location.y, tile);
    }
}

/// The tile at global position `(gx, gy)` of a map, if its chunk is present.
pub open spec fn tile_at(map: Map<(int, int), Seq<TileData>>, gx: int, gy: int) -> Option<TileData> {
    let chunk = (chunk_index(gx), chunk_index(gy));
    if map.contains_key(chunk) {
        Some(map[chunk][ChunkData::spec_tile_index_at(local_offset(gx), local_offset(gy))])
    } else {
        None
    }
}

/// The map after the tile at global position `(gx, gy)` was written: the
/// chunk of that position, taken as empty if it was absent, with one slot
/// replaced.
pub open spec fn with_tile(
    map: Map<(int, int), Seq<TileData>>,
    gx: int,
    gy: int,
    tile: TileData,
) -> Map<(int, int), Seq<TileData>> {
    let chunk = (chunk_index(gx), chunk_index(gy));
    let before = if map.contains_key(chunk) {
        map[chunk]
    } else {
        ChunkData::spec_empty()
    };
    map.insert(
        chunk,
        before.update(ChunkData::spec_tile_index_at(local_offset(gx), local_offset(gy)), tile),
    )
}

/// Whether `rect` is the smallest rectangle that covers every chunk index of
/// `map`, or the zero rectangle where `map` has no chunk.
pub open spec fn is_chunk_rect(map: Map<(int, int), Seq<TileData>>, rect: IRect) -> bool {
    if forall|c: (int, int)| !map.contains_key(c) {
        rect == IRect::zero()
    } else {
        &&& forall|c: (int, int)| map.contains_key(c) ==> rect.covers(c.0, c.1)
        &&& exists|c: (int, int)| map.contains_key(c) && c.0 == rect.min.x
        &&& exists|c: (int, int)| map.contains_key(c) && c.0 == rect.max.x
        &&& exists|c: (int, int)| map.contains_key(c) && c.1 == rect.min.y
        &&& exists|c: (int, int)| map.contains_key(c) && c.1 == rect.max.y
    }
}

impl View for TilemapData {
    type V = Map<(int, int), Seq<TileData>>;

    /// The tiles of each chunk that is present, by chunk index `(x, y)`.
    open spec fn view(&self) -> Map<(int, int), Seq<TileData>> {
        Map::new(
            |c: (int, int)| self.has_chunk(c.0, c.1),
            |c: (int, int)| self.chunks@[c.0 as i32]@[c.1 as i32]@,
        )
    }
}

impl Clone for TilemapData {
    fn clone(&self) -> (tilemap: Self)
        ensures
            tilemap@ == self@,
    {
        TilemapData { chunks: self.chunks.clone() }
    }
}

impl TilemapData {
    /// Whether the chunk with index `(cx, cy)` is present.
    pub open spec fn has_chunk(&self, cx: int, cy: int) -> bool {
        &&& i32::MIN <= cx <= i32::MAX
        &&& i32::MIN <= cy <= i32::MAX
        &&& self.chunks@.contains_key(cx as i32)
        &&& self.chunks@[cx as i32]@.contains_key(cy as i32)
    }

    /// The index of the chunk that holds a global position.
    pub open spec fn spec_tilemap_to_chunk(tile_location: IVec2) -> IVec2 {
        IVec2 {
            x: chunk_index(tile_location.x as int) as i32,
            y: chunk_index(tile_location.y as int) as i32,
        }
    }

    /// A map without chunks.
    pub fn new() -> (tilemap: Self)
        ensures
            tilemap@ == Map::<(int, int), Seq<TileData>>::empty(),
    {
        let tilemap = TilemapData { chunks: BTreeMap::new() };
        assert(tilemap@ =~= Map::<(int, int), Seq<TileData>>::empty());
        tilemap
    }

    /// The chunk with the given chunk index, if it is present. Looking a
    /// chunk up never makes one.
    pub fn get_chunk(&self, location: IVec2) -> (chunk: Option<&ChunkData>)
        ensures
            match chunk {
                Some(c) => self@.contains_key((location.x as int, location.y as int))
                    && c@ == self@[(location.x as int, location.y as int)],
                None => !self@.contains_key((location.x as int, location.y as int)),
            },
    {
        match self.chunks.get(&location.x) {
            Some(column) => column.get(&location.y),
            None => None,
        }
    }

    /// Writes the tile at a global position. The chunk of that position is
    /// made first, filled with default tiles, where it is absent; then one
    /// slot of it is overwritten.
    pub fn set_tile(&mut self, location: IVec2, tile: TileData)
        ensures
            final(self)@ == with_tile(old(self)@, location.x as int, location.y as int, tile),
    {
        let chunk_location = Self::tilemap_to_chunk(location);
        let mut column = match self.chunks.remove(&chunk_location.x) {
            Some(column) => column,
            None => BTreeMap::new(),
        };
        let mut chunk = match column.remove(&chunk_location.y) {
            Some(chunk) => chunk,
            None => ChunkData::new(),
        };
        chunk.set_tile(ChunkData::tilemap_to_chunk_tile(location), tile);
        column.insert(chunk_location.y, chunk);
        self.chunks.insert(chunk_location.x, column);
        assert(final(self)@ =~= with_tile(old(self)@, location.x as int, location.y as int, tile));
    }

    /// The smallest rectangle, in chunk indices, that covers every chunk of
    /// the map; the zero rectangle for a map without chunks.
    pub fn get_chunk_rect(&self) -> (rect: IRect)
        ensures
            is_chunk_rect(self@, rect),
    {
        let mut found = false;
        let mut min = IVec2::new(0, 0);
        let mut max = IVec2::new(0, 0);
        let ghost mut at_min_x: (int, int) = (0, 0);
        let ghost mut at_max_x: (int, int) = (0, 0);
        let ghost mut at_min_y: (int, int) = (0, 0);
        let ghost mut at_max_y: (int, int) = (0, 0);
        let ghost columns = self.chunks.iter().remaining();
        for (x, column) in outer: self.chunks.iter()
            invariant
                outer.seq() == columns,
                !found ==> min == (IVec2 { x: 0, y: 0 }) && max == (IVec2 { x: 0, y: 0 }),
                forall|j: int, cy: i32|
                    0 <= j < outer.index() && #[trigger] columns[j].1@.contains_key(cy) ==> found
                        && min.x <= *columns[j].0 <= max.x && min.y <= cy <= max.y,
                found ==> self@.contains_key(at_min_x) && at_min_x.0 == min.x,
                found ==> self@.contains_key(at_max_x) && at_max_x.0 == max.x,
                found ==> self@.contains_key(at_min_y) && at_min_y.1 == min.y,
                found ==> self@.contains_key(at_max_y) && at_max_y.1 == max.y,
        {
            for (y, _chunk) in inner: column.iter()
                invariant
                    outer.seq() == columns,
                    0 <= outer.index() < columns.len(),
                    self.chunks@.contains_key(*x),
                    self.chunks@[*x] == *column,
                    !found ==> min == (IVec2 { x: 0, y: 0 }) && max == (IVec2 { x: 0, y: 0 }),
                    !found ==> inner.index() == 0,
                    forall|j: int, cy: i32|
                        0 <= j < outer.index() && #[trigger] columns[j].1@.contains_key(cy)
                            ==> found && min.x <= *columns[j].0 <= max.x && min.y <= cy <= max.y,
                    inner.index() > 0 ==> min.x <= *x <= max.x,
                    forall|l: int|
                        0 <= l < inner.index() ==> min.y <= *(#[trigger] inner.seq()[l]).0 <= max.y,
                    found ==> self@.contains_key(at_min_x) && at_min_x.0 == min.x,
                    found ==> self@.contains_key(at_max_x) && at_max_x.0 == max.x,
                    found ==> self@.contains_key(at_min_y) && at_min_y.1 == min.y,
                    found ==> self@.contains_key(at_max_y) && at_max_y.1 == max.y,
            {
                assert(column@.contains_key(*y));
                assert(self@.contains_key((*x as int, *y as int)));
                if !found {
                    min = IVec2::new(*x, *y);
                    max = IVec2::new(*x, *y);
                    found = true;
                    proof {
                        at_min_x = (*x as int, *y as int);
                        at_max_x = (*x as int, *y as int);
                        at_min_y = (*x as int, *y as int);
                        at_max_y = (*x as int, *y as int);
                    }
                } else {
                    if *x < min.x {
                        min.x = *x;
                        proof {
                            at_min_x = (*x as int, *y as int);
                        }
                    }
                    if *x > max.x {
                        max.x = *x;
                        proof {
                            at_max_x = (*x as int, *y as int);
                        }
                    }
                    if *y < min.y {
                        min.y = *y;
                        proof {
                            at_min_y = (*x as int, *y as int);
                        }
                    }
                    if *y > max.y {
                        max.y = *y;
                        proof {
                            at_max_y = (*x as int, *y as int);
                        }
                    }
                }
            }
        }
        let rect = IRect { min, max };
        proof {
            assert forall|c: (int, int)| self@.contains_key(c) implies found && rect.covers(
                c.0,
                c.1,
            ) by {
                let cx = c.0 as i32;
                let cy = c.1 as i32;
                let pair = (&cx, &self.chunks@[cx]);
                assert(columns.contains(pair));
                let j = choose|j: int| 0 <= j < columns.len() && columns[j] == pair;
                assert(columns[j].1@.contains_key(cy));
            }
        }
        rect
    }

    /// The index of the chunk that holds a global position: on each axis
    /// the quotient by the chunk size, rounded down, for negative
    /// coordinates too.
    pub fn tilemap_to_chunk(tile_location: IVec2) -> (chunk: IVec2)
        ensures
            chunk == Self::spec_tilemap_to_chunk(tile_location),
            chunk.x == chunk_index(tile_location.x as int),
            chunk.y == chunk_index(tile_location.y as int),
    {
        let size: i32 = TILEMAP_CHUNK_SIZE as i32;
        let x: i32 = tile_location.x / size;
        let y: i32 = tile_location.y / size;
        IVec2::new(
            if tile_location.x % size < 0 {
                x - 1
            } else {
                x
            },
            if tile_location.y % size < 0 {
                y - 1
            } else {
                y
            },
        )
    }
}

/// The chunk index and the local position of a global position rebuild it:
/// the origin of the chunk plus the local position is the global position.
pub proof fn lemma_location_round_trip(location: IVec2)
    ensures
        chunk_origin(TilemapData::spec_tilemap_to_chunk(location).x as int)
            + ChunkData::spec_tilemap_to_chunk_tile(location).x == location.x,
        chunk_origin(TilemapData::spec_tilemap_to_chunk(location).y as int)
            + ChunkData::spec_tilemap_to_chunk_tile(location).y == location.y,
{
}

/// A local position inside a chunk has a storage index inside the chunk, and
/// two different local positions have different storage indices.
pub proof fn lemma_tile_index_is_injective(a: UVec2, b: UVec2)
    requires
        a.x < TILEMAP_CHUNK_SIZE,
        a.y < TILEMAP_CHUNK_SIZE,
        b.x < TILEMAP_CHUNK_SIZE,
        b.y < TILEMAP_CHUNK_SIZE,
    ensures
        0 <= ChunkData::spec_tile_index_at(a.x as int, a.y as int) < CHUNK_TILES,
        ChunkData::spec_tile_index_at(a.x as int, a.y as int) == ChunkData::spec_tile_index_at(
            b.x as int,
            b.y as int,
        ) ==> a == b,
{
}

/// Reading after writing: once a tile was written at a global position, the
/// chunk of that position is present and holds the written tile, unchanged,
/// at the local position.
pub proof fn lemma_read_after_write(map: TilemapData, location: IVec2, tile: TileData)
    ensures
        ({
            let after = with_tile(map@, location.x as int, location.y as int, tile);
            let chunk = TilemapData::spec_tilemap_to_chunk(location);
            let local = ChunkData::spec_tilemap_to_chunk_tile(location);
            &&& after.contains_key((chunk.x as int, chunk.y as int))
            &&& after[(chunk.x as int, chunk.y as int)][ChunkData::spec_tile_index_at(
                local.x as int,
                local.y as int,
            )] == tile
            &&& tile_at(after, location.x as int, location.y as int) == Some(tile)
        }),
{
}

/// Writing a tile changes one slot only. At any other global position the
/// tile is what it was; where the write made the chunk, it is the default
/// tile; outside that chunk, absent chunks stay absent.
pub proof fn lemma_write_keeps_other_tiles(
    map: TilemapData,
    location: IVec2,
    tile: TileData,
    other: IVec2,
)
    requires
        other != location,
    ensures
        ({
            let before = tile_at(map@, other.x as int, other.y as int);
            let after = tile_at(
                with_tile(map@, location.x as int, location.y as int, tile),
                other.x as int,
                other.y as int,
            );
            if before is Some {
                after == before
            } else if TilemapData::spec_tilemap_to_chunk(other)
                == TilemapData::spec_tilemap_to_chunk(location) {
                after == Some(TileData::spec_default())
            } else {
                after is None
            }
        }),
{
    lemma_location_round_trip(location);
    lemma_location_round_trip(other);
}

/// A map without chunks has no chunk at any index, and its chunk rectangle
/// is the zero rectangle and no other.
pub proof fn lemma_empty_map_has_no_chunk(map: TilemapData, location: IVec2, rect: IRect)
    requires
        map@ == Map::<(int, int), Seq<TileData>>::empty(),
    ensures
        !map@.contains_key((location.x as int, location.y as int)),
        tile_at(map@, location.x as int, location.y as int) is None,
        is_chunk_rect(map@, rect) <==> rect == IRect::zero(),
{
}

/// A map has one chunk rectangle.
pub proof fn lemma_chunk_rect_is_unique(map: TilemapData, a: IRect, b: IRect)
    requires
        is_chunk_rect(map@, a),
        is_chunk_rect(map@, b),
    ensures
        a == b,
{
}

} // verus!
