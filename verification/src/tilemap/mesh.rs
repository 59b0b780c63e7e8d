use vstd::prelude::*;
use crate::tilemap::coords::UVec2;
use crate::tilemap::data::{ChunkData, TileData};
use crate::tilemap::{CHUNK_TILES, TILEMAP_CHUNK_SIZE};

verus! {

/// Number of vertices of the mesh of one chunk: four per tile.
pub const CHUNK_VERTICES: usize = 4096;

/// Number of indices of the mesh of one chunk: six per tile.
pub const CHUNK_INDICES: usize = 6144;

/// The rectangle that one image takes in the atlas texture, in pixels.
#[derive(Debug, Clone, Copy, PartialEq, Eq)]
pub struct AtlasRect {
    pub min: UVec2,
    pub max: UVec2,
}

/// The triangle list of one chunk. Each tile gives one quad: four vertices,
/// with a position and a texture coordinate each, and two triangles, as six
/// indices into the vertices. Positions are in tiles. Texture coordinates
/// are in pixels of the atlas texture: divided by the size of that texture
/// they are the normalised coordinates.
#[derive(Debug)]
pub struct ChunkMesh {
    pub positions: Vec<[u32; 3]>,
    pub uvs: Vec<[u32; 2]>,
    pub indices: Vec<u32>,
}

/// Horizontal offset of corner `corner` of a quad from the tile's position.
pub open spec fn quad_corner_x(corner: int) -> int {
    if corner == 1 || corner == 2 {
        1
    } else {
        0
    }
}

/// Vertical offset of corner `corner` of a quad from the tile's position.
pub open spec fn quad_corner_y(corner: int) -> int {
    if corner == 2 || corner == 3 {
        1
    } else {
        0
    }
}

/// The corner of a quad that index `i` of its six indices names: the two
/// triangles are corners 0, 2, 3 and corners 0, 1, 2.
pub open spec fn quad_index(i: int) -> int {
    if i == 0 || i == 3 {
        0
    } else if i == 1 || i == 5 {
        2
    } else if i == 2 {
        3
    } else {
        1
    }
}

/// Horizontal texture coordinate of corner `corner`: the right edge of the
/// image for the corners on the right, the left edge for the others.
pub open spec fn quad_u(rect: AtlasRect, corner: int) -> int {
    if quad_corner_x(corner) == 1 {
        rect.max.x as int
    } else {
        rect.min.x as int
    }
}

/// Vertical texture coordinate of corner `corner`, with the vertical axis
/// turned over: the lower corners of the quad take the far edge of the
/// image, the upper corners the near edge.
pub open spec fn quad_v(rect: AtlasRect, corner: int) -> int {
    if quad_corner_y(corner) == 1 {
        rect.min.y as int
    } else {
        rect.max.y as int
    }
}

/// Local `x` of the tile that is visited as number `k`: tiles are visited
/// row by row, each row by rising `x`.
pub open spec fn visit_x(k: int) -> int {
    k % (TILEMAP_CHUNK_SIZE as int)
}

/// Local `y` of the tile that is visited as number `k`.
pub open spec fn visit_y(k: int) -> int {
    k / (TILEMAP_CHUNK_SIZE as int)
}

/// Whether every tile of the chunk names an image of the atlas.
pub open spec fn atlas_covers(tiles: Seq<TileData>, atlas_len: int) -> bool {
    forall|i: int| 0 <= i < tiles.len() ==> (#[trigger] tiles[i]).atlas_index < atlas_len
}

/// Whether the first `count` quads of a mesh are those of the first `count`
/// tiles visited in `tiles`, with images taken from `atlas`.
pub open spec fn is_mesh_prefix(
    mesh: ChunkMesh,
    tiles: Seq<TileData>,
    atlas: Seq<AtlasRect>,
    count: int,
) -> bool {
    &&& mesh.positions@.len() == 4 * count
    &&& mesh.uvs@.len() == 4 * count
    &&& mesh.indices@.len() == 6 * count
    &&& forall|k: int, corner: int|
        #![trigger mesh.positions@[4 * k + corner]]
        0 <= k < count && 0 <= corner < 4 ==> {
            &&& mesh.positions@[4 * k + corner]@[0] == visit_x(k) + quad_corner_x(corner)
            &&& mesh.positions@[4 * k + corner]@[1] == visit_y(k) + quad_corner_y(corner)
            &&& mesh.positions@[4 * k + corner]@[2] == 0
        }
    &&& forall|k: int, corner: int|
        #![trigger mesh.uvs@[4 * k + corner]]
        0 <= k < count && 0 <= corner < 4 ==> {
            let rect = atlas[tiles[ChunkData::spec_tile_index_at(
                visit_x(k),
                visit_y(k),
            )].atlas_index as int];
            &&& mesh.uvs@[4 * k + corner]@[0] == quad_u(rect, corner)
            &&& mesh.uvs@[4 * k + corner]@[1] == quad_v(rect, corner)
        }
    &&& forall|k: int, i: int|
        #![trigger mesh.indices@[6 * k + i]]
        0 <= k < count && 0 <= i < 6 ==> mesh.indices@[6 * k + i] == 4 * k + quad_index(i)
}

/// Builds the mesh of a chunk: one quad per tile, the tiles visited row by
/// row. Every tile must name an image of the atlas.
pub fn make_chunk_mesh(chunk: &ChunkData, atlas: &Vec<AtlasRect>) -> (mesh: ChunkMesh)
    requires
        atlas_covers(chunk@, atlas@.len() as int),
    ensures
        is_mesh_prefix(mesh, chunk@, atlas@, CHUNK_TILES as int),
        mesh.positions@.len() == CHUNK_VERTICES,
        mesh.uvs@.len() == CHUNK_VERTICES,
        mesh.indices@.len() == CHUNK_INDICES,
        forall|i: int| 0 <= i < mesh.indices@.len() ==> mesh.indices@[i] < CHUNK_VERTICES,
{
    let mut mesh = ChunkMesh {
        positions: Vec::with_capacity(CHUNK_VERTICES),
        uvs: Vec::with_capacity(CHUNK_VERTICES),
        indices: Vec::with_capacity(CHUNK_INDICES),
    };
    let mut stride: u32 = 0;
    let mut y: u32 = 0;
    while y < TILEMAP_CHUNK_SIZE
        invariant
            y <= TILEMAP_CHUNK_SIZE,
            stride == 4 * (y * TILEMAP_CHUNK_SIZE),
            atlas_covers(chunk@, atlas@.len() as int),
            is_mesh_prefix(mesh, chunk@, atlas@, (y * TILEMAP_CHUNK_SIZE) as int),
        decreases TILEMAP_CHUNK_SIZE - y,
    {
        let mut x: u32 = 0;
        while x < TILEMAP_CHUNK_SIZE
            invariant
                y < TILEMAP_CHUNK_SIZE,
                x <= TILEMAP_CHUNK_SIZE,
                stride == 4 * (y * TILEMAP_CHUNK_SIZE + x),
                atlas_covers(chunk@, atlas@.len() as int),
                is_mesh_prefix(mesh, chunk@, atlas@, (y * TILEMAP_CHUNK_SIZE + x) as int),
            decreases TILEMAP_CHUNK_SIZE - x,
        {
            let ghost k = (y * TILEMAP_CHUNK_SIZE + x) as int;
            let ghost before = mesh;
            assert(visit_x(k) == x && visit_y(k) == y);
            let tile = chunk.get_tile_at(x, y);
            let rect = atlas[tile.atlas_index];

            mesh.positions.push([x, y, 0]);
            mesh.positions.push([x + 1, y, 0]);
            mesh.positions.push([x + 1, y + 1, 0]);
            mesh.positions.push([x, y + 1, 0]);

            mesh.uvs.push([rect.min.x, rect.max.y]);
            mesh.uvs.push([rect.max.x, rect.max.y]);
            mesh.uvs.push([rect.max.x, rect.min.y]);
            mesh.uvs.push([rect.min.x, rect.min.y]);

            mesh.indices.push(stride);
            mesh.indices.push(stride + 2);
            mesh.indices.push(stride + 3);
            mesh.indices.push(stride);
            mesh.indices.push(stride + 1);
            mesh.indices.push(stride + 2);
            stride += 4;

            proof {
                assert forall|j: int, corner: int|
                    #![trigger mesh.positions@[4 * j + corner]]
                    0 <= j < k + 1 && 0 <= corner < 4 implies {
                    &&& mesh.positions@[4 * j + corner]@[0] == visit_x(j) + quad_corner_x(corner)
                    &&& mesh.positions@[4 * j + corner]@[1] == visit_y(j) + quad_corner_y(corner)
                    &&& mesh.positions@[4 * j + corner]@[2] == 0
                } by {
                    if j < k {
                        assert(mesh.positions@[4 * j + corner] == before.positions@[4 * j + corner]);
                    }
                }
                assert forall|j: int, corner: int|
                    #![trigger mesh.uvs@[4 * j + corner]]
                    0 <= j < k + 1 && 0 <= corner < 4 implies {
                    let r = atlas@[chunk@[ChunkData::spec_tile_index_at(
                        visit_x(j),
                        visit_y(j),
                    )].atlas_index as int];
                    &&& mesh.uvs@[4 * j + corner]@[0] == quad_u(r, corner)
                    &&& mesh.uvs@[4 * j + corner]@[1] == quad_v(r, corner)
                } by {
                    if j < k {
                        assert(mesh.uvs@[4 * j + corner] == before.uvs@[4 * j + corner]);
                    }
                }
                assert forall|j: int, i: int|
                    #![trigger mesh.indices@[6 * j + i]]
                    0 <= j < k + 1 && 0 <= i < 6 implies mesh.indices@[6 * j + i] == 4 * j
                    + quad_index(i) by {
                    if j < k {
                        assert(mesh.indices@[6 * j + i] == before.indices@[6 * j + i]);
                    }
                }
            }
            x += 1;
        }
        y += 1;
    }
    proof {
        assert forall|i: int| 0 <= i < mesh.indices@.len() implies mesh.indices@[i]
            < CHUNK_VERTICES by {
            let k = i / 6;
            let r = i % 6;
            assert(mesh.indices@[6 * k + r] == 4 * k + quad_index(r));
        }
    }
    mesh
}

} // verus!
