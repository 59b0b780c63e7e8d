use defendio::tilemap::coords::{IRect, IVec2, UVec2};
use defendio::tilemap::data::{ChunkData, TileColor, TileData, TilemapData};
use defendio::tilemap::generator::random::{RandomTilemapGenerator, REGION_TILES};
use defendio::tilemap::mesh::{make_chunk_mesh, AtlasRect};
use defendio::tilemap::{CHUNK_TILES, TILEMAP_CHUNK_SIZE};

fn sample_indices() -> [u16; REGION_TILES] {
    let mut ids = [0u16; REGION_TILES];
    for (k, id) in ids.iter_mut().enumerate() {
        *id = (k % 5) as u16;
    }
    ids
}

#[test]
fn basic() {
    println!(
        "size: {}",
        std::mem::size_of_val(&RandomTilemapGenerator::generate(&sample_indices()))
    );
}

#[test]
fn locations() {
    assert_eq!(
        ChunkData::tilemap_to_chunk_tile(IVec2::new(40, 45)),
        UVec2::new(8, 13)
    );
    assert_eq!(
        ChunkData::tilemap_to_chunk_tile(IVec2::new(-1, -5)),
        UVec2::new(31, 27)
    );
}

#[test]
fn chunk_index_rounds_down() {
    assert_eq!(TilemapData::tilemap_to_chunk(IVec2::new(40, 45)), IVec2::new(1, 1));
    assert_eq!(TilemapData::tilemap_to_chunk(IVec2::new(-1, -5)), IVec2::new(-1, -1));
    assert_eq!(TilemapData::tilemap_to_chunk(IVec2::new(-32, 31)), IVec2::new(-1, 0));
    assert_eq!(TilemapData::tilemap_to_chunk(IVec2::new(-33, 32)), IVec2::new(-2, 1));
    assert_eq!(TilemapData::tilemap_to_chunk(IVec2::new(0, 0)), IVec2::new(0, 0));
    assert_eq!(
        TilemapData::tilemap_to_chunk(IVec2::new(i32::MIN, i32::MAX)),
        IVec2::new(-67108864, 67108863)
    );
}

#[test]
fn local_position_stays_in_chunk() {
    for g in [i32::MIN, -65, -64, -33, -32, -31, -1, 0, 1, 31, 32, 33, 1000, i32::MAX] {
        let local = ChunkData::tilemap_to_chunk_tile(IVec2::new(g, -g.saturating_add(1)));
        assert!(local.x < TILEMAP_CHUNK_SIZE);
        assert!(local.y < TILEMAP_CHUNK_SIZE);
    }
}

#[test]
fn chunk_and_local_rebuild_global() {
    for g in [i32::MIN, -65, -64, -33, -32, -31, -1, 0, 1, 31, 32, 33, 1000, i32::MAX] {
        let location = IVec2::new(g, 7 - g / 2);
        let chunk = TilemapData::tilemap_to_chunk(location);
        let local = ChunkData::tilemap_to_chunk_tile(location);
        assert_eq!(chunk.x as i64 * 32 + local.x as i64, location.x as i64);
        assert_eq!(chunk.y as i64 * 32 + local.y as i64, location.y as i64);
    }
}

#[test]
fn tile_index_is_column_major() {
    assert_eq!(ChunkData::tile_index_at(0, 0), 0);
    assert_eq!(ChunkData::tile_index_at(0, 5), 5);
    assert_eq!(ChunkData::tile_index_at(1, 0), 32);
    assert_eq!(ChunkData::tile_index_at(8, 13), 269);
    assert_eq!(ChunkData::tile_index(UVec2::new(31, 31)), 1023);
}

#[test]
fn new_tile_has_no_color() {
    assert_eq!(TileData::new(3), TileData { atlas_index: 3, color: None });
    assert_eq!(TileData::default(), TileData { atlas_index: 0, color: None });
}

#[test]
fn new_chunk_is_filled_with_default_tiles() {
    let chunk = ChunkData::new();
    assert_eq!(chunk.tiles.len(), CHUNK_TILES);
    assert!(chunk.tiles.iter().all(|t| *t == TileData::default()));
}

#[test]
fn chunk_set_then_get() {
    let mut chunk = ChunkData::new();
    let tint = TileColor { red: 1, green: 2, blue: 3, alpha: 4 };
    let tile = TileData { atlas_index: 9, color: Some(tint) };
    chunk.set_tile(UVec2::new(8, 13), tile);
    assert_eq!(*chunk.get_tile(UVec2::new(8, 13)), tile);
    assert_eq!(*chunk.get_tile_at(8, 13), tile);
    assert_eq!(chunk.tiles[269], tile);
    assert_eq!(*chunk.get_tile_at(13, 8), TileData::default());
    chunk.set_tile_at(13, 8, TileData::new(2));
    assert_eq!(*chunk.get_tile_at(13, 8), TileData::new(2));
    assert_eq!(*chunk.get_tile_at(8, 13), tile);
}

#[test]
fn empty_map_has_no_chunk() {
    let map = TilemapData::new();
    for x in -3..=3 {
        for y in -3..=3 {
            assert!(map.get_chunk(IVec2::new(x, y)).is_none());
        }
    }
    assert!(map.get_chunk(IVec2::new(i32::MIN, i32::MAX)).is_none());
    assert_eq!(
        map.get_chunk_rect(),
        IRect { min: IVec2::new(0, 0), max: IVec2::new(0, 0) }
    );
}

#[test]
fn set_tile_then_read() {
    let mut map = TilemapData::new();
    let tile = TileData { atlas_index: 7, color: Some(TileColor { red: 9, green: 8, blue: 7, alpha: 6 }) };
    map.set_tile(IVec2::new(-1, -5), tile);
    assert!(map.get_chunk(IVec2::new(0, 0)).is_none());
    let chunk = map.get_chunk(IVec2::new(-1, -1)).unwrap();
    assert_eq!(*chunk.get_tile(UVec2::new(31, 27)), tile);
    assert_eq!(*chunk.get_tile(UVec2::new(27, 31)), TileData::default());
    let count = chunk.tiles.iter().filter(|t| **t != TileData::default()).count();
    assert_eq!(count, 1);
}

#[test]
fn set_tile_overwrites_one_slot() {
    let mut map = TilemapData::new();
    map.set_tile(IVec2::new(40, 45), TileData::new(1));
    map.set_tile(IVec2::new(41, 45), TileData::new(2));
    map.set_tile(IVec2::new(40, 45), TileData::new(3));
    let chunk = map.get_chunk(IVec2::new(1, 1)).unwrap();
    assert_eq!(*chunk.get_tile_at(8, 13), TileData::new(3));
    assert_eq!(*chunk.get_tile_at(9, 13), TileData::new(2));
    assert_eq!(map.chunks.len(), 1);
}

#[test]
fn chunk_rect_covers_the_chunks() {
    let mut map = TilemapData::new();
    map.set_tile(IVec2::new(40, 45), TileData::new(1));
    assert_eq!(
        map.get_chunk_rect(),
        IRect { min: IVec2::new(1, 1), max: IVec2::new(1, 1) }
    );
    map.set_tile(IVec2::new(-40, 100), TileData::new(1));
    assert_eq!(
        map.get_chunk_rect(),
        IRect { min: IVec2::new(-2, 1), max: IVec2::new(1, 3) }
    );
    map.set_tile(IVec2::new(0, -1), TileData::new(1));
    assert_eq!(
        map.get_chunk_rect(),
        IRect { min: IVec2::new(-2, -1), max: IVec2::new(1, 3) }
    );
}

#[test]
fn clone_keeps_the_tiles() {
    let mut map = TilemapData::new();
    map.set_tile(IVec2::new(3, 4), TileData::new(5));
    let copy = map.clone();
    map.set_tile(IVec2::new(3, 4), TileData::new(6));
    assert_eq!(*copy.get_chunk(IVec2::new(0, 0)).unwrap().get_tile_at(3, 4), TileData::new(5));
    assert_eq!(*map.get_chunk(IVec2::new(0, 0)).unwrap().get_tile_at(3, 4), TileData::new(6));
}

#[test]
fn sample_locations_go_row_by_row() {
    assert_eq!(RandomTilemapGenerator::sample_location(0), IVec2::new(-10, -10));
    assert_eq!(RandomTilemapGenerator::sample_location(1), IVec2::new(-9, -10));
    assert_eq!(RandomTilemapGenerator::sample_location(20), IVec2::new(10, -10));
    assert_eq!(RandomTilemapGenerator::sample_location(21), IVec2::new(-10, -9));
    assert_eq!(RandomTilemapGenerator::sample_location(220), IVec2::new(0, 0));
    assert_eq!(RandomTilemapGenerator::sample_location(440), IVec2::new(10, 10));
}

#[test]
fn generated_map_holds_the_region() {
    let ids = sample_indices();
    let map = RandomTilemapGenerator::generate(&ids);
    assert_eq!(
        map.get_chunk_rect(),
        IRect { min: IVec2::new(-1, -1), max: IVec2::new(0, 0) }
    );
    assert!(map.get_chunk(IVec2::new(1, 0)).is_none());
    assert!(map.get_chunk(IVec2::new(0, -2)).is_none());
    for gy in -32..32 {
        for gx in -32..32 {
            let location = IVec2::new(gx, gy);
            let chunk = map.get_chunk(TilemapData::tilemap_to_chunk(location)).unwrap();
            let tile = *chunk.get_tile(ChunkData::tilemap_to_chunk_tile(location));
            let expected = if (-10..=10).contains(&gx) && (-10..=10).contains(&gy) {
                let k = ((gy + 10) * 21 + (gx + 10)) as usize;
                TileData::new(ids[k] as usize)
            } else {
                TileData::default()
            };
            assert_eq!(tile, expected);
        }
    }
}

#[test]
fn generation_is_deterministic() {
    let ids = sample_indices();
    let a = RandomTilemapGenerator::generate(&ids);
    let b = RandomTilemapGenerator::generate(&ids);
    for cx in -1..=0 {
        for cy in -1..=0 {
            let ca = a.get_chunk(IVec2::new(cx, cy)).unwrap();
            let cb = b.get_chunk(IVec2::new(cx, cy)).unwrap();
            assert_eq!(ca.tiles, cb.tiles);
        }
    }
    assert_eq!(a.chunks.len(), b.chunks.len());
}

fn atlas() -> Vec<AtlasRect> {
    (0..4u32)
        .map(|i| AtlasRect { min: UVec2::new(8 * i, 16), max: UVec2::new(8 * i + 8, 24) })
        .collect()
}

#[test]
fn mesh_has_one_quad_per_tile() {
    let mut chunk = ChunkData::new();
    chunk.set_tile_at(1, 2, TileData::new(3));
    let mesh = make_chunk_mesh(&chunk, &atlas());
    let n = CHUNK_TILES;
    assert_eq!(mesh.positions.len(), 4 * n);
    assert_eq!(mesh.uvs.len(), 4 * n);
    assert_eq!(mesh.indices.len(), 6 * n);
    assert!(mesh.indices.iter().all(|i| (*i as usize) < 4 * n));
}

#[test]
fn mesh_quads_follow_the_tiles() {
    let mut chunk = ChunkData::new();
    chunk.set_tile_at(1, 2, TileData::new(3));
    let mesh = make_chunk_mesh(&chunk, &atlas());
    assert_eq!(&mesh.positions[0..4], &[[0, 0, 0], [1, 0, 0], [1, 1, 0], [0, 1, 0]]);
    assert_eq!(&mesh.uvs[0..4], &[[0, 24], [8, 24], [8, 16], [0, 16]]);
    assert_eq!(&mesh.indices[0..6], &[0, 2, 3, 0, 1, 2]);
    // Tile (1, 2) is visited as number 2 * 32 + 1.
    let k = 65;
    assert_eq!(&mesh.positions[4 * k..4 * k + 4], &[[1, 2, 0], [2, 2, 0], [2, 3, 0], [1, 3, 0]]);
    assert_eq!(&mesh.uvs[4 * k..4 * k + 4], &[[24, 24], [32, 24], [32, 16], [24, 16]]);
    assert_eq!(&mesh.indices[6 * k..6 * k + 6], &[260, 262, 263, 260, 261, 262]);
    let last = CHUNK_TILES - 1;
    assert_eq!(&mesh.positions[4 * last..], &[[31, 31, 0], [32, 31, 0], [32, 32, 0], [31, 32, 0]]);
    assert_eq!(&mesh.indices[6 * last..], &[4092, 4094, 4095, 4092, 4093, 4094]);
}
