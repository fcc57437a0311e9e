use std::path::PathBuf;

use small_world::geoid::EgmModel;
use small_world::terrain::{
    normalize_tile_lon_floor, walk_offset, CacheState, HgtTile, SrtmDataset, TerrainError,
    TileKey, VoidPolicy, DEFAULT_MAX_CACHED_TILES, VOID_SAMPLE,
};

fn tile_bytes(samples: &[i16]) -> Vec<u8> {
    let mut bytes = Vec::with_capacity(samples.len() * 2);
    for value in samples {
        bytes.extend_from_slice(&value.to_be_bytes());
    }
    bytes
}

fn tile(key: TileKey, samples: &[i16]) -> HgtTile {
    HgtTile::from_bytes(&tile_bytes(samples), key).unwrap()
}

fn key(lat: i32, lon: i32) -> TileKey {
    TileKey {
        lat_floor_deg: lat,
        lon_floor_deg: lon,
    }
}

/// Mirrors a dataset lookup: a cache hit, or a decode of the tile followed by storing it.
fn lookup(dataset: &mut SrtmDataset, k: TileKey, samples: &[i16]) -> std::sync::Arc<HgtTile> {
    if let Some(t) = dataset.cached_tile(k) {
        return t;
    }
    dataset.store_loaded_tile(k, tile(k, samples))
}

#[test]
fn tile_filenames_follow_srtm_convention() {
    assert_eq!(key(0, 0).filename(), "N00E000.hgt");
    assert_eq!(key(39, -77).filename(), "N39W077.hgt");
    assert_eq!(key(-33, 151).filename(), "S33E151.hgt");
    assert_eq!(key(-1, -1).filename(), "S01W001.hgt");
    assert_eq!(key(5, 180).filename(), "N05E180.hgt");
    assert_eq!(key(123, 4567).filename(), "N123E4567.hgt");
}

#[test]
fn tile_longitudes_wrap_into_range() {
    assert_eq!(normalize_tile_lon_floor(0), 0);
    assert_eq!(normalize_tile_lon_floor(180), -180);
    assert_eq!(normalize_tile_lon_floor(-181), 179);
    assert_eq!(normalize_tile_lon_floor(360), 0);
    assert_eq!(normalize_tile_lon_floor(-540), -180);
    assert_eq!(normalize_tile_lon_floor(179), 179);
}

#[test]
fn hgt_tiles_decode_square_grids() {
    let t = tile(key(0, 0), &[60, 70, 80, 40, 50, 60, 20, 30, 40]);
    assert_eq!(t.side(), 3);
    assert_eq!(t.key(), key(0, 0));
    assert_eq!(t.sample_raw(0, 0), 60);
    assert_eq!(t.sample_raw(2, 1), 30);
    assert_eq!(t.clamp_cell(5, 1), (2, 1));
    let neg = tile(key(0, 0), &[-1, -500, 32767, -32768]);
    assert_eq!(neg.sample_raw(0, 1), -500);
    assert_eq!(neg.sample_raw(1, 1), VOID_SAMPLE);
}

#[test]
fn invalid_tile_bytes_are_rejected() {
    for bytes in [vec![1u8, 2, 3], vec![0u8; 2], vec![0u8; 6], vec![0u8; 16]] {
        match HgtTile::from_bytes(&bytes, key(0, 0)) {
            Err(TerrainError::InvalidTileSize { bytes: n }) => assert_eq!(n, bytes.len()),
            other => panic!("unexpected {other:?}"),
        }
    }
    assert!(HgtTile::from_bytes(&[0u8; 8], key(0, 0)).is_ok());
    assert!(HgtTile::from_bytes(&[0u8; 18], key(0, 0)).is_ok());
}

#[test]
fn detects_void_samples_when_policy_is_error() {
    let t = tile(key(0, 0), &[10, 10, -32768, 10]);
    let dataset = SrtmDataset::new(PathBuf::from("tiles"));
    let err = dataset.resolve_sample_value(&t, 1, 0).unwrap_err();
    assert!(matches!(err, TerrainError::VoidSample { .. }));
}

#[test]
fn zero_void_policy_replaces_voids() {
    let t = tile(key(0, 0), &[10, 10, -32768, 10]);
    let dataset = SrtmDataset::new(PathBuf::from("tiles")).with_void_policy(VoidPolicy::Zero);
    let value = dataset.resolve_sample_value(&t, 1, 0).unwrap();
    assert_eq!(value, 0);
}

#[test]
fn nearest_valid_void_policy_falls_back_to_neighbor() {
    // Query point (0.0, 0.0) resolves to row=1,col=0.
    let t = tile(key(0, 0), &[10, 11, -32768, 13]);
    let dataset = SrtmDataset::new(PathBuf::from("tiles")).with_void_policy(
        VoidPolicy::NearestValid {
            max_radius_cells: 1,
        },
    );
    let value = dataset.resolve_sample_value(&t, 1, 0).unwrap();
    assert_eq!(value, 10);
}

#[test]
fn nearest_valid_void_policy_can_fail_when_radius_is_too_small() {
    let t = tile(key(0, 0), &[-32768; 9]);
    let dataset = SrtmDataset::new(PathBuf::from("tiles")).with_void_policy(
        VoidPolicy::NearestValid {
            max_radius_cells: 2,
        },
    );
    let err = dataset.resolve_sample_value(&t, 1, 1).unwrap_err();
    assert!(matches!(err, TerrainError::VoidSampleNoNeighbor { .. }));
}

#[test]
fn ring_search_prefers_inner_rings_then_north_then_west() {
    let v = VOID_SAMPLE;
    let samples = [
        v, v, v, v, 7,
        v, v, v, v, v,
        v, v, v, v, v,
        v, v, v, v, 3,
        9, v, v, v, v,
    ];
    let t = tile(key(0, 0), &samples);
    // Around (2, 2): ring 1 is all void; ring 2 holds (0, 4) first in north-to-south order.
    assert_eq!(t.nearest_valid_cell(2, 2, 5), Some((0, 4)));
    assert_eq!(t.nearest_valid_cell(2, 2, 1), None);
    // Around (2, 3): (3, 4) is in ring 1.
    assert_eq!(t.nearest_valid_cell(2, 3, 4), Some((3, 4)));
    // A huge radius is fine: the search stops at the tile's edge.
    assert_eq!(t.nearest_valid_cell(4, 4, usize::MAX), Some((3, 4)));
    let dataset = SrtmDataset::new(PathBuf::from("tiles")).with_void_policy(
        VoidPolicy::NearestValid {
            max_radius_cells: 3,
        },
    );
    assert_eq!(dataset.resolve_sample_value(&t, 2, 2).unwrap(), 7);
    assert_eq!(dataset.resolve_sample_value(&t, 4, 0).unwrap(), 9);
    match dataset.resolve_void_nearest_in_tile(&t, 2, 2, 1) {
        Err(TerrainError::VoidSampleNoNeighbor {
            tile_lat_floor_deg,
            tile_lon_floor_deg,
            row,
            col,
            max_radius_cells,
        }) => {
            assert_eq!(
                (tile_lat_floor_deg, tile_lon_floor_deg, row, col, max_radius_cells),
                (0, 0, 2, 2, 1)
            );
        }
        other => panic!("unexpected {other:?}"),
    }
}

#[test]
fn offsets_walk_into_neighbor_tiles() {
    let base = key(0, 0);
    // Side 5: stride 4. Row -1 is the second-to-last row of the northern neighbour.
    assert_eq!(walk_offset(base, 5, -1, 2), (key(1, 0), 3, 2));
    assert_eq!(walk_offset(base, 5, 5, 2), (key(-1, 0), 1, 2));
    assert_eq!(walk_offset(base, 5, 4, 4), (key(0, 0), 4, 4));
    assert_eq!(walk_offset(base, 5, 2, -1), (key(0, -1), 2, 3));
    assert_eq!(walk_offset(base, 5, 2, 6), (key(0, 1), 2, 2));
    assert_eq!(walk_offset(key(0, 179), 5, 2, 6), (key(0, -180), 2, 2));
    assert_eq!(walk_offset(key(0, -180), 5, 2, -1), (key(0, 179), 2, 3));
    assert_eq!(walk_offset(base, 3, -5, 9), (key(3, 4), 1, 1));
}

#[test]
fn cache_loads_each_tile_once() {
    let mut dataset = SrtmDataset::new(PathBuf::from("tiles"));
    for _ in 0..20 {
        let t = lookup(&mut dataset, key(0, 0), &[10, 10, 10, 10]);
        assert_eq!(t.sample_raw(0, 0), 10);
    }
    assert_eq!(dataset.loaded_tile_count(), 1);
    assert_eq!(dataset.cached_tile_count(), 1);

    let t = lookup(&mut dataset, key(0, 1), &[20, 20, 20, 20]);
    assert_eq!(t.sample_raw(1, 1), 20);
    assert_eq!(dataset.loaded_tile_count(), 2);
    assert_eq!(dataset.cached_tile_count(), 2);
}

#[test]
fn cache_eviction_respects_capacity() {
    let mut dataset = SrtmDataset::new(PathBuf::from("tiles")).with_max_cached_tiles(2);
    let _ = lookup(&mut dataset, key(0, 0), &[10, 10, 10, 10]);
    let _ = lookup(&mut dataset, key(0, 1), &[20, 20, 20, 20]);
    let _ = lookup(&mut dataset, key(0, 2), &[30, 30, 30, 30]);
    assert_eq!(dataset.cache_capacity(), 2);
    assert_eq!(dataset.cached_tile_count(), 2);
    assert_eq!(dataset.loaded_tile_count(), 3);
}

#[test]
fn dataset_defaults_and_settings() {
    let mut dataset = SrtmDataset::new(PathBuf::from("data/srtm"));
    assert_eq!(dataset.root(), &PathBuf::from("data/srtm"));
    assert_eq!(dataset.cache_capacity(), DEFAULT_MAX_CACHED_TILES);
    assert_eq!(dataset.cached_tile_count(), 0);
    assert_eq!(dataset.loaded_tile_count(), 0);
    assert_eq!(dataset.void_policy(), VoidPolicy::Error);
    assert_eq!(VoidPolicy::default(), VoidPolicy::Error);
    assert_eq!(dataset.vertical_datum(), Some(EgmModel::Egm96));
    dataset.set_max_cached_tiles(0);
    assert_eq!(dataset.cache_capacity(), 1);
    let _ = lookup(&mut dataset, key(0, 0), &[1, 2, 3, 4]);
    let _ = lookup(&mut dataset, key(0, 1), &[1, 2, 3, 4]);
    assert_eq!(dataset.cached_tile_count(), 1);
    dataset.clear_cache();
    assert_eq!(dataset.cached_tile_count(), 0);
    assert_eq!(dataset.loaded_tile_count(), 2);
}

#[test]
fn lru_cache_evicts_least_recently_used() {
    let mut cache = CacheState::new(2);
    let a = std::sync::Arc::new(tile(key(0, 0), &[1, 1, 1, 1]));
    let b = std::sync::Arc::new(tile(key(0, 1), &[2, 2, 2, 2]));
    let c = std::sync::Arc::new(tile(key(0, 2), &[3, 3, 3, 3]));
    cache.insert(key(0, 0), a);
    cache.insert(key(0, 1), b);
    // Touch (0, 0): (0, 1) becomes the least recently used entry.
    assert_eq!(cache.get(key(0, 0)).unwrap().sample_raw(0, 0), 1);
    cache.insert(key(0, 2), c);
    assert_eq!(cache.len(), 2);
    assert!(cache.get(key(0, 1)).is_none());
    assert_eq!(cache.get(key(0, 0)).unwrap().sample_raw(0, 0), 1);
    assert_eq!(cache.get(key(0, 2)).unwrap().sample_raw(0, 0), 3);
    // Replacing an existing key evicts nothing.
    let a2 = std::sync::Arc::new(tile(key(0, 0), &[5, 5, 5, 5]));
    cache.insert(key(0, 0), a2);
    assert_eq!(cache.len(), 2);
    assert_eq!(cache.get(key(0, 0)).unwrap().sample_raw(0, 0), 5);
    cache.set_capacity(1);
    assert_eq!(cache.capacity(), 1);
    assert_eq!(cache.len(), 1);
    assert!(cache.get(key(0, 0)).is_some());
    cache.clear();
    assert_eq!(cache.len(), 0);
    assert_eq!(CacheState::new(0).capacity(), 1);
}

#[test]
fn void_error_messages_locate_the_sample() {
    let void = TerrainError::VoidSample {
        tile_lat_floor_deg: -33,
        tile_lon_floor_deg: 151,
        row: 7,
        col: 12,
    };
    assert_eq!(
        void.void_message().unwrap(),
        "void terrain sample at tile (-33, 151), row=7, col=12"
    );
    let none = TerrainError::VoidSampleNoNeighbor {
        tile_lat_floor_deg: 39,
        tile_lon_floor_deg: -77,
        row: 0,
        col: 1200,
        max_radius_cells: 3,
    };
    assert_eq!(
        none.void_message().unwrap(),
        "void terrain sample at tile (39, -77), row=0, col=1200 with no valid neighbor within radius 3"
    );
    assert!(TerrainError::InvalidTileSize { bytes: 5 }.void_message().is_none());
}
