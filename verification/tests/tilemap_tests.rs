use tilemap_core::codec;
use tilemap_core::error::MapError;
use tilemap_core::frac::Frac;
use tilemap_core::projection::{Projection, ProjectionKind};
use tilemap_core::tilemap::{with_map_indexer, AtlasPadding, MapConfig, TileMap};
use tilemap_core::transform::{MapRotation, WorldTransform};

fn whole(n: i32) -> Frac {
    Frac::from_int(n)
}

fn config(kind: ProjectionKind, tile: u32, w: u32, h: u32) -> MapConfig {
    MapConfig {
        map_width: w,
        map_height: h,
        projection: Projection::new(kind, tile, tile).unwrap(),
        atlas_padding: AtlasPadding::none(),
        tiles_in_atlas: Some((8, 8)),
    }
}

#[test]
fn new_map_starts_synced_and_dirty() {
    let m = TileMap::new(config(ProjectionKind::Orthogonal, 32, 4, 3), 0).unwrap();
    assert!(m.is_dirty());
    assert_eq!(m.size(), (4, 3));
    assert_eq!(m.buffer().len(), 4 * 3 * 2);
    assert_eq!(m.buffer(), &codec::encode(&m.storage).unwrap());
}

#[test]
fn invalid_config_rejected() {
    let mut c = config(ProjectionKind::Orthogonal, 32, 4, 3);
    c.map_width = 0;
    assert!(matches!(TileMap::new(c, 0), Err(MapError::Configuration)));
    let mut c = config(ProjectionKind::Orthogonal, 32, 4, 3);
    c.tiles_in_atlas = Some((0, 3));
    assert!(matches!(TileMap::new(c, 0), Err(MapError::Configuration)));
}

#[test]
fn edit_batch_encodes_once_at_close() {
    // Open a scope, set N tiles, close: the buffer mid-scope is untouched,
    // and after closing it equals the encoding of the final storage.
    let m = TileMap::new(config(ProjectionKind::Orthogonal, 32, 4, 3), 0).unwrap();
    let before = m.buffer().clone();
    let mut e = m.begin_edit();
    e.set(0, 0, 11).unwrap();
    e.set(1, 0, 22).unwrap();
    e.set(3, 2, 33).unwrap();
    assert_eq!(&e.map.sync.buffer, &before);
    assert_eq!(e.get(1, 0).unwrap(), 22);
    let m = e.finish();
    assert!(m.is_dirty());
    assert_eq!(m.buffer(), &codec::encode(&m.storage).unwrap());
    assert_eq!(m.get(0, 0).unwrap(), 11);
    assert_eq!(m.get(1, 0).unwrap(), 22);
    assert_eq!(m.get(3, 2).unwrap(), 33);
    assert_eq!(m.get(2, 1).unwrap(), 0);
}

#[test]
fn with_map_indexer_closes_scope_once() {
    // The closure form of the edit scope: mutate inside, and on release the
    // texture is re-encoded from the final state and flagged dirty.
    let m = TileMap::new(config(ProjectionKind::Orthogonal, 32, 4, 3), 0).unwrap();
    let m = with_map_indexer(m, |mut e| {
        e.set(0, 0, 7).unwrap();
        e.set(2, 1, 8).unwrap();
        e
    });
    assert!(m.is_dirty());
    assert_eq!(m.get(0, 0).unwrap(), 7);
    assert_eq!(m.get(2, 1).unwrap(), 8);
    assert_eq!(m.buffer(), &codec::encode(&m.storage).unwrap());
}

#[test]
fn empty_edit_batch_still_closes_cleanly() {
    // N = 0: the dirty flag is set once net and the buffer matches storage.
    let mut m = TileMap::new(config(ProjectionKind::Orthogonal, 32, 2, 2), 9).unwrap();
    m.clear_dirty();
    assert!(!m.is_dirty());
    let e = m.begin_edit();
    let m = e.finish();
    assert!(m.is_dirty());
    assert_eq!(m.buffer(), &codec::encode(&m.storage).unwrap());
}

#[test]
fn edit_out_of_bounds_is_recoverable() {
    let m = TileMap::new(config(ProjectionKind::Orthogonal, 32, 2, 2), 1).unwrap();
    let mut e = m.begin_edit();
    assert_eq!(e.set(2, 0, 5), Err(MapError::OutOfBounds));
    assert_eq!(e.get(0, 2), Err(MapError::OutOfBounds));
    let m = e.finish();
    for x in 0..2 {
        for y in 0..2 {
            assert_eq!(m.get(x, y).unwrap(), 1);
        }
    }
}

#[test]
fn clear_dirty_models_upload_handoff() {
    let m = TileMap::new(config(ProjectionKind::Isometric, 16, 3, 3), 2).unwrap();
    let mut m = m.begin_edit().finish();
    assert!(m.is_dirty());
    m.clear_dirty();
    assert!(!m.is_dirty());
}

#[test]
fn oversized_map_cannot_sync() {
    // Storage allows it, the texture encoder does not: the map stays dirty
    // with an empty staging buffer until resized.
    let c = MapConfig {
        map_width: 16385,
        map_height: 1,
        projection: Projection::new(ProjectionKind::Orthogonal, 32, 32).unwrap(),
        atlas_padding: AtlasPadding::none(),
        tiles_in_atlas: None,
    };
    let m = TileMap::new(c, 0).unwrap();
    assert!(m.is_dirty());
    assert_eq!(m.buffer().len(), 0);
    let m = m.begin_edit().finish();
    assert!(m.is_dirty());
    assert_eq!(m.buffer().len(), 0);
}

#[test]
fn world_round_trip_identity_all_kinds() {
    // For the identity world transform, world_to_map inverts map_to_world.
    let xf = WorldTransform::identity();
    let kinds = [
        ProjectionKind::Orthogonal,
        ProjectionKind::Isometric,
        ProjectionKind::Hexagonal,
    ];
    for kind in kinds {
        let m = TileMap::new(config(kind, 24, 8, 8), 0).unwrap();
        let tx = Frac::new(7, 2).unwrap();
        let ty = Frac::new(-3, 4).unwrap();
        let p = m.map_to_world(&xf, &tx, &ty);
        let t = m.world_to_map(&xf, &p.0, &p.1);
        assert!(t.0.same_value(&tx));
        assert!(t.1.same_value(&ty));
    }
}

#[test]
fn world_transform_applies_scale_rotation_translation() {
    // Orthogonal 32px tiles, scale (2, 1), quarter turn, translation (10, 5):
    // tile (1, 0) -> local (32, 0) -> scaled (64, 0) -> turned (0, 64)
    // -> world (10, 69).
    let m = TileMap::new(config(ProjectionKind::Orthogonal, 32, 8, 8), 0).unwrap();
    let xf = WorldTransform::new(
        (whole(10), whole(5)),
        MapRotation::R90,
        (whole(2), whole(1)),
    )
    .unwrap();
    let p = m.map_to_world(&xf, &whole(1), &whole(0));
    assert!(p.0.same_value(&whole(10)));
    assert!(p.1.same_value(&whole(69)));
    let t = m.world_to_map(&xf, &p.0, &p.1);
    assert!(t.0.same_value(&whole(1)));
    assert!(t.1.same_value(&whole(0)));
}

#[test]
fn world_transform_rejects_zero_scale() {
    assert!(matches!(
        WorldTransform::new((whole(0), whole(0)), MapRotation::R0, (whole(0), whole(1))),
        Err(MapError::Configuration)
    ));
}

#[test]
fn hit_test_outside_grid_is_callers_signal() {
    // A world point left of the map yields a negative fractional tile
    // coordinate; conversion never fails, bounds-checking is the caller's.
    let m = TileMap::new(config(ProjectionKind::Orthogonal, 32, 4, 4), 0).unwrap();
    let xf = WorldTransform::identity();
    let t = m.world_to_map(&xf, &whole(-48), &whole(16));
    assert!(t.0.same_value(&Frac::new(-3, 2).unwrap()));
    assert!(t.1.same_value(&Frac::new(1, 2).unwrap()));
    assert_eq!(m.get(100, 0), Err(MapError::OutOfBounds));
}
