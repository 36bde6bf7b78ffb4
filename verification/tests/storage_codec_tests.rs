use tilemap_core::codec;
use tilemap_core::codec::TextureSync;
use tilemap_core::error::MapError;
use tilemap_core::storage::TileGridStorage;

#[test]
fn fill_invariant() {
    // After new(w, h, fill), every in-bounds cell reads back the fill.
    let s = TileGridStorage::new(3, 2, 7).unwrap();
    for x in 0..3 {
        for y in 0..2 {
            assert_eq!(s.get(x, y).unwrap(), 7);
        }
    }
}

#[test]
fn set_then_get() {
    let mut s = TileGridStorage::new(4, 4, 0).unwrap();
    s.set(1, 2, 42).unwrap();
    assert_eq!(s.get(1, 2).unwrap(), 42);
    assert_eq!(s.get(2, 1).unwrap(), 0);
    assert_eq!(s.size(), (4, 4));
}

#[test]
fn out_of_bounds_leaves_storage_unchanged() {
    let mut s = TileGridStorage::new(3, 2, 5).unwrap();
    assert_eq!(s.get(3, 0), Err(MapError::OutOfBounds));
    assert_eq!(s.get(0, 2), Err(MapError::OutOfBounds));
    assert_eq!(s.set(3, 0, 9), Err(MapError::OutOfBounds));
    assert_eq!(s.set(0, 2, 9), Err(MapError::OutOfBounds));
    for x in 0..3 {
        for y in 0..2 {
            assert_eq!(s.get(x, y).unwrap(), 5);
        }
    }
}

#[test]
fn zero_dimension_rejected() {
    assert!(matches!(TileGridStorage::new(0, 4, 0), Err(MapError::Configuration)));
    assert!(matches!(TileGridStorage::new(4, 0, 0), Err(MapError::Configuration)));
    assert!(matches!(TileGridStorage::new(40000, 4, 0), Err(MapError::Configuration)));
}

#[test]
fn from_tiles_checks_length() {
    let s = TileGridStorage::from_tiles(2, 2, vec![1, 2, 3, 4]).unwrap();
    assert_eq!(s.get(0, 0).unwrap(), 1);
    assert_eq!(s.get(1, 0).unwrap(), 2);
    assert_eq!(s.get(0, 1).unwrap(), 3);
    assert_eq!(s.get(1, 1).unwrap(), 4);
    assert!(matches!(
        TileGridStorage::from_tiles(2, 2, vec![1, 2, 3]),
        Err(MapError::Configuration)
    ));
}

#[test]
fn encoding_layout_little_endian() {
    // One texel per tile, low byte first: bit-identical to the index.
    let s = TileGridStorage::from_tiles(2, 1, vec![0x1234, 0xABCD]).unwrap();
    let buf = codec::encode(&s).unwrap();
    assert_eq!(buf, vec![0x34, 0x12, 0xCD, 0xAB]);
}

#[test]
fn encoding_deterministic() {
    // Encoding the same contents twice gives byte-identical buffers.
    let s = TileGridStorage::from_tiles(3, 2, vec![9, 8, 7, 6, 5, 4]).unwrap();
    let a = codec::encode(&s).unwrap();
    let b = codec::encode(&s).unwrap();
    assert_eq!(a, b);
    let t = TileGridStorage::from_tiles(3, 2, vec![9, 8, 7, 6, 5, 4]).unwrap();
    assert_eq!(codec::encode(&t).unwrap(), a);
}

#[test]
fn encoding_rejects_oversized_grid() {
    let s = TileGridStorage::new(16385, 1, 0).unwrap();
    assert!(matches!(codec::encode(&s), Err(MapError::Encoding)));
    let t = TileGridStorage::new(1, 16385, 0).unwrap();
    assert!(matches!(codec::encode(&t), Err(MapError::Encoding)));
}

#[test]
fn error_descriptions_are_nonempty() {
    assert!(!MapError::Configuration.describe().is_empty());
    assert!(!MapError::OutOfBounds.describe().is_empty());
    assert!(!MapError::Encoding.describe().is_empty());
}

#[test]
fn texture_sync_flags() {
    let s = TileGridStorage::from_tiles(2, 1, vec![1, 2]).unwrap();
    let mut sync = TextureSync { dirty: false, buffer: Vec::new() };
    assert!(!sync.is_dirty());
    sync.mark_dirty();
    assert!(sync.is_dirty());
    sync.refresh(&s).unwrap();
    assert!(sync.is_dirty());
    assert_eq!(sync.buffer, codec::encode(&s).unwrap());
    sync.clear_dirty();
    assert!(!sync.is_dirty());
}
