use tilemap_core::frac::Frac;
use tilemap_core::error::MapError;
use tilemap_core::projection::{Projection, ProjectionKind};

fn whole(n: i32) -> Frac {
    Frac::from_int(n)
}

fn frac(num: i64, den: i64) -> Frac {
    Frac::new(num, den).unwrap()
}

#[test]
fn orthogonal_scenario() {
    // tile_size = (32, 32): tile (2, 3) sits at local (64, 96) and back.
    let p = Projection::new(ProjectionKind::Orthogonal, 32, 32).unwrap();
    let l = p.tile_to_local(&whole(2), &whole(3));
    assert!(l.0.same_value(&whole(64)));
    assert!(l.1.same_value(&whole(96)));
    let t = p.local_to_tile(&whole(64), &whole(96));
    assert!(t.0.same_value(&whole(2)));
    assert!(t.1.same_value(&whole(3)));
}

#[test]
fn axonometric_scenario() {
    // tile_size = (40, 20): the right basis vector is (20, -10) and the
    // down basis vector is (20, 10), the diamond geometry.
    let p = Projection::new(ProjectionKind::Isometric, 40, 20).unwrap();
    let right = p.tile_to_local(&whole(1), &whole(0));
    assert!(right.0.same_value(&whole(20)));
    assert!(right.1.same_value(&whole(-10)));
    let down = p.tile_to_local(&whole(0), &whole(1));
    assert!(down.0.same_value(&whole(20)));
    assert!(down.1.same_value(&whole(10)));
}

#[test]
fn hexagonal_basis() {
    // tile_size = (40, 20), pointy-top: right = (40, 0), down = (20, 15).
    let p = Projection::new(ProjectionKind::Hexagonal, 40, 20).unwrap();
    let right = p.tile_to_local(&whole(1), &whole(0));
    assert!(right.0.same_value(&whole(40)));
    assert!(right.1.same_value(&whole(0)));
    let down = p.tile_to_local(&whole(0), &whole(1));
    assert!(down.0.same_value(&whole(20)));
    assert!(down.1.same_value(&whole(15)));
}

#[test]
fn round_trip_all_kinds_fractional() {
    // local_to_tile inverts tile_to_local exactly, fractional input included.
    let kinds = [
        ProjectionKind::Orthogonal,
        ProjectionKind::Isometric,
        ProjectionKind::Hexagonal,
    ];
    let tx = frac(5, 2);
    let ty = frac(-7, 4);
    for kind in kinds {
        let p = Projection::new(kind, 40, 20).unwrap();
        let l = p.tile_to_local(&tx, &ty);
        let t = p.local_to_tile(&l.0, &l.1);
        assert!(t.0.same_value(&tx));
        assert!(t.1.same_value(&ty));
    }
}

#[test]
fn round_trip_grid_corners() {
    // Whole-tile coordinates across a grid round-trip for every kind.
    let kinds = [
        ProjectionKind::Orthogonal,
        ProjectionKind::Isometric,
        ProjectionKind::Hexagonal,
    ];
    for kind in kinds {
        let p = Projection::new(kind, 32, 16).unwrap();
        for x in [0, 1, 7, 31] {
            for y in [0, 1, 5, 15] {
                let l = p.tile_to_local(&whole(x), &whole(y));
                let t = p.local_to_tile(&l.0, &l.1);
                assert!(t.0.same_value(&whole(x)));
                assert!(t.1.same_value(&whole(y)));
            }
        }
    }
}

#[test]
fn degenerate_tile_size_rejected() {
    assert!(matches!(
        Projection::new(ProjectionKind::Orthogonal, 0, 32),
        Err(MapError::Configuration)
    ));
    assert!(matches!(
        Projection::new(ProjectionKind::Isometric, 32, 0),
        Err(MapError::Configuration)
    ));
    assert!(matches!(
        Projection::new(ProjectionKind::Hexagonal, 70000, 32),
        Err(MapError::Configuration)
    ));
}

#[test]
fn frac_construction() {
    let f = frac(3, 2);
    assert_eq!(f.num, 3);
    assert_eq!(f.den, 2);
    assert!(matches!(Frac::new(1, 0), Err(MapError::Configuration)));
    assert!(matches!(Frac::new(1, -2), Err(MapError::Configuration)));
    assert!(matches!(Frac::new(1, 5000), Err(MapError::Configuration)));
    assert!(frac(2, 4).same_value(&frac(1, 2)));
    assert!(!frac(2, 4).same_value(&frac(2, 3)));
}
