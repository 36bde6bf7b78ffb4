//! Composition of a projection with a map's world transform.
//!
//! A map entity carries a world transform — translation, rotation,
//! non-uniform scale.  `map_to_world` applies tile-to-local conversion, then
//! scale, rotation and translation; `world_to_map` inverts the transform and
//! then the projection, yielding the fractional tile coordinate under an
//! arbitrary world point (a cursor, say).  Both are pure in their inputs: the
//! transform is passed fresh on every call, never cached, because the hosting
//! scene graph may move the map every frame.  Neither clamps: callers detect
//! "outside the grid" results themselves.
//!
//! Rotation is one of the four exact quarter turns ([`MapRotation`]): an
//! arbitrary-angle rotation has no exact rational matrix, so finer rotation
//! is the host's business, outside the verified core.

use vstd::prelude::*;

use crate::error::MapError;
use crate::frac::{
    in_range, lemma_abs_mul, lemma_pos_mul, rat_add, rat_div, rat_eqv, rat_int, rat_mul, rat_neg,
    rat_sub, Frac, Rat, DEN_LIMIT, NUM_LIMIT,
};
use crate::projection::{
    lemma_tile_local_round_trip, spec_local_to_tile, spec_tile_to_local, Projection,
    ProjectionKind, TTL_DEN_BOUND, TTL_NUM_BOUND, WIDE_DEN_LIMIT, WIDE_NUM_LIMIT,
};

verus! {

/// Exact quarter-turn rotations of a map in world space; `R90` turns
/// `(x, y)` into `(-y, x)`.
#[derive(Clone, Copy, Debug, PartialEq, Eq, Structural)]
pub enum MapRotation {
    R0,
    R90,
    R180,
    R270,
}

impl MapRotation {
    /// The turn that undoes this one.
    pub open spec fn spec_inverse(self) -> MapRotation {
        match self {
            MapRotation::R0 => MapRotation::R0,
            MapRotation::R90 => MapRotation::R270,
            MapRotation::R180 => MapRotation::R180,
            MapRotation::R270 => MapRotation::R90,
        }
    }

    /// The turn that undoes this one.
    pub fn inverse(self) -> (r: MapRotation)
        ensures
            r == self.spec_inverse(),
    {
        match self {
            MapRotation::R0 => MapRotation::R0,
            MapRotation::R90 => MapRotation::R270,
            MapRotation::R180 => MapRotation::R180,
            MapRotation::R270 => MapRotation::R90,
        }
    }
}

/// Mathematical model of a world transform.
pub struct WorldModel {
    pub translation: (Rat, Rat),
    pub rotation: MapRotation,
    pub scale: (Rat, Rat),
}

/// A scale factor is nonzero (so the transform is invertible) and small.
pub open spec fn scale_in_range(a: Rat) -> bool {
    &&& -(DEN_LIMIT as int) <= a.num <= DEN_LIMIT as int
    &&& a.num != 0
    &&& 0 < a.den <= DEN_LIMIT as int
}

/// A map entity's world transform: translation, quarter-turn rotation and
/// non-uniform scale, applied to local points as scale, then rotation, then
/// translation.
#[derive(Clone, Copy, Debug)]
pub struct WorldTransform {
    pub translation: (Frac, Frac),
    pub rotation: MapRotation,
    pub scale: (Frac, Frac),
}

impl View for WorldTransform {
    type V = WorldModel;

    open spec fn view(&self) -> WorldModel {
        WorldModel {
            translation: (self.translation.0@, self.translation.1@),
            rotation: self.rotation,
            scale: (self.scale.0@, self.scale.1@),
        }
    }
}

/// The identity transform: no translation, no turn, unit scale.
pub open spec fn spec_identity() -> WorldModel {
    WorldModel {
        translation: (rat_int(0), rat_int(0)),
        rotation: MapRotation::R0,
        scale: (rat_int(1), rat_int(1)),
    }
}

impl WorldTransform {
    /// The translation is in coordinate range and both scales are nonzero
    /// and in range.
    pub open spec fn wf(&self) -> bool {
        &&& in_range(self.translation.0@)
        &&& in_range(self.translation.1@)
        &&& scale_in_range(self.scale.0@)
        &&& scale_in_range(self.scale.1@)
    }

    /// Build a transform, rejecting an out-of-range translation or a zero or
    /// out-of-range scale at construction.
    pub fn new(translation: (Frac, Frac), rotation: MapRotation, scale: (Frac, Frac)) -> (r:
        Result<WorldTransform, MapError>)
        ensures
            r is Ok <==> (in_range(translation.0@) && in_range(translation.1@) && scale_in_range(
                scale.0@,
            ) && scale_in_range(scale.1@)),
            r matches Ok(t) ==> t.translation == translation && t.rotation == rotation && t.scale
                == scale && t.wf(),
            r is Err ==> r == Err::<WorldTransform, MapError>(MapError::Configuration),
    {
        if frac_in_range(&translation.0) && frac_in_range(&translation.1) && frac_scale_ok(
            &scale.0,
        ) && frac_scale_ok(&scale.1) {
            Ok(WorldTransform { translation, rotation, scale })
        } else {
            Err(MapError::Configuration)
        }
    }

    /// The identity transform.
    pub fn identity() -> (r: WorldTransform)
        ensures
            r.wf(),
            r@ == spec_identity(),
    {
        WorldTransform {
            translation: (Frac { num: 0, den: 1 }, Frac { num: 0, den: 1 }),
            rotation: MapRotation::R0,
            scale: (Frac { num: 1, den: 1 }, Frac { num: 1, den: 1 }),
        }
    }
}

/// The coordinate is within the bounds the conversion entry points accept.
fn frac_in_range(f: &Frac) -> (r: bool)
    ensures
        r == in_range(f@),
{
    -(NUM_LIMIT as i128) <= f.num && f.num <= NUM_LIMIT as i128 && 0 < f.den && f.den
        <= DEN_LIMIT as i128
}

/// The scale factor is nonzero and within bounds.
fn frac_scale_ok(f: &Frac) -> (r: bool)
    ensures
        r == scale_in_range(f@),
{
    -(DEN_LIMIT as i128) <= f.num && f.num <= DEN_LIMIT as i128 && f.num != 0 && 0 < f.den && f.den
        <= DEN_LIMIT as i128
}

/// Rotate a point by a quarter turn.
pub open spec fn spec_rotate(r: MapRotation, x: Rat, y: Rat) -> (Rat, Rat) {
    match r {
        MapRotation::R0 => (x, y),
        MapRotation::R90 => (rat_neg(y), x),
        MapRotation::R180 => (rat_neg(x), rat_neg(y)),
        MapRotation::R270 => (y, rat_neg(x)),
    }
}

/// The world point of a (fractional) tile coordinate: tile-to-local, then
/// scale, rotation and translation.
pub open spec fn spec_map_to_world(
    kind: ProjectionKind,
    w: int,
    k: int,
    xf: WorldModel,
    tx: Rat,
    ty: Rat,
) -> (Rat, Rat) {
    let l = spec_tile_to_local(kind, w, k, tx, ty);
    let s = (rat_mul(l.0, xf.scale.0), rat_mul(l.1, xf.scale.1));
    let r = spec_rotate(xf.rotation, s.0, s.1);
    (rat_add(r.0, xf.translation.0), rat_add(r.1, xf.translation.1))
}

/// The (fractional) tile coordinate under a world point: the transform
/// inverted (untranslate, unrotate, unscale), then local-to-tile.
pub open spec fn spec_world_to_map(
    kind: ProjectionKind,
    w: int,
    k: int,
    xf: WorldModel,
    px: Rat,
    py: Rat,
) -> (Rat, Rat) {
    let q = (rat_sub(px, xf.translation.0), rat_sub(py, xf.translation.1));
    let u = spec_rotate(xf.rotation.spec_inverse(), q.0, q.1);
    let v = (rat_div(u.0, xf.scale.0), rat_div(u.1, xf.scale.1));
    spec_local_to_tile(kind, w, k, v.0, v.1)
}

/// Convert a (fractional) tile coordinate to the world point it occupies
/// under the map's current transform.  Pure and exact; never fails on
/// in-range input.
pub fn map_to_world(proj: &Projection, xf: &WorldTransform, tx: &Frac, ty: &Frac) -> (r: (
    Frac,
    Frac,
))
    requires
        proj.wf(),
        xf.wf(),
        in_range(tx@),
        in_range(ty@),
    ensures
        r.0@ == spec_map_to_world(proj.kind, proj.tile_w as int, proj.tile_h as int, xf@, tx@, ty@).0,
        r.1@ == spec_map_to_world(proj.kind, proj.tile_w as int, proj.tile_h as int, xf@, tx@, ty@).1,
        r.0@.den > 0,
        r.1@.den > 0,
{
    let ghost sn: int = (TTL_NUM_BOUND as int) * (DEN_LIMIT as int);
    let ghost sd: int = (TTL_DEN_BOUND as int) * (DEN_LIMIT as int);
    let l = proj.tile_to_local(tx, ty);
    proof {
        lemma_abs_mul(l.0@.num, xf.scale.0@.num, TTL_NUM_BOUND as int, DEN_LIMIT as int);
        lemma_abs_mul(l.1@.num, xf.scale.1@.num, TTL_NUM_BOUND as int, DEN_LIMIT as int);
        lemma_abs_mul(l.0@.den, xf.scale.0@.den, TTL_DEN_BOUND as int, DEN_LIMIT as int);
        lemma_abs_mul(l.1@.den, xf.scale.1@.den, TTL_DEN_BOUND as int, DEN_LIMIT as int);
        lemma_pos_mul(l.0@.den, xf.scale.0@.den);
        lemma_pos_mul(l.1@.den, xf.scale.1@.den);
    }
    let sx = Frac { num: l.0.num * xf.scale.0.num, den: l.0.den * xf.scale.0.den };
    let sy = Frac { num: l.1.num * xf.scale.1.num, den: l.1.den * xf.scale.1.den };
    let rot = match xf.rotation {
        MapRotation::R0 => (sx, sy),
        MapRotation::R90 => ((Frac { num: -sy.num, den: sy.den }), sx),
        MapRotation::R180 => (
            (Frac { num: -sx.num, den: sx.den }),
            (Frac { num: -sy.num, den: sy.den }),
        ),
        MapRotation::R270 => (sy, (Frac { num: -sx.num, den: sx.den })),
    };
    proof {
        assert(-sn <= rot.0@.num <= sn && 0 < rot.0@.den <= sd);
        assert(-sn <= rot.1@.num <= sn && 0 < rot.1@.den <= sd);
        lemma_abs_mul(rot.0@.num, xf.translation.0@.den, sn, DEN_LIMIT as int);
        lemma_abs_mul(rot.1@.num, xf.translation.1@.den, sn, DEN_LIMIT as int);
        lemma_abs_mul(xf.translation.0@.num, rot.0@.den, NUM_LIMIT as int, sd);
        lemma_abs_mul(xf.translation.1@.num, rot.1@.den, NUM_LIMIT as int, sd);
        lemma_abs_mul(rot.0@.den, xf.translation.0@.den, sd, DEN_LIMIT as int);
        lemma_abs_mul(rot.1@.den, xf.translation.1@.den, sd, DEN_LIMIT as int);
        lemma_pos_mul(rot.0@.den, xf.translation.0@.den);
        lemma_pos_mul(rot.1@.den, xf.translation.1@.den);
    }
    let ox = Frac {
        num: rot.0.num * xf.translation.0.den + xf.translation.0.num * rot.0.den,
        den: rot.0.den * xf.translation.0.den,
    };
    let oy = Frac {
        num: rot.1.num * xf.translation.1.den + xf.translation.1.num * rot.1.den,
        den: rot.1.den * xf.translation.1.den,
    };
    (ox, oy)
}

/// Convert a world point (a cursor position, say) to the fractional tile
/// coordinate under it.  Pure and exact; the result may lie outside the
/// grid — bounds checking and clamping are the caller's, so hit-testing can
/// distinguish misses.
pub fn world_to_map(proj: &Projection, xf: &WorldTransform, px: &Frac, py: &Frac) -> (r: (
    Frac,
    Frac,
))
    requires
        proj.wf(),
        xf.wf(),
        in_range(px@),
        in_range(py@),
    ensures
        r.0@ == spec_world_to_map(proj.kind, proj.tile_w as int, proj.tile_h as int, xf@, px@, py@).0,
        r.1@ == spec_world_to_map(proj.kind, proj.tile_w as int, proj.tile_h as int, xf@, px@, py@).1,
        r.0@.den > 0,
        r.1@.den > 0,
{
    let ghost qn: int = 2 * ((NUM_LIMIT as int) * (DEN_LIMIT as int));
    let ghost qd: int = (DEN_LIMIT as int) * (DEN_LIMIT as int);
    proof {
        lemma_abs_mul(px@.num, xf.translation.0@.den, NUM_LIMIT as int, DEN_LIMIT as int);
        lemma_abs_mul(py@.num, xf.translation.1@.den, NUM_LIMIT as int, DEN_LIMIT as int);
        lemma_abs_mul(xf.translation.0@.num, px@.den, NUM_LIMIT as int, DEN_LIMIT as int);
        lemma_abs_mul(xf.translation.1@.num, py@.den, NUM_LIMIT as int, DEN_LIMIT as int);
        lemma_abs_mul(px@.den, xf.translation.0@.den, DEN_LIMIT as int, DEN_LIMIT as int);
        lemma_abs_mul(py@.den, xf.translation.1@.den, DEN_LIMIT as int, DEN_LIMIT as int);
        lemma_pos_mul(px@.den, xf.translation.0@.den);
        lemma_pos_mul(py@.den, xf.translation.1@.den);
    }
    let qx = Frac {
        num: px.num * xf.translation.0.den - xf.translation.0.num * px.den,
        den: px.den * xf.translation.0.den,
    };
    let qy = Frac {
        num: py.num * xf.translation.1.den - xf.translation.1.num * py.den,
        den: py.den * xf.translation.1.den,
    };
    let inv = xf.rotation.inverse();
    let u = match inv {
        MapRotation::R0 => (qx, qy),
        MapRotation::R90 => ((Frac { num: -qy.num, den: qy.den }), qx),
        MapRotation::R180 => (
            (Frac { num: -qx.num, den: qx.den }),
            (Frac { num: -qy.num, den: qy.den }),
        ),
        MapRotation::R270 => (qy, (Frac { num: -qx.num, den: qx.den })),
    };
    proof {
        assert(-qn <= u.0@.num <= qn && 0 < u.0@.den <= qd);
        assert(-qn <= u.1@.num <= qn && 0 < u.1@.den <= qd);
        lemma_abs_mul(u.0@.num, xf.scale.0@.den, qn, DEN_LIMIT as int);
        lemma_abs_mul(u.1@.num, xf.scale.1@.den, qn, DEN_LIMIT as int);
        lemma_abs_mul(u.0@.den, xf.scale.0@.num, qd, DEN_LIMIT as int);
        lemma_abs_mul(u.1@.den, xf.scale.1@.num, qd, DEN_LIMIT as int);
    }
    let vx = div_frac(&u.0, &xf.scale.0);
    let vy = div_frac(&u.1, &xf.scale.1);
    proj.local_to_tile_wide(&vx, &vy)
}

/// Divide a point component by a scale factor, keeping the denominator
/// positive.  Input bounds are those of the unrotated, untranslated point in
/// `world_to_map`.
fn div_frac(a: &Frac, s: &Frac) -> (r: Frac)
    requires
        scale_in_range(s@),
        -2 * ((NUM_LIMIT as int) * (DEN_LIMIT as int)) <= a@.num <= 2 * ((NUM_LIMIT as int)
            * (DEN_LIMIT as int)),
        0 < a@.den <= (DEN_LIMIT as int) * (DEN_LIMIT as int),
    ensures
        r@ == rat_div(a@, s@),
        r@.den > 0,
        -(WIDE_NUM_LIMIT as int) <= r@.num <= WIDE_NUM_LIMIT as int,
        0 < r@.den <= WIDE_DEN_LIMIT as int,
{
    let ghost qn: int = 2 * ((NUM_LIMIT as int) * (DEN_LIMIT as int));
    let ghost qd: int = (DEN_LIMIT as int) * (DEN_LIMIT as int);
    proof {
        lemma_abs_mul(a@.num, s@.den, qn, DEN_LIMIT as int);
        lemma_abs_mul(a@.den, s@.num, qd, DEN_LIMIT as int);
    }
    if s.num >= 0 {
        proof {
            lemma_pos_mul(a@.den, s@.num);
        }
        Frac { num: a.num * s.den, den: a.den * s.num }
    } else {
        proof {
            lemma_pos_mul(a@.den, -s@.num);
            lemma_mul_neg(a@.den, s@.num);
        }
        Frac { num: -(a.num * s.den), den: -(a.den * s.num) }
    }
}

/// Negation moves through a product.
pub proof fn lemma_mul_neg(x: int, y: int)
    by (nonlinear_arith)
    ensures
        x * (-y) == -(x * y),
{
}

/// Law: under the identity world transform, converting a map coordinate to
/// world space and back yields the same coordinate, for every projection
/// kind, tile size and coordinate.
pub proof fn lemma_world_round_trip_identity(
    kind: ProjectionKind,
    w: int,
    k: int,
    tx: Rat,
    ty: Rat,
)
    requires
        1 <= w,
        1 <= k,
        tx.den > 0,
        ty.den > 0,
    ensures
        ({
            let p = spec_map_to_world(kind, w, k, spec_identity(), tx, ty);
            let t = spec_world_to_map(kind, w, k, spec_identity(), p.0, p.1);
            rat_eqv(t.0, tx) && rat_eqv(t.1, ty) && t.0.den > 0 && t.1.den > 0
        }),
{
    let l = spec_tile_to_local(kind, w, k, tx, ty);
    let p = spec_map_to_world(kind, w, k, spec_identity(), tx, ty);
    assert(p.0 == l.0 && p.1 == l.1);
    let t = spec_world_to_map(kind, w, k, spec_identity(), p.0, p.1);
    assert(t == spec_local_to_tile(kind, w, k, l.0, l.1));
    lemma_tile_local_round_trip(kind, w, k, tx, ty);
}

} // verus!
