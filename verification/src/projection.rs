//! Pure, mutually inverse conversions between tile-grid coordinates and
//! local (unscaled, unrotated) planar coordinates.
//!
//! A projection is a pair of basis vectors determined by the projection kind
//! and the tile size `(w, k)`:
//!
//! * Orthogonal: `right = (w, 0)`, `down = (0, k)`.
//! * Isometric (diamond): `right = (w/2, -k/2)`, `down = (w/2, k/2)`; the
//!   sign convention is y-down in screen space, so stepping right in the grid
//!   moves up-screen (negative y) and stepping down moves down-screen.
//! * Hexagonal (pointy-top, axial columns): `right = (w, 0)`,
//!   `down = (w/2, 3k/4)`.
//!
//! `tile_to_local` maps a (possibly fractional) tile coordinate through the
//! basis; `local_to_tile` solves the 2x2 linear system back.  Both are exact
//! on rationals, and [`lemma_tile_local_round_trip`] proves they invert each
//! other for every projection kind, tile size and coordinate.

use vstd::prelude::*;

use crate::error::MapError;
use crate::frac::{
    lemma_abs_mul, lemma_pos_mul, in_range, rat_eqv, Frac, Rat, DEN_LIMIT, NUM_LIMIT,
};

verus! {

/// Largest tile side length, in local-space units, that a projection accepts
/// (2^16): keeps every conversion product inside `i128`.
pub const MAX_TILE_DIM: u32 = 0x10000;

/// Magnitude bound on the numerators `tile_to_local` returns (2^74).
pub const TTL_NUM_BOUND: i128 = 0x400_0000_0000_0000_0000;

/// Bound on the denominators `tile_to_local` returns (2^25).
pub const TTL_DEN_BOUND: i128 = 0x200_0000;

/// Numerator magnitude `local_to_tile` accepts (2^69): wide enough for the
/// points the world-to-map composition feeds it.
pub const WIDE_NUM_LIMIT: i128 = 0x20_0000_0000_0000_0000;

/// Denominator bound `local_to_tile` accepts (2^36).
pub const WIDE_DEN_LIMIT: i128 = 0x10_0000_0000;

/// The geometric rule mapping tile-grid coordinates to local coordinates.
#[derive(Clone, Copy, Debug, PartialEq, Eq, Structural)]
pub enum ProjectionKind {
    Orthogonal,
    Isometric,
    Hexagonal,
}

/// A projection kind together with the tile size, fixed per map.
#[derive(Clone, Copy, Debug)]
pub struct Projection {
    pub kind: ProjectionKind,
    pub tile_w: u32,
    pub tile_h: u32,
}

/// The local point a tile coordinate `(tx, ty)` maps to, for tile size
/// `(w, k)`, componentwise over the mathematical rationals.
pub open spec fn spec_tile_to_local(kind: ProjectionKind, w: int, k: int, tx: Rat, ty: Rat) -> (Rat, Rat) {
    match kind {
        ProjectionKind::Orthogonal => (
            Rat { num: tx.num * w, den: tx.den },
            Rat { num: ty.num * k, den: ty.den },
        ),
        ProjectionKind::Isometric => (
            Rat { num: (tx.num * ty.den + ty.num * tx.den) * w, den: 2 * (tx.den * ty.den) },
            Rat { num: (ty.num * tx.den - tx.num * ty.den) * k, den: 2 * (tx.den * ty.den) },
        ),
        ProjectionKind::Hexagonal => (
            Rat { num: (2 * (tx.num * ty.den) + ty.num * tx.den) * w, den: 2 * (tx.den * ty.den) },
            Rat { num: 3 * (ty.num * k), den: 4 * ty.den },
        ),
    }
}

/// The (fractional) tile coordinate a local point `(lx, ly)` maps back to:
/// the inverse of the linear system of [`spec_tile_to_local`].
pub open spec fn spec_local_to_tile(kind: ProjectionKind, w: int, k: int, lx: Rat, ly: Rat) -> (Rat, Rat) {
    match kind {
        ProjectionKind::Orthogonal => (
            Rat { num: lx.num, den: lx.den * w },
            Rat { num: ly.num, den: ly.den * k },
        ),
        ProjectionKind::Isometric => (
            Rat {
                num: (lx.num * ly.den) * k - (ly.num * lx.den) * w,
                den: (lx.den * w) * (ly.den * k),
            },
            Rat {
                num: (lx.num * ly.den) * k + (ly.num * lx.den) * w,
                den: (lx.den * w) * (ly.den * k),
            },
        ),
        ProjectionKind::Hexagonal => (
            Rat {
                num: lx.num * (3 * (ly.den * k)) - (2 * ly.num) * (lx.den * w),
                den: (lx.den * w) * (3 * (ly.den * k)),
            },
            Rat { num: 4 * ly.num, den: 3 * (ly.den * k) },
        ),
    }
}

impl Projection {
    /// Both tile sides are positive and small enough for exact conversion.
    pub open spec fn wf(&self) -> bool {
        &&& 1 <= self.tile_w <= MAX_TILE_DIM
        &&& 1 <= self.tile_h <= MAX_TILE_DIM
    }

    /// Build a projection, rejecting a degenerate tile size at construction.
    ///
    /// Succeeds exactly when both tile sides are in `1..=MAX_TILE_DIM`; a
    /// zero side (degenerate basis) or an oversized side is a configuration
    /// error.
    pub fn new(kind: ProjectionKind, tile_w: u32, tile_h: u32) -> (r: Result<Projection, MapError>)
        ensures
            r is Ok <==> (1 <= tile_w <= MAX_TILE_DIM && 1 <= tile_h <= MAX_TILE_DIM),
            r matches Ok(p) ==> p.kind == kind && p.tile_w == tile_w && p.tile_h == tile_h
                && p.wf(),
            r is Err ==> r == Err::<Projection, MapError>(MapError::Configuration),
    {
        if 1 <= tile_w && tile_w <= MAX_TILE_DIM && 1 <= tile_h && tile_h <= MAX_TILE_DIM {
            Ok(Projection { kind, tile_w, tile_h })
        } else {
            Err(MapError::Configuration)
        }
    }

    /// Map a (possibly fractional) tile coordinate to the local point under
    /// this projection's basis.  Exact; never fails on in-range input.
    pub fn tile_to_local(&self, tx: &Frac, ty: &Frac) -> (r: (Frac, Frac))
        requires
            self.wf(),
            in_range(tx@),
            in_range(ty@),
        ensures
            r.0@ == spec_tile_to_local(self.kind, self.tile_w as int, self.tile_h as int, tx@, ty@).0,
            r.1@ == spec_tile_to_local(self.kind, self.tile_w as int, self.tile_h as int, tx@, ty@).1,
            0 < r.0@.den <= TTL_DEN_BOUND as int,
            0 < r.1@.den <= TTL_DEN_BOUND as int,
            -(TTL_NUM_BOUND as int) <= r.0@.num <= TTL_NUM_BOUND as int,
            -(TTL_NUM_BOUND as int) <= r.1@.num <= TTL_NUM_BOUND as int,
    {
        let w: i128 = self.tile_w as i128;
        let k: i128 = self.tile_h as i128;
        match self.kind {
            ProjectionKind::Orthogonal => {
                proof {
                    lemma_abs_mul(tx@.num, w as int, NUM_LIMIT as int, MAX_TILE_DIM as int);
                    lemma_abs_mul(ty@.num, k as int, NUM_LIMIT as int, MAX_TILE_DIM as int);
                }
                (Frac { num: tx.num * w, den: tx.den }, Frac { num: ty.num * k, den: ty.den })
            }
            ProjectionKind::Isometric => {
                proof {
                    lemma_abs_mul(tx@.num, ty@.den, NUM_LIMIT as int, DEN_LIMIT as int);
                    lemma_abs_mul(ty@.num, tx@.den, NUM_LIMIT as int, DEN_LIMIT as int);
                    lemma_abs_mul(tx@.den, ty@.den, DEN_LIMIT as int, DEN_LIMIT as int);
                    lemma_pos_mul(tx@.den, ty@.den);
                }
                let ad: i128 = tx.num * ty.den;
                let cb: i128 = ty.num * tx.den;
                let bd: i128 = tx.den * ty.den;
                proof {
                    lemma_abs_mul(ad + cb, w as int,
                        2 * ((NUM_LIMIT as int) * (DEN_LIMIT as int)), MAX_TILE_DIM as int);
                    lemma_abs_mul(cb - ad, k as int,
                        2 * ((NUM_LIMIT as int) * (DEN_LIMIT as int)), MAX_TILE_DIM as int);
                }
                let nx: i128 = (ad + cb) * w;
                let ny: i128 = (cb - ad) * k;
                (Frac { num: nx, den: 2 * bd }, Frac { num: ny, den: 2 * bd })
            }
            ProjectionKind::Hexagonal => {
                proof {
                    lemma_abs_mul(tx@.num, ty@.den, NUM_LIMIT as int, DEN_LIMIT as int);
                    lemma_abs_mul(ty@.num, tx@.den, NUM_LIMIT as int, DEN_LIMIT as int);
                    lemma_abs_mul(tx@.den, ty@.den, DEN_LIMIT as int, DEN_LIMIT as int);
                    lemma_pos_mul(tx@.den, ty@.den);
                    lemma_abs_mul(ty@.num, k as int, NUM_LIMIT as int, MAX_TILE_DIM as int);
                }
                let ad: i128 = tx.num * ty.den;
                let cb: i128 = ty.num * tx.den;
                let bd: i128 = tx.den * ty.den;
                let ck: i128 = ty.num * k;
                proof {
                    lemma_abs_mul(2 * ad + cb, w as int,
                        3 * ((NUM_LIMIT as int) * (DEN_LIMIT as int)), MAX_TILE_DIM as int);
                }
                let nx: i128 = (2 * ad + cb) * w;
                (Frac { num: nx, den: 2 * bd }, Frac { num: 3 * ck, den: 4 * ty.den })
            }
        }
    }

    /// Map a local point back to the (fractional) tile coordinate it came
    /// from.  Exact; never fails on in-range input; the caller clamps or
    /// rejects coordinates outside the grid.
    pub fn local_to_tile(&self, lx: &Frac, ly: &Frac) -> (r: (Frac, Frac))
        requires
            self.wf(),
            in_range(lx@),
            in_range(ly@),
        ensures
            r.0@ == spec_local_to_tile(self.kind, self.tile_w as int, self.tile_h as int, lx@, ly@).0,
            r.1@ == spec_local_to_tile(self.kind, self.tile_w as int, self.tile_h as int, lx@, ly@).1,
            r.0@.den > 0,
            r.1@.den > 0,
    {
        self.local_to_tile_wide(lx, ly)
    }

    /// `local_to_tile` over the wider input bounds the world-to-map
    /// composition needs.
    pub(crate) fn local_to_tile_wide(&self, lx: &Frac, ly: &Frac) -> (r: (Frac, Frac))
        requires
            self.wf(),
            -(WIDE_NUM_LIMIT as int) <= lx@.num <= WIDE_NUM_LIMIT as int,
            0 < lx@.den <= WIDE_DEN_LIMIT as int,
            -(WIDE_NUM_LIMIT as int) <= ly@.num <= WIDE_NUM_LIMIT as int,
            0 < ly@.den <= WIDE_DEN_LIMIT as int,
        ensures
            r.0@ == spec_local_to_tile(self.kind, self.tile_w as int, self.tile_h as int, lx@, ly@).0,
            r.1@ == spec_local_to_tile(self.kind, self.tile_w as int, self.tile_h as int, lx@, ly@).1,
            r.0@.den > 0,
            r.1@.den > 0,
    {
        let w: i128 = self.tile_w as i128;
        let k: i128 = self.tile_h as i128;
        match self.kind {
            ProjectionKind::Orthogonal => {
                proof {
                    lemma_abs_mul(lx@.den, w as int, WIDE_DEN_LIMIT as int, MAX_TILE_DIM as int);
                    lemma_abs_mul(ly@.den, k as int, WIDE_DEN_LIMIT as int, MAX_TILE_DIM as int);
                    lemma_pos_mul(lx@.den, w as int);
                    lemma_pos_mul(ly@.den, k as int);
                }
                (Frac { num: lx.num, den: lx.den * w }, Frac { num: ly.num, den: ly.den * k })
            }
            ProjectionKind::Isometric => {
                proof {
                    lemma_abs_mul(lx@.num, ly@.den, WIDE_NUM_LIMIT as int, WIDE_DEN_LIMIT as int);
                    lemma_abs_mul(ly@.num, lx@.den, WIDE_NUM_LIMIT as int, WIDE_DEN_LIMIT as int);
                    lemma_abs_mul(
                        lx@.num * ly@.den, k as int,
                        (WIDE_NUM_LIMIT as int) * (WIDE_DEN_LIMIT as int), MAX_TILE_DIM as int);
                    lemma_abs_mul(
                        ly@.num * lx@.den, w as int,
                        (WIDE_NUM_LIMIT as int) * (WIDE_DEN_LIMIT as int), MAX_TILE_DIM as int);
                    lemma_abs_mul(lx@.den, w as int, WIDE_DEN_LIMIT as int, MAX_TILE_DIM as int);
                    lemma_abs_mul(ly@.den, k as int, WIDE_DEN_LIMIT as int, MAX_TILE_DIM as int);
                    lemma_pos_mul(lx@.den, w as int);
                    lemma_pos_mul(ly@.den, k as int);
                    lemma_abs_mul(
                        lx@.den * w, ly@.den * k,
                        (WIDE_DEN_LIMIT as int) * (MAX_TILE_DIM as int),
                        (WIDE_DEN_LIMIT as int) * (MAX_TILE_DIM as int));
                    lemma_pos_mul(lx@.den * w, ly@.den * k);
                }
                let a1: i128 = lx.num * ly.den;
                let a2: i128 = a1 * k;
                let b1: i128 = ly.num * lx.den;
                let b2: i128 = b1 * w;
                let d1: i128 = lx.den * w;
                let d2: i128 = ly.den * k;
                let dd: i128 = d1 * d2;
                (Frac { num: a2 - b2, den: dd }, Frac { num: a2 + b2, den: dd })
            }
            ProjectionKind::Hexagonal => {
                proof {
                    lemma_abs_mul(lx@.den, w as int, WIDE_DEN_LIMIT as int, MAX_TILE_DIM as int);
                    lemma_abs_mul(ly@.den, k as int, WIDE_DEN_LIMIT as int, MAX_TILE_DIM as int);
                    lemma_pos_mul(lx@.den, w as int);
                    lemma_pos_mul(ly@.den, k as int);
                    lemma_abs_mul(
                        lx@.num, 3 * (ly@.den * k),
                        WIDE_NUM_LIMIT as int, 3 * ((WIDE_DEN_LIMIT as int) * (MAX_TILE_DIM as int)));
                    lemma_abs_mul(
                        2 * ly@.num, lx@.den * w,
                        2 * (WIDE_NUM_LIMIT as int), (WIDE_DEN_LIMIT as int) * (MAX_TILE_DIM as int));
                    lemma_abs_mul(
                        lx@.den * w, 3 * (ly@.den * k),
                        (WIDE_DEN_LIMIT as int) * (MAX_TILE_DIM as int),
                        3 * ((WIDE_DEN_LIMIT as int) * (MAX_TILE_DIM as int)));
                    lemma_pos_mul(lx@.den * w, 3 * (ly@.den * k));
                }
                let d1: i128 = lx.den * w;
                let d2: i128 = ly.den * k;
                let t3: i128 = 3 * d2;
                let n1: i128 = lx.num * t3;
                let n2: i128 = (2 * ly.num) * d1;
                (Frac { num: n1 - n2, den: d1 * t3 }, Frac { num: 4 * ly.num, den: t3 })
            }
        }
    }
}

/// Law: for every projection kind, every positive tile size and every tile
/// coordinate, mapping the coordinate to a local point and back yields the
/// same coordinate — `local_to_tile` inverts `tile_to_local` exactly.
pub proof fn lemma_tile_local_round_trip(kind: ProjectionKind, w: int, k: int, tx: Rat, ty: Rat)
    requires
        1 <= w,
        1 <= k,
        tx.den > 0,
        ty.den > 0,
    ensures
        ({
            let l = spec_tile_to_local(kind, w, k, tx, ty);
            let t = spec_local_to_tile(kind, w, k, l.0, l.1);
            rat_eqv(t.0, tx) && rat_eqv(t.1, ty) && t.0.den > 0 && t.1.den > 0
        }),
{
    let a: int = tx.num;
    let b: int = tx.den;
    let c: int = ty.num;
    let d: int = ty.den;
    let l = spec_tile_to_local(kind, w, k, tx, ty);
    let t = spec_local_to_tile(kind, w, k, l.0, l.1);
    match kind {
        ProjectionKind::Orthogonal => {
            assert(((a * w) * b == a * (b * w)) && ((c * k) * d == c * (d * k))) by (nonlinear_arith);
            assert(b * w > 0 && d * k > 0) by (nonlinear_arith)
                requires b > 0, d > 0, w >= 1, k >= 1;
        }
        ProjectionKind::Isometric => {
            let p: int = a * d + c * b;
            let q: int = c * b - a * d;
            let m: int = 2 * (b * d);
            assert(l.0.num == p * w && l.0.den == m && l.1.num == q * k && l.1.den == m);
            assert(t.0.num == ((p * w) * m) * k - ((q * k) * m) * w);
            assert(t.1.num == ((p * w) * m) * k + ((q * k) * m) * w);
            assert(t.0.den == (m * w) * (m * k) && t.1.den == (m * w) * (m * k));
            let g: int = (m * w) * k;
            assert(((p * w) * m) * k == p * g) by (nonlinear_arith)
                requires g == (m * w) * k;
            assert(((q * k) * m) * w == q * g) by (nonlinear_arith)
                requires g == (m * w) * k;
            assert(p * g - q * g == (p - q) * g) by (nonlinear_arith);
            assert(p * g + q * g == (p + q) * g) by (nonlinear_arith);
            assert(p - q == 2 * (a * d) && p + q == 2 * (c * b));
            assert((2 * (a * d)) * g == a * ((2 * d) * g)) by (nonlinear_arith);
            assert((2 * (c * b)) * g == c * ((2 * b) * g)) by (nonlinear_arith);
            assert((m * w) * (m * k) == m * g) by (nonlinear_arith)
                requires g == (m * w) * k;
            assert((2 * (b * d)) * g == b * ((2 * d) * g)) by (nonlinear_arith);
            assert((2 * (b * d)) * g == d * ((2 * b) * g)) by (nonlinear_arith);
            assert((a * ((2 * d) * g)) * b == a * (b * ((2 * d) * g))) by (nonlinear_arith);
            assert((c * ((2 * b) * g)) * d == c * (d * ((2 * b) * g))) by (nonlinear_arith);
            assert((m * w) * (m * k) > 0) by (nonlinear_arith)
                requires b > 0, d > 0, w >= 1, k >= 1, m == 2 * (b * d);
        }
        ProjectionKind::Hexagonal => {
            let m: int = 2 * (b * d);
            let znum: int = 3 * ((4 * d) * k);
            assert(l.0.num == (2 * (a * d) + c * b) * w && l.0.den == m);
            assert(l.1.num == 3 * (c * k) && l.1.den == 4 * d);
            assert(t.0.num == ((2 * (a * d) + c * b) * w) * znum - (2 * (3 * (c * k))) * (m * w));
            assert(t.0.den == (m * w) * znum);
            assert(t.1.num == 4 * (3 * (c * k)) && t.1.den == znum);
            let h: int = (12 * (d * k)) * w;
            assert((2 * (a * d) + c * b) * w == (2 * (a * d)) * w + (c * b) * w) by (nonlinear_arith);
            assert(((2 * (a * d)) * w + (c * b) * w) * znum
                == ((2 * (a * d)) * w) * znum + ((c * b) * w) * znum) by (nonlinear_arith);
            assert(((2 * (a * d)) * w) * znum == (2 * (a * d)) * h) by (nonlinear_arith)
                requires znum == 3 * ((4 * d) * k), h == (12 * (d * k)) * w;
            assert(((c * b) * w) * znum == (c * b) * h) by (nonlinear_arith)
                requires znum == 3 * ((4 * d) * k), h == (12 * (d * k)) * w;
            assert((2 * (3 * (c * k))) * ((2 * (b * d)) * w) == (c * b) * h) by (nonlinear_arith)
                requires h == (12 * (d * k)) * w;
            assert(t.0.num == (2 * (a * d)) * h);
            assert((2 * (a * d)) * h == a * ((2 * d) * h)) by (nonlinear_arith);
            assert(((2 * (b * d)) * w) * znum == b * ((2 * d) * h)) by (nonlinear_arith)
                requires znum == 3 * ((4 * d) * k), h == (12 * (d * k)) * w;
            assert((a * ((2 * d) * h)) * b == a * (b * ((2 * d) * h))) by (nonlinear_arith);
            assert(4 * (3 * (c * k)) == 12 * (c * k));
            assert((12 * (c * k)) * d == c * (12 * (d * k))) by (nonlinear_arith);
            assert(3 * ((4 * d) * k) == 12 * (d * k)) by (nonlinear_arith);
            assert((m * w) * znum > 0) by (nonlinear_arith)
                requires b > 0, d > 0, w >= 1, k >= 1, m == 2 * (b * d), znum == 3 * ((4 * d) * k);
            assert(znum > 0) by (nonlinear_arith)
                requires d > 0, k >= 1, znum == 3 * ((4 * d) * k);
        }
    }
}

/// Law: the inversion holds in the other direction too — for every
/// projection kind, positive tile size and local point, solving the point
/// back to a tile coordinate and re-projecting yields the same point.
pub proof fn lemma_local_tile_round_trip(kind: ProjectionKind, w: int, k: int, lx: Rat, ly: Rat)
    requires
        1 <= w,
        1 <= k,
        lx.den > 0,
        ly.den > 0,
    ensures
        ({
            let t = spec_local_to_tile(kind, w, k, lx, ly);
            let l = spec_tile_to_local(kind, w, k, t.0, t.1);
            rat_eqv(l.0, lx) && rat_eqv(l.1, ly) && l.0.den > 0 && l.1.den > 0
        }),
{
    let e: int = lx.num;
    let f: int = lx.den;
    let g: int = ly.num;
    let h: int = ly.den;
    let t = spec_local_to_tile(kind, w, k, lx, ly);
    let l = spec_tile_to_local(kind, w, k, t.0, t.1);
    match kind {
        ProjectionKind::Orthogonal => {
            assert(((e * w) * f == e * (f * w)) && ((g * k) * h == g * (h * k))) by (nonlinear_arith);
            assert(f * w > 0 && h * k > 0) by (nonlinear_arith)
                requires f > 0, h > 0, w >= 1, k >= 1;
        }
        ProjectionKind::Isometric => {
            let aa: int = (e * h) * k;
            let bb: int = (g * f) * w;
            let dd: int = (f * w) * (h * k);
            assert(t.0.num == aa - bb && t.1.num == aa + bb && t.0.den == dd && t.1.den == dd);
            assert(l.0.num == ((aa - bb) * dd + (aa + bb) * dd) * w);
            assert(l.1.num == ((aa + bb) * dd - (aa - bb) * dd) * k);
            assert(l.0.den == 2 * (dd * dd) && l.1.den == 2 * (dd * dd));
            assert((aa - bb) * dd + (aa + bb) * dd == (2 * aa) * dd) by (nonlinear_arith);
            assert((aa + bb) * dd - (aa - bb) * dd == (2 * bb) * dd) by (nonlinear_arith);
            assert((((2 * ((e * h) * k)) * dd) * w) * f == e * (2 * (dd * ((f * w) * (h * k)))))
                by (nonlinear_arith);
            assert((((2 * ((g * f) * w)) * dd) * k) * h == g * (2 * (dd * ((f * w) * (h * k)))))
                by (nonlinear_arith);
            lemma_pos_mul(f, w);
            lemma_pos_mul(h, k);
            lemma_pos_mul(f * w, h * k);
            lemma_pos_mul(dd, dd);
        }
        ProjectionKind::Hexagonal => {
            let hk3: int = 3 * (h * k);
            let u: int = (2 * g) * (f * w);
            let qq: int = (f * w) * hk3;
            assert(t.0.num == e * hk3 - u && t.0.den == qq);
            assert(t.1.num == 4 * g && t.1.den == hk3);
            assert(l.0.num == (2 * ((e * hk3 - u) * hk3) + (4 * g) * qq) * w);
            assert(l.0.den == 2 * (qq * hk3));
            assert((e * hk3 - u) * hk3 == (e * hk3) * hk3 - u * hk3) by (nonlinear_arith);
            assert((4 * g) * qq == 2 * (u * hk3)) by (nonlinear_arith)
                requires u == (2 * g) * (f * w), qq == (f * w) * hk3;
            assert(2 * ((e * hk3 - u) * hk3) + (4 * g) * qq == 2 * ((e * hk3) * hk3));
            assert(l.0.num == (2 * ((e * hk3) * hk3)) * w);
            assert(((2 * ((e * hk3) * hk3)) * w) * f == e * (2 * (((f * w) * hk3) * hk3)))
                by (nonlinear_arith);
            assert(l.1.num == 3 * ((4 * g) * k) && l.1.den == 4 * hk3);
            assert((3 * ((4 * g) * k)) * h == g * (4 * (3 * (h * k)))) by (nonlinear_arith);
            lemma_pos_mul(h, k);
            lemma_pos_mul(f, w);
            lemma_pos_mul(f * w, hk3);
            lemma_pos_mul(qq, hk3);
        }
    }
}

} // verus!
