//! Exact rational coordinates.
//!
//! Every coordinate in this crate — a tile-grid coordinate, a local map-space
//! point, a world-space point, a scale factor — is an exact rational number: a
//! 128-bit numerator over a positive 128-bit denominator.  The mathematical
//! model of a [`Frac`] is a [`Rat`], the same pair over unbounded integers.
//! Two rationals are the same coordinate when they are equivalent under
//! cross-multiplication ([`rat_eqv`]), not only when they are identical pairs.
//!
//! The conversions in this crate multiply numerators and denominators without
//! reducing, so public functions bound their rational inputs ([`in_range`])
//! tightly enough that every intermediate product in the longest conversion
//! chain fits in an `i128`.

use vstd::prelude::*;

verus! {

/// Largest numerator magnitude a coordinate handed to the conversion
/// functions may have (2^44).
pub const NUM_LIMIT: i64 = 0x1000_0000_0000;

/// Largest denominator a coordinate handed to the conversion functions may
/// have (2^12): coordinates carry at most this fixed-point-like precision.
pub const DEN_LIMIT: i64 = 0x1000;

/// Mathematical model of a rational number: an unbounded numerator over an
/// unbounded denominator.  Meaningful when `den > 0`.
pub struct Rat {
    pub num: int,
    pub den: int,
}

/// An exact rational number, the coordinate type of the map core.
///
/// Invariant of every value this crate produces: `den > 0`.
#[derive(Clone, Copy, Debug)]
pub struct Frac {
    pub num: i128,
    pub den: i128,
}

impl View for Frac {
    type V = Rat;

    open spec fn view(&self) -> Rat {
        Rat { num: self.num as int, den: self.den as int }
    }
}

/// The rationals `a` and `b` denote the same number (cross-multiplication,
/// meaningful when both denominators are positive).
pub open spec fn rat_eqv(a: Rat, b: Rat) -> bool {
    a.num * b.den == b.num * a.den
}

/// The rational `a` is an acceptable input to the conversion functions: its
/// numerator and denominator are small enough that every intermediate product
/// of the longest conversion chain fits in an `i128`.
pub open spec fn in_range(a: Rat) -> bool {
    &&& -(NUM_LIMIT as int) <= a.num <= NUM_LIMIT as int
    &&& 0 < a.den <= DEN_LIMIT as int
}

/// The whole number `n` as a rational.
pub open spec fn rat_int(n: int) -> Rat {
    Rat { num: n, den: 1 }
}

/// Exact rational addition (denominators multiply; nothing is reduced).
pub open spec fn rat_add(a: Rat, b: Rat) -> Rat {
    Rat { num: a.num * b.den + b.num * a.den, den: a.den * b.den }
}

/// Exact rational subtraction.
pub open spec fn rat_sub(a: Rat, b: Rat) -> Rat {
    Rat { num: a.num * b.den - b.num * a.den, den: a.den * b.den }
}

/// Exact rational multiplication.
pub open spec fn rat_mul(a: Rat, b: Rat) -> Rat {
    Rat { num: a.num * b.num, den: a.den * b.den }
}

/// Exact rational division, with the sign moved into the numerator so that
/// the denominator stays positive.  Meaningful when `b.num != 0`.
pub open spec fn rat_div(a: Rat, b: Rat) -> Rat {
    if b.num >= 0 {
        Rat { num: a.num * b.den, den: a.den * b.num }
    } else {
        Rat { num: -(a.num * b.den), den: -(a.den * b.num) }
    }
}

/// Exact rational negation.
pub open spec fn rat_neg(a: Rat) -> Rat {
    Rat { num: -a.num, den: a.den }
}

/// A product is bounded by the product of the factors' bounds.
pub proof fn lemma_abs_mul(x: int, y: int, bx: int, by: int)
    by (nonlinear_arith)
    requires
        -bx <= x <= bx,
        -by <= y <= by,
        0 <= bx,
        0 <= by,
    ensures
        -(bx * by) <= x * y <= bx * by,
{
}

/// A product of positive numbers is positive.
pub proof fn lemma_pos_mul(x: int, y: int)
    by (nonlinear_arith)
    requires
        x > 0,
        y > 0,
    ensures
        x * y > 0,
{
}

impl Frac {
    /// Build a coordinate from a numerator and a positive denominator.
    ///
    /// Succeeds exactly when the pair is within the bounds the conversion
    /// functions accept; a zero or negative denominator, a denominator above
    /// [`DEN_LIMIT`] or a numerator beyond [`NUM_LIMIT`] in magnitude is a
    /// configuration error.
    pub fn new(num: i64, den: i64) -> (r: Result<Frac, crate::error::MapError>)
        ensures
            r is Ok <==> (-NUM_LIMIT <= num <= NUM_LIMIT && 0 < den <= DEN_LIMIT),
            r matches Ok(f) ==> f@.num == num as int && f@.den == den as int && in_range(f@),
            r is Err ==> r == Err::<Frac, crate::error::MapError>(crate::error::MapError::Configuration),
    {
        if -NUM_LIMIT <= num && num <= NUM_LIMIT && 0 < den && den <= DEN_LIMIT {
            Ok(Frac { num: num as i128, den: den as i128 })
        } else {
            Err(crate::error::MapError::Configuration)
        }
    }

    /// The whole number `n` as a coordinate.
    pub fn from_int(n: i32) -> (r: Frac)
        ensures
            r@ == rat_int(n as int),
            in_range(r@),
    {
        Frac { num: n as i128, den: 1 }
    }

    /// Whether `self` and `other` denote the same rational number.
    ///
    /// The bounds keep the two cross products inside `i128`; every value the
    /// conversion entry points accept satisfies them.
    pub fn same_value(&self, other: &Frac) -> (r: bool)
        requires
            -0x7FFF_FFFF_FFFF_FFFF <= self@.num <= 0x7FFF_FFFF_FFFF_FFFF,
            0 < self@.den <= 0x7FFF_FFFF_FFFF_FFFF,
            -0x7FFF_FFFF_FFFF_FFFF <= other@.num <= 0x7FFF_FFFF_FFFF_FFFF,
            0 < other@.den <= 0x7FFF_FFFF_FFFF_FFFF,
        ensures
            r == rat_eqv(self@, other@),
    {
        proof {
            lemma_abs_mul(self@.num, other@.den, 0x7FFF_FFFF_FFFF_FFFF, 0x7FFF_FFFF_FFFF_FFFF);
            lemma_abs_mul(other@.num, self@.den, 0x7FFF_FFFF_FFFF_FFFF, 0x7FFF_FFFF_FFFF_FFFF);
        }
        self.num * other.den == other.num * self.den
    }
}

} // verus!
