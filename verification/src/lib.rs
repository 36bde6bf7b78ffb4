//! Coordinate and storage core for a tile map that is rendered from a single
//! index texture.
//!
//! A map is a dense rectangular grid of 16-bit tile indices.  Instead of
//! spawning geometry per tile, the grid is encoded into a pixel buffer (one
//! texel per tile) that a shader samples.  This crate provides the pieces that
//! make that scheme work and proves their contracts:
//!
//! * [`projection`] — pure, mutually inverse conversions between tile-grid
//!   coordinates and local (unscaled, unrotated) planar coordinates, for
//!   orthogonal, isometric and hexagonal layouts.
//! * [`storage`] — the dense row-major grid of tile indices with checked
//!   access.
//! * [`codec`] — the deterministic encoding of the grid into a pixel buffer,
//!   and the dirty flag that tracks whether the GPU copy is stale.
//! * [`transform`] — composition of a projection with a map's world transform
//!   (translation, quarter-turn rotation, non-uniform scale).
//! * [`tilemap`] — the map object tying the pieces together, with a scoped
//!   edit handle that re-encodes the texture exactly once per mutation batch.
//!
//! All coordinates are exact rationals ([`frac::Frac`]), so the conversions
//! are exact affine transforms and the round-trip laws hold with equality
//! rather than within a floating-point tolerance.

pub mod error;
pub mod frac;
pub mod projection;
pub mod codec;
pub mod storage;
pub mod tilemap;
pub mod transform;
