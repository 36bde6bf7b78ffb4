//! Dense tile-grid storage.
//!
//! A [`TileGridStorage`] is a fixed-size rectangle of 16-bit tile indices in
//! row-major order (`index = y * width + x`); the texture encoder depends on
//! that linearization.  Index 0 is the background sentinel for cells inside
//! the rectangle but outside the logical map.  Out-of-bounds access is a
//! recoverable error, never a panic: hit-testing routinely lands outside the
//! grid.

use vstd::prelude::*;

use crate::error::MapError;
use crate::frac::lemma_abs_mul;

verus! {

/// Largest storage side length (2^15): keeps the tile count and the encoded
/// byte count inside a 32-bit address space.
pub const MAX_STORAGE_DIM: u32 = 0x8000;

/// A row-major index is inside the flattened grid.
pub proof fn lemma_row_index(x: int, y: int, w: int, h: int)
    by (nonlinear_arith)
    requires
        0 <= x < w,
        0 <= y < h,
    ensures
        0 <= y * w + x < w * h,
        0 <= y * w,
{
}

/// Dense 2D grid of tile indices with a fixed size.
///
/// The fields are public so that contracts can speak about them directly;
/// build values with [`TileGridStorage::new`] or
/// [`TileGridStorage::from_tiles`], which establish [`TileGridStorage::wf`].
pub struct TileGridStorage {
    pub width: u32,
    pub height: u32,
    pub tiles: Vec<u16>,
}

impl View for TileGridStorage {
    type V = Seq<u16>;

    open spec fn view(&self) -> Seq<u16> {
        self.tiles@
    }
}

impl TileGridStorage {
    /// Size invariant: positive bounded sides and exactly `width * height`
    /// stored tiles.
    pub open spec fn wf(&self) -> bool {
        &&& 1 <= self.width <= MAX_STORAGE_DIM
        &&& 1 <= self.height <= MAX_STORAGE_DIM
        &&& self@.len() == self.width * self.height
    }

    /// The coordinate is inside the storage rectangle.
    pub open spec fn in_bounds(&self, x: int, y: int) -> bool {
        0 <= x < self.width && 0 <= y < self.height
    }

    /// The tile stored at `(x, y)` (row-major).
    pub open spec fn at(&self, x: int, y: int) -> u16 {
        self@[y * (self.width as int) + x]
    }

    /// Allocate a `width x height` grid with every cell set to `fill`.
    ///
    /// Succeeds exactly when both sides are in `1..=MAX_STORAGE_DIM`; a zero
    /// or oversized dimension is a configuration error.  On success every
    /// in-bounds cell reads back `fill`.
    pub fn new(width: u32, height: u32, fill: u16) -> (r: Result<TileGridStorage, MapError>)
        ensures
            r is Ok <==> (1 <= width <= MAX_STORAGE_DIM && 1 <= height <= MAX_STORAGE_DIM),
            r matches Ok(s) ==> s.wf() && s.width == width && s.height == height
                && (forall|x: int, y: int| s.in_bounds(x, y) ==> #[trigger] s.at(x, y) == fill)
                && (forall|i: int| 0 <= i < s@.len() ==> s@[i] == fill),
            r is Err ==> r == Err::<TileGridStorage, MapError>(MapError::Configuration),
    {
        if 1 <= width && width <= MAX_STORAGE_DIM && 1 <= height && height <= MAX_STORAGE_DIM {
            proof {
                lemma_abs_mul(width as int, height as int,
                    MAX_STORAGE_DIM as int, MAX_STORAGE_DIM as int);
                lemma_row_index(0, (height - 1) as int, width as int, height as int);
            }
            let n: usize = (width as usize) * (height as usize);
            let mut tiles: Vec<u16> = Vec::new();
            let mut i: usize = 0;
            while i < n
                invariant
                    i <= n,
                    tiles@.len() == i,
                    forall|j: int| 0 <= j < i ==> tiles@[j] == fill,
                decreases n - i,
            {
                tiles.push(fill);
                i = i + 1;
            }
            let s = TileGridStorage { width, height, tiles };
            proof {
                assert forall|x: int, y: int| s.in_bounds(x, y) implies #[trigger] s.at(x, y)
                    == fill by {
                    lemma_row_index(x, y, width as int, height as int);
                }
            }
            Ok(s)
        } else {
            Err(MapError::Configuration)
        }
    }

    /// Build a grid from an already-filled row-major tile vector.
    ///
    /// Succeeds exactly when the sides are in range and the vector holds
    /// exactly `width * height` tiles.
    pub fn from_tiles(width: u32, height: u32, tiles: Vec<u16>) -> (r: Result<
        TileGridStorage,
        MapError,
    >)
        ensures
            r is Ok <==> (1 <= width <= MAX_STORAGE_DIM && 1 <= height <= MAX_STORAGE_DIM
                && tiles@.len() == width * height),
            r matches Ok(s) ==> s.wf() && s.width == width && s.height == height && s@ == tiles@,
            r is Err ==> r == Err::<TileGridStorage, MapError>(MapError::Configuration),
    {
        if 1 <= width && width <= MAX_STORAGE_DIM && 1 <= height && height <= MAX_STORAGE_DIM {
            proof {
                lemma_abs_mul(width as int, height as int,
                    MAX_STORAGE_DIM as int, MAX_STORAGE_DIM as int);
            }
            let n: usize = (width as usize) * (height as usize);
            if tiles.len() == n {
                Ok(TileGridStorage { width, height, tiles })
            } else {
                Err(MapError::Configuration)
            }
        } else {
            Err(MapError::Configuration)
        }
    }

    /// Read the tile at `(x, y)`.
    ///
    /// Returns the stored index when the coordinate is in bounds, and the
    /// out-of-bounds error otherwise — never a panic.
    pub fn get(&self, x: u32, y: u32) -> (r: Result<u16, MapError>)
        requires
            self.wf(),
        ensures
            self.in_bounds(x as int, y as int) ==> r == Ok::<u16, MapError>(
                self.at(x as int, y as int),
            ),
            !self.in_bounds(x as int, y as int) ==> r == Err::<u16, MapError>(
                MapError::OutOfBounds,
            ),
    {
        if x < self.width && y < self.height {
            proof {
                lemma_row_index(x as int, y as int, self.width as int, self.height as int);
                lemma_abs_mul(self.width as int, self.height as int,
                    MAX_STORAGE_DIM as int, MAX_STORAGE_DIM as int);
            }
            let idx: usize = (y as usize) * (self.width as usize) + (x as usize);
            Ok(self.tiles[idx])
        } else {
            Err(MapError::OutOfBounds)
        }
    }

    /// Write the tile at `(x, y)`.
    ///
    /// In bounds, exactly that cell changes; out of bounds, the storage is
    /// left untouched and the out-of-bounds error is returned.  The change is
    /// storage-only: pushing it to the texture is the edit scope's job.
    pub fn set(&mut self, x: u32, y: u32, value: u16) -> (r: Result<(), MapError>)
        requires
            old(self).wf(),
        ensures
            final(self).wf(),
            final(self).width == old(self).width,
            final(self).height == old(self).height,
            old(self).in_bounds(x as int, y as int) ==> r == Ok::<(), MapError>(())
                && final(self)@ == old(self)@.update(y * (old(self).width as int) + x, value),
            !old(self).in_bounds(x as int, y as int) ==> r == Err::<(), MapError>(
                MapError::OutOfBounds,
            ) && final(self)@ == old(self)@,
    {
        if x < self.width && y < self.height {
            proof {
                lemma_row_index(x as int, y as int, self.width as int, self.height as int);
                lemma_abs_mul(self.width as int, self.height as int,
                    MAX_STORAGE_DIM as int, MAX_STORAGE_DIM as int);
            }
            let idx: usize = (y as usize) * (self.width as usize) + (x as usize);
            self.tiles.set(idx, value);
            Ok(())
        } else {
            Err(MapError::OutOfBounds)
        }
    }

    /// The fixed `(width, height)` of the grid, in tile units.
    pub fn size(&self) -> (r: (u32, u32))
        ensures
            r.0 == self.width,
            r.1 == self.height,
    {
        (self.width, self.height)
    }
}

} // verus!
