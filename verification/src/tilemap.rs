//! The map object: storage, projection configuration and texture sync,
//! with a scoped edit handle for batched mutation.
//!
//! Mutation goes through a [`MapEdit`] scope: [`TileMap::begin_edit`]
//! consumes the map (so no reader can observe a half-mutated batch and no
//! second mutator can overlap), any number of `set` calls touch only the
//! storage, and [`MapEdit::finish`] re-encodes the texture once and flags it
//! dirty — never per tile, and never skipped, so the GPU copy cannot go
//! silently stale.

use vstd::prelude::*;

use crate::codec::{spec_encode, TextureSync, MAX_TEXTURE_DIM};
use crate::error::MapError;
use crate::frac::{in_range, Frac};
use crate::projection::{Projection, MAX_TILE_DIM};
use crate::storage::{TileGridStorage, MAX_STORAGE_DIM};
use crate::transform::{
    map_to_world, spec_map_to_world, spec_world_to_map, world_to_map, WorldTransform,
};

verus! {

/// Pixel insets of the tile atlas: before the first tile, between adjacent
/// tiles, and after the last, per axis.  Threaded through to the
/// atlas-sampling side; the coordinate math here does not consume it.
#[derive(Clone, Copy, Debug, PartialEq, Eq)]
pub struct AtlasPadding {
    pub before: (u32, u32),
    pub between: (u32, u32),
    pub after: (u32, u32),
}

impl AtlasPadding {
    /// No inset anywhere.
    pub fn none() -> (r: AtlasPadding)
        ensures
            r.before.0 == 0 && r.before.1 == 0,
            r.between.0 == 0 && r.between.1 == 0,
            r.after.0 == 0 && r.after.1 == 0,
    {
        AtlasPadding { before: (0, 0), between: (0, 0), after: (0, 0) }
    }
}

/// Construction-time configuration of a map.
#[derive(Clone, Copy, Debug)]
pub struct MapConfig {
    /// Map size in tile units, fixed at construction.
    pub map_width: u32,
    pub map_height: u32,
    /// Projection kind and tile size, immutable per map.
    pub projection: Projection,
    /// Atlas insets, handed through to the sampling side.
    pub atlas_padding: AtlasPadding,
    /// Tile count of the atlas, when managed here; each side positive.
    pub tiles_in_atlas: Option<(u32, u32)>,
}

impl MapConfig {
    /// The configuration is non-degenerate.
    pub open spec fn wf(&self) -> bool {
        &&& 1 <= self.map_width <= MAX_STORAGE_DIM
        &&& 1 <= self.map_height <= MAX_STORAGE_DIM
        &&& self.projection.wf()
        &&& (self.tiles_in_atlas matches Some(t) ==> t.0 >= 1 && t.1 >= 1)
    }

    /// Runtime check of [`MapConfig::wf`].
    pub fn check(&self) -> (r: bool)
        ensures
            r == self.wf(),
    {
        1 <= self.map_width && self.map_width <= MAX_STORAGE_DIM && 1 <= self.map_height
            && self.map_height <= MAX_STORAGE_DIM && 1 <= self.projection.tile_w
            && self.projection.tile_w <= MAX_TILE_DIM && 1 <= self.projection.tile_h
            && self.projection.tile_h <= MAX_TILE_DIM && (match self.tiles_in_atlas {
            Option::Some(t) => t.0 >= 1 && t.1 >= 1,
            Option::None => true,
        })
    }
}

/// A map: a fixed-size grid of tiles, its projection configuration, and the
/// synchronized texture buffer the renderer uploads.
pub struct TileMap {
    pub config: MapConfig,
    pub storage: TileGridStorage,
    pub sync: TextureSync,
}

impl TileMap {
    /// Map invariant.  The last conjunct is the synchronization guarantee:
    /// whenever the dirty flag is clear, the staged buffer is the byte-exact
    /// encoding of the current storage.
    pub open spec fn wf(&self) -> bool {
        &&& self.config.wf()
        &&& self.storage.wf()
        &&& self.storage.width == self.config.map_width
        &&& self.storage.height == self.config.map_height
        &&& (!self.sync.dirty ==> self.sync.buffer@ == spec_encode(self.storage@))
    }

    /// The staged buffer is the exact encoding of the current storage.
    pub open spec fn synced(&self) -> bool {
        self.sync.buffer@ == spec_encode(self.storage@)
    }

    /// Build a map: allocate the grid with every cell set to `fill`, stage
    /// its first encoding and flag it for upload.
    ///
    /// Succeeds exactly when the configuration is non-degenerate.  A grid
    /// whose sides fit the maximum texture dimension starts synced; a larger
    /// one starts with an empty staging buffer and stays dirty until
    /// resized.
    pub fn new(config: MapConfig, fill: u16) -> (r: Result<TileMap, MapError>)
        ensures
            r is Ok <==> config.wf(),
            r matches Ok(m) ==> m.wf() && m.config == config && m.sync.dirty && (forall|
                x: int,
                y: int,
            | m.storage.in_bounds(x, y) ==> #[trigger] m.storage.at(x, y) == fill) && ((
            config.map_width <= MAX_TEXTURE_DIM && config.map_height <= MAX_TEXTURE_DIM)
                ==> m.synced()),
            r is Err ==> r == Err::<TileMap, MapError>(MapError::Configuration),
    {
        if !config.check() {
            return Err(MapError::Configuration);
        }
        let storage = match TileGridStorage::new(config.map_width, config.map_height, fill) {
            Ok(s) => s,
            Err(e) => {
                return Err(e);
            }
        };
        let sync = match crate::codec::encode(&storage) {
            Ok(buf) => TextureSync { dirty: true, buffer: buf },
            Err(_) => TextureSync { dirty: true, buffer: Vec::new() },
        };
        Ok(TileMap { config, storage, sync })
    }

    /// The fixed `(width, height)` of the map, in tile units.
    pub fn size(&self) -> (r: (u32, u32))
        ensures
            r.0 == self.storage.width,
            r.1 == self.storage.height,
    {
        self.storage.size()
    }

    /// Read the tile at `(x, y)`; out of bounds is a recoverable error.
    /// Read-only, so it is safe outside an edit scope.
    pub fn get(&self, x: u32, y: u32) -> (r: Result<u16, MapError>)
        requires
            self.wf(),
        ensures
            self.storage.in_bounds(x as int, y as int) ==> r == Ok::<u16, MapError>(
                self.storage.at(x as int, y as int),
            ),
            !self.storage.in_bounds(x as int, y as int) ==> r == Err::<u16, MapError>(
                MapError::OutOfBounds,
            ),
    {
        self.storage.get(x, y)
    }

    /// Convert a world point to the fractional tile coordinate under it,
    /// reading the entity's transform fresh (it may change every frame).
    pub fn world_to_map(&self, xf: &WorldTransform, px: &Frac, py: &Frac) -> (r: (Frac, Frac))
        requires
            self.wf(),
            xf.wf(),
            in_range(px@),
            in_range(py@),
        ensures
            r.0@ == spec_world_to_map(
                self.config.projection.kind,
                self.config.projection.tile_w as int,
                self.config.projection.tile_h as int,
                xf@,
                px@,
                py@,
            ).0,
            r.1@ == spec_world_to_map(
                self.config.projection.kind,
                self.config.projection.tile_w as int,
                self.config.projection.tile_h as int,
                xf@,
                px@,
                py@,
            ).1,
            r.0@.den > 0,
            r.1@.den > 0,
    {
        world_to_map(&self.config.projection, xf, px, py)
    }

    /// Convert a fractional tile coordinate to its world point under the
    /// entity's current transform.
    pub fn map_to_world(&self, xf: &WorldTransform, tx: &Frac, ty: &Frac) -> (r: (Frac, Frac))
        requires
            self.wf(),
            xf.wf(),
            in_range(tx@),
            in_range(ty@),
        ensures
            r.0@ == spec_map_to_world(
                self.config.projection.kind,
                self.config.projection.tile_w as int,
                self.config.projection.tile_h as int,
                xf@,
                tx@,
                ty@,
            ).0,
            r.1@ == spec_map_to_world(
                self.config.projection.kind,
                self.config.projection.tile_w as int,
                self.config.projection.tile_h as int,
                xf@,
                tx@,
                ty@,
            ).1,
            r.0@.den > 0,
            r.1@.den > 0,
    {
        map_to_world(&self.config.projection, xf, tx, ty)
    }

    /// Whether the GPU copy is stale relative to the staged buffer.
    pub fn is_dirty(&self) -> (r: bool)
        ensures
            r == self.sync.dirty,
    {
        self.sync.is_dirty()
    }

    /// The staged pixel buffer the renderer uploads.
    pub fn buffer(&self) -> (r: &Vec<u8>)
        ensures
            r@ == self.sync.buffer@,
    {
        &self.sync.buffer
    }

    /// Record that the staged buffer was handed off for GPU upload.  Allowed
    /// only when the buffer encodes the current storage, so a clear flag
    /// always means "the GPU sees exactly the stored tiles".
    pub fn clear_dirty(&mut self)
        requires
            old(self).wf(),
            old(self).synced(),
        ensures
            final(self).wf(),
            !final(self).sync.dirty,
            final(self).sync.buffer == old(self).sync.buffer,
            final(self).storage == old(self).storage,
            final(self).config == old(self).config,
    {
        self.sync.clear_dirty();
    }

    /// Open a mutation batch.  Consumes the map, so no read or second batch
    /// can overlap the scope; [`MapEdit::finish`] gives the map back with
    /// the texture re-encoded.
    pub fn begin_edit(self) -> (e: MapEdit)
        requires
            self.wf(),
        ensures
            e.wf(),
            e.map == self,
    {
        MapEdit { map: self }
    }
}

/// Run a mutation batch as one scoped call: open an edit scope on `map`,
/// hand it to `mutate`, and close whatever scope comes back — so however
/// many `set` calls the closure performs, and wherever it stops early, the
/// texture is re-encoded and flagged dirty exactly once, on release.
pub fn with_map_indexer<F: FnOnce(MapEdit) -> MapEdit>(map: TileMap, mutate: F) -> (m: TileMap)
    requires
        map.wf(),
        mutate.requires(((MapEdit { map }),)),
        forall|r: MapEdit| #[trigger] mutate.ensures(((MapEdit { map }),), r) ==> r.wf(),
    ensures
        m.wf(),
        m.sync.dirty,
        exists|r: MapEdit|
            #[trigger] mutate.ensures(((MapEdit { map }),), r) && m.config == r.map.config
                && m.storage == r.map.storage && ((m.storage.width <= MAX_TEXTURE_DIM
                && m.storage.height <= MAX_TEXTURE_DIM) ==> m.synced()),
{
    let e = map.begin_edit();
    let r = mutate(e);
    r.finish()
}

/// Scoped mutation handle over a map's tile storage.
///
/// Any number of `set` calls touch storage only — no re-encode per tile.
/// `finish` closes the batch: it re-encodes the texture exactly once and
/// sets the dirty flag, whether or not anything was written, so a batch can
/// never leave a silently stale texture.
pub struct MapEdit {
    pub map: TileMap,
}

impl MapEdit {
    /// Mid-scope invariant: the storage is intact, but the staging buffer
    /// may be stale — deliberately no synchronization claim until `finish`.
    pub open spec fn wf(&self) -> bool {
        &&& self.map.config.wf()
        &&& self.map.storage.wf()
        &&& self.map.storage.width == self.map.config.map_width
        &&& self.map.storage.height == self.map.config.map_height
    }

    /// The fixed `(width, height)` of the map, in tile units.
    pub fn size(&self) -> (r: (u32, u32))
        ensures
            r.0 == self.map.storage.width,
            r.1 == self.map.storage.height,
    {
        self.map.storage.size()
    }

    /// Read the tile at `(x, y)`; out of bounds is a recoverable error.
    pub fn get(&self, x: u32, y: u32) -> (r: Result<u16, MapError>)
        requires
            self.wf(),
        ensures
            self.map.storage.in_bounds(x as int, y as int) ==> r == Ok::<u16, MapError>(
                self.map.storage.at(x as int, y as int),
            ),
            !self.map.storage.in_bounds(x as int, y as int) ==> r == Err::<u16, MapError>(
                MapError::OutOfBounds,
            ),
    {
        self.map.storage.get(x, y)
    }

    /// Write the tile at `(x, y)`.  In bounds, exactly that cell changes and
    /// nothing else — in particular the staging buffer and dirty flag are
    /// untouched until the batch closes.  Out of bounds, nothing changes and
    /// the out-of-bounds error is returned.
    pub fn set(&mut self, x: u32, y: u32, value: u16) -> (r: Result<(), MapError>)
        requires
            old(self).wf(),
        ensures
            final(self).wf(),
            final(self).map.config == old(self).map.config,
            final(self).map.sync == old(self).map.sync,
            final(self).map.storage.width == old(self).map.storage.width,
            final(self).map.storage.height == old(self).map.storage.height,
            old(self).map.storage.in_bounds(x as int, y as int) ==> r == Ok::<(), MapError>(())
                && final(self).map.storage@ == old(self).map.storage@.update(
                y * (old(self).map.storage.width as int) + x,
                value,
            ),
            !old(self).map.storage.in_bounds(x as int, y as int) ==> r == Err::<(), MapError>(
                MapError::OutOfBounds,
            ) && final(self).map.storage@ == old(self).map.storage@,
    {
        self.map.storage.set(x, y, value)
    }

    /// Close the batch: re-encode the texture from the final storage state
    /// and set the dirty flag — exactly once, however many `set` calls the
    /// scope performed, and also when it performed none or failed midway.
    ///
    /// A grid within the maximum texture dimension comes back synced; a
    /// larger one keeps its stale buffer but is still flagged dirty, so the
    /// failure cannot pass silently.
    pub fn finish(self) -> (m: TileMap)
        requires
            self.wf(),
        ensures
            m.wf(),
            m.sync.dirty,
            m.config == self.map.config,
            m.storage == self.map.storage,
            (m.storage.width <= MAX_TEXTURE_DIM && m.storage.height <= MAX_TEXTURE_DIM)
                ==> m.synced(),
    {
        let mut map = self.map;
        match map.sync.refresh(&map.storage) {
            Ok(()) => {
            }
            Err(_) => {
                map.sync.mark_dirty();
            }
        }
        map
    }
}

} // verus!
