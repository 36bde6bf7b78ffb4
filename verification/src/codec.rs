//! Texture synchronization: encoding the tile grid into a GPU pixel buffer.
//!
//! One tile becomes one 16-bit texel, little-endian, so the texel's numeric
//! value is bit-identical to the tile index (no lossy compression).  The
//! whole grid is re-encoded whenever any tile changes — a deliberate
//! simplicity tradeoff: upload cost is `O(width * height)` regardless of how
//! many tiles changed, so callers batch mutations through an edit scope
//! instead of syncing per tile.

use vstd::prelude::*;

use crate::error::MapError;
use crate::storage::TileGridStorage;

verus! {

/// Largest texture side length the encoder accepts: a common GPU limit on
/// texture dimensions.
pub const MAX_TEXTURE_DIM: u32 = 0x4000;

/// The pixel-buffer encoding of a tile sequence: for each tile, its low byte
/// then its high byte.
pub open spec fn spec_encode(tiles: Seq<u16>) -> Seq<u8> {
    Seq::new(
        (2 * tiles.len()) as nat,
        |i: int|
            if i % 2 == 0 {
                (tiles[i / 2] & 0xff) as u8
            } else {
                (tiles[i / 2] >> 8) as u8
            },
    )
}

/// Law: encoding is a function of the stored tiles alone, so encoding the
/// same contents twice — or two grids with equal contents — produces
/// byte-identical pixel buffers.
pub proof fn lemma_encode_deterministic(a: Seq<u16>, b: Seq<u16>)
    requires
        a == b,
    ensures
        spec_encode(a) == spec_encode(b),
{
}

/// Law: each texel is bit-identical to its tile index — the low byte plus
/// 256 times the high byte reassembles the stored 16-bit value exactly.
pub proof fn lemma_texel_exact(tiles: Seq<u16>, i: int)
    requires
        0 <= i < tiles.len(),
    ensures
        spec_encode(tiles)[2 * i] + 256 * spec_encode(tiles)[2 * i + 1] == tiles[i],
{
    let t = tiles[i];
    assert(t & 0xff == t % 256) by (bit_vector);
    assert(t >> 8 == t / 256) by (bit_vector);
    assert(spec_encode(tiles)[2 * i] == (t & 0xff) as u8);
    assert(spec_encode(tiles)[2 * i + 1] == (t >> 8) as u8);
}

/// Serialize the grid into the pixel buffer the shader samples.
///
/// A deterministic, total function of the stored tiles: succeeds exactly
/// when both sides fit the maximum texture dimension, and then returns the
/// byte-exact encoding.  An oversized grid is reported as an encoding
/// failure, never silently truncated.
pub fn encode(storage: &TileGridStorage) -> (r: Result<Vec<u8>, MapError>)
    requires
        storage.wf(),
    ensures
        r is Ok <==> (storage.width <= MAX_TEXTURE_DIM && storage.height <= MAX_TEXTURE_DIM),
        r matches Ok(buf) ==> buf@ == spec_encode(storage@),
        r is Err ==> r == Err::<Vec<u8>, MapError>(MapError::Encoding),
{
    if storage.width <= MAX_TEXTURE_DIM && storage.height <= MAX_TEXTURE_DIM {
        proof {
            crate::frac::lemma_abs_mul(storage.width as int, storage.height as int,
                crate::storage::MAX_STORAGE_DIM as int, crate::storage::MAX_STORAGE_DIM as int);
        }
        let n: usize = storage.tiles.len();
        let mut buf: Vec<u8> = Vec::new();
        let mut i: usize = 0;
        while i < n
            invariant
                i <= n,
                n == storage@.len(),
                n <= 0x4000_0000,
                buf@.len() == 2 * i,
                forall|j: int|
                    0 <= j < i ==> buf@[2 * j] == (storage@[j] & 0xff) as u8 && buf@[2 * j + 1]
                        == (storage@[j] >> 8) as u8,
            decreases n - i,
        {
            let t: u16 = storage.tiles[i];
            buf.push((t & 0xff) as u8);
            buf.push((t >> 8) as u8);
            i = i + 1;
        }
        proof {
            assert forall|idx: int| 0 <= idx < 2 * storage@.len() implies buf@[idx] == spec_encode(
                storage@,
            )[idx] by {
                let j: int = idx / 2;
                if idx % 2 == 0 {
                    assert(idx == 2 * j);
                } else {
                    assert(idx == 2 * j + 1);
                }
            }
            assert(buf@ =~= spec_encode(storage@));
        }
        Ok(buf)
    } else {
        Err(MapError::Encoding)
    }
}

/// The dirty flag and the CPU-side staging copy of the GPU texture.
///
/// Invariant maintained by [`crate::tilemap::TileMap`]: whenever `dirty` is
/// false, `buffer` is the byte-exact encoding of the current tile storage.
pub struct TextureSync {
    pub dirty: bool,
    pub buffer: Vec<u8>,
}

impl TextureSync {
    /// Flag the GPU copy as stale, requesting an upload.
    pub fn mark_dirty(&mut self)
        ensures
            final(self).dirty,
            final(self).buffer == old(self).buffer,
    {
        self.dirty = true;
    }

    /// Record that the staged buffer was handed off for GPU upload.
    pub fn clear_dirty(&mut self)
        ensures
            !final(self).dirty,
            final(self).buffer == old(self).buffer,
    {
        self.dirty = false;
    }

    /// Whether the GPU copy is stale relative to the staged buffer.
    pub fn is_dirty(&self) -> (r: bool)
        ensures
            r == self.dirty,
    {
        self.dirty
    }

    /// Re-encode the whole grid into the staging buffer and flag it for
    /// upload.  Fails, leaving the synchronizer untouched, exactly when the
    /// grid exceeds the maximum texture dimension.
    pub fn refresh(&mut self, storage: &TileGridStorage) -> (r: Result<(), MapError>)
        requires
            storage.wf(),
        ensures
            r is Ok <==> (storage.width <= MAX_TEXTURE_DIM && storage.height <= MAX_TEXTURE_DIM),
            r is Ok ==> final(self).buffer@ == spec_encode(storage@) && final(self).dirty,
            r is Err ==> r == Err::<(), MapError>(MapError::Encoding) && *final(self) == *old(self),
    {
        match encode(storage) {
            Ok(buf) => {
                self.buffer = buf;
                self.dirty = true;
                Ok(())
            }
            Err(e) => Err(e),
        }
    }
}

} // verus!
