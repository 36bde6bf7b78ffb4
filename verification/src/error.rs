//! Error taxonomy of the map core.

use vstd::prelude::*;

verus! {

/// Everything that can go wrong in the map core.
///
/// * `Configuration` — a degenerate construction request (zero tile size,
///   zero map dimension, a dimension beyond what the coordinate arithmetic
///   supports, or an empty atlas grid).  Raised at construction; a caller
///   must not proceed with a half-built map.
/// * `OutOfBounds` — a `get`/`set` outside the storage rectangle.
///   Recoverable: hit-testing routinely produces such coordinates before
///   clamping, so the caller gets a signal instead of a panic.
/// * `Encoding` — the storage is larger than the maximum texture dimension,
///   so no pixel buffer can be produced.  Surfaced at synchronization time.
#[derive(Clone, Copy, Debug, PartialEq, Eq, Structural)]
pub enum MapError {
    Configuration,
    OutOfBounds,
    Encoding,
}

impl MapError {
    /// A short human-readable description of the error.
    pub fn describe(&self) -> (r: &'static str)
        ensures
            r@.len() > 0,
    {
        let s: &'static str = match self {
            MapError::Configuration => "degenerate map configuration",
            MapError::OutOfBounds => "tile coordinate outside storage bounds",
            MapError::Encoding => "storage exceeds the maximum texture size",
        };
        proof {
            reveal_strlit("degenerate map configuration");
            reveal_strlit("tile coordinate outside storage bounds");
            reveal_strlit("storage exceeds the maximum texture size");
        }
        s
    }
}

} // verus!
