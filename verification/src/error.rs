//! The failures that end a search.

use crate::geometry::Coord;
use vstd::prelude::*;

verus! {

/// Why a search was given up. Every failure is final: nothing is retried, and
/// no partial answer is given.
#[derive(Clone, Copy, Debug, PartialEq, Eq, Structural)]
pub enum SearchError {
    /// The stored form of a region exists but could not be read.
    RegionUnreadable { region: Coord },
    /// A chunk column of a region could not be decoded.
    CorruptChunk { region: Coord },
    /// A chunk column holds a biome identifier that names no biome.
    UnknownBiomeId { id: i32, chunk_x: i32, chunk_z: i32 },
    /// The prediction for a block column gave a name that names no biome.
    UnknownBiomeName { at: Coord },
    /// The prediction for a block column failed.
    PredictionFailed { at: Coord },
}

} // verus!
