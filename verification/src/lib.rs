//! Nearest-biome search over a chunked, lazily generated world.

pub mod biome;
pub mod biome_set;
pub mod error;
pub mod geometry;
pub mod nearest;
pub mod ranking;
pub mod region;
pub mod scan;
pub mod search;
pub mod stitch;
