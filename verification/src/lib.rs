//! A verified core for a personal recycle bin: entries are moved into a
//! quarantine area together with a small metadata sidecar, from which they
//! can later be listed, restored to their original absolute path, or purged.
//!
//! The crate holds the storage and metadata engine: the on-disk layout of
//! the two trash areas, the sidecar record codec, and the decision logic of
//! the put, list, remove, restore and empty operations. Every filesystem
//! action an operation needs is returned as a plan of plain paths; the
//! surrounding program performs the actual moves and deletions and feeds
//! facts about the filesystem (existence, kind) back in as arguments.

pub mod codec;
pub mod drash;
pub mod errors;
pub mod listing;
pub mod model;
pub mod paths;
pub mod utils;
