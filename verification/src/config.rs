use vstd::prelude::*;

verus! {

/// The policy governing whether normalized grids are persisted between runs.
#[derive(Clone, Debug)]
pub enum CacheStrategy {
    /// Normalized grids are stored as artifacts under the given backing
    /// location, keyed by a hash of the source path, and reused across runs.
    Disk(String),
    /// Every access decodes and normalizes afresh; nothing is persisted.
    InMemory,
}

} // verus!
