use vstd::prelude::*;

verus! {

/// Number of recent headers that fee history is served for.
pub const MAX_HEADER_HISTORY: u64 = 1024;

/// Settings for the fee history cache.
#[derive(Clone, Copy, Debug, PartialEq, Eq)]
pub struct FeeHistoryCacheConfig {
    /// Most blocks held in the cache: the served history plus some slack for
    /// slightly older blocks.
    pub max_blocks: u64,
    /// Percentile approximation resolution: 4 means steps of 0.25.
    pub resolution: u64,
}

impl Default for FeeHistoryCacheConfig {
    fn default() -> (r: Self)
        ensures
            r.max_blocks == MAX_HEADER_HISTORY + 100,
            r.resolution == 4,
    {
        FeeHistoryCacheConfig { max_blocks: MAX_HEADER_HISTORY + 100, resolution: 4 }
    }
}

} // verus!
