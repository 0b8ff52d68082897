//! Settings for the background rebuild scheduler.

use vstd::prelude::*;

verus! {

pub struct IndexerRunnerConfig {
    /// The page size used when fetching a corpus from the store.
    pub batch_size: u64,
    /// Seconds between rebuild passes.
    pub interval: u64,
    /// Whether startup should block until the first pass completes.
    pub wait_until_index: bool,
}

impl IndexerRunnerConfig {
    pub fn new(batch_size: u64, interval: u64, wait_until_index: bool) -> (c: IndexerRunnerConfig)
        ensures
            c == (IndexerRunnerConfig { batch_size, interval, wait_until_index }),
    {
        IndexerRunnerConfig { batch_size, interval, wait_until_index }
    }

    pub fn batch_size(&self) -> (r: u64)
        ensures
            r == self.batch_size,
    {
        self.batch_size
    }

    pub fn interval(&self) -> (r: u64)
        ensures
            r == self.interval,
    {
        self.interval
    }

    pub fn wait_until_index(&self) -> (r: bool)
        ensures
            r == self.wait_until_index,
    {
        self.wait_until_index
    }
}

} // verus!
