//! How the node mines: on its own or on request, at which pace, and in which
//! order it takes transactions from the pool.

use vstd::prelude::*;
use crate::interval::IntervalConfig;

verus! {

/// The order in which pending transactions enter a block.
#[derive(Clone, Copy, Debug, PartialEq, Eq)]
pub enum MineOrdering {
    /// In the order in which the pool received them.
    Fifo,
    /// By the fee they offer, highest first.
    Priority,
}

/// Configuration for the provider's mempool.
#[derive(Clone, Copy, Debug, PartialEq, Eq)]
pub struct MemPoolConfig {
    pub order: MineOrdering,
}

/// Configuration for the provider's miner.
///
/// With `auto_mine` off the miner works on request only. With it on and no
/// `interval`, it mines as soon as there is work; with an `interval`, it
/// waits between blocks for as long as the interval says, asking anew each
/// time.
#[derive(Clone, Copy, Debug, PartialEq, Eq)]
pub struct MiningConfig {
    pub auto_mine: bool,
    pub interval: Option<IntervalConfig>,
    pub mem_pool: MemPoolConfig,
}

impl MemPoolConfig {
    /// The pool's configuration when none is chosen: by priority.
    pub open spec fn initial() -> MemPoolConfig {
        MemPoolConfig { order: MineOrdering::Priority }
    }
}

impl Default for MemPoolConfig {
    /// Orders by priority.
    fn default() -> (config: MemPoolConfig)
        ensures
            config == MemPoolConfig::initial(),
    {
        MemPoolConfig { order: MineOrdering::Priority }
    }
}

impl Default for MiningConfig {
    /// Mines on its own, as fast as work arrives, from a pool in its initial
    /// configuration.
    fn default() -> (config: MiningConfig)
        ensures
            config.auto_mine,
            config.interval is None,
            config.mem_pool == MemPoolConfig::initial(),
    {
        MiningConfig { auto_mine: true, interval: None, mem_pool: MemPoolConfig::default() }
    }
}

} // verus!
