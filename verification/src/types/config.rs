//! The part of the rollup configuration that the batcher reads.

use vstd::prelude::*;

verus! {

/// The max RLP bytes per channel before the Fjord hardfork.
pub const MAX_RLP_BYTES_PER_CHANNEL: u64 = 10_000_000;

/// The max RLP bytes per channel once the Fjord hardfork is active.
pub const FJORD_MAX_RLP_BYTES_PER_CHANNEL: u64 = 100_000_000;

/// The rollup chain configuration, as far as the batcher reads it.
#[derive(Debug, Clone, Copy, PartialEq, Eq, Default)]
pub struct RollupConfig {
    /// The number of L1 blocks after which an open channel times out.
    pub channel_timeout: u64,
    /// Activation timestamp of the Ecotone hardfork, if scheduled.
    pub ecotone_time: Option<u64>,
    /// Activation timestamp of the Fjord hardfork, if scheduled.
    pub fjord_time: Option<u64>,
    /// Activation timestamp of the Granite hardfork, if scheduled.
    pub granite_time: Option<u64>,
    /// Activation timestamp of the Holocene hardfork, if scheduled.
    pub holocene_time: Option<u64>,
}

/// Whether a hardfork scheduled at `activation` is active at `timestamp`.
pub open spec fn fork_active(activation: Option<u64>, timestamp: u64) -> bool {
    activation matches Some(t) && t <= timestamp
}

/// Returns whether a hardfork scheduled at `activation` is active at `timestamp`.
fn is_active(activation: Option<u64>, timestamp: u64) -> (r: bool)
    ensures
        r == fork_active(activation, timestamp),
{
    match activation {
        Some(t) => t <= timestamp,
        None => false,
    }
}

impl RollupConfig {
    /// A configuration with no hardfork scheduled and no channel timeout.
    pub fn new() -> (c: RollupConfig)
        ensures
            c == RollupConfig::new_spec(),
    {
        RollupConfig {
            channel_timeout: 0,
            ecotone_time: None,
            fjord_time: None,
            granite_time: None,
            holocene_time: None,
        }
    }

    /// The configuration that [RollupConfig::new] returns.
    pub open spec fn new_spec() -> RollupConfig {
        RollupConfig {
            channel_timeout: 0,
            ecotone_time: None,
            fjord_time: None,
            granite_time: None,
            holocene_time: None,
        }
    }

    /// Fjord is active at `timestamp`: Fjord, or one of the later forks that
    /// include it (Granite, Holocene), has activated.
    pub open spec fn is_fjord_active(self, timestamp: u64) -> bool {
        ||| fork_active(self.fjord_time, timestamp)
        ||| fork_active(self.granite_time, timestamp)
        ||| fork_active(self.holocene_time, timestamp)
    }

    /// Ecotone is active at `timestamp`: Ecotone, or Fjord (which includes it),
    /// has activated.
    pub open spec fn is_ecotone_active(self, timestamp: u64) -> bool {
        fork_active(self.ecotone_time, timestamp) || self.is_fjord_active(timestamp)
    }

    /// L2 blocks with timestamp `timestamp` carry L1 info in the Ecotone
    /// format: Ecotone is active and the block is not Ecotone's activation
    /// block (whose L1 info still uses the Bedrock format).
    pub open spec fn uses_ecotone_l1_info(self, timestamp: u64) -> bool {
        self.is_ecotone_active(timestamp) && match self.ecotone_time {
            Some(t) => t != timestamp,
            None => timestamp != 0,
        }
    }

    /// Returns whether L2 blocks with timestamp `timestamp` carry L1 info in
    /// the Ecotone format.
    pub fn l1_info_is_ecotone(&self, timestamp: u64) -> (r: bool)
        ensures
            r == self.uses_ecotone_l1_info(timestamp),
    {
        let ecotone = is_active(self.ecotone_time, timestamp) || is_active(self.fjord_time, timestamp)
            || is_active(self.granite_time, timestamp) || is_active(self.holocene_time, timestamp);
        let activation = match self.ecotone_time {
            Some(t) => t,
            None => 0,
        };
        ecotone && activation != timestamp
    }

    /// The max RLP bytes per channel for a batch with the given timestamp.
    pub open spec fn max_rlp_bytes_at(self, timestamp: u64) -> u64 {
        if self.is_fjord_active(timestamp) {
            FJORD_MAX_RLP_BYTES_PER_CHANNEL
        } else {
            MAX_RLP_BYTES_PER_CHANNEL
        }
    }
}

} // verus!
