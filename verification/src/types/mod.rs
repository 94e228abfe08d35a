//! Types of the batching pipeline.

pub mod sync;
pub use sync::{BlockId, L1BlockRef, L2BlockRef, SyncStatus};

pub mod config;
pub use config::{RollupConfig, FJORD_MAX_RLP_BYTES_PER_CHANNEL, MAX_RLP_BYTES_PER_CHANNEL};

pub mod frame;
pub use frame::{Frame, FrameView, FRAME_OVERHEAD};

pub mod batch;
pub use batch::{L1BlockInfo, SingleBatch};

pub mod channel_out;
pub use channel_out::{ChannelOut, ChannelState, FRAME_V0_OVERHEAD_SIZE};

pub mod block;
pub use block::{Block, BlockTransactions, Header, L2Transaction, DEPOSIT_TX_TYPE};

pub mod l1_info;
pub use l1_info::{L1_INFO_LEN_BEDROCK, L1_INFO_LEN_ECOTONE};

pub mod utils;
pub use utils::{block_to_batch, l1_block_info_from_bytes, BatchError};

pub mod transaction;
pub use transaction::BatchTransaction;
