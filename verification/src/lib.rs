//! Building blocks of an OP Stack batcher: the stages that carry L2 blocks
//! from the sequencer into batches, channels, frames and, at last, batch
//! transactions posted to L1.

mod external;

pub mod traits;
pub use traits::{FramePublished, OriginReceiver};

pub mod laws;

pub mod types;
pub use types::{
    block_to_batch, l1_block_info_from_bytes, BatchTransaction, ChannelOut, L1BlockRef, L2BlockRef,
    SyncStatus,
};

pub mod stages;
pub use stages::{
    BatchProcessor, ChannelBuilder, L2Retrieval, L2RetrievalProvider, L2Traversal, TransactionBuilder,
};

pub mod driver;
pub use driver::{BatchSubmitter, BlockCursor};
