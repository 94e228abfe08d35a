//! Batch Processor

use vstd::prelude::*;

use crate::types::{BatchError, Block, SingleBatch};

verus! {

/// The [BatchProcessor] stage of the batching pipeline.
#[derive(Debug, Clone)]
pub struct BatchProcessor<P> {
    /// The previous stage.
    pub prev: P,
}

impl<P> BatchProcessor<P> {
    /// Constructs a new [BatchProcessor].
    pub fn new(prev: P) -> (r: Self)
        ensures
            r.prev == prev,
    {
        Self { prev }
    }

    /// Converts a [Block] to a [SingleBatch]: the L1 info calldata is
    /// decoded in whichever format it comes (Bedrock or Ecotone).
    pub fn block_to_batch(&self, block: &Block) -> (r: Result<SingleBatch, BatchError>)
        ensures
            match r {
                Ok(batch) => {
                    &&& crate::types::utils::any_format_batch_error(*block) is None
                    &&& crate::types::utils::is_batch_of(batch, batch.epoch(), *block)
                    &&& crate::types::l1_info::l1_info_layout(crate::types::utils::info_calldata(*block))
                        == Some((batch.epoch_num, batch.epoch_hash@))
                },
                Err(e) => crate::types::utils::any_format_batch_error(*block) == Some(e),
            },
    {
        let (raw_txs, calldata) = crate::types::utils::prepare_batch(block)?;
        match crate::external::decode_l1_info_calldata(calldata.as_slice()) {
            Some((number, hash)) => Ok(
                SingleBatch {
                    parent_hash: block.header.parent_hash,
                    epoch_num: number,
                    epoch_hash: hash,
                    timestamp: block.header.timestamp,
                    transactions: raw_txs,
                },
            ),
            None => Err(BatchError::InvalidL1Info),
        }
    }

    /// The batch for the next L2 block: `None` where the block cannot be
    /// turned into a batch.
    pub fn process_block(&self, block: &Block) -> (r: Option<SingleBatch>)
        ensures
            r is Some <==> crate::types::utils::any_format_batch_error(*block) is None,
            r matches Some(batch) ==> {
                &&& crate::types::utils::is_batch_of(batch, batch.epoch(), *block)
                &&& crate::types::l1_info::l1_info_layout(crate::types::utils::info_calldata(*block))
                    == Some((batch.epoch_num, batch.epoch_hash@))
            },
    {
        match self.block_to_batch(block) {
            Ok(batch) => Some(batch),
            Err(_) => None,
        }
    }
}

} // verus!
