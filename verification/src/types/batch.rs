//! Batches: the L2 blocks as the batcher submits them.

use vstd::prelude::*;

verus! {

/// A single batch: one L2 block, encoded for submission.
#[derive(Debug, Clone, PartialEq, Eq, Default)]
pub struct SingleBatch {
    /// Hash of the parent L2 block.
    pub parent_hash: [u8; 32],
    /// The epoch number: the number of the L1 origin block.
    pub epoch_num: u64,
    /// The hash of the L1 origin block.
    pub epoch_hash: [u8; 32],
    /// The timestamp of the L2 block.
    pub timestamp: u64,
    /// The raw (EIP-2718 encoded) transactions of the L2 block.
    pub transactions: Vec<Vec<u8>>,
}

impl SingleBatch {
    /// The RLP encoding of the batch.
    pub open spec fn encoding(&self) -> Seq<u8> {
        crate::external::single_batch_rlp(
            self.parent_hash@,
            self.epoch_num,
            self.epoch_hash@,
            self.timestamp,
            self.transactions.deep_view(),
        )
    }

    /// The L1 origin that the batch names.
    pub open spec fn epoch(&self) -> L1BlockInfo {
        L1BlockInfo { number: self.epoch_num, hash: self.epoch_hash }
    }

    /// RLP-encodes the batch.
    pub fn encode(&self) -> (r: Vec<u8>)
        ensures
            r@ == self.encoding(),
    {
        crate::external::encode_single_batch(self)
    }
}

/// The L1 block that an L2 block's L1 info transaction names.
#[derive(Debug, Clone, Copy, PartialEq, Eq, Default)]
pub struct L1BlockInfo {
    /// The L1 block number.
    pub number: u64,
    /// The L1 block hash.
    pub hash: [u8; 32],
}

} // verus!
