//! L2 blocks as the batcher reads them from the L2 chain.

use vstd::prelude::*;

verus! {

/// The EIP-2718 type of a deposit transaction.
pub const DEPOSIT_TX_TYPE: u8 = 0x7E;

/// The header fields of an L2 block that the batcher reads.
#[derive(Debug, Clone, Copy, PartialEq, Eq, Default)]
pub struct Header {
    /// The block hash.
    pub hash: [u8; 32],
    /// The block number.
    pub number: u64,
    /// The hash of the parent block.
    pub parent_hash: [u8; 32],
    /// The block timestamp.
    pub timestamp: u64,
}

/// A transaction of an L2 block.
#[derive(Debug, Clone, PartialEq, Eq, Default)]
pub struct L2Transaction {
    /// The EIP-2718 transaction type, where the block reports one.
    pub transaction_type: Option<u8>,
    /// The EIP-2718 encoding of the transaction.
    pub encoded: Vec<u8>,
}

/// The transactions of a block, in one of the forms an RPC provider returns.
#[derive(Debug, Clone, PartialEq, Eq)]
pub enum BlockTransactions {
    /// Full transactions.
    Full(Vec<L2Transaction>),
    /// Only the transaction hashes.
    Hashes(Vec<[u8; 32]>),
    /// No transactions: the block was returned as an uncle.
    Uncle,
}

/// An L2 block.
#[derive(Debug, Clone, PartialEq, Eq)]
pub struct Block {
    /// The block header.
    pub header: Header,
    /// The block transactions.
    pub transactions: BlockTransactions,
}

/// Whether a transaction is a deposit transaction.
pub open spec fn is_deposit(tx: L2Transaction) -> bool {
    tx.transaction_type == Some(DEPOSIT_TX_TYPE)
}

impl BlockTransactions {
    /// The number of transactions (or hashes).
    pub open spec fn spec_len(&self) -> nat {
        match self {
            BlockTransactions::Full(txs) => txs@.len(),
            BlockTransactions::Hashes(hs) => hs@.len(),
            BlockTransactions::Uncle => 0,
        }
    }

    /// Returns the number of transactions.
    pub fn len(&self) -> (r: usize)
        ensures
            r == self.spec_len(),
    {
        match self {
            BlockTransactions::Full(txs) => txs.len(),
            BlockTransactions::Hashes(hs) => hs.len(),
            BlockTransactions::Uncle => 0,
        }
    }

    /// Whether the block has no transactions.
    pub fn is_empty(&self) -> (r: bool)
        ensures
            r == (self.spec_len() == 0),
    {
        self.len() == 0
    }
}

} // verus!
