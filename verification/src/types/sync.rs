//! References to L1 and L2 blocks, and the sync status of a rollup node.

use vstd::prelude::*;

use crate::types::Header;

verus! {

/// A block identified by its number and hash.
#[derive(Debug, Clone, Copy, PartialEq, Eq, Default)]
pub struct BlockId {
    /// The block hash.
    pub hash: [u8; 32],
    /// The block number.
    pub number: u64,
}

/// A reference to an L1 block.
#[derive(Debug, Clone, Copy, PartialEq, Eq, Default)]
pub struct L1BlockRef {
    /// The block hash.
    pub hash: [u8; 32],
    /// The block number.
    pub number: u64,
    /// The hash of the parent block.
    pub parent_hash: [u8; 32],
    /// The block timestamp.
    pub timestamp: u64,
}

/// A reference to an L2 block.
#[derive(Debug, Clone, Copy, PartialEq, Eq, Default)]
pub struct L2BlockRef {
    /// The block hash.
    pub hash: [u8; 32],
    /// The block number.
    pub number: u64,
    /// The hash of the parent block.
    pub parent_hash: [u8; 32],
    /// The block timestamp.
    pub timestamp: u64,
    /// The L1 block that this L2 block derives from.
    pub l1_origin: BlockId,
    /// The position of this block within its epoch.
    pub sequence_number: u64,
}

/// The sync status reported by a rollup node.
#[derive(Debug, Clone, Copy, PartialEq, Eq, Default)]
pub struct SyncStatus {
    /// The L1 block that the derivation pipeline currently reads.
    pub current_l1: L1BlockRef,
    /// The finalized L1 block at the time `current_l1` was read.
    pub current_l1_finalized: L1BlockRef,
    /// The L1 head.
    pub head_l1: L1BlockRef,
    /// The safe L1 block.
    pub safe_l1: L1BlockRef,
    /// The finalized L1 block.
    pub finalized_l1: L1BlockRef,
    /// The unsafe L2 head.
    pub unsafe_l2: L2BlockRef,
    /// The safe L2 head.
    pub safe_l2: L2BlockRef,
    /// The finalized L2 head.
    pub finalized_l2: L2BlockRef,
}

/// The all-zero hash.
pub open spec fn zero_hash() -> Seq<u8> {
    Seq::new(32, |_i: int| 0u8)
}

impl L2BlockRef {
    /// The reference has number `0` and all other fields zero.
    pub open spec fn is_zero(self) -> bool {
        &&& self.hash@ == zero_hash()
        &&& self.number == 0
        &&& self.parent_hash@ == zero_hash()
        &&& self.timestamp == 0
        &&& self.l1_origin.hash@ == zero_hash()
        &&& self.l1_origin.number == 0
        &&& self.sequence_number == 0
    }

    /// The reference refers to the block with header `h`: it has its hash,
    /// number, parent and timestamp, with a zero L1 origin and sequence number.
    pub open spec fn refers_to(self, h: Header) -> bool {
        &&& self.hash == h.hash
        &&& self.number == h.number
        &&& self.parent_hash == h.parent_hash
        &&& self.timestamp == h.timestamp
        &&& self.l1_origin.hash@ == zero_hash()
        &&& self.l1_origin.number == 0
        &&& self.sequence_number == 0
    }

    /// The reference to the block with the given header.
    pub fn from_header(h: &Header) -> (r: L2BlockRef)
        ensures
            r.refers_to(*h),
    {
        let zero = [0u8; 32];
        assert(zero@ =~= zero_hash());
        L2BlockRef {
            hash: h.hash,
            number: h.number,
            parent_hash: h.parent_hash,
            timestamp: h.timestamp,
            l1_origin: BlockId { hash: zero, number: 0 },
            sequence_number: 0,
        }
    }

    /// A reference to the block with number `0` and all hashes zero.
    pub fn zero() -> (r: L2BlockRef)
        ensures
            r.is_zero(),
    {
        let zero = [0u8; 32];
        assert(zero@ =~= zero_hash());
        L2BlockRef {
            hash: zero,
            number: 0,
            parent_hash: zero,
            timestamp: 0,
            l1_origin: BlockId { hash: zero, number: 0 },
            sequence_number: 0,
        }
    }
}

} // verus!
