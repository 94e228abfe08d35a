//! The batch submission cursor tracking the block position.

use vstd::prelude::*;

use crate::types::{Block, BlockId, L2BlockRef, SyncStatus};

verus! {

/// Why a block range could not be determined.
#[derive(Debug, Clone, Copy, PartialEq, Eq)]
pub enum CursorError {
    /// The sync status reports no L1 head.
    EmptySyncStatus,
}

/// Tracks the block position of batch submission.
#[derive(Debug, Clone)]
pub struct BlockCursor<R, L2P> {
    /// A rollup node used to fetch the sync status.
    node: R,
    /// The L2 provider.
    l2_provider: L2P,
    /// The last stored l2 block.
    last_l2_block: L2BlockRef,
}

/// The block after which batch submission goes on, given the last stored
/// block `last` and the sync status `ss`: on startup (`last` numbered `0`)
/// the last block takes the safe head's number; where the last block lags
/// at or behind the safe head, the safe head; otherwise the last block.
pub open spec fn range_start(last: L2BlockRef, ss: SyncStatus) -> L2BlockRef {
    if last.number == 0 {
        L2BlockRef { number: ss.safe_l2.number, ..last }
    } else if last.number <= ss.safe_l2.number {
        ss.safe_l2
    } else {
        last
    }
}

/// The numbers of the blocks in the range (start, end] to fetch, as the
/// inclusive bounds `(first, last)`: from the block after `start` through
/// `end`. `None` where the range holds no block (`end` is not after `start`).
pub fn fetch_range(start: &L2BlockRef, end: &L2BlockRef) -> (r: Option<(u64, u64)>)
    ensures
        start.number < end.number <==> r is Some,
        r is Some ==> r == Some(((start.number + 1) as u64, end.number)),
{
    if start.number < end.number {
        Some((start.number + 1, end.number))
    } else {
        None
    }
}

impl<R, L2P> BlockCursor<R, L2P> {
    /// Creates a new block buffer.
    pub fn new(node: R, l2_provider: L2P) -> (r: Self)
        ensures
            r.node() == node,
            r.l2_provider() == l2_provider,
            r.last_block().is_zero(),
    {
        Self { node, l2_provider, last_l2_block: L2BlockRef::zero() }
    }

    /// The rollup node.
    pub closed spec fn node(&self) -> R {
        self.node
    }

    /// The L2 provider.
    pub closed spec fn l2_provider(&self) -> L2P {
        self.l2_provider
    }

    /// The last stored L2 block.
    pub closed spec fn last_block(&self) -> L2BlockRef {
        self.last_l2_block
    }

    /// Returns the rollup node.
    pub fn rollup_node(&self) -> (r: &R)
        ensures
            *r == self.node(),
    {
        &self.node
    }

    /// Returns the L2 provider.
    pub fn provider(&self) -> (r: &L2P)
        ensures
            *r == self.l2_provider(),
    {
        &self.l2_provider
    }

    /// Returns the last stored L2 block.
    pub fn last_l2_block(&self) -> (r: L2BlockRef)
        ensures
            r == self.last_block(),
    {
        self.last_l2_block
    }

    /// Determines the range (start, end] to load for batch submission from
    /// the sync status `ss`, and stores its start as the last block.
    pub fn calculate_range(&mut self, ss: &SyncStatus) -> (r: Result<(L2BlockRef, L2BlockRef), CursorError>)
        ensures
            final(self).node() == old(self).node(),
            final(self).l2_provider() == old(self).l2_provider(),
            ss.head_l1.number == 0 ==> r == Err::<(L2BlockRef, L2BlockRef), CursorError>(
                CursorError::EmptySyncStatus,
            ) && final(self).last_block() == old(self).last_block(),
            ss.head_l1.number != 0 ==> {
                &&& final(self).last_block() == range_start(old(self).last_block(), *ss)
                &&& r == Ok::<(L2BlockRef, L2BlockRef), CursorError>(
                    (final(self).last_block(), ss.unsafe_l2),
                )
            },
    {
        if ss.head_l1.number == 0 {
            return Err(CursorError::EmptySyncStatus);
        }
        if self.last_l2_block.number == 0 {
            self.last_l2_block.number = ss.safe_l2.number;
        } else if self.last_l2_block.number <= ss.safe_l2.number {
            self.last_l2_block = ss.safe_l2;
        }
        Ok((self.last_l2_block, ss.unsafe_l2))
    }

    /// Stores a loaded block as the last block.
    pub fn record_loaded(&mut self, block: &Block)
        ensures
            final(self).node() == old(self).node(),
            final(self).l2_provider() == old(self).l2_provider(),
            final(self).last_block().refers_to(block.header),
    {
        self.last_l2_block = L2BlockRef::from_header(&block.header);
    }
}

} // verus!
