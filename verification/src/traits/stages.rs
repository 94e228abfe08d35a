//! Signals that travel back through the stages of the pipeline.

use vstd::prelude::*;

use crate::types::L1BlockRef;

verus! {

/// A stage that is told when the L1 origin moves.
pub trait OriginReceiver: Sized {
    /// `new` is what the stage `old` becomes once told that the L1 origin
    /// moved to `origin`.
    spec fn origin_received(old: Self, new: Self, origin: L1BlockRef) -> bool;

    /// Sets the new L1 origin.
    fn set_origin(&mut self, origin: L1BlockRef)
        ensures
            Self::origin_received(*old(self), *final(self), origin),
    ;
}

/// A stage that is told when a frame was published on L1.
pub trait FramePublished: Sized {
    /// `new` is what the stage `old` becomes once told that a frame was
    /// published in L1 block `l1_block_num`.
    spec fn frame_recorded(old: Self, new: Self, l1_block_num: u64) -> bool;

    /// Records that a frame was published in L1 block `l1_block_num`.
    fn frame_published(&mut self, l1_block_num: u64)
        ensures
            Self::frame_recorded(*old(self), *final(self), l1_block_num),
    ;
}

} // verus!
