//! Batch transactions: the frames that one L1 transaction carries.

use vstd::prelude::*;

use crate::types::Frame;

verus! {

/// A batch transaction: frames to be posted to L1 in one transaction.
#[derive(Debug, Clone, PartialEq, Eq, Default)]
pub struct BatchTransaction {
    /// The summed size of the frames.
    pub size: usize,
    /// The frames.
    pub frames: Vec<Frame>,
}

impl BatchTransaction {
    /// Whether the transaction holds `max_frames` frames or more.
    pub open spec fn spec_is_full(&self, max_frames: u16) -> bool {
        self.frames@.len() >= max_frames
    }

    /// Returns whether the transaction is full.
    pub fn is_full(&self, max_frames: u16) -> (r: bool)
        ensures
            r == self.spec_is_full(max_frames),
    {
        self.frames.len() >= max_frames as usize
    }
}

} // verus!
