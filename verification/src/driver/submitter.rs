//! Batch Submitter

use vstd::prelude::*;

use crate::driver::BlockCursor;

verus! {

/// The Batch Submitter.
///
/// Drives the batch submission process.
#[derive(Debug, Clone)]
pub struct BatchSubmitter<R, L2P> {
    /// Holds the block cursor.
    cursor: BlockCursor<R, L2P>,
}

impl<R, L2P> BatchSubmitter<R, L2P> {
    /// Creates a batch submitter around the block cursor.
    pub fn new(cursor: BlockCursor<R, L2P>) -> (r: Self)
        ensures
            r.cursor_view() == cursor,
    {
        Self { cursor }
    }

    /// The block cursor.
    pub closed spec fn cursor_view(&self) -> BlockCursor<R, L2P> {
        self.cursor
    }

    /// Returns the block cursor, to load blocks with.
    pub fn cursor_mut(&mut self) -> (r: &mut BlockCursor<R, L2P>)
        ensures
            *r == old(self).cursor_view(),
            final(self).cursor_view() == *final(r),
    {
        &mut self.cursor
    }
}

} // verus!
