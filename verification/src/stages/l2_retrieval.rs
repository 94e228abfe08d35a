//! L2 Retrieval Stage

use vstd::prelude::*;

use crate::types::{Block, L2BlockRef};

verus! {

/// The provider for the retrieval stage.
pub trait L2RetrievalProvider {
    /// Returns a list of [L2BlockRef].
    fn next_blocks(&mut self) -> Vec<L2BlockRef>;
}

/// The [L2Retrieval] stage of the batching pipeline.
#[derive(Debug, Clone)]
pub struct L2Retrieval<R, P> {
    /// Handle to the previous stage.
    pub prev: R,
    /// The L2 Provider.
    pub provider: P,
    /// Contains L2 Blocks.
    pub blocks: Vec<Block>,
}

impl<R, P> L2Retrieval<R, P> {
    /// Constructs an [L2Retrieval] stage that holds no blocks yet.
    pub fn new(prev: R, provider: P) -> (r: Self)
        ensures
            r.prev == prev,
            r.provider == provider,
            r.blocks@ == Seq::<Block>::empty(),
    {
        L2Retrieval { prev, provider, blocks: Vec::new() }
    }

    /// Records the outcome of fetching the next block: a fetched block joins
    /// the queue and fetching goes on (`true`); a failed fetch (`None`) stops
    /// it (`false`) and leaves the queue as it was.
    pub fn on_fetched(&mut self, fetched: Option<Block>) -> (go_on: bool)
        ensures
            go_on == fetched is Some,
            final(self).blocks@ == match fetched {
                Some(b) => old(self).blocks@.push(b),
                None => old(self).blocks@,
            },
            final(self).prev == old(self).prev,
            final(self).provider == old(self).provider,
    {
        match fetched {
            Some(block) => {
                self.blocks.push(block);
                true
            },
            None => false,
        }
    }

    /// Takes the oldest queued block, if there is one.
    pub fn take_next_block(&mut self) -> (r: Option<Block>)
        ensures
            old(self).blocks@.len() == 0 ==> r is None && final(self).blocks@ == old(self).blocks@,
            old(self).blocks@.len() > 0 ==> r == Some(old(self).blocks@[0]) && final(self).blocks@
                == old(self).blocks@.drop_first(),
            final(self).prev == old(self).prev,
            final(self).provider == old(self).provider,
    {
        if self.blocks.len() == 0 {
            return None;
        }
        let b = self.blocks.remove(0);
        assert(self.blocks@ =~= old(self).blocks@.drop_first());
        Some(b)
    }
}

} // verus!
