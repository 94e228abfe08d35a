//! Transaction Builder

use vstd::prelude::*;

use crate::traits::{FramePublished, OriginReceiver};
use crate::types::{BatchTransaction, Frame, L1BlockRef, FRAME_OVERHEAD};

verus! {

/// The [TransactionBuilder] stage of the batching pipeline.
#[derive(Debug, Clone)]
pub struct TransactionBuilder<P> {
    /// The previous stage.
    pub prev: P,
    /// Max number of frames to allow per transaction.
    pub max_frames: u16,
    /// Batch transactions.
    pub txs: Vec<BatchTransaction>,
}

/// `i` is the first transaction of `txs` that is not full.
pub open spec fn is_first_open(txs: Seq<BatchTransaction>, max_frames: u16, i: int) -> bool {
    &&& 0 <= i < txs.len()
    &&& !txs[i].spec_is_full(max_frames)
    &&& forall|j: int| 0 <= j < i ==> (#[trigger] txs[j]).spec_is_full(max_frames)
}

/// Some transaction of `txs` is not full.
pub open spec fn has_open(txs: Seq<BatchTransaction>, max_frames: u16) -> bool {
    exists|i: int| is_first_open(txs, max_frames, i)
}

/// The first transaction of `txs` that is not full.
pub open spec fn first_open(txs: Seq<BatchTransaction>, max_frames: u16) -> int {
    choose|i: int| is_first_open(txs, max_frames, i)
}

/// Adding `frame` to `txs` cannot overflow the size of the transaction it joins.
pub open spec fn frame_fits(txs: Seq<BatchTransaction>, max_frames: u16, frame: Frame) -> bool {
    &&& frame.data@.len() + FRAME_OVERHEAD <= usize::MAX
    &&& has_open(txs, max_frames) ==> txs[first_open(txs, max_frames)].size + frame.spec_size()
        <= usize::MAX
}

/// The frames of `txs`, transaction after transaction.
pub open spec fn all_frames(txs: Seq<BatchTransaction>) -> Seq<Frame>
    decreases txs.len(),
{
    if txs.len() == 0 {
        Seq::empty()
    } else {
        all_frames(txs.drop_last()) + txs.last().frames@
    }
}

/// Every transaction but the last is full.
pub open spec fn packed(txs: Seq<BatchTransaction>, max_frames: u16) -> bool {
    forall|i: int| 0 <= i < txs.len() - 1 ==> (#[trigger] txs[i]).spec_is_full(max_frames)
}

/// No transaction holds more than `max_frames` frames.
pub open spec fn within_frame_limit(txs: Seq<BatchTransaction>, max_frames: u16) -> bool {
    forall|i: int| 0 <= i < txs.len() ==> (#[trigger] txs[i]).frames@.len() <= max_frames
}

/// The summed size of `frames`.
pub open spec fn frames_size(frames: Seq<Frame>) -> nat
    decreases frames.len(),
{
    if frames.len() == 0 {
        0
    } else {
        frames_size(frames.drop_last()) + frames.last().spec_size()
    }
}

/// Every transaction's size is the summed size of its frames.
pub open spec fn sizes_consistent(txs: Seq<BatchTransaction>) -> bool {
    forall|i: int| 0 <= i < txs.len() ==> (#[trigger] txs[i]).size == frames_size(txs[i].frames@)
}

/// Replacing transaction `i` changes the total number of frames by the
/// difference in its number of frames.
proof fn lemma_all_frames_update_len(txs: Seq<BatchTransaction>, i: int, tx: BatchTransaction)
    requires
        0 <= i < txs.len(),
    ensures
        all_frames(txs.update(i, tx)).len() == all_frames(txs).len() - txs[i].frames@.len()
            + tx.frames@.len(),
    decreases txs.len(),
{
    let u = txs.update(i, tx);
    if i == txs.len() - 1 {
        assert(u.drop_last() =~= txs.drop_last());
    } else {
        assert(u.drop_last() =~= txs.drop_last().update(i, tx));
        lemma_all_frames_update_len(txs.drop_last(), i, tx);
    }
}

impl<P> TransactionBuilder<P> {
    /// Constructs a new [TransactionBuilder].
    pub fn new(prev: P, max_frames: u16) -> (r: Self)
        ensures
            r.prev == prev,
            r.max_frames == max_frames,
            r.txs@ == Seq::<BatchTransaction>::empty(),
    {
        Self { prev, max_frames, txs: Vec::new() }
    }

    /// The index of the first transaction that is not full; the number of
    /// transactions where all are full.
    fn find_open(&self) -> (i: usize)
        ensures
            i <= self.txs@.len(),
            i < self.txs@.len() ==> has_open(self.txs@, self.max_frames) && i == first_open(
                self.txs@,
                self.max_frames,
            ),
            i == self.txs@.len() ==> !has_open(self.txs@, self.max_frames),
            forall|j: int| 0 <= j < i ==> (#[trigger] self.txs@[j]).spec_is_full(self.max_frames),
    {
        let mut i: usize = 0;
        while i < self.txs.len() && self.txs[i].is_full(self.max_frames)
            invariant
                i <= self.txs@.len(),
                forall|j: int| 0 <= j < i ==> (#[trigger] self.txs@[j]).spec_is_full(self.max_frames),
            decreases self.txs@.len() - i,
        {
            i = i + 1;
        }
        if i < self.txs.len() {
            proof {
                assert(is_first_open(self.txs@, self.max_frames, i as int));
                let k = first_open(self.txs@, self.max_frames);
                if k < i {
                    assert(self.txs@[k].spec_is_full(self.max_frames));
                }
                if k > i {
                    assert(self.txs@[i as int].spec_is_full(self.max_frames));
                }
            }
        } else {
            assert(forall|k: int| !is_first_open(self.txs@, self.max_frames, k));
        }
        i
    }

    /// Adds a frame to the transactions queue.
    /// Finds the first transaction that is not full and adds the frame to it.
    /// If no transaction is found, a new transaction is created.
    pub fn add_frame(&mut self, frame: Frame)
        requires
            frame_fits(old(self).txs@, old(self).max_frames, frame),
        ensures
            final(self).max_frames == old(self).max_frames,
            final(self).prev == old(self).prev,
            has_open(old(self).txs@, old(self).max_frames) ==> {
                let i = first_open(old(self).txs@, old(self).max_frames);
                &&& final(self).txs@.len() == old(self).txs@.len()
                &&& forall|j: int|
                    0 <= j < old(self).txs@.len() && j != i ==> final(self).txs@[j]
                        == old(self).txs@[j]
                &&& final(self).txs@[i].frames@ == old(self).txs@[i].frames@.push(frame)
                &&& final(self).txs@[i].size == old(self).txs@[i].size + frame.spec_size()
            },
            !has_open(old(self).txs@, old(self).max_frames) ==> {
                &&& final(self).txs@.len() == old(self).txs@.len() + 1
                &&& forall|j: int|
                    0 <= j < old(self).txs@.len() ==> final(self).txs@[j] == old(self).txs@[j]
                &&& final(self).txs@.last().frames@ == seq![frame]
                &&& final(self).txs@.last().size == frame.spec_size()
            },
            packed(old(self).txs@, old(self).max_frames) ==> {
                &&& packed(final(self).txs@, old(self).max_frames)
                &&& all_frames(final(self).txs@) == all_frames(old(self).txs@).push(frame)
            },
            old(self).max_frames >= 1 && within_frame_limit(old(self).txs@, old(self).max_frames)
                ==> within_frame_limit(final(self).txs@, old(self).max_frames),
            sizes_consistent(old(self).txs@) ==> sizes_consistent(final(self).txs@),
            all_frames(final(self).txs@).len() == all_frames(old(self).txs@).len() + 1,
    {
        let ghost old_txs = self.txs@;
        let i = self.find_open();
        let size = frame.size();
        if i < self.txs.len() {
            let mut tx = self.txs.remove(i);
            let ghost old_frames = tx.frames@;
            tx.size = tx.size + size;
            tx.frames.push(frame);
            assert(tx.frames@.drop_last() =~= old_frames);
            assert(frames_size(tx.frames@) == frames_size(old_frames) + frame.spec_size());
            self.txs.insert(i, tx);
            assert(self.txs@ =~= old_txs.update(i as int, tx));
            proof {
                lemma_all_frames_update_len(old_txs, i as int, tx);
                if packed(old_txs, self.max_frames) {
                    assert(i == old_txs.len() - 1);
                    assert(self.txs@.drop_last() =~= old_txs.drop_last());
                    assert(all_frames(old_txs) == all_frames(old_txs.drop_last()) + old_frames);
                    assert(all_frames(self.txs@) =~= all_frames(old_txs).push(frame));
                }
            }
        } else {
            assert forall|k: int| 0 <= k < old_txs.len() implies (#[trigger] old_txs[k]).spec_is_full(
                self.max_frames,
            ) by {
                if !old_txs[k].spec_is_full(self.max_frames) {
                    assert(is_first_open(old_txs, self.max_frames, k));
                }
            }
            let mut frames = Vec::new();
            frames.push(frame);
            let tx = BatchTransaction { size, frames };
            assert(tx.frames@.drop_last() =~= Seq::<Frame>::empty());
            assert(frames_size(Seq::<Frame>::empty()) == 0);
            assert(tx.frames@.last() == frame);
            assert(frames_size(tx.frames@) == frame.spec_size());
            self.txs.push(tx);
            assert(self.txs@.drop_last() =~= old_txs);
            assert(all_frames(self.txs@) =~= all_frames(old_txs).push(frame));
        }
    }

    /// Whether [TransactionBuilder::add_frame] can take `frame` without overflow.
    pub fn can_add_frame(&self, frame: &Frame) -> (r: bool)
        ensures
            r == frame_fits(self.txs@, self.max_frames, *frame),
    {
        if frame.data.len() > usize::MAX - FRAME_OVERHEAD {
            return false;
        }
        let i = self.find_open();
        if i < self.txs.len() {
            self.txs[i].size <= usize::MAX - (frame.data.len() + FRAME_OVERHEAD)
        } else {
            true
        }
    }

    /// The first transaction of the queue, if there is one.
    pub fn first_transaction(&self) -> (r: Option<&BatchTransaction>)
        ensures
            self.txs@.len() == 0 ==> r is None,
            self.txs@.len() > 0 ==> r == Some(&self.txs@[0]),
    {
        if self.txs.len() == 0 {
            None
        } else {
            Some(&self.txs[0])
        }
    }
}

impl<P: OriginReceiver> OriginReceiver for TransactionBuilder<P> {
    /// The previous stage receives the origin; the transactions stay as they are.
    open spec fn origin_received(old: Self, new: Self, origin: L1BlockRef) -> bool {
        &&& new.max_frames == old.max_frames
        &&& new.txs == old.txs
        &&& P::origin_received(old.prev, new.prev, origin)
    }

    /// Passes the new origin to the previous stage.
    fn set_origin(&mut self, origin: L1BlockRef)
        ensures
            final(self).max_frames == old(self).max_frames,
            final(self).txs == old(self).txs,
            P::origin_received(old(self).prev, final(self).prev, origin),
    {
        self.prev.set_origin(origin);
    }
}

impl<P: FramePublished> FramePublished for TransactionBuilder<P> {
    /// The previous stage records the frame; the transactions stay as they are.
    open spec fn frame_recorded(old: Self, new: Self, l1_block_num: u64) -> bool {
        &&& new.max_frames == old.max_frames
        &&& new.txs == old.txs
        &&& P::frame_recorded(old.prev, new.prev, l1_block_num)
    }

    /// Passes the published frame's L1 block number to the previous stage.
    fn frame_published(&mut self, l1_block_num: u64)
        ensures
            final(self).max_frames == old(self).max_frames,
            final(self).txs == old(self).txs,
            P::frame_recorded(old(self).prev, final(self).prev, l1_block_num),
    {
        self.prev.frame_published(l1_block_num)
    }
}

} // verus!
