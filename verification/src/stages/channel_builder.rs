//! Channel Builder

use vstd::prelude::*;

use crate::traits::{FramePublished, OriginReceiver};
use crate::types::{ChannelOut, ChannelState, Frame, L1BlockRef, RollupConfig, SingleBatch};

verus! {

/// The [ChannelBuilder] stage of the batching pipeline.
#[derive(Debug, Clone)]
pub struct ChannelBuilder<P, C> {
    /// The previous stage.
    pub prev: P,
    /// Whether to build span or single channels.
    pub span: bool,
    /// The rollup config to use.
    pub rollup_config: RollupConfig,
    /// Current [ChannelOut] state.
    pub channels: Vec<ChannelOut>,
    /// The compressor the builder was configured with.
    pub compressor: C,
    /// The configured sub safety margin.
    pub sub_safety_margin: u64,
}

/// The state of a channel that the builder has just opened, with id `id`.
pub open spec fn opened_channel(id: Seq<u8>, cfg: RollupConfig, sub_safety_margin: u64) -> ChannelState {
    ChannelState {
        id,
        frame: 0,
        rlp_length: 0,
        closed: false,
        max_frame_size: 0,
        chain_config: cfg,
        ready: Seq::empty(),
        timeout: 0,
        sub_safety_margin,
    }
}

/// The channels once the first one is dropped, where all its frames are output.
pub open spec fn without_finished(channels: Seq<ChannelOut>) -> Seq<ChannelOut> {
    if channels.len() > 0 && channels[0]@.all_frames_output() {
        channels.drop_first()
    } else {
        channels
    }
}

impl<P, C> ChannelBuilder<P, C> {
    /// Constructs a new [ChannelBuilder].
    pub fn new(prev: P, span: bool, cfg: RollupConfig, compressor: C, sub_safety_margin: u64) -> (r: Self)
        ensures
            r.prev == prev,
            r.span == span,
            r.rollup_config == cfg,
            r.channels@ == Seq::<ChannelOut>::empty(),
            r.compressor == compressor,
            r.sub_safety_margin == sub_safety_margin,
    {
        Self { prev, span, rollup_config: cfg, channels: Vec::new(), compressor, sub_safety_margin }
    }

    /// The step of the stage before it asks for a new batch. If all frames
    /// of the first channel are output, the channel is removed. Then, if the
    /// (new) first channel has a frame ready, that frame is output. `None`
    /// means that no frame is ready, there being no channel or none ready,
    /// and the stage needs a new batch.
    pub fn poll_frame(&mut self) -> (r: Option<Frame>)
        ensures
            ({
                let kept = without_finished(old(self).channels@);
                &&& kept.len() == 0 ==> r is None && final(self).channels@ == kept
                &&& kept.len() > 0 ==> {
                    &&& final(self).channels@.len() == kept.len()
                    &&& final(self).channels@[0]@ == kept[0]@.after_output()
                    &&& forall|j: int|
                        1 <= j < kept.len() ==> final(self).channels@[j] == kept[j]
                    &&& crate::types::frame::opt_frame_view(r) == kept[0]@.next_frame()
                }
            }),
            final(self).rollup_config == old(self).rollup_config,
            final(self).sub_safety_margin == old(self).sub_safety_margin,
            final(self).prev == old(self).prev,
            final(self).compressor == old(self).compressor,
            final(self).span == old(self).span,
    {
        if self.channels.len() > 0 && self.channels[0].ready.len() == 0 && (self.channels[0].closed
            || self.channels[0].frame > 0) {
            self.channels.remove(0);
        }
        if self.channels.len() == 0 {
            return None;
        }
        let mut c = self.channels.remove(0);
        let r = c.output_frame();
        self.channels.insert(0, c);
        r
    }

    /// Opens a channel with id `id` for `batch`, adds the batch to it, and
    /// queues it after the open channels.
    pub fn open_channel(&mut self, id: [u8; 16], batch: SingleBatch)
        ensures
            final(self).channels@ == old(self).channels@.push(final(self).channels@.last()),
            final(self).channels@.last()@ == opened_channel(
                id@,
                old(self).rollup_config,
                old(self).sub_safety_margin,
            ).add_batch(batch.encoding(), batch.timestamp),
            final(self).rollup_config == old(self).rollup_config,
            final(self).sub_safety_margin == old(self).sub_safety_margin,
            final(self).prev == old(self).prev,
            final(self).compressor == old(self).compressor,
            final(self).span == old(self).span,
    {
        let mut c = ChannelOut::new(id);
        c.chain_config = self.rollup_config;
        c.sub_safety_margin = self.sub_safety_margin;
        c.add_batch(batch);
        self.channels.push(c);
    }

    /// Opens a channel with a random id for `batch`, as [ChannelBuilder::open_channel]
    /// does. Where no random id can be drawn (the operating system's entropy
    /// source fails), the batch is handed back and nothing changes.
    pub fn accept_batch(&mut self, batch: SingleBatch) -> (r: Result<(), SingleBatch>)
        ensures
            r is Err ==> r == Err::<(), SingleBatch>(batch) && *final(self) == *old(self),
            r is Ok ==> {
                &&& final(self).channels@ == old(self).channels@.push(final(self).channels@.last())
                &&& final(self).channels@.last()@ == opened_channel(
                    final(self).channels@.last()@.id,
                    old(self).rollup_config,
                    old(self).sub_safety_margin,
                ).add_batch(batch.encoding(), batch.timestamp)
                &&& final(self).channels@.last()@.id.len() == 16
                &&& final(self).rollup_config == old(self).rollup_config
                &&& final(self).sub_safety_margin == old(self).sub_safety_margin
                &&& final(self).prev == old(self).prev
                &&& final(self).compressor == old(self).compressor
                &&& final(self).span == old(self).span
            },
    {
        match crate::external::random_channel_id() {
            Some(id) => {
                self.open_channel(id, batch);
                Ok(())
            },
            None => Err(batch),
        }
    }
}

impl<P, C> OriginReceiver for ChannelBuilder<P, C> {
    /// Every channel is checked for a timeout at the new origin; nothing else changes.
    open spec fn origin_received(old: Self, new: Self, origin: L1BlockRef) -> bool {
        &&& new.channels@.len() == old.channels@.len()
        &&& forall|j: int|
            0 <= j < old.channels@.len() ==> (#[trigger] new.channels@[j])@
                == old.channels@[j]@.check_timed_out(origin.number)
        &&& new.prev == old.prev
        &&& new.compressor == old.compressor
        &&& new.span == old.span
        &&& new.rollup_config == old.rollup_config
        &&& new.sub_safety_margin == old.sub_safety_margin
    }

    /// Closes every channel that has timed out at the new origin.
    fn set_origin(&mut self, origin: L1BlockRef)
        ensures
            final(self).channels@.len() == old(self).channels@.len(),
            forall|j: int|
                0 <= j < old(self).channels@.len() ==> (#[trigger] final(self).channels@[j])@
                    == old(self).channels@[j]@.check_timed_out(origin.number),
            final(self).prev == old(self).prev,
            final(self).compressor == old(self).compressor,
            final(self).span == old(self).span,
            final(self).rollup_config == old(self).rollup_config,
            final(self).sub_safety_margin == old(self).sub_safety_margin,
    {
        let mut i: usize = 0;
        while i < self.channels.len()
            invariant
                i <= self.channels@.len(),
                self.channels@.len() == old(self).channels@.len(),
                self.prev == old(self).prev,
                self.compressor == old(self).compressor,
                self.span == old(self).span,
                self.rollup_config == old(self).rollup_config,
                self.sub_safety_margin == old(self).sub_safety_margin,
                forall|j: int|
                    0 <= j < i ==> (#[trigger] self.channels@[j])@ == old(self).channels@[j]@.check_timed_out(
                        origin.number,
                    ),
                forall|j: int| i <= j < self.channels@.len() ==> self.channels@[j] == old(self).channels@[j],
            decreases self.channels@.len() - i,
        {
            let mut c = self.channels.remove(i);
            c.check_timed_out(origin.number);
            self.channels.insert(i, c);
            i = i + 1;
        }
    }
}

impl<P, C> FramePublished for ChannelBuilder<P, C> {
    /// Every channel records the published frame; nothing else changes.
    open spec fn frame_recorded(old: Self, new: Self, l1_block_num: u64) -> bool {
        &&& new.channels@.len() == old.channels@.len()
        &&& forall|j: int|
            0 <= j < old.channels@.len() ==> (#[trigger] new.channels@[j])@
                == old.channels@[j]@.frame_published(l1_block_num)
        &&& new.prev == old.prev
        &&& new.compressor == old.compressor
        &&& new.span == old.span
        &&& new.rollup_config == old.rollup_config
        &&& new.sub_safety_margin == old.sub_safety_margin
    }

    /// Tells every channel that a frame was published in L1 block `l1_block_num`.
    fn frame_published(&mut self, l1_block_num: u64)
        ensures
            final(self).channels@.len() == old(self).channels@.len(),
            forall|j: int|
                0 <= j < old(self).channels@.len() ==> (#[trigger] final(self).channels@[j])@
                    == old(self).channels@[j]@.frame_published(l1_block_num),
            final(self).prev == old(self).prev,
            final(self).compressor == old(self).compressor,
            final(self).span == old(self).span,
            final(self).rollup_config == old(self).rollup_config,
            final(self).sub_safety_margin == old(self).sub_safety_margin,
    {
        let mut i: usize = 0;
        while i < self.channels.len()
            invariant
                i <= self.channels@.len(),
                self.channels@.len() == old(self).channels@.len(),
                self.prev == old(self).prev,
                self.compressor == old(self).compressor,
                self.span == old(self).span,
                self.rollup_config == old(self).rollup_config,
                self.sub_safety_margin == old(self).sub_safety_margin,
                forall|j: int|
                    0 <= j < i ==> (#[trigger] self.channels@[j])@ == old(self).channels@[j]@.frame_published(
                        l1_block_num,
                    ),
                forall|j: int| i <= j < self.channels@.len() ==> self.channels@[j] == old(self).channels@[j],
            decreases self.channels@.len() - i,
        {
            let mut c = self.channels.remove(i);
            c.frame_published(l1_block_num);
            self.channels.insert(i, c);
            i = i + 1;
        }
    }
}

} // verus!
