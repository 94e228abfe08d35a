//! Contains logic for constructing a channel.

use vstd::prelude::*;

use crate::types::{Frame, FrameView, RollupConfig, SingleBatch};

verus! {

/// The absolute minimum size of a frame: the fixed overhead of a version 0
/// frame, 16 + 2 + 4 + 1 = 23 bytes.
pub const FRAME_V0_OVERHEAD_SIZE: u64 = 23;

/// The channel output type.
///
/// Batches enter the channel as their RLP encoding; the data waiting to be
/// output stands in `ready` until the next frame takes it.
#[derive(Debug, Clone, PartialEq, Eq, Default)]
pub struct ChannelOut {
    /// The current channel id.
    pub id: [u8; 16],
    /// The current frame number.
    pub frame: u16,
    /// The uncompressed size of the channel.
    /// This stays less than the max RLP bytes per channel.
    pub rlp_length: u64,
    /// If the channel is closed.
    pub closed: bool,
    /// The configured max frame size.
    pub max_frame_size: u64,
    /// The chain config.
    pub chain_config: RollupConfig,
    /// The channel data not yet output in a frame.
    pub ready: Vec<u8>,
    /// The L1 block number at which the channel times out; `0` while unset.
    pub timeout: u64,
    /// The number of L1 blocks by which the timeout is brought forward.
    pub sub_safety_margin: u64,
}

/// The state of a [ChannelOut].
pub struct ChannelState {
    /// The channel id.
    pub id: Seq<u8>,
    /// The number of the next frame.
    pub frame: u16,
    /// The RLP bytes accepted so far.
    pub rlp_length: u64,
    /// Whether the channel is closed.
    pub closed: bool,
    /// The configured max frame size.
    pub max_frame_size: u64,
    /// The chain config.
    pub chain_config: RollupConfig,
    /// The channel data not yet output.
    pub ready: Seq<u8>,
    /// The timeout L1 block number, `0` while unset.
    pub timeout: u64,
    /// The sub safety margin.
    pub sub_safety_margin: u64,
}

impl View for ChannelOut {
    type V = ChannelState;

    open spec fn view(&self) -> ChannelState {
        ChannelState {
            id: self.id@,
            frame: self.frame,
            rlp_length: self.rlp_length,
            closed: self.closed,
            max_frame_size: self.max_frame_size,
            chain_config: self.chain_config,
            ready: self.ready@,
            timeout: self.timeout,
            sub_safety_margin: self.sub_safety_margin,
        }
    }
}

impl ChannelState {
    /// The channel is well formed: it never holds more ready data than the
    /// RLP bytes it accepted, never accepts more than the Fjord maximum, and
    /// is closed once its frame number reaches `u16::MAX`.
    pub open spec fn wf(self) -> bool {
        &&& self.ready.len() <= self.rlp_length
        &&& self.rlp_length < crate::types::config::FJORD_MAX_RLP_BYTES_PER_CHANNEL
        &&& self.frame == u16::MAX ==> self.closed
    }

    /// Whether enough data is ready to fill a frame of the max frame size.
    pub open spec fn frame_ready(self) -> bool {
        self.ready.len() + FRAME_V0_OVERHEAD_SIZE >= self.max_frame_size
    }

    /// The state after a batch with RLP encoding `encoded` and timestamp
    /// `timestamp` is offered: a closed channel ignores it; a batch that would
    /// take the channel's RLP length to the max RLP bytes for its timestamp, or
    /// past it, closes the channel instead; otherwise the encoding is appended
    /// to the channel data.
    pub open spec fn add_batch(self, encoded: Seq<u8>, timestamp: u64) -> ChannelState {
        if self.closed {
            self
        } else if self.rlp_length + encoded.len() >= self.chain_config.max_rlp_bytes_at(timestamp) {
            ChannelState { closed: true, ..self }
        } else {
            ChannelState {
                rlp_length: (self.rlp_length + encoded.len()) as u64,
                ready: self.ready + encoded,
                ..self
            }
        }
    }

    /// A frame can be output: one is ready, and a frame number is left (the
    /// channel closed when its frame number reached `u16::MAX`).
    pub open spec fn can_output(self) -> bool {
        self.frame_ready() && self.frame < u16::MAX
    }

    /// All frames of the channel are output: no data is left, and the channel
    /// takes no more (it is closed, or it has output its data in frames; a
    /// builder never adds to a channel after opening it).
    pub open spec fn all_frames_output(self) -> bool {
        self.ready.len() == 0 && (self.closed || self.frame > 0)
    }

    /// The frame that the channel outputs next, if it can output one: it
    /// carries all ready data under the current frame number.
    pub open spec fn next_frame(self) -> Option<FrameView> {
        if self.can_output() {
            Some(FrameView { id: self.id, number: self.frame, data: self.ready, is_last: false })
        } else {
            None
        }
    }

    /// The state after [ChannelState::next_frame] is output: the frame number
    /// advances, the ready data is gone, and the channel closes once the frame
    /// number reaches `u16::MAX`.
    pub open spec fn after_output(self) -> ChannelState {
        if self.can_output() {
            let next = (self.frame + 1) as u16;
            ChannelState {
                frame: next,
                ready: Seq::empty(),
                closed: self.closed || next == u16::MAX,
                ..self
            }
        } else {
            self
        }
    }

    /// The timeout after a frame of the channel was published in L1 block
    /// `l1_block_num`: the earlier of the current timeout (if set) and
    /// `l1_block_num + channel_timeout - sub_safety_margin`, saturated to `u64`.
    pub open spec fn timeout_after_publish(self, l1_block_num: u64) -> u64 {
        let raised = l1_block_num + self.chain_config.channel_timeout;
        let capped = if raised > u64::MAX { u64::MAX as int } else { raised };
        let lowered = capped - self.sub_safety_margin;
        let candidate = if lowered < 0 { 0u64 } else { lowered as u64 };
        if self.timeout == 0 || self.timeout > candidate { candidate } else { self.timeout }
    }

    /// The state after a frame of the channel was published in L1 block `l1_block_num`.
    pub open spec fn frame_published(self, l1_block_num: u64) -> ChannelState {
        ChannelState { timeout: self.timeout_after_publish(l1_block_num), ..self }
    }

    /// Whether the channel has timed out at L1 block `l1_block_num`.
    pub open spec fn timed_out(self, l1_block_num: u64) -> bool {
        self.timeout != 0 && l1_block_num >= self.timeout
    }

    /// The state after the L1 origin moved to block `l1_block_num`: a timed-out
    /// channel closes.
    pub open spec fn check_timed_out(self, l1_block_num: u64) -> ChannelState {
        if self.timed_out(l1_block_num) {
            ChannelState { closed: true, ..self }
        } else {
            self
        }
    }
}

impl ChannelOut {
    /// Constructs a new, empty [ChannelOut] with channel id `id`.
    pub fn new(id: [u8; 16]) -> (c: Self)
        ensures
            c.id == id,
            c@.frame == 0,
            c@.rlp_length == 0,
            !c@.closed,
            c@.max_frame_size == 0,
            c@.chain_config == RollupConfig::new_spec(),
            c@.ready == Seq::<u8>::empty(),
            c@.timeout == 0,
            c@.sub_safety_margin == 0,
    {
        ChannelOut {
            id,
            frame: 0,
            rlp_length: 0,
            closed: false,
            max_frame_size: 0,
            chain_config: RollupConfig::new(),
            ready: Vec::new(),
            timeout: 0,
            sub_safety_margin: 0,
        }
    }

    /// Returns the ready bytes from the channel.
    pub fn ready_bytes(&self) -> (r: u64)
        ensures
            r == self.ready@.len(),
    {
        self.ready.len() as u64
    }

    /// Max RLP Bytes per channel.
    /// This is retrieved from the Chain Spec since it changes after the Fjord Hardfork.
    /// Uses the batch timestamp to determine the max RLP bytes per channel.
    pub fn max_rlp_bytes_per_channel(&self, batch: &SingleBatch) -> (r: u64)
        ensures
            r == self.chain_config.max_rlp_bytes_at(batch.timestamp),
    {
        crate::external::max_rlp_bytes_per_channel(&self.chain_config, batch.timestamp)
    }

    /// Adds a batch to the [ChannelOut].
    pub fn add_batch(&mut self, batch: SingleBatch)
        ensures
            final(self)@ == old(self)@.add_batch(batch.encoding(), batch.timestamp),
    {
        if self.closed {
            return;
        }
        let mut buf = batch.encode();
        let max_per_channel = self.max_rlp_bytes_per_channel(&batch);
        if (self.rlp_length as u128) + (buf.len() as u128) >= (max_per_channel as u128) {
            self.closed = true;
            return;
        }
        self.rlp_length = self.rlp_length + buf.len() as u64;
        self.ready.append(&mut buf);
    }

    /// Checks if a frame has enough bytes to output.
    pub fn frame_ready(&self) -> (r: bool)
        ensures
            r == self@.frame_ready(),
    {
        self.ready_bytes().saturating_add(FRAME_V0_OVERHEAD_SIZE) >= self.max_frame_size
    }

    /// Takes the channel data that is ready, to produce frame bytes.
    pub fn compress(&mut self) -> (r: Vec<u8>)
        ensures
            r@ == old(self)@.ready,
            final(self)@ == (ChannelState { ready: Seq::empty(), ..old(self)@ }),
    {
        let mut data = Vec::new();
        std::mem::swap(&mut data, &mut self.ready);
        data
    }

    /// Outputs the next frame if available: `None` where no frame is ready,
    /// and where the channel has used up its frame numbers.
    pub fn output_frame(&mut self) -> (r: Option<Frame>)
        ensures
            crate::types::frame::opt_frame_view(r) == old(self)@.next_frame(),
            final(self)@ == old(self)@.after_output(),
    {
        if !self.frame_ready() || self.frame == u16::MAX {
            return None;
        }
        let frame = Frame { id: self.id, number: self.frame, data: self.compress(), is_last: false };
        self.frame = self.frame + 1;
        if self.frame == u16::MAX {
            self.closed = true;
        }
        Some(frame)
    }

    /// Records that a frame of the channel was published in L1 block
    /// `l1_block_num`, bringing the channel timeout forward if needed.
    pub fn frame_published(&mut self, l1_block_num: u64)
        ensures
            final(self)@ == old(self)@.frame_published(l1_block_num),
    {
        let candidate = l1_block_num.saturating_add(self.chain_config.channel_timeout).saturating_sub(
            self.sub_safety_margin,
        );
        if self.timeout == 0 || self.timeout > candidate {
            self.timeout = candidate;
        }
    }

    /// Closes the channel if it has timed out at L1 block `l1_block_num`.
    pub fn check_timed_out(&mut self, l1_block_num: u64)
        ensures
            final(self)@ == old(self)@.check_timed_out(l1_block_num),
    {
        if self.timeout != 0 && l1_block_num >= self.timeout {
            self.closed = true;
        }
    }
}

} // verus!
