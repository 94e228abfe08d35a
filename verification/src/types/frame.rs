//! Channel frames.

use vstd::prelude::*;

verus! {

/// The fixed overhead of a frame, counted in its size: a frame's size is the
/// length of its data plus this overhead.
pub const FRAME_OVERHEAD: usize = 200;

/// A segment of a channel's data, as posted to L1.
#[derive(Debug, Clone, PartialEq, Eq, Default)]
pub struct Frame {
    /// The id of the channel that the frame belongs to.
    pub id: [u8; 16],
    /// The position of the frame within its channel.
    pub number: u16,
    /// The frame's share of the channel data.
    pub data: Vec<u8>,
    /// Whether this is the last frame of its channel.
    pub is_last: bool,
}

/// The contents of a [Frame].
pub struct FrameView {
    /// The channel id.
    pub id: Seq<u8>,
    /// The frame number.
    pub number: u16,
    /// The frame data.
    pub data: Seq<u8>,
    /// Whether this is the last frame of its channel.
    pub is_last: bool,
}

impl View for Frame {
    type V = FrameView;

    open spec fn view(&self) -> FrameView {
        FrameView { id: self.id@, number: self.number, data: self.data@, is_last: self.is_last }
    }
}

impl Frame {
    /// The size that the frame counts for: its data length plus [FRAME_OVERHEAD].
    pub open spec fn spec_size(&self) -> nat {
        self.data@.len() + FRAME_OVERHEAD as nat
    }

    /// Returns the size of the frame.
    pub fn size(&self) -> (r: usize)
        requires
            self.data@.len() + FRAME_OVERHEAD <= usize::MAX,
        ensures
            r == self.spec_size(),
    {
        crate::external::frame_size(self)
    }
}

/// The view of an optional frame.
pub open spec fn opt_frame_view(f: Option<Frame>) -> Option<FrameView> {
    match f {
        Some(f) => Some(f@),
        None => None,
    }
}

} // verus!
