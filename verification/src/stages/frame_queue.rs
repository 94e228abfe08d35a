//! Frame Queue

use vstd::prelude::*;

verus! {

/// The [FrameQueue] stage of the batching pipeline.
#[derive(Debug, Clone)]
pub struct FrameQueue<P> {
    /// The previous stage.
    pub prev: P,
}

} // verus!
