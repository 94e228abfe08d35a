//! The driver for the batch submission pipeline.

pub mod cursor;
pub use cursor::{fetch_range, BlockCursor, CursorError};

pub mod submitter;
pub use submitter::BatchSubmitter;
