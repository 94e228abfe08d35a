//! Contains trait definitions.

mod stages;
pub use stages::{FramePublished, OriginReceiver};
