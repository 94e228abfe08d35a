//! Stages for batch submission.

pub mod l2_traversal;
pub use l2_traversal::L2Traversal;

pub mod l2_retrieval;
pub use l2_retrieval::{L2Retrieval, L2RetrievalProvider};

pub mod batch_processor;
pub use batch_processor::BatchProcessor;

pub mod channel_builder;
pub use channel_builder::ChannelBuilder;

pub mod transaction_builder;
pub use transaction_builder::TransactionBuilder;

pub mod frame_queue;
pub use frame_queue::FrameQueue;
