use ser::stages::{
    BatchProcessor, ChannelBuilder, L2Retrieval, L2RetrievalProvider, L2Traversal,
    TransactionBuilder,
};
use ser::types::{
    BatchTransaction, Block, BlockTransactions, Frame, Header, L1BlockRef, L2BlockRef,
    RollupConfig, SingleBatch, SyncStatus,
};
use ser::{FramePublished, OriginReceiver};

fn block_ref(number: u64) -> L2BlockRef {
    L2BlockRef { number, hash: [number as u8; 32], ..Default::default() }
}

fn traversal(cursor: u64, held: &[u64]) -> L2Traversal<(), ()> {
    let mut t = L2Traversal::new(block_ref(cursor), (), ());
    t.blocks = held.iter().map(|n| block_ref(*n)).collect();
    t
}

fn numbers(blocks: &[L2BlockRef]) -> Vec<u64> {
    blocks.iter().map(|b| b.number).collect()
}

fn status(safe: u64, unsafe_head: u64) -> SyncStatus {
    SyncStatus { safe_l2: block_ref(safe), unsafe_l2: block_ref(unsafe_head), ..Default::default() }
}

fn frame(number: u16, len: usize) -> Frame {
    Frame { id: [1u8; 16], number, data: vec![0u8; len], is_last: false }
}

#[test]
fn add_blocks_skips_tracked_numbers() {
    let mut t = traversal(3, &[2, 3]);
    t.add_blocks(&[block_ref(3), block_ref(4), block_ref(5)]);
    assert_eq!(numbers(&t.blocks), vec![2, 3, 4, 5]);
    assert_eq!(t.cursor, block_ref(5));
}

#[test]
fn add_blocks_with_nothing_new_changes_nothing() {
    let mut t = traversal(3, &[2, 3]);
    t.add_blocks(&[]);
    t.add_blocks(&[block_ref(2), block_ref(3)]);
    assert_eq!(numbers(&t.blocks), vec![2, 3]);
    assert_eq!(t.cursor, block_ref(3));
}

#[test]
fn add_blocks_validates_against_cursor() {
    let mut t = traversal(5, &[]);
    t.add_blocks(&[block_ref(7), block_ref(7), block_ref(3), block_ref(8), block_ref(6)]);
    assert_eq!(numbers(&t.blocks), vec![7, 8]);
    assert_eq!(t.cursor, block_ref(8));
    t.add_blocks(&[block_ref(2), block_ref(8)]);
    assert_eq!(numbers(&t.blocks), vec![7, 8]);
    assert_eq!(t.cursor, block_ref(8));
}

#[test]
fn next_blocks_hands_out_everything_in_order() {
    let mut t = traversal(1, &[1]);
    t.add_blocks(&[block_ref(2), block_ref(1), block_ref(3)]);
    assert_eq!(numbers(&t.next_blocks()), vec![1, 2, 3]);
    assert!(t.blocks.is_empty());
    assert_eq!(t.cursor, block_ref(3));
    assert!(t.next_blocks().is_empty());
}

#[test]
fn tracks_block_finds_numbers() {
    let t = traversal(0, &[4, 9]);
    assert!(t.tracks_block(9));
    assert!(!t.tracks_block(5));
}

#[test]
fn plan_load_ignores_unsafe_head_behind_cursor() {
    let mut t = traversal(10, &[8, 9]);
    assert_eq!(t.plan_load(&status(3, 9)), None);
    assert_eq!(numbers(&t.blocks), vec![8, 9]);
    assert_eq!(t.cursor, block_ref(10));
}

#[test]
fn plan_load_from_cursor() {
    let mut t = traversal(5, &[4, 5]);
    assert_eq!(t.plan_load(&status(3, 9)), Some((6, 9)));
    assert_eq!(numbers(&t.blocks), vec![4, 5]);
    assert_eq!(t.cursor, block_ref(5));
}

#[test]
fn plan_load_behind_safe_head_prunes_blocks() {
    let mut t = traversal(2, &[1, 2, 6, 3, 8]);
    assert_eq!(t.plan_load(&status(5, 9)), Some((6, 9)));
    assert_eq!(numbers(&t.blocks), vec![6, 8]);
}

#[test]
fn plan_load_drops_all_blocks_before_safe_head() {
    let mut t = traversal(2, &[1, 2]);
    assert_eq!(t.plan_load(&status(5, 9)), Some((6, 9)));
    assert!(t.blocks.is_empty());
}

#[test]
fn numbers_to_load_skips_tracked_blocks() {
    let t = traversal(0, &[3, 5]);
    assert_eq!(t.numbers_to_load(2, 6), vec![2, 4, 6]);
    assert_eq!(t.numbers_to_load(5, 5), Vec::<u64>::new());
    assert_eq!(t.numbers_to_load(6, 5), Vec::<u64>::new());
    assert_eq!(t.numbers_to_load(u64::MAX - 1, u64::MAX), vec![u64::MAX - 1, u64::MAX]);
}

#[test]
fn finish_load_appends_and_moves_cursor() {
    let mut t = traversal(5, &[5]);
    t.finish_load(vec![block_ref(6), block_ref(7)], block_ref(9));
    assert_eq!(numbers(&t.blocks), vec![5, 6, 7]);
    assert_eq!(t.cursor, block_ref(9));
}

fn l2_block(number: u64) -> Block {
    Block {
        header: Header { hash: [0u8; 32], number, parent_hash: [0u8; 32], timestamp: number },
        transactions: BlockTransactions::Uncle,
    }
}

#[test]
fn retrieval_queue_is_first_in_first_out() {
    let mut r = L2Retrieval::new((), ());
    assert_eq!(r.take_next_block(), None);
    assert!(r.on_fetched(Some(l2_block(1))));
    assert!(r.on_fetched(Some(l2_block(2))));
    assert!(!r.on_fetched(None));
    assert_eq!(r.blocks.len(), 2);
    assert_eq!(r.take_next_block(), Some(l2_block(1)));
    assert_eq!(r.take_next_block(), Some(l2_block(2)));
    assert_eq!(r.take_next_block(), None);
}

fn batch(timestamp: u64) -> SingleBatch {
    SingleBatch {
        parent_hash: [1u8; 32],
        epoch_num: 2,
        epoch_hash: [3u8; 32],
        timestamp,
        transactions: vec![vec![0x02, 0xaa]],
    }
}

#[test]
fn channel_builder_opens_a_channel_per_batch() {
    let mut cfg = RollupConfig::new();
    cfg.channel_timeout = 20;
    let mut b = ChannelBuilder::new(BatchProcessor::new(()), false, cfg, (), 4);
    assert!(b.channels.is_empty());
    b.accept_batch(batch(4)).unwrap();
    assert_eq!(b.channels.len(), 1);
    assert_eq!(b.channels[0].chain_config, cfg);
    assert_eq!(b.channels[0].sub_safety_margin, 4);
    assert_eq!(b.channels[0].rlp_length, 74);
    b.accept_batch(batch(5)).unwrap();
    assert_eq!(b.channels.len(), 2);
}

#[test]
fn channel_builder_opens_channels_with_random_ids() {
    let mut b = ChannelBuilder::new((), false, RollupConfig::new(), (), 0);
    b.accept_batch(batch(4)).unwrap();
    b.accept_batch(batch(5)).unwrap();
    assert_ne!(b.channels[0].id, b.channels[1].id);
}

#[test]
fn channel_builder_opens_channel_with_given_id() {
    let mut b = ChannelBuilder::new((), false, RollupConfig::new(), (), 3);
    b.open_channel([5u8; 16], batch(4));
    assert_eq!(b.channels.len(), 1);
    assert_eq!(b.channels[0].id, [5u8; 16]);
    assert_eq!(b.channels[0].sub_safety_margin, 3);
    assert_eq!(b.channels[0].ready, batch(4).encode());
}

#[test]
fn channel_builder_outputs_frames_of_the_first_channel() {
    let mut b = ChannelBuilder::new((), false, RollupConfig::new(), (), 0);
    b.accept_batch(batch(4)).unwrap();
    b.accept_batch(batch(5)).unwrap();
    let f = b.poll_frame().unwrap();
    assert_eq!(f.number, 0);
    assert_eq!(f.id, b.channels[0].id);
    assert_eq!(f.data, batch(4).encode());
    assert_eq!(b.channels[1].ready, batch(5).encode());
    let g = b.poll_frame().unwrap();
    assert_eq!(b.channels.len(), 1);
    assert_eq!(g.id, b.channels[0].id);
    assert_eq!(g.number, 0);
    assert_eq!(g.data, batch(5).encode());
    assert_eq!(b.poll_frame(), None);
    assert!(b.channels.is_empty());
    assert_eq!(b.poll_frame(), None);
}

#[test]
fn channel_builder_removes_closed_empty_channel() {
    let mut b = ChannelBuilder::new((), false, RollupConfig::new(), (), 0);
    b.accept_batch(batch(4)).unwrap();
    b.channels[0].compress();
    b.channels[0].closed = true;
    assert_eq!(b.poll_frame(), None);
    assert!(b.channels.is_empty());
}

#[test]
fn channel_builder_keeps_channel_without_ready_frame() {
    let mut b = ChannelBuilder::new((), false, RollupConfig::new(), (), 0);
    b.accept_batch(batch(4)).unwrap();
    b.channels[0].max_frame_size = 1000;
    assert_eq!(b.poll_frame(), None);
    assert_eq!(b.channels.len(), 1);
    assert_eq!(b.channels[0].ready, batch(4).encode());
}

#[test]
fn channel_builder_times_out_channels() {
    let mut cfg = RollupConfig::new();
    cfg.channel_timeout = 10;
    let mut b = ChannelBuilder::new((), false, cfg, (), 2);
    b.accept_batch(batch(4)).unwrap();
    b.accept_batch(batch(5)).unwrap();
    b.frame_published(100);
    assert_eq!(b.channels[0].timeout, 108);
    assert_eq!(b.channels[1].timeout, 108);
    b.set_origin(L1BlockRef { number: 107, ..Default::default() });
    assert!(!b.channels[0].closed);
    b.set_origin(L1BlockRef { number: 108, ..Default::default() });
    assert!(b.channels[0].closed && b.channels[1].closed);
}

#[test]
fn transaction_builder_fills_transactions_in_order() {
    let mut tb = TransactionBuilder::new((), 2);
    assert!(tb.first_transaction().is_none());
    tb.add_frame(frame(0, 1));
    tb.add_frame(frame(1, 2));
    tb.add_frame(frame(2, 3));
    assert_eq!(tb.txs.len(), 2);
    assert_eq!(tb.txs[0].frames, vec![frame(0, 1), frame(1, 2)]);
    assert_eq!(tb.txs[0].size, 201 + 202);
    assert_eq!(tb.txs[1].frames, vec![frame(2, 3)]);
    assert_eq!(tb.txs[1].size, 203);
    assert_eq!(tb.first_transaction(), Some(&tb.txs[0]));
}

#[test]
fn transaction_builder_reuses_first_open_transaction() {
    let mut tb = TransactionBuilder::new((), 2);
    tb.txs = vec![
        BatchTransaction { size: 0, frames: vec![] },
        BatchTransaction { size: 200, frames: vec![frame(9, 0)] },
    ];
    tb.add_frame(frame(0, 0));
    assert_eq!(tb.txs[0].frames, vec![frame(0, 0)]);
    assert_eq!(tb.txs[0].size, 200);
    assert_eq!(tb.txs[1].frames.len(), 1);
}

#[test]
fn zero_max_frames_gives_one_transaction_per_frame() {
    let mut tb = TransactionBuilder::new((), 0);
    tb.add_frame(frame(0, 0));
    tb.add_frame(frame(1, 0));
    assert_eq!(tb.txs.len(), 2);
    assert_eq!(tb.txs[1].frames, vec![frame(1, 0)]);
}

#[test]
fn batch_transaction_is_full_at_max_frames() {
    let tx = BatchTransaction { size: 400, frames: vec![frame(0, 0), frame(1, 0)] };
    assert!(tx.is_full(2));
    assert!(tx.is_full(1));
    assert!(!tx.is_full(3));
}

#[test]
fn transaction_builder_passes_signals_back() {
    let mut cfg = RollupConfig::new();
    cfg.channel_timeout = 10;
    let mut cb = ChannelBuilder::new((), false, cfg, (), 0);
    cb.accept_batch(batch(4)).unwrap();
    let mut tb = TransactionBuilder::new(cb, 4);
    tb.frame_published(5);
    assert_eq!(tb.prev.channels[0].timeout, 15);
    tb.set_origin(L1BlockRef { number: 15, ..Default::default() });
    assert!(tb.prev.channels[0].closed);
}
