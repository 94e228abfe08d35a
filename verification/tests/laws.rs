use ser::stages::{L2Traversal, TransactionBuilder};
use ser::types::{
    block_to_batch, BlockTransactions, ChannelOut, Frame, Header, L2BlockRef, L2Transaction,
    RollupConfig, SingleBatch, SyncStatus,
};
use ser::types::Block;

fn batch(timestamp: u64) -> SingleBatch {
    SingleBatch {
        parent_hash: [1u8; 32],
        epoch_num: 2,
        epoch_hash: [3u8; 32],
        timestamp,
        transactions: vec![vec![0x02, 0xaa]],
    }
}

#[test]
fn closed_channel_stays_closed() {
    let mut c = ChannelOut::new([9u8; 16]);
    c.closed = true;
    c.add_batch(batch(1));
    assert!(c.closed);
    c.output_frame();
    assert!(c.closed);
    c.frame_published(10);
    assert!(c.closed);
    c.check_timed_out(0);
    assert!(c.closed);
}

#[test]
fn channel_data_is_conserved_across_frames() {
    let mut c = ChannelOut::new([9u8; 16]);
    c.max_frame_size = 1_000_000;
    let mut sent = Vec::new();
    for t in 0..5u64 {
        c.add_batch(batch(t));
        sent.extend(batch(t).encode());
        assert_eq!(c.output_frame(), None);
    }
    c.max_frame_size = 0;
    let f = c.output_frame().unwrap();
    assert_eq!(f.data, sent);
    assert_eq!(c.rlp_length, sent.len() as u64);
}

#[test]
fn accepted_batches_stay_within_limit() {
    let mut c = ChannelOut::new([9u8; 16]);
    c.chain_config = RollupConfig::new();
    let mut accepted = 0u64;
    c.rlp_length = 10_000_000 - 200;
    while !c.closed {
        c.add_batch(batch(1));
        if !c.closed {
            accepted += 1;
        }
        assert!(c.rlp_length <= 10_000_000);
    }
    assert_eq!(accepted, 2);
}

#[test]
fn add_blocks_keeps_numbers_unique() {
    let mk = |n: u64| L2BlockRef { number: n, ..Default::default() };
    let mut t = L2Traversal::new(mk(0), (), ());
    t.add_blocks(&[mk(1), mk(2)]);
    t.add_blocks(&[mk(2), mk(3), mk(1)]);
    let ns: Vec<u64> = t.blocks.iter().map(|b| b.number).collect();
    assert_eq!(ns, vec![1, 2, 3]);
}

#[test]
fn load_never_starts_behind_safe_head() {
    let mk = |n: u64| L2BlockRef { number: n, ..Default::default() };
    let mut t = L2Traversal::new(mk(2), (), ());
    let ss = SyncStatus { safe_l2: mk(7), unsafe_l2: mk(12), ..Default::default() };
    let (start, end) = t.plan_load(&ss).unwrap();
    assert_eq!((start, end), (8, 12));
    assert_eq!(t.numbers_to_load(start, end), vec![8, 9, 10, 11, 12]);
}

#[test]
fn frames_keep_their_order_across_transactions() {
    let mut tb = TransactionBuilder::new((), 3);
    let frames: Vec<Frame> = (0..8u16)
        .map(|n| Frame { id: [2u8; 16], number: n, data: vec![n as u8; n as usize], is_last: false })
        .collect();
    for f in frames.clone() {
        tb.add_frame(f);
    }
    let all: Vec<Frame> = tb.txs.iter().flat_map(|tx| tx.frames.clone()).collect();
    assert_eq!(all, frames);
    for tx in &tb.txs {
        assert!(tx.frames.len() <= 3);
        assert_eq!(tx.size, tx.frames.iter().map(|f| f.data.len() + 200).sum::<usize>());
    }
    assert_eq!(tb.txs.len(), 3);
}

#[test]
fn batches_carry_no_deposits() {
    let mut l1_info = vec![0u8; 260];
    l1_info[0..4].copy_from_slice(&[0x01, 0x5d, 0x8e, 0xb9]);
    let tx = op_alloy_consensus::TxDeposit { input: l1_info.into(), ..Default::default() };
    let envelope = op_alloy_consensus::OpTxEnvelope::Deposit(alloy_primitives::Sealable::seal_slow(tx));
    let encoded = alloy_eips::eip2718::Encodable2718::encoded_2718(&envelope);
    let block = Block {
        header: Header::default(),
        transactions: BlockTransactions::Full(vec![
            L2Transaction { transaction_type: Some(0x7E), encoded },
            L2Transaction { transaction_type: Some(0x7E), encoded: vec![0x7e] },
            L2Transaction { transaction_type: Some(2), encoded: vec![0x02] },
        ]),
    };
    let (b, _) = block_to_batch(&RollupConfig::new(), &block).unwrap();
    assert_eq!(b.transactions, vec![vec![0x02]]);
}

#[test]
fn adding_blocks_twice_changes_nothing() {
    let mk = |n: u64| L2BlockRef { number: n, ..Default::default() };
    let mut t = L2Traversal::new(mk(3), (), ());
    t.blocks = vec![mk(5)];
    let new_blocks = [mk(2), mk(4), mk(5), mk(6), mk(6), mk(1), mk(8)];
    t.add_blocks(&new_blocks);
    let blocks1 = t.blocks.clone();
    let cursor1 = t.cursor;
    assert_eq!(blocks1.iter().map(|b| b.number).collect::<Vec<u64>>(), vec![5, 4, 6, 8]);
    assert_eq!(cursor1.number, 8);
    t.add_blocks(&new_blocks);
    assert_eq!(t.blocks, blocks1);
    assert_eq!(t.cursor, cursor1);
}

#[test]
fn pruning_sorted_blocks_keeps_a_suffix() {
    let mk = |n: u64| L2BlockRef { number: n, ..Default::default() };
    let mut t = L2Traversal::new(mk(2), (), ());
    t.blocks = vec![mk(3), mk(4), mk(6), mk(7), mk(9)];
    let ss = SyncStatus { safe_l2: mk(5), unsafe_l2: mk(10), ..Default::default() };
    assert_eq!(t.plan_load(&ss), Some((6, 10)));
    assert_eq!(t.blocks, vec![mk(6), mk(7), mk(9)]);
}

#[test]
fn a_load_keeps_numbers_unique() {
    let mk = |n: u64| L2BlockRef { number: n, ..Default::default() };
    let mut t = L2Traversal::new(mk(2), (), ());
    t.blocks = vec![mk(3), mk(6), mk(8)];
    let ss = SyncStatus { safe_l2: mk(5), unsafe_l2: mk(9), ..Default::default() };
    let (start, end) = t.plan_load(&ss).unwrap();
    let numbers = t.numbers_to_load(start, end);
    assert_eq!(numbers, vec![7, 9]);
    let fresh: Vec<L2BlockRef> = numbers.iter().map(|n| mk(*n)).collect();
    t.finish_load(fresh, mk(9));
    let ns: Vec<u64> = t.blocks.iter().map(|b| b.number).collect();
    assert_eq!(ns, vec![6, 8, 7, 9]);
    assert_eq!(t.cursor, mk(9));
}
