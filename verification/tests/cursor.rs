use ser::driver::{fetch_range, BatchSubmitter, BlockCursor, CursorError};
use ser::types::{Block, BlockTransactions, Header, L1BlockRef, L2BlockRef, SyncStatus};

fn block_ref(number: u64, tag: u8) -> L2BlockRef {
    L2BlockRef { number, hash: [tag; 32], timestamp: number * 2, ..Default::default() }
}

fn status(head_l1: u64, safe: L2BlockRef, unsafe_head: L2BlockRef) -> SyncStatus {
    SyncStatus {
        head_l1: L1BlockRef { number: head_l1, ..Default::default() },
        safe_l2: safe,
        unsafe_l2: unsafe_head,
        ..Default::default()
    }
}

#[test]
fn new_cursor_starts_at_zero() {
    let c = BlockCursor::new((), ());
    assert_eq!(c.last_l2_block(), L2BlockRef::zero());
}

#[test]
fn empty_sync_status_is_refused() {
    let mut c = BlockCursor::new((), ());
    let ss = status(0, block_ref(5, 1), block_ref(9, 2));
    assert_eq!(c.calculate_range(&ss), Err(CursorError::EmptySyncStatus));
    assert_eq!(c.last_l2_block(), L2BlockRef::zero());
}

#[test]
fn startup_takes_safe_head_number() {
    let mut c = BlockCursor::new((), ());
    let ss = status(1, block_ref(5, 1), block_ref(9, 2));
    let (start, end) = c.calculate_range(&ss).unwrap();
    let mut expected = L2BlockRef::zero();
    expected.number = 5;
    assert_eq!(start, expected);
    assert_eq!(end, block_ref(9, 2));
    assert_eq!(c.last_l2_block(), expected);
}

#[test]
fn lagging_cursor_jumps_to_safe_head() {
    let mut c = BlockCursor::new((), ());
    c.record_loaded(&Block {
        header: Header { hash: [7u8; 32], number: 3, parent_hash: [6u8; 32], timestamp: 30 },
        transactions: BlockTransactions::Uncle,
    });
    let ss = status(1, block_ref(5, 1), block_ref(9, 2));
    let (start, _) = c.calculate_range(&ss).unwrap();
    assert_eq!(start, block_ref(5, 1));
}

#[test]
fn cursor_ahead_of_safe_head_stays() {
    let mut c = BlockCursor::new((), ());
    c.record_loaded(&Block {
        header: Header { hash: [7u8; 32], number: 8, parent_hash: [6u8; 32], timestamp: 30 },
        transactions: BlockTransactions::Uncle,
    });
    let before = c.last_l2_block();
    assert_eq!(before.number, 8);
    assert_eq!(before.hash, [7u8; 32]);
    assert_eq!(before.parent_hash, [6u8; 32]);
    assert_eq!(before.timestamp, 30);
    let ss = status(1, block_ref(5, 1), block_ref(9, 2));
    let (start, end) = c.calculate_range(&ss).unwrap();
    assert_eq!(start, before);
    assert_eq!(end, block_ref(9, 2));
}

#[test]
fn submitter_hands_out_its_cursor() {
    let mut s = BatchSubmitter::new(BlockCursor::new(1u8, 2u8));
    assert_eq!(*s.cursor_mut().rollup_node(), 1u8);
    assert_eq!(*s.cursor_mut().provider(), 2u8);
}

#[test]
fn fetch_range_runs_from_after_start_through_end() {
    assert_eq!(fetch_range(&block_ref(5, 1), &block_ref(9, 2)), Some((6, 9)));
    assert_eq!(fetch_range(&block_ref(8, 1), &block_ref(9, 2)), Some((9, 9)));
}

#[test]
fn fetch_range_is_empty_when_end_is_not_after_start() {
    assert_eq!(fetch_range(&block_ref(9, 1), &block_ref(9, 2)), None);
    assert_eq!(fetch_range(&block_ref(10, 1), &block_ref(9, 2)), None);
    assert_eq!(fetch_range(&block_ref(u64::MAX, 1), &block_ref(u64::MAX, 2)), None);
}
