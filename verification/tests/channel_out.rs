use ser::types::{ChannelOut, Frame, RollupConfig, SingleBatch, FRAME_V0_OVERHEAD_SIZE};

fn sample_batch(timestamp: u64) -> SingleBatch {
    SingleBatch {
        parent_hash: [1u8; 32],
        epoch_num: 2,
        epoch_hash: [3u8; 32],
        timestamp,
        transactions: vec![vec![0x02, 0xaa]],
    }
}

fn sample_batch_rlp(timestamp: u8) -> Vec<u8> {
    let mut out = vec![0xf8, 0x48, 0xa0];
    out.extend_from_slice(&[1u8; 32]);
    out.push(0x02);
    out.push(0xa0);
    out.extend_from_slice(&[3u8; 32]);
    out.push(timestamp);
    out.extend_from_slice(&[0xc3, 0x82, 0x02, 0xaa]);
    out
}

#[test]
fn new_channel_is_open_and_empty() {
    let c = ChannelOut::new([7u8; 16]);
    assert_eq!(c.id, [7u8; 16]);
    assert_eq!(c.frame, 0);
    assert_eq!(c.rlp_length, 0);
    assert!(!c.closed);
    assert_eq!(c.max_frame_size, 0);
    assert_eq!(c.chain_config, RollupConfig::new());
    assert!(c.ready.is_empty());
    assert_eq!(c.ready_bytes(), 0);
    assert_eq!(c.timeout, 0);
}


#[test]
fn batch_encoding_is_rlp() {
    assert_eq!(sample_batch(4).encode(), sample_batch_rlp(4));
}

#[test]
fn add_batch_appends_rlp_encoding() {
    let mut c = ChannelOut::new([9u8; 16]);
    c.add_batch(sample_batch(4));
    assert_eq!(c.ready, sample_batch_rlp(4));
    assert_eq!(c.rlp_length, 74);
    assert_eq!(c.ready_bytes(), 74);
    assert!(!c.closed);
    c.add_batch(sample_batch(5));
    let mut both = sample_batch_rlp(4);
    both.extend(sample_batch_rlp(5));
    assert_eq!(c.ready, both);
    assert_eq!(c.rlp_length, 148);
}

#[test]
fn closed_channel_ignores_batches() {
    let mut c = ChannelOut::new([9u8; 16]);
    c.closed = true;
    let before = c.clone();
    c.add_batch(sample_batch(4));
    assert_eq!(c, before);
}

#[test]
fn batch_over_limit_closes_channel() {
    let mut c = ChannelOut::new([9u8; 16]);
    c.rlp_length = 10_000_000 - 73;
    c.add_batch(sample_batch(4));
    assert!(c.closed);
    assert_eq!(c.rlp_length, 10_000_000 - 73);
    assert!(c.ready.is_empty());
}

#[test]
fn batch_reaching_limit_closes_channel() {
    let mut c = ChannelOut::new([9u8; 16]);
    c.rlp_length = 10_000_000 - 74;
    c.add_batch(sample_batch(4));
    assert!(c.closed);
    assert_eq!(c.rlp_length, 10_000_000 - 74);
}

#[test]
fn batch_just_below_limit_is_accepted() {
    let mut c = ChannelOut::new([9u8; 16]);
    c.rlp_length = 10_000_000 - 75;
    c.add_batch(sample_batch(4));
    assert!(!c.closed);
    assert_eq!(c.rlp_length, 10_000_000 - 1);
}

#[test]
fn fjord_raises_rlp_limit() {
    let mut c = ChannelOut::new([9u8; 16]);
    c.chain_config.fjord_time = Some(4);
    c.rlp_length = 10_000_000;
    c.add_batch(sample_batch(4));
    assert!(!c.closed);
    assert_eq!(c.rlp_length, 10_000_074);
}

#[test]
fn max_rlp_bytes_per_channel_follows_hardforks() {
    let mut c = ChannelOut::new([9u8; 16]);
    assert_eq!(c.max_rlp_bytes_per_channel(&sample_batch(100)), 10_000_000);
    c.chain_config.fjord_time = Some(100);
    assert_eq!(c.max_rlp_bytes_per_channel(&sample_batch(99)), 10_000_000);
    assert_eq!(c.max_rlp_bytes_per_channel(&sample_batch(100)), 100_000_000);
    c.chain_config.fjord_time = None;
    c.chain_config.granite_time = Some(50);
    assert_eq!(c.max_rlp_bytes_per_channel(&sample_batch(60)), 100_000_000);
    c.chain_config.granite_time = None;
    c.chain_config.holocene_time = Some(70);
    assert_eq!(c.max_rlp_bytes_per_channel(&sample_batch(60)), 10_000_000);
    assert_eq!(c.max_rlp_bytes_per_channel(&sample_batch(70)), 100_000_000);
}

#[test]
fn frame_ready_needs_a_full_frame() {
    let mut c = ChannelOut::new([9u8; 16]);
    c.add_batch(sample_batch(4));
    c.max_frame_size = 74 + FRAME_V0_OVERHEAD_SIZE;
    assert!(c.frame_ready());
    c.max_frame_size = 75 + FRAME_V0_OVERHEAD_SIZE;
    assert!(!c.frame_ready());
}

#[test]
fn output_frame_when_not_ready_changes_nothing() {
    let mut c = ChannelOut::new([9u8; 16]);
    c.max_frame_size = 1000;
    c.add_batch(sample_batch(4));
    let before = c.clone();
    assert_eq!(c.output_frame(), None);
    assert_eq!(c, before);
}

#[test]
fn frames_carry_ready_data_in_order() {
    let mut c = ChannelOut::new([9u8; 16]);
    c.add_batch(sample_batch(4));
    let first = c.output_frame().unwrap();
    assert_eq!(first.id, c.id);
    assert_eq!(first.number, 0);
    assert_eq!(first.data, sample_batch_rlp(4));
    assert!(!first.is_last);
    assert!(c.ready.is_empty());
    c.add_batch(sample_batch(5));
    let second = c.output_frame().unwrap();
    assert_eq!(second.number, 1);
    assert_eq!(second.data, sample_batch_rlp(5));
    assert_eq!(c.frame, 2);
    assert!(!c.closed);
}

#[test]
fn last_frame_number_closes_channel() {
    let mut c = ChannelOut::new([9u8; 16]);
    c.frame = u16::MAX - 1;
    let f = c.output_frame().unwrap();
    assert_eq!(f.number, u16::MAX - 1);
    assert_eq!(c.frame, u16::MAX);
    assert!(c.closed);
    let before = c.clone();
    assert_eq!(c.output_frame(), None);
    assert_eq!(c, before);
}

#[test]
fn compress_takes_ready_data() {
    let mut c = ChannelOut::new([9u8; 16]);
    c.add_batch(sample_batch(4));
    assert_eq!(c.compress(), sample_batch_rlp(4));
    assert!(c.ready.is_empty());
    assert_eq!(c.rlp_length, 74);
}

#[test]
fn frame_published_sets_timeout() {
    let mut c = ChannelOut::new([9u8; 16]);
    c.chain_config.channel_timeout = 50;
    c.sub_safety_margin = 10;
    c.frame_published(100);
    assert_eq!(c.timeout, 140);
    c.frame_published(120);
    assert_eq!(c.timeout, 140);
    c.frame_published(90);
    assert_eq!(c.timeout, 130);
}

#[test]
fn timeout_saturates() {
    let mut c = ChannelOut::new([9u8; 16]);
    c.chain_config.channel_timeout = 5;
    c.sub_safety_margin = 10;
    c.frame_published(u64::MAX);
    assert_eq!(c.timeout, u64::MAX - 10);
}

#[test]
fn timed_out_channel_closes() {
    let mut c = ChannelOut::new([9u8; 16]);
    c.check_timed_out(1_000);
    assert!(!c.closed);
    c.timeout = 140;
    c.check_timed_out(139);
    assert!(!c.closed);
    c.check_timed_out(140);
    assert!(c.closed);
}

#[test]
fn frame_size_counts_overhead() {
    let f = Frame { id: [0u8; 16], number: 3, data: vec![7u8; 5], is_last: false };
    assert_eq!(f.size(), 205);
}
