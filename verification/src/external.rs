//! Calls into the outside crates that the pipeline relies on.

use alloy_eips::eip2718::Decodable2718;
use rand::{Rng, SeedableRng};
use vstd::prelude::*;

use crate::types::{Frame, RollupConfig, SingleBatch};

verus! {

/// The RLP encoding of a single batch with these fields, as `alloy_rlp`
/// encodes `op_alloy_protocol::SingleBatch`.
pub uninterp spec fn single_batch_rlp(
    parent_hash: Seq<u8>,
    epoch_num: u64,
    epoch_hash: Seq<u8>,
    timestamp: u64,
    transactions: Seq<Seq<u8>>,
) -> Seq<u8>;

/// The input (calldata) of the deposit transaction whose EIP-2718 encoding
/// `raw` starts with, as `op_alloy_consensus::OpTxEnvelope::decode_2718`
/// decodes it; `None` where it fails or decodes another transaction type.
pub uninterp spec fn deposit_calldata(raw: Seq<u8>) -> Option<Seq<u8>>;

/// Encodes the batch with `alloy_rlp::Encodable::encode` on an
/// `op_alloy_protocol::SingleBatch` with the same fields. Claimed: the bytes are
/// [single_batch_rlp] of the batch's fields.
#[verifier::external_body]
pub(crate) fn encode_single_batch(batch: &SingleBatch) -> (r: Vec<u8>)
    ensures
        r@ == single_batch_rlp(
            batch.parent_hash@,
            batch.epoch_num,
            batch.epoch_hash@,
            batch.timestamp,
            batch.transactions.deep_view(),
        ),
{
    let b = op_alloy_protocol::SingleBatch {
        parent_hash: batch.parent_hash.into(),
        epoch_num: batch.epoch_num,
        epoch_hash: batch.epoch_hash.into(),
        timestamp: batch.timestamp,
        transactions: batch.transactions.iter().map(|t| t.clone().into()).collect(),
    };
    let mut buf = Vec::new();
    alloy_rlp::Encodable::encode(&b, &mut buf);
    buf
}

/// Calls `op_alloy_genesis::RollupConfig::max_rlp_bytes_per_channel` on a
/// configuration with the same hardfork times. Claimed, as its source reads:
/// the Fjord limit where Fjord, Granite or Holocene is active at `timestamp`,
/// the Bedrock limit otherwise.
#[verifier::external_body]
pub(crate) fn max_rlp_bytes_per_channel(cfg: &RollupConfig, timestamp: u64) -> (r: u64)
    ensures
        r == cfg.max_rlp_bytes_at(timestamp),
{
    let c = op_alloy_genesis::RollupConfig {
        ecotone_time: cfg.ecotone_time,
        fjord_time: cfg.fjord_time,
        granite_time: cfg.granite_time,
        holocene_time: cfg.holocene_time,
        ..Default::default()
    };
    c.max_rlp_bytes_per_channel(timestamp)
}

/// Calls `op_alloy_protocol::Frame::size` on a frame with the same fields.
/// Claimed, as its source reads: the data length plus the frame overhead.
#[verifier::external_body]
pub(crate) fn frame_size(frame: &Frame) -> (r: usize)
    requires
        frame.data@.len() + crate::types::FRAME_OVERHEAD <= usize::MAX,
    ensures
        r == frame.data@.len() + crate::types::FRAME_OVERHEAD,
{
    let f = op_alloy_protocol::Frame {
        id: frame.id,
        number: frame.number,
        data: frame.data.clone(),
        is_last: frame.is_last,
    };
    f.size()
}

/// Calls `op_alloy_protocol::L1BlockInfoTx::decode_calldata` and reads the L1
/// block id of the result. Claimed, as its source reads: it succeeds exactly
/// on Bedrock calldata (selector, 260 bytes) and Ecotone calldata (selector,
/// 164 bytes), and both carry the number big-endian in bytes 28..36 and the
/// hash in bytes 100..132 (`l1_info_layout`).
#[verifier::external_body]
pub(crate) fn decode_l1_info_calldata(data: &[u8]) -> (r: Option<(u64, [u8; 32])>)
    ensures
        match r {
            Some((n, h)) => crate::types::l1_info::l1_info_layout(data@) == Some((n, h@)),
            None => crate::types::l1_info::l1_info_layout(data@) is None,
        },
{
    match op_alloy_protocol::L1BlockInfoTx::decode_calldata(data) {
        Ok(info) => Some((info.id().number, info.id().hash.0)),
        Err(_) => None,
    }
}

/// Decodes `raw` with `op_alloy_consensus::OpTxEnvelope::decode_2718` and
/// returns the input of the deposit transaction it holds. Claimed: the result
/// is [deposit_calldata] of the bytes.
#[verifier::external_body]
pub(crate) fn decode_deposit_input(raw: &[u8]) -> (r: Option<Vec<u8>>)
    ensures
        match r {
            Some(input) => deposit_calldata(raw@) == Some(input@),
            None => deposit_calldata(raw@) is None,
        },
{
    match op_alloy_consensus::OpTxEnvelope::decode_2718(&mut &raw[..]) {
        Ok(op_alloy_consensus::OpTxEnvelope::Deposit(deposit)) => Some(deposit.input.to_vec()),
        _ => None,
    }
}

/// Seeds `rand::rngs::SmallRng` from `rand::rngs::OsRng` with
/// `SeedableRng::from_rng` and fills a 16-byte channel id with `Rng::try_fill`.
/// Nothing is claimed of the id: it is random. `None` where the operating
/// system's entropy source fails.
#[verifier::external_body]
pub(crate) fn random_channel_id() -> (r: Option<[u8; 16]>) {
    let mut rng = rand::rngs::SmallRng::from_rng(rand::rngs::OsRng).ok()?;
    let mut id = [0u8; 16];
    rng.try_fill(&mut id).ok()?;
    Some(id)
}

} // verus!
