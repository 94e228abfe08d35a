//! The calldata of the L1 info deposit transaction.

use vstd::prelude::*;

use crate::types::RollupConfig;

verus! {

/// The function selector of a Bedrock L1 info transaction.
pub open spec fn bedrock_selector() -> Seq<u8> {
    seq![0x01u8, 0x5du8, 0x8eu8, 0xb9u8]
}

/// The function selector of an Ecotone L1 info transaction.
pub open spec fn ecotone_selector() -> Seq<u8> {
    seq![0x44u8, 0x0au8, 0x5eu8, 0x20u8]
}

/// The length of Bedrock L1 info calldata: the selector and eight words.
pub const L1_INFO_LEN_BEDROCK: usize = 260;

/// The length of Ecotone L1 info calldata: the selector and five words.
pub const L1_INFO_LEN_ECOTONE: usize = 164;

/// The big-endian value of `bytes`.
pub open spec fn be_value(bytes: Seq<u8>) -> nat
    decreases bytes.len(),
{
    if bytes.len() == 0 {
        0
    } else {
        be_value(bytes.drop_last()) * 256 + bytes.last() as nat
    }
}

/// The L1 block number and hash that L1 info calldata holds: Bedrock
/// calldata (its selector, 260 bytes) or Ecotone calldata (its selector, 164
/// bytes) both carry the number big-endian in bytes 28 to 36 and the hash in
/// bytes 100 to 132; any other data holds none.
pub open spec fn l1_info_layout(data: Seq<u8>) -> Option<(u64, Seq<u8>)> {
    if (data.len() == L1_INFO_LEN_BEDROCK && data.take(4) == bedrock_selector()) || (data.len()
        == L1_INFO_LEN_ECOTONE && data.take(4) == ecotone_selector()) {
        Some((be_value(data.subrange(28, 36)) as u64, data.subrange(100, 132)))
    } else {
        None
    }
}

/// The selector of the L1 info format in use for an L2 block with timestamp
/// `block_time`: Ecotone once Ecotone is active, except in its activation
/// block; Bedrock otherwise.
pub open spec fn expected_selector(cfg: RollupConfig, block_time: u64) -> Seq<u8> {
    if cfg.uses_ecotone_l1_info(block_time) {
        ecotone_selector()
    } else {
        bedrock_selector()
    }
}

/// The L1 block number and hash that `data` holds, read in the format that
/// `cfg` prescribes at `block_time`.
pub open spec fn l1_info_for(cfg: RollupConfig, block_time: u64, data: Seq<u8>) -> Option<(u64, Seq<u8>)> {
    if data.len() >= 4 && data.take(4) == expected_selector(cfg, block_time) {
        l1_info_layout(data)
    } else {
        None
    }
}

} // verus!
