//! Contains utilities for working with types and conversions.

use vstd::prelude::*;

use crate::types::{Block, BlockTransactions, L1BlockInfo, L2Transaction, RollupConfig, SingleBatch};

verus! {

/// Why a block could not be turned into a batch.
#[derive(Debug, Clone, Copy, PartialEq, Eq)]
pub enum BatchError {
    /// The block has no transactions.
    EmptyBlock,
    /// The block came with transaction hashes only, not full transactions.
    MissingFullTransactions,
    /// The first transaction of the block (the L1 info transaction) is not a deposit.
    FirstTransactionNotDeposit,
    /// The first transaction does not decode as a deposit transaction.
    UndecodableDeposit,
    /// The L1 info transaction's calldata could not be decoded.
    InvalidL1Info,
}

/// The encodings of the transactions that are not deposits, in block order.
pub open spec fn raw_transactions(txs: Seq<L2Transaction>) -> Seq<Seq<u8>>
    decreases txs.len(),
{
    if txs.len() == 0 {
        Seq::empty()
    } else {
        let prev = raw_transactions(txs.drop_last());
        if crate::types::block::is_deposit(txs.last()) {
            prev
        } else {
            prev.push(txs.last().encoded@)
        }
    }
}

/// The full transactions of a block (empty for the other forms).
pub open spec fn full_transactions(block: Block) -> Seq<L2Transaction> {
    match block.transactions {
        BlockTransactions::Full(txs) => txs@,
        _ => Seq::empty(),
    }
}

/// The calldata of the block's L1 info transaction: the input of the deposit
/// transaction that comes first (empty where it does not decode).
pub open spec fn info_calldata(block: Block) -> Seq<u8> {
    match crate::external::deposit_calldata(full_transactions(block)[0].encoded@) {
        Some(c) => c,
        None => Seq::empty(),
    }
}

/// The error that the checks before decoding the L1 info end in, or `None`.
pub open spec fn prepare_error(block: Block) -> Option<BatchError> {
    if block.transactions.spec_len() == 0 {
        Some(BatchError::EmptyBlock)
    } else {
        match block.transactions {
            BlockTransactions::Full(txs) => {
                if !crate::types::block::is_deposit(txs@[0]) {
                    Some(BatchError::FirstTransactionNotDeposit)
                } else if crate::external::deposit_calldata(txs@[0].encoded@) is None {
                    Some(BatchError::UndecodableDeposit)
                } else {
                    None
                }
            },
            _ => Some(BatchError::MissingFullTransactions),
        }
    }
}

/// The error that turning `block` into a batch under `cfg` ends in, or
/// `None` on success: the L1 info is read in the format that `cfg`
/// prescribes at the block's timestamp.
pub open spec fn batch_error(cfg: RollupConfig, block: Block) -> Option<BatchError> {
    if prepare_error(block) is Some {
        prepare_error(block)
    } else if crate::types::l1_info::l1_info_for(cfg, block.header.timestamp, info_calldata(block)) is None {
        Some(BatchError::InvalidL1Info)
    } else {
        None
    }
}

/// The error that turning `block` into a batch ends in where the L1 info may
/// come in either format, or `None` on success.
pub open spec fn any_format_batch_error(block: Block) -> Option<BatchError> {
    if prepare_error(block) is Some {
        prepare_error(block)
    } else if crate::types::l1_info::l1_info_layout(info_calldata(block)) is None {
        Some(BatchError::InvalidL1Info)
    } else {
        None
    }
}

/// `batch` is the batch of `block` with L1 origin `info`: the block's parent
/// hash and timestamp, the epoch of `info`, and the block's non-deposit
/// transactions in order.
pub open spec fn is_batch_of(batch: SingleBatch, info: L1BlockInfo, block: Block) -> bool {
    &&& batch.parent_hash == block.header.parent_hash
    &&& batch.epoch_num == info.number
    &&& batch.epoch_hash == info.hash
    &&& batch.timestamp == block.header.timestamp
    &&& batch.transactions.deep_view() == raw_transactions(full_transactions(block))
}

/// Copies a byte string.
fn copy_bytes(src: &Vec<u8>) -> (r: Vec<u8>)
    ensures
        r@ == src@,
{
    let mut r: Vec<u8> = Vec::new();
    let mut i: usize = 0;
    while i < src.len()
        invariant
            i <= src@.len(),
            r@ == src@.take(i as int),
        decreases src@.len() - i,
    {
        r.push(src[i]);
        i = i + 1;
        assert(r@ =~= src@.take(i as int));
    }
    assert(src@.take(i as int) =~= src@);
    r
}

/// The encodings of the non-deposit transactions in `txs`, in order.
fn encode_transactions(txs: &Vec<L2Transaction>) -> (r: Vec<Vec<u8>>)
    ensures
        r.deep_view() == raw_transactions(txs@),
{
    let mut raw: Vec<Vec<u8>> = Vec::new();
    let mut i: usize = 0;
    while i < txs.len()
        invariant
            i <= txs@.len(),
            raw.deep_view() == raw_transactions(txs@.take(i as int)),
        decreases txs@.len() - i,
    {
        let tx = &txs[i];
        assert(txs@.take(i + 1).drop_last() =~= txs@.take(i as int));
        if tx.transaction_type == Some(crate::types::DEPOSIT_TX_TYPE) {
            i = i + 1;
            continue;
        }
        let ghost prev = raw.deep_view();
        let bytes = copy_bytes(&tx.encoded);
        assert(bytes.deep_view() =~= tx.encoded@);
        raw.push(bytes);
        assert(raw.deep_view() =~= prev.push(tx.encoded@));
        i = i + 1;
    }
    assert(txs@.take(i as int) =~= txs@);
    raw
}

/// Constructs an [L1BlockInfo] from the calldata of an L1 info transaction,
/// read in the format in use for an L2 block with timestamp `block_time`
/// under `rollup_cfg`.
pub fn l1_block_info_from_bytes(
    rollup_cfg: &RollupConfig,
    block_time: u64,
    data: &[u8],
) -> (r: Result<L1BlockInfo, BatchError>)
    ensures
        match r {
            Ok(info) => crate::types::l1_info::l1_info_for(*rollup_cfg, block_time, data@) == Some(
                (info.number, info.hash@),
            ),
            Err(e) => e == BatchError::InvalidL1Info && crate::types::l1_info::l1_info_for(
                *rollup_cfg,
                block_time,
                data@,
            ) is None,
        },
{
    let ecotone = rollup_cfg.l1_info_is_ecotone(block_time);
    let selector_ok = data.len() >= 4 && if ecotone {
        data[0] == 0x44 && data[1] == 0x0a && data[2] == 0x5e && data[3] == 0x20
    } else {
        data[0] == 0x01 && data[1] == 0x5d && data[2] == 0x8e && data[3] == 0xb9
    };
    let ghost expected = crate::types::l1_info::expected_selector(*rollup_cfg, block_time);
    if !selector_ok {
        proof {
            if data@.len() >= 4 && data@.take(4) == expected {
                assert(data@.take(4)[0] == data@[0] && data@.take(4)[1] == data@[1]);
                assert(data@.take(4)[2] == data@[2] && data@.take(4)[3] == data@[3]);
            }
        }
        return Err(BatchError::InvalidL1Info);
    }
    assert(data@.take(4) =~= expected);
    match crate::external::decode_l1_info_calldata(data) {
        Some((number, hash)) => Ok(L1BlockInfo { number, hash }),
        None => Err(BatchError::InvalidL1Info),
    }
}

/// The non-deposit transactions of `block` and the calldata of its L1 info
/// transaction: the checks that come before decoding the L1 info.
pub(crate) fn prepare_batch(block: &Block) -> (r: Result<(Vec<Vec<u8>>, Vec<u8>), BatchError>)
    ensures
        match r {
            Ok((raw, calldata)) => prepare_error(*block) is None && raw.deep_view() == raw_transactions(
                full_transactions(*block),
            ) && calldata@ == info_calldata(*block),
            Err(e) => prepare_error(*block) == Some(e),
        },
{
    if block.transactions.is_empty() {
        return Err(BatchError::EmptyBlock);
    }
    let txs = match &block.transactions {
        BlockTransactions::Full(txs) => txs,
        _ => {
            return Err(BatchError::MissingFullTransactions);
        },
    };
    let raw_txs = encode_transactions(txs);
    let l1_info_tx = &txs[0];
    if l1_info_tx.transaction_type != Some(crate::types::DEPOSIT_TX_TYPE) {
        return Err(BatchError::FirstTransactionNotDeposit);
    }
    match crate::external::decode_deposit_input(l1_info_tx.encoded.as_slice()) {
        Some(calldata) => Ok((raw_txs, calldata)),
        None => Err(BatchError::UndecodableDeposit),
    }
}

/// Converts a [Block] into a [SingleBatch], along with the L1 block that its
/// L1 info transaction names, read in the format that `cfg` prescribes at
/// the block's timestamp.
pub fn block_to_batch(cfg: &RollupConfig, block: &Block) -> (r: Result<
    (SingleBatch, L1BlockInfo),
    BatchError,
>)
    ensures
        match r {
            Ok((batch, info)) => {
                &&& batch_error(*cfg, *block) is None
                &&& is_batch_of(batch, info, *block)
                &&& crate::types::l1_info::l1_info_for(*cfg, block.header.timestamp, info_calldata(*block))
                    == Some((info.number, info.hash@))
            },
            Err(e) => batch_error(*cfg, *block) == Some(e),
        },
{
    let (raw_txs, calldata) = prepare_batch(block)?;
    let l1_info = l1_block_info_from_bytes(cfg, block.header.timestamp, calldata.as_slice())?;
    Ok(
        (
            SingleBatch {
                parent_hash: block.header.parent_hash,
                epoch_num: l1_info.number,
                epoch_hash: l1_info.hash,
                timestamp: block.header.timestamp,
                transactions: raw_txs,
            },
            l1_info,
        ),
    )
}

} // verus!
