//! Properties that hold of the pipeline's stages across calls.

use vstd::prelude::*;

use crate::stages::l2_traversal;

use crate::stages::transaction_builder;
use crate::types::{BatchTransaction, Block, ChannelOut, RollupConfig, SingleBatch, FRAME_V0_OVERHEAD_SIZE, ChannelState, L2BlockRef, L2Transaction, SyncStatus};

verus! {

/// Every operation on a channel keeps it well formed: its ready data never
/// exceeds the RLP bytes it accepted, which never exceed the Fjord maximum,
/// and it closes at the last frame number.
pub proof fn channel_stays_well_formed(
    s: ChannelState,
    encoded: Seq<u8>,
    timestamp: u64,
    l1_block_num: u64,
)
    requires
        s.wf(),
    ensures
        s.add_batch(encoded, timestamp).wf(),
        s.after_output().wf(),
        s.frame_published(l1_block_num).wf(),
        s.check_timed_out(l1_block_num).wf(),
{
}

/// A fresh channel is well formed.
pub proof fn fresh_channel_is_well_formed(s: ChannelState)
    requires
        s.ready.len() == 0,
        s.rlp_length == 0,
        s.frame == 0,
    ensures
        s.wf(),
{
}

/// A closed channel ignores every batch offered to it.
pub proof fn closed_channel_ignores_batches(s: ChannelState, encoded: Seq<u8>, timestamp: u64)
    requires
        s.closed,
    ensures
        s.add_batch(encoded, timestamp) == s,
{
}

/// Once closed, a channel stays closed, whatever happens to it next.
pub proof fn closed_channel_stays_closed(
    s: ChannelState,
    encoded: Seq<u8>,
    timestamp: u64,
    l1_block_num: u64,
)
    requires
        s.closed,
    ensures
        s.add_batch(encoded, timestamp).closed,
        s.after_output().closed,
        s.frame_published(l1_block_num).closed,
        s.check_timed_out(l1_block_num).closed,
{
}

/// An open channel that accepts a batch grows by exactly the batch's RLP
/// length and stays strictly below the max RLP bytes for the batch's
/// timestamp; one that refuses it closes, and keeps its data.
pub proof fn accepted_batches_stay_within_limit(s: ChannelState, encoded: Seq<u8>, timestamp: u64)
    requires
        !s.closed,
    ensures
        !s.add_batch(encoded, timestamp).closed ==> {
            &&& s.add_batch(encoded, timestamp).rlp_length == s.rlp_length + encoded.len()
            &&& s.add_batch(encoded, timestamp).rlp_length < s.chain_config.max_rlp_bytes_at(timestamp)
            &&& s.add_batch(encoded, timestamp).ready == s.ready + encoded
        },
        s.add_batch(encoded, timestamp).closed ==> {
            &&& s.rlp_length + encoded.len() >= s.chain_config.max_rlp_bytes_at(timestamp)
            &&& s.add_batch(encoded, timestamp).rlp_length == s.rlp_length
            &&& s.add_batch(encoded, timestamp).ready == s.ready
        },
{
}

/// Frames are numbered consecutively: the frame a channel outputs carries
/// its current frame number, the next one the number after it, and the
/// channel closes when the number reaches `u16::MAX`.
pub proof fn frames_numbered_consecutively(s: ChannelState)
    requires
        s.frame_ready(),
        s.frame < u16::MAX,
    ensures
        s.next_frame() matches Some(f) && f.number == s.frame && f.id == s.id && !f.is_last,
        s.after_output().frame == s.frame + 1,
        s.after_output().closed == (s.closed || s.frame + 1 == u16::MAX),
{
}

/// Channel data is conserved: a frame carries exactly the data that was
/// ready, and the batch an open channel accepts reaches the next frame, after
/// the data already waiting; nothing is left behind.
pub proof fn frame_carries_accepted_batch(s: ChannelState, encoded: Seq<u8>, timestamp: u64)
    requires
        !s.closed,
        s.rlp_length + encoded.len() < s.chain_config.max_rlp_bytes_at(timestamp),
        s.add_batch(encoded, timestamp).can_output(),
    ensures
        s.add_batch(encoded, timestamp).next_frame() matches Some(f) && f.data == s.ready + encoded,
        s.add_batch(encoded, timestamp).after_output().ready == Seq::<u8>::empty(),
{
}

/// A frame is output exactly when enough data is ready for a frame of the max
/// frame size and a frame number is left; otherwise output changes nothing.
/// A channel that used up its frame numbers is closed and outputs nothing
/// more, so no two of its frames share a number.
pub proof fn output_needs_a_full_frame(s: ChannelState)
    ensures
        s.next_frame() is Some <==> (s.ready.len() + FRAME_V0_OVERHEAD_SIZE >= s.max_frame_size
            && s.frame < u16::MAX),
        !s.can_output() ==> s.after_output() == s,
        s.frame == u16::MAX ==> s.next_frame() is None && s.after_output().frame == u16::MAX,
        s.after_output().frame >= s.frame,
{
}

/// Once set, the channel timeout only moves earlier; a channel whose timeout
/// has passed closes when checked, and a channel with no timeout never does.
pub proof fn timeout_only_moves_earlier(s: ChannelState, l1_block_num: u64)
    ensures
        s.timeout != 0 ==> s.frame_published(l1_block_num).timeout <= s.timeout,
        s.timed_out(l1_block_num) ==> s.check_timed_out(l1_block_num).closed,
        s.timeout == 0 ==> s.check_timed_out(l1_block_num) == s,
{
}

/// Each block that `add_blocks` appends comes from the new blocks, is
/// numbered beyond the old cursor and was not tracked before; the appended
/// blocks come in strictly ascending order of number.
pub proof fn appended_blocks_are_new(existing: Seq<L2BlockRef>, cursor: u64, new_blocks: Seq<L2BlockRef>)
    ensures
        forall|k: int|
            0 <= k < crate::stages::l2_traversal::appended(existing, cursor, new_blocks).len() ==> {
                let b = #[trigger] crate::stages::l2_traversal::appended(existing, cursor, new_blocks)[k];
                &&& !crate::stages::l2_traversal::tracks(existing, b.number)
                &&& b.number > cursor
                &&& exists|j: int| 0 <= j < new_blocks.len() && new_blocks[j] == b
            },
        crate::stages::l2_traversal::strictly_ascending(crate::stages::l2_traversal::appended(existing, cursor, new_blocks)),
        crate::stages::l2_traversal::appended(existing, cursor, new_blocks).len() <= new_blocks.len(),
    decreases new_blocks.len(),
{
    if new_blocks.len() > 0 {
        let prev = new_blocks.drop_last();
        appended_blocks_are_new(existing, cursor, prev);
        let p = crate::stages::l2_traversal::appended(existing, cursor, prev);
        let a = crate::stages::l2_traversal::appended(existing, cursor, new_blocks);
        assert forall|k: int| 0 <= k < a.len() implies {
            let b = #[trigger] a[k];
            &&& !crate::stages::l2_traversal::tracks(existing, b.number)
            &&& b.number > cursor
            &&& exists|j: int| 0 <= j < new_blocks.len() && new_blocks[j] == b
        } by {
            if k < p.len() {
                assert(a[k] == p[k]);
                let j = choose|j: int| 0 <= j < prev.len() && prev[j] == p[k];
                assert(new_blocks[j] == prev[j]);
            } else {
                assert(new_blocks[new_blocks.len() - 1] == a[k]);
            }
        }
        assert forall|i: int, j: int| 0 <= i < j < a.len() implies (#[trigger] a[i]).number
            < (#[trigger] a[j]).number by {
            if j < p.len() {
                assert(a[i] == p[i] && a[j] == p[j]);
            } else {
                assert(a[i] == p[i]);
                if i < p.len() - 1 {
                    assert(p[i].number < p[p.len() - 1].number);
                }
            }
        }
    }
}

/// Adding blocks never tracks one number twice: where the tracked blocks
/// have distinct numbers, so has the result.
pub proof fn add_blocks_keeps_numbers_unique(existing: Seq<L2BlockRef>, cursor: u64, new_blocks: Seq<L2BlockRef>)
    requires
        crate::stages::l2_traversal::unique_numbers(existing),
    ensures
        crate::stages::l2_traversal::unique_numbers(existing + crate::stages::l2_traversal::appended(existing, cursor, new_blocks)),
{
    appended_blocks_are_new(existing, cursor, new_blocks);
    let a = crate::stages::l2_traversal::appended(existing, cursor, new_blocks);
    let all = existing + a;
    assert forall|i: int, j: int|
        0 <= i < all.len() && 0 <= j < all.len() && i != j implies (#[trigger] all[i]).number
            != (#[trigger] all[j]).number by {
        if i < existing.len() && j < existing.len() {
            assert(all[i] == existing[i] && all[j] == existing[j]);
        } else if i >= existing.len() && j >= existing.len() {
            assert(all[i] == a[i - existing.len()] && all[j] == a[j - existing.len()]);
            if i < j {
                assert(a[i - existing.len()].number < a[j - existing.len()].number);
            } else {
                assert(a[j - existing.len()].number < a[i - existing.len()].number);
            }
        } else if i < existing.len() {
            assert(all[i] == existing[i] && all[j] == a[j - existing.len()]);
            assert(!crate::stages::l2_traversal::tracks(existing, a[j - existing.len()].number));
        } else {
            assert(all[j] == existing[j] && all[i] == a[i - existing.len()]);
            assert(!crate::stages::l2_traversal::tracks(existing, a[i - existing.len()].number));
        }
    }
}

/// Pruning removes the blocks before the safe head, which were already
/// submitted: what it keeps is numbered at least `number` and comes from the
/// tracked blocks, and every tracked block numbered at least `number` is kept.
pub proof fn pruning_drops_submitted_blocks(blocks: Seq<L2BlockRef>, number: u64)
    ensures
        forall|k: int|
            0 <= k < crate::stages::l2_traversal::at_or_after(blocks, number).len() ==> {
                let b = #[trigger] crate::stages::l2_traversal::at_or_after(blocks, number)[k];
                &&& b.number >= number
                &&& exists|j: int| 0 <= j < blocks.len() && blocks[j] == b
            },
        forall|j: int|
            0 <= j < blocks.len() && (#[trigger] blocks[j]).number >= number ==> crate::stages::l2_traversal::at_or_after(
                blocks,
                number,
            ).contains(blocks[j]),
        crate::stages::l2_traversal::unique_numbers(blocks) ==> crate::stages::l2_traversal::unique_numbers(crate::stages::l2_traversal::at_or_after(blocks, number)),
    decreases blocks.len(),
{
    if blocks.len() > 0 {
        let prev = blocks.drop_last();
        if crate::stages::l2_traversal::unique_numbers(blocks) {
            assert forall|i: int, j: int|
                0 <= i < prev.len() && 0 <= j < prev.len() && i != j implies (#[trigger] prev[i]).number
                    != (#[trigger] prev[j]).number by {
                assert(prev[i] == blocks[i] && prev[j] == blocks[j]);
            }
        }
        pruning_drops_submitted_blocks(prev, number);
        let p = crate::stages::l2_traversal::at_or_after(prev, number);
        let a = crate::stages::l2_traversal::at_or_after(blocks, number);
        assert forall|k: int| 0 <= k < a.len() implies {
            let b = #[trigger] a[k];
            &&& b.number >= number
            &&& exists|j: int| 0 <= j < blocks.len() && blocks[j] == b
        } by {
            if k < p.len() {
                assert(a[k] == p[k]);
                let j = choose|j: int| 0 <= j < prev.len() && prev[j] == p[k];
                assert(blocks[j] == prev[j]);
            } else {
                assert(blocks[blocks.len() - 1] == a[k]);
            }
        }
        assert forall|j: int| 0 <= j < blocks.len() && (#[trigger] blocks[j]).number >= number implies a.contains(
            blocks[j],
        ) by {
            if j < blocks.len() - 1 {
                assert(prev[j] == blocks[j]);
                assert(p.contains(prev[j]));
                let k = choose|k: int| 0 <= k < p.len() && p[k] == prev[j];
                assert(a[k] == p[k]);
            } else {
                assert(a[a.len() - 1] == blocks[j]);
            }
        }
        if crate::stages::l2_traversal::unique_numbers(blocks) && a.len() > p.len() {
            let last = blocks[blocks.len() - 1];
            assert forall|i: int, j: int|
                0 <= i < a.len() && 0 <= j < a.len() && i != j implies (#[trigger] a[i]).number
                    != (#[trigger] a[j]).number by {
                if i < p.len() && j < p.len() {
                    assert(a[i] == p[i] && a[j] == p[j]);
                } else if i < p.len() {
                    assert(a[i] == p[i] && a[j] == last);
                    let k = choose|k: int| 0 <= k < prev.len() && prev[k] == p[i];
                    assert(blocks[k] == prev[k]);
                } else {
                    assert(a[j] == p[j] && a[i] == last);
                    let k = choose|k: int| 0 <= k < prev.len() && prev[k] == p[j];
                    assert(blocks[k] == prev[k]);
                }
            }
        }
    }
}

/// `tracks` carries over to a sequence that extends `s`.
proof fn tracks_in_extension(s: Seq<L2BlockRef>, t: Seq<L2BlockRef>, number: u64)
    requires
        l2_traversal::tracks(s, number),
        s.len() <= t.len(),
        forall|i: int| 0 <= i < s.len() ==> t[i] == s[i],
    ensures
        l2_traversal::tracks(t, number),
{
    let i = choose|i: int| 0 <= i < s.len() && (#[trigger] s[i]).number == number;
    assert(t[i] == s[i]);
}

/// Nothing is appended where every new block is tracked or not beyond the cursor.
proof fn nothing_appended(existing: Seq<L2BlockRef>, cursor: u64, new_blocks: Seq<L2BlockRef>)
    requires
        forall|k: int|
            0 <= k < new_blocks.len() ==> l2_traversal::tracks(existing, (#[trigger] new_blocks[k]).number)
                || new_blocks[k].number <= cursor,
    ensures
        l2_traversal::appended(existing, cursor, new_blocks).len() == 0,
    decreases new_blocks.len(),
{
    if new_blocks.len() > 0 {
        let prev = new_blocks.drop_last();
        assert forall|k: int| 0 <= k < prev.len() implies l2_traversal::tracks(
            existing,
            (#[trigger] prev[k]).number,
        ) || prev[k].number <= cursor by {
            assert(prev[k] == new_blocks[k]);
        }
        nothing_appended(existing, cursor, prev);
        assert(new_blocks.last() == new_blocks[new_blocks.len() - 1]);
    }
}

/// After `add_blocks`, each of the new blocks is tracked or not beyond the
/// new cursor, which is not behind the old one.
proof fn added_blocks_are_covered(existing: Seq<L2BlockRef>, cursor: L2BlockRef, new_blocks: Seq<L2BlockRef>)
    ensures
        l2_traversal::cursor_after_add(existing, cursor, new_blocks).number >= cursor.number,
        forall|k: int|
            0 <= k < new_blocks.len() ==> l2_traversal::tracks(
                existing + l2_traversal::appended(existing, cursor.number, new_blocks),
                (#[trigger] new_blocks[k]).number,
            ) || new_blocks[k].number <= l2_traversal::cursor_after_add(existing, cursor, new_blocks).number,
    decreases new_blocks.len(),
{
    if new_blocks.len() > 0 {
        let prev = new_blocks.drop_last();
        added_blocks_are_covered(existing, cursor, prev);
        let p = l2_traversal::appended(existing, cursor.number, prev);
        let a = l2_traversal::appended(existing, cursor.number, new_blocks);
        let fp = l2_traversal::cursor_after_add(existing, cursor, prev).number;
        let fa = l2_traversal::cursor_after_add(existing, cursor, new_blocks).number;
        let b = new_blocks.last();
        assert(fa >= fp);
        assert forall|i: int| 0 <= i < (existing + p).len() implies (existing + a)[i] == (existing
            + p)[i] by {
            if i >= existing.len() {
                assert(a[i - existing.len()] == p[i - existing.len()]);
            }
        }
        assert forall|k: int| 0 <= k < new_blocks.len() implies l2_traversal::tracks(
            existing + a,
            (#[trigger] new_blocks[k]).number,
        ) || new_blocks[k].number <= fa by {
            if k < prev.len() {
                assert(prev[k] == new_blocks[k]);
                if l2_traversal::tracks(existing + p, prev[k].number) {
                    tracks_in_extension(existing + p, existing + a, prev[k].number);
                }
            } else {
                assert(new_blocks[k] == b);
                if a.len() > p.len() {
                    assert((existing + a)[(existing.len() + p.len()) as int] == b);
                } else if l2_traversal::tracks(existing, b.number) {
                    assert forall|i: int| 0 <= i < existing.len() implies (existing + a)[i]
                        == existing[i] by {}
                    tracks_in_extension(existing, existing + a, b.number);
                }
            }
        }
    }
}

/// Adding the same blocks a second time changes nothing: the tracked blocks
/// and the cursor stay as the first time left them.
pub proof fn add_blocks_is_idempotent(existing: Seq<L2BlockRef>, cursor: L2BlockRef, new_blocks: Seq<L2BlockRef>)
    ensures
        ({
            let blocks1 = existing + l2_traversal::appended(existing, cursor.number, new_blocks);
            let cursor1 = l2_traversal::cursor_after_add(existing, cursor, new_blocks);
            &&& l2_traversal::appended(blocks1, cursor1.number, new_blocks) == Seq::<L2BlockRef>::empty()
            &&& blocks1 + l2_traversal::appended(blocks1, cursor1.number, new_blocks) == blocks1
            &&& l2_traversal::cursor_after_add(blocks1, cursor1, new_blocks) == cursor1
        }),
{
    let blocks1 = existing + l2_traversal::appended(existing, cursor.number, new_blocks);
    let cursor1 = l2_traversal::cursor_after_add(existing, cursor, new_blocks);
    added_blocks_are_covered(existing, cursor, new_blocks);
    nothing_appended(blocks1, cursor1.number, new_blocks);
    assert(l2_traversal::appended(blocks1, cursor1.number, new_blocks) =~= Seq::<L2BlockRef>::empty());
    assert(blocks1 + Seq::<L2BlockRef>::empty() =~= blocks1);
}

/// The index of the first block numbered at least `number`, on blocks in
/// ascending order; what pruning keeps starts there.
proof fn first_kept(blocks: Seq<L2BlockRef>, number: u64) -> (k: int)
    requires
        l2_traversal::ascending(blocks),
    ensures
        0 <= k <= blocks.len(),
        l2_traversal::at_or_after(blocks, number) == blocks.skip(k),
        forall|j: int| 0 <= j < k ==> (#[trigger] blocks[j]).number < number,
    decreases blocks.len(),
{
    if blocks.len() == 0 {
        assert(blocks.skip(0) =~= Seq::<L2BlockRef>::empty());
        0
    } else {
        let prev = blocks.drop_last();
        assert forall|i: int, j: int| 0 <= i <= j < prev.len() implies (#[trigger] prev[i]).number
            <= (#[trigger] prev[j]).number by {
            assert(prev[i] == blocks[i] && prev[j] == blocks[j]);
        }
        let k0 = first_kept(prev, number);
        let last = blocks[blocks.len() - 1];
        if last.number >= number {
            assert forall|j: int| 0 <= j < k0 implies (#[trigger] blocks[j]).number < number by {
                assert(prev[j] == blocks[j]);
            }
            assert(prev.skip(k0).push(last) =~= blocks.skip(k0));
            k0
        } else {
            pruning_drops_submitted_blocks(prev, number);
            if k0 < prev.len() {
                assert(prev.skip(k0)[0] == prev[k0]);
                assert(prev[k0] == blocks[k0]);
                assert(blocks[k0].number <= last.number);
            }
            assert forall|j: int| 0 <= j < blocks.len() implies (#[trigger] blocks[j]).number < number by {
                assert(blocks[j].number <= blocks[blocks.len() - 1].number);
            }
            assert(blocks.skip(blocks.len() as int) =~= Seq::<L2BlockRef>::empty());
            assert(prev.skip(k0) =~= Seq::<L2BlockRef>::empty());
            blocks.len() as int
        }
    }
}

/// On blocks in ascending order of number, pruning keeps a suffix: it drops
/// the blocks before the first one numbered at least `number`, all numbered
/// below it, and keeps the rest.
pub proof fn pruning_keeps_a_suffix(blocks: Seq<L2BlockRef>, number: u64)
    requires
        l2_traversal::ascending(blocks),
    ensures
        exists|k: int|
            0 <= k <= blocks.len() && l2_traversal::at_or_after(blocks, number) == #[trigger] blocks.skip(k)
                && forall|j: int| 0 <= j < k ==> (#[trigger] blocks[j]).number < number,
{
    let k = first_kept(blocks, number);
    assert(l2_traversal::at_or_after(blocks, number) == blocks.skip(k));
}

/// Appending blocks in strictly ascending order of number, none of whose
/// numbers is tracked yet, keeps the tracked numbers distinct.
pub proof fn appending_fresh_blocks_keeps_numbers_unique(kept: Seq<L2BlockRef>, fresh: Seq<L2BlockRef>)
    requires
        l2_traversal::unique_numbers(kept),
        l2_traversal::strictly_ascending(fresh),
        forall|k: int| 0 <= k < fresh.len() ==> !l2_traversal::tracks(kept, #[trigger] fresh[k].number),
    ensures
        l2_traversal::unique_numbers(kept + fresh),
{
    let all = kept + fresh;
    let n = kept.len();
    assert forall|i: int, j: int|
        0 <= i < all.len() && 0 <= j < all.len() && i != j implies (#[trigger] all[i]).number
            != (#[trigger] all[j]).number by {
        if i < n && j < n {
            assert(all[i] == kept[i] && all[j] == kept[j]);
        } else if i >= n && j >= n {
            assert(all[i] == fresh[i - n] && all[j] == fresh[j - n]);
            if i < j {
                assert(fresh[i - n].number < fresh[j - n].number);
            } else {
                assert(fresh[j - n].number < fresh[i - n].number);
            }
        } else if i < n {
            assert(all[i] == kept[i] && all[j] == fresh[j - n]);
            assert(!l2_traversal::tracks(kept, fresh[j - n].number));
        } else {
            assert(all[j] == kept[j] && all[i] == fresh[i - n]);
            assert(!l2_traversal::tracks(kept, fresh[i - n].number));
        }
    }
}

/// A load as a whole keeps the tracked block numbers distinct: pruning keeps
/// them distinct, and appending the fetched blocks (in strictly ascending
/// order, none of whose numbers the pruned blocks track, as
/// `numbers_to_load` yields them) keeps them so. On tracked blocks in
/// ascending order, what pruning keeps is a suffix of them.
pub proof fn load_keeps_numbers_unique(
    cursor: L2BlockRef,
    blocks: Seq<L2BlockRef>,
    ss: SyncStatus,
    fresh: Seq<L2BlockRef>,
)
    requires
        l2_traversal::unique_numbers(blocks),
        l2_traversal::strictly_ascending(fresh),
        forall|k: int|
            0 <= k < fresh.len() ==> !l2_traversal::tracks(
                l2_traversal::pruned(cursor, blocks, ss),
                #[trigger] fresh[k].number,
            ),
    ensures
        l2_traversal::unique_numbers(l2_traversal::pruned(cursor, blocks, ss) + fresh),
        l2_traversal::ascending(blocks) ==> exists|k: int|
            0 <= k <= blocks.len() && l2_traversal::pruned(cursor, blocks, ss) == #[trigger] blocks.skip(k),
{
    pruning_drops_submitted_blocks(blocks, ss.safe_l2.number);
    appending_fresh_blocks_keeps_numbers_unique(l2_traversal::pruned(cursor, blocks, ss), fresh);
    if l2_traversal::ascending(blocks) {
        if cursor.number < ss.safe_l2.number {
            let k = first_kept(blocks, ss.safe_l2.number);
            assert(l2_traversal::pruned(cursor, blocks, ss) == blocks.skip(k));
        } else {
            assert(blocks.skip(0) =~= blocks);
        }
    }
}

/// Where the configuration reads the block's L1 info as reading it in either
/// format does, the two conversions of a block agree: they fail with the
/// same error, or both succeed (and then with batches that agree, as
/// `batch_of_block_is_unique` states).
pub proof fn conversions_agree(cfg: RollupConfig, block: Block)
    requires
        crate::types::l1_info::l1_info_for(cfg, block.header.timestamp, crate::types::utils::info_calldata(block))
            == crate::types::l1_info::l1_info_layout(crate::types::utils::info_calldata(block)),
    ensures
        crate::types::utils::batch_error(cfg, block) == crate::types::utils::any_format_batch_error(block),
{
}

/// The channel builder removes a channel once all its frames are output; in
/// particular a closed channel with no data left. The other channels keep
/// their order.
pub proof fn finished_channel_is_removed(channels: Seq<ChannelOut>)
    requires
        channels.len() > 0,
        channels[0]@.all_frames_output() || (channels[0]@.closed && channels[0]@.ready.len() == 0),
    ensures
        crate::stages::channel_builder::without_finished(channels) == channels.drop_first(),
{
}

/// A block determines its batch, and the two ways to turn it into one agree:
/// where `block_to_batch` succeeds under some configuration, the batch
/// processor (which takes L1 info in either format) succeeds too, and any two
/// batches of the block agree in every field.
pub proof fn batch_of_block_is_unique(cfg: RollupConfig, a: SingleBatch, b: SingleBatch, block: Block)
    requires
        crate::types::utils::is_batch_of(a, a.epoch(), block),
        crate::types::utils::is_batch_of(b, b.epoch(), block),
        crate::types::l1_info::l1_info_layout(crate::types::utils::info_calldata(block)) == Some(
            (a.epoch_num, a.epoch_hash@),
        ),
        crate::types::l1_info::l1_info_layout(crate::types::utils::info_calldata(block)) == Some(
            (b.epoch_num, b.epoch_hash@),
        ),
    ensures
        a.parent_hash == b.parent_hash,
        a.epoch_num == b.epoch_num,
        a.epoch_hash@ == b.epoch_hash@,
        a.timestamp == b.timestamp,
        a.transactions.deep_view() == b.transactions.deep_view(),
        crate::types::utils::batch_error(cfg, block) is None ==> crate::types::utils::any_format_batch_error(
            block,
        ) is None,
{
}

/// Reading L1 info in the format that the configuration prescribes gives,
/// where it succeeds, what reading it in either format gives.
pub proof fn configured_format_agrees(cfg: RollupConfig, block_time: u64, data: Seq<u8>)
    ensures
        crate::types::l1_info::l1_info_for(cfg, block_time, data) is Some ==> crate::types::l1_info::l1_info_for(
            cfg,
            block_time,
            data,
        ) == crate::types::l1_info::l1_info_layout(data),
{
}

/// A load never starts behind the safe L2 head, nor behind the cursor.
pub proof fn load_starts_at_or_after_safe_head(cursor: L2BlockRef, ss: SyncStatus)
    ensures
        crate::stages::l2_traversal::load_base(cursor, ss).number >= ss.safe_l2.number,
        crate::stages::l2_traversal::load_base(cursor, ss).number >= cursor.number,
{
}

/// Batch submission never resumes behind the safe L2 head.
pub proof fn submission_resumes_at_or_after_safe_head(last: L2BlockRef, ss: SyncStatus)
    ensures
        crate::driver::cursor::range_start(last, ss).number >= ss.safe_l2.number,
        crate::driver::cursor::range_start(last, ss).number >= last.number || last.number <= ss.safe_l2.number,
{
}

/// A batch carries no deposit transaction: each of its transactions is the
/// encoding of a non-deposit transaction of the block, and where the block
/// has no deposits, the batch carries all of them, in order.
pub proof fn batches_skip_deposits(txs: Seq<L2Transaction>)
    ensures
        crate::types::utils::raw_transactions(txs).len() <= txs.len(),
        forall|k: int|
            0 <= k < crate::types::utils::raw_transactions(txs).len() ==> exists|j: int|
                0 <= j < txs.len() && !crate::types::block::is_deposit(txs[j]) && txs[j].encoded@ == (#[trigger] crate::types::utils::raw_transactions(
                    txs,
                )[k]),
        (forall|j: int| 0 <= j < txs.len() ==> !crate::types::block::is_deposit(#[trigger] txs[j])) ==> crate::types::utils::raw_transactions(txs)
            == txs.map_values(|t: L2Transaction| t.encoded@),
    decreases txs.len(),
{
    if txs.len() > 0 {
        let prev = txs.drop_last();
        batches_skip_deposits(prev);
        let r = crate::types::utils::raw_transactions(txs);
        assert forall|k: int| 0 <= k < r.len() implies exists|j: int|
            0 <= j < txs.len() && !crate::types::block::is_deposit(txs[j]) && txs[j].encoded@ == (#[trigger] r[k]) by {
            if k < crate::types::utils::raw_transactions(prev).len() {
                let j = choose|j: int|
                    0 <= j < prev.len() && !crate::types::block::is_deposit(prev[j]) && prev[j].encoded@ == crate::types::utils::raw_transactions(
                        prev,
                    )[k];
                assert(txs[j] == prev[j]);
            } else {
                assert(txs[txs.len() - 1].encoded@ == r[k]);
            }
        }
        if forall|j: int| 0 <= j < txs.len() ==> !crate::types::block::is_deposit(#[trigger] txs[j]) {
            assert forall|j: int| 0 <= j < prev.len() implies !crate::types::block::is_deposit(#[trigger] prev[j]) by {
                assert(prev[j] == txs[j]);
            }
            assert(!crate::types::block::is_deposit(txs[txs.len() - 1]));
            assert(crate::types::utils::raw_transactions(txs) =~= txs.map_values(|t: L2Transaction| t.encoded@));
        }
    } else {
        assert(crate::types::utils::raw_transactions(txs) =~= txs.map_values(|t: L2Transaction| t.encoded@));
    }
}

/// A frame carries exactly the data that is ready in the channel, whether
/// the channel is open or closed (a channel closed with data still ready
/// outputs it), under the channel's id and current frame number; after the
/// frame no data is left ready.
pub proof fn frame_carries_ready_data(s: ChannelState)
    ensures
        s.next_frame() matches Some(f) ==> f.data == s.ready && f.id == s.id && f.number == s.frame,
        s.ready.len() + FRAME_V0_OVERHEAD_SIZE >= s.max_frame_size && s.frame < u16::MAX
            ==> s.next_frame() == Some(
            crate::types::FrameView { id: s.id, number: s.frame, data: s.ready, is_last: false },
        ),
        s.next_frame() is Some ==> s.after_output().ready.len() == 0,
        s.next_frame() is None ==> s.after_output().ready == s.ready,
{
}

/// The channel builder never drops data: a first channel that still has data
/// ready is kept (and its next frame is the one output), and a channel is
/// only ever removed once no data is left in it.
pub proof fn channel_with_ready_data_is_kept(channels: Seq<ChannelOut>)
    ensures
        channels.len() > 0 && channels[0]@.ready.len() > 0 ==> crate::stages::channel_builder::without_finished(
            channels,
        ) == channels,
        crate::stages::channel_builder::without_finished(channels) != channels ==> {
            &&& channels.len() > 0
            &&& channels[0]@.ready.len() == 0
            &&& crate::stages::channel_builder::without_finished(channels) == channels.drop_first()
        },
{
}

/// There is a transaction that is not full where some transaction holds
/// fewer than `max_frames` frames.
proof fn open_transaction_exists(txs: Seq<BatchTransaction>, max_frames: u16, i: int)
    requires
        0 <= i < txs.len(),
        !txs[i].spec_is_full(max_frames),
    ensures
        transaction_builder::has_open(txs, max_frames),
    decreases i,
{
    if forall|j: int| 0 <= j < i ==> (#[trigger] txs[j]).spec_is_full(max_frames) {
        assert(transaction_builder::is_first_open(txs, max_frames, i));
    } else {
        let j = choose|j: int| 0 <= j < i && !(#[trigger] txs[j]).spec_is_full(max_frames);
        open_transaction_exists(txs, max_frames, j);
    }
}

/// A batch transaction is full exactly when it holds `max_frames` frames or
/// more. So a frame joins an existing transaction exactly when some
/// transaction holds fewer than `max_frames` frames, and then the first
/// such transaction; every transaction before it holds `max_frames` or more.
pub proof fn transaction_full_at_max_frames(tx: BatchTransaction, txs: Seq<BatchTransaction>, max_frames: u16)
    ensures
        tx.spec_is_full(max_frames) <==> tx.frames@.len() >= max_frames,
        transaction_builder::has_open(txs, max_frames) <==> exists|i: int|
            0 <= i < txs.len() && (#[trigger] txs[i]).frames@.len() < max_frames,
        transaction_builder::has_open(txs, max_frames) ==> {
            let i = transaction_builder::first_open(txs, max_frames);
            &&& 0 <= i < txs.len()
            &&& txs[i].frames@.len() < max_frames
            &&& forall|j: int| 0 <= j < i ==> (#[trigger] txs[j]).frames@.len() >= max_frames
        },
{
    if exists|i: int| 0 <= i < txs.len() && (#[trigger] txs[i]).frames@.len() < max_frames {
        let i = choose|i: int| 0 <= i < txs.len() && (#[trigger] txs[i]).frames@.len() < max_frames;
        open_transaction_exists(txs, max_frames, i);
    }
    if transaction_builder::has_open(txs, max_frames) {
        let k = choose|k: int| transaction_builder::is_first_open(txs, max_frames, k);
        assert(transaction_builder::is_first_open(txs, max_frames, k));
        let i = transaction_builder::first_open(txs, max_frames);
        assert(transaction_builder::is_first_open(txs, max_frames, i));
        assert forall|j: int| 0 <= j < i implies (#[trigger] txs[j]).frames@.len() >= max_frames by {
            assert(txs[j].spec_is_full(max_frames));
        }
    }
}

/// A batch carries exactly the block's transactions that are not deposits,
/// in block order, each as its encoding: deposits anywhere in the block are
/// left out, and every other transaction is kept.
pub proof fn batch_holds_every_non_deposit(txs: Seq<L2Transaction>)
    ensures
        crate::types::utils::raw_transactions(txs) == txs.filter(
            |t: L2Transaction| !crate::types::block::is_deposit(t),
        ).map_values(|t: L2Transaction| t.encoded@),
    decreases txs.len(),
{
    reveal(Seq::filter);
    let pred = |t: L2Transaction| !crate::types::block::is_deposit(t);
    let enc = |t: L2Transaction| t.encoded@;
    if txs.len() == 0 {
        assert(txs.filter(pred) =~= Seq::<L2Transaction>::empty());
        assert(crate::types::utils::raw_transactions(txs) =~= txs.filter(pred).map_values(enc));
    } else {
        let prev = txs.drop_last();
        batch_holds_every_non_deposit(prev);
        let f = prev.filter(pred);
        if pred(txs.last()) {
            assert(txs.filter(pred) == f.push(txs.last()));
            assert(f.push(txs.last()).map_values(enc) =~= f.map_values(enc).push(txs.last().encoded@));
        } else {
            assert(txs.filter(pred) == f);
        }
    }
}

/// Blocks use the Ecotone L1 info format exactly from the block after
/// Ecotone's activation on: where Ecotone is scheduled at `t`, every block
/// after `t` requires it (also where `t` is genesis), the activation block
/// itself and the blocks before it do not, and where no hardfork that
/// includes Ecotone has activated, no block requires it.
pub proof fn ecotone_l1_info_after_activation(cfg: RollupConfig, timestamp: u64, data: Seq<u8>)
    ensures
        (cfg.ecotone_time matches Some(t) && t < timestamp) ==> cfg.uses_ecotone_l1_info(timestamp),
        (cfg.ecotone_time matches Some(t) && t == timestamp) ==> !cfg.uses_ecotone_l1_info(timestamp),
        !crate::types::config::fork_active(cfg.ecotone_time, timestamp) && !crate::types::config::fork_active(
            cfg.fjord_time,
            timestamp,
        ) && !crate::types::config::fork_active(cfg.granite_time, timestamp)
            && !crate::types::config::fork_active(cfg.holocene_time, timestamp)
            ==> !cfg.uses_ecotone_l1_info(timestamp),
        ((cfg.ecotone_time matches Some(t) && t < timestamp) && data.len() == crate::types::l1_info::L1_INFO_LEN_ECOTONE
            && data.take(4) == crate::types::l1_info::ecotone_selector()) ==> crate::types::l1_info::l1_info_for(
            cfg,
            timestamp,
            data,
        ) == crate::types::l1_info::l1_info_layout(data) && crate::types::l1_info::l1_info_for(
            cfg,
            timestamp,
            data,
        ) is Some,
{
}

} // verus!
