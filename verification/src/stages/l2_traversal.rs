//! L2 Traversal Stage

use vstd::prelude::*;

use crate::stages::L2RetrievalProvider;
use crate::types::{L2BlockRef, SyncStatus};

verus! {

/// The [L2Traversal] stage of the batching pipeline.
///
/// This stage sits at the bottom or input of the pipeline.
#[derive(Debug, Clone)]
pub struct L2Traversal<R, P> {
    /// The l2 block cursor
    pub cursor: L2BlockRef,
    /// A list of L2 Blocks in the traversal stage
    pub blocks: Vec<L2BlockRef>,
    /// The rollup node to fetch sync status from.
    pub rollup_node: R,
    /// The l2 provider to fetch [L2BlockRef] from.
    pub l2_provider: P,
}

/// Whether some block of `blocks` has number `number`.
pub open spec fn tracks(blocks: Seq<L2BlockRef>, number: u64) -> bool {
    exists|i: int| 0 <= i < blocks.len() && (#[trigger] blocks[i]).number == number
}

/// The blocks that `add_blocks` appends, given the tracked blocks `existing`
/// and the cursor number `cursor`: going through `new_blocks` in order, a
/// block is appended where its number is beyond the cursor (moved to each
/// appended block in turn) and not tracked yet.
pub open spec fn appended(existing: Seq<L2BlockRef>, cursor: u64, new_blocks: Seq<L2BlockRef>) -> Seq<
    L2BlockRef,
>
    decreases new_blocks.len(),
{
    if new_blocks.len() == 0 {
        Seq::empty()
    } else {
        let prev = appended(existing, cursor, new_blocks.drop_last());
        let cur = if prev.len() > 0 {
            prev.last().number
        } else {
            cursor
        };
        let b = new_blocks.last();
        if b.number > cur && !tracks(existing, b.number) {
            prev.push(b)
        } else {
            prev
        }
    }
}

/// The cursor after `add_blocks`: the last block appended, or the old cursor
/// where none is.
pub open spec fn cursor_after_add(existing: Seq<L2BlockRef>, cursor: L2BlockRef, new_blocks: Seq<L2BlockRef>) -> L2BlockRef {
    let a = appended(existing, cursor.number, new_blocks);
    if a.len() > 0 {
        a.last()
    } else {
        cursor
    }
}

/// The blocks of `blocks`, in order, numbered at least `number`.
pub open spec fn at_or_after(blocks: Seq<L2BlockRef>, number: u64) -> Seq<L2BlockRef>
    decreases blocks.len(),
{
    if blocks.len() == 0 {
        Seq::empty()
    } else {
        let prev = at_or_after(blocks.drop_last(), number);
        if blocks.last().number >= number {
            prev.push(blocks.last())
        } else {
            prev
        }
    }
}

/// No two blocks of `blocks` share a number.
pub open spec fn unique_numbers(blocks: Seq<L2BlockRef>) -> bool {
    forall|i: int, j: int|
        0 <= i < blocks.len() && 0 <= j < blocks.len() && i != j ==> (#[trigger] blocks[i]).number
            != (#[trigger] blocks[j]).number
}

/// The blocks of `blocks` are in strictly ascending order of number.
pub open spec fn strictly_ascending(blocks: Seq<L2BlockRef>) -> bool {
    forall|i: int, j: int|
        0 <= i < j < blocks.len() ==> (#[trigger] blocks[i]).number < (#[trigger] blocks[j]).number
}

/// The blocks of `blocks` are in ascending order of number (equal numbers
/// allowed).
pub open spec fn ascending(blocks: Seq<L2BlockRef>) -> bool {
    forall|i: int, j: int|
        0 <= i <= j < blocks.len() ==> (#[trigger] blocks[i]).number <= (#[trigger] blocks[j]).number
}

/// The block after which a load starts: the safe L2 head where the cursor is
/// behind it, the cursor otherwise.
pub open spec fn load_base(cursor: L2BlockRef, ss: SyncStatus) -> L2BlockRef {
    if cursor.number < ss.safe_l2.number {
        ss.safe_l2
    } else {
        cursor
    }
}

/// The tracked blocks once a load with sync status `ss` has pruned them.
pub open spec fn pruned(cursor: L2BlockRef, blocks: Seq<L2BlockRef>, ss: SyncStatus) -> Seq<L2BlockRef> {
    if cursor.number < ss.safe_l2.number {
        at_or_after(blocks, ss.safe_l2.number)
    } else {
        blocks
    }
}

impl<R, P> L2RetrievalProvider for L2Traversal<R, P> {
    /// Hands out all tracked blocks, in order, and tracks none afterwards.
    fn next_blocks(&mut self) -> (r: Vec<L2BlockRef>)
        ensures
            r@ == old(self).blocks@,
            final(self).blocks@ == Seq::<L2BlockRef>::empty(),
            final(self).cursor == old(self).cursor,
            final(self).rollup_node == old(self).rollup_node,
            final(self).l2_provider == old(self).l2_provider,
    {
        let mut out = Vec::new();
        std::mem::swap(&mut out, &mut self.blocks);
        out
    }
}

impl<R, P> L2Traversal<R, P> {
    /// Constructs an [L2Traversal] with the given cursor and no tracked blocks.
    pub fn new(cursor: L2BlockRef, rollup_node: R, l2_provider: P) -> (r: Self)
        ensures
            r.cursor == cursor,
            r.blocks@ == Seq::<L2BlockRef>::empty(),
            r.rollup_node == rollup_node,
            r.l2_provider == l2_provider,
    {
        L2Traversal { cursor, blocks: Vec::new(), rollup_node, l2_provider }
    }

    /// Whether a block with the given number is tracked.
    pub fn tracks_block(&self, number: u64) -> (r: bool)
        ensures
            r == tracks(self.blocks@, number),
    {
        let mut i: usize = 0;
        while i < self.blocks.len()
            invariant
                i <= self.blocks@.len(),
                forall|j: int| 0 <= j < i ==> (#[trigger] self.blocks@[j]).number != number,
            decreases self.blocks@.len() - i,
        {
            if self.blocks[i].number == number {
                return true;
            }
            i = i + 1;
        }
        false
    }

    /// Whether [L2Traversal::plan_load] can run with the sync status `ss`
    /// without overflow.
    pub fn can_plan_load(&self, ss: &SyncStatus) -> (r: bool)
        ensures
            r == (self.cursor.number <= ss.unsafe_l2.number ==> load_base(self.cursor, *ss).number
                < u64::MAX),
    {
        if ss.unsafe_l2.number < self.cursor.number {
            return true;
        }
        if self.cursor.number < ss.safe_l2.number {
            ss.safe_l2.number < u64::MAX
        } else {
            self.cursor.number < u64::MAX
        }
    }

    /// Prepares a load of blocks up to the unsafe L2 head of the sync status
    /// `ss`. Returns `None`, and changes nothing, where the unsafe head is
    /// behind the cursor. Otherwise, where the cursor is behind the safe L2
    /// head, removes the tracked blocks before the safe head, since they have
    /// already been batch submitted; then returns the range `(start, end)` of
    /// block numbers to load, both ends included: from the block after the
    /// safe head (or after the cursor, where it is not behind) up to the
    /// unsafe head.
    pub fn plan_load(&mut self, ss: &SyncStatus) -> (r: Option<(u64, u64)>)
        requires
            old(self).cursor.number <= ss.unsafe_l2.number ==> load_base(old(self).cursor, *ss).number
                < u64::MAX,
        ensures
            ss.unsafe_l2.number < old(self).cursor.number ==> r is None && final(self).blocks@
                == old(self).blocks@,
            old(self).cursor.number <= ss.unsafe_l2.number ==> {
                &&& r == Some(((load_base(old(self).cursor, *ss).number + 1) as u64, ss.unsafe_l2.number))
                &&& final(self).blocks@ == pruned(old(self).cursor, old(self).blocks@, *ss)
            },
            old(self).cursor.number < ss.safe_l2.number <= ss.unsafe_l2.number ==> forall|k: int|
                0 <= k < final(self).blocks@.len() ==> (#[trigger] final(self).blocks@[k]).number
                    >= ss.safe_l2.number,
            unique_numbers(old(self).blocks@) ==> unique_numbers(final(self).blocks@),
            final(self).cursor == old(self).cursor,
            final(self).rollup_node == old(self).rollup_node,
            final(self).l2_provider == old(self).l2_provider,
    {
        if ss.unsafe_l2.number < self.cursor.number {
            return None;
        }
        let mut base = self.cursor;
        if base.number < ss.safe_l2.number {
            let safe = ss.safe_l2.number;
            let mut kept: Vec<L2BlockRef> = Vec::new();
            let mut i: usize = 0;
            while i < self.blocks.len()
                invariant
                    i <= self.blocks@.len(),
                    kept@ == at_or_after(self.blocks@.take(i as int), safe),
                decreases self.blocks@.len() - i,
            {
                let b = self.blocks[i];
                assert(self.blocks@.take(i + 1).drop_last() =~= self.blocks@.take(i as int));
                if b.number >= safe {
                    kept.push(b);
                }
                i = i + 1;
            }
            assert(self.blocks@.take(i as int) =~= self.blocks@);
            proof {
                crate::laws::pruning_drops_submitted_blocks(self.blocks@, safe);
            }
            self.blocks = kept;
            base = ss.safe_l2;
        }
        Some((base.number + 1, ss.unsafe_l2.number))
    }

    /// The numbers from `start` to `end`, both included, of the blocks that
    /// are not tracked, in ascending order: the blocks that a load fetches.
    pub fn numbers_to_load(&self, start: u64, end: u64) -> (r: Vec<u64>)
        ensures
            forall|k: int|
                0 <= k < r@.len() ==> start <= #[trigger] r@[k] <= end && !tracks(self.blocks@, r@[k]),
            forall|k: int, l: int| 0 <= k < l < r@.len() ==> #[trigger] r@[k] < #[trigger] r@[l],
            forall|n: u64|
                start <= n <= end && !tracks(self.blocks@, n) ==> #[trigger] r@.contains(n),
    {
        let mut r: Vec<u64> = Vec::new();
        if start > end {
            return r;
        }
        let mut n: u64 = start;
        while n < end
            invariant
                start <= n <= end,
                forall|k: int|
                    0 <= k < r@.len() ==> start <= #[trigger] r@[k] < n && !tracks(self.blocks@, r@[k]),
                forall|k: int, l: int| 0 <= k < l < r@.len() ==> #[trigger] r@[k] < #[trigger] r@[l],
                forall|m: u64| start <= m < n && !tracks(self.blocks@, m) ==> #[trigger] r@.contains(m),
            decreases end - n,
        {
            if !self.tracks_block(n) {
                let ghost prev = r@;
                r.push(n);
                assert forall|m: u64| start <= m < n + 1 && !tracks(self.blocks@, m) implies #[trigger] r@.contains(m) by {
                    if m < n {
                        assert(prev.contains(m));
                        let k = choose|k: int| 0 <= k < prev.len() && prev[k] == m;
                        assert(r@[k] == m);
                    } else {
                        assert(r@[r@.len() - 1] == m);
                    }
                }
            }
            n = n + 1;
        }
        if !self.tracks_block(end) {
            let ghost prev = r@;
            r.push(end);
            assert forall|m: u64| start <= m <= end && !tracks(self.blocks@, m) implies #[trigger] r@.contains(m) by {
                if m < end {
                    assert(prev.contains(m));
                    let k = choose|k: int| 0 <= k < prev.len() && prev[k] == m;
                    assert(r@[k] == m);
                } else {
                    assert(r@[r@.len() - 1] == m);
                }
            }
        }
        r
    }

    /// Completes a load: appends the loaded blocks to the tracked blocks and
    /// moves the cursor to `unsafe_head`. Where the tracked numbers are
    /// distinct and the loaded blocks come in ascending order with numbers
    /// not tracked yet, the numbers stay distinct.
    pub fn finish_load(&mut self, loaded: Vec<L2BlockRef>, unsafe_head: L2BlockRef)
        ensures
            final(self).blocks@ == old(self).blocks@ + loaded@,
            final(self).cursor == unsafe_head,
            final(self).rollup_node == old(self).rollup_node,
            final(self).l2_provider == old(self).l2_provider,
            unique_numbers(old(self).blocks@) && strictly_ascending(loaded@) && (forall|k: int|
                0 <= k < loaded@.len() ==> !tracks(old(self).blocks@, #[trigger] loaded@[k].number))
                ==> unique_numbers(final(self).blocks@),
    {
        let ghost old_blocks = self.blocks@;
        let mut loaded = loaded;
        let ghost fresh = loaded@;
        self.blocks.append(&mut loaded);
        self.cursor = unsafe_head;
        proof {
            if unique_numbers(old_blocks) && strictly_ascending(fresh) && (forall|k: int|
                0 <= k < fresh.len() ==> !tracks(old_blocks, #[trigger] fresh[k].number)) {
                crate::laws::appending_fresh_blocks_keeps_numbers_unique(old_blocks, fresh);
            }
        }
    }

    /// Adds blocks to the [L2Traversal] stage, validating the new range with the cursor.
    ///
    /// Going through the new blocks in order, a block is appended where its
    /// number is beyond the cursor and not tracked yet, and the cursor moves to
    /// it; the others are skipped. The cursor never moves back.
    pub fn add_blocks(&mut self, new_blocks: &[L2BlockRef])
        ensures
            final(self).blocks@ == old(self).blocks@ + appended(
                old(self).blocks@,
                old(self).cursor.number,
                new_blocks@,
            ),
            final(self).cursor == cursor_after_add(old(self).blocks@, old(self).cursor, new_blocks@),
            final(self).cursor.number >= old(self).cursor.number,
            unique_numbers(old(self).blocks@) ==> unique_numbers(final(self).blocks@),
            final(self).rollup_node == old(self).rollup_node,
            final(self).l2_provider == old(self).l2_provider,
    {
        let ghost cursor0 = self.cursor.number;
        proof {
            if unique_numbers(self.blocks@) {
                crate::laws::add_blocks_keeps_numbers_unique(self.blocks@, cursor0, new_blocks@);
            }
        }
        if new_blocks.len() == 0 {
            assert(appended(self.blocks@, cursor0, new_blocks@) =~= Seq::<L2BlockRef>::empty());
            assert(self.blocks@ + Seq::<L2BlockRef>::empty() =~= self.blocks@);
            return;
        }
        let mut blocks: Vec<L2BlockRef> = Vec::new();
        let mut cur: u64 = self.cursor.number;
        let mut i: usize = 0;
        while i < new_blocks.len()
            invariant
                i <= new_blocks@.len(),
                cursor0 == self.cursor.number,
                blocks@ == appended(self.blocks@, cursor0, new_blocks@.take(i as int)),
                cur == if blocks@.len() > 0 {
                    blocks@.last().number
                } else {
                    cursor0
                },
                cur >= cursor0,
            decreases new_blocks@.len() - i,
        {
            let block = new_blocks[i];
            assert(new_blocks@.take(i + 1).drop_last() =~= new_blocks@.take(i as int));
            if block.number > cur && !self.tracks_block(block.number) {
                blocks.push(block);
                cur = block.number;
            }
            i = i + 1;
        }
        assert(new_blocks@.take(i as int) =~= new_blocks@);
        if blocks.len() == 0 {
            assert(self.blocks@ + blocks@ =~= self.blocks@);
            return;
        }
        self.cursor = blocks[blocks.len() - 1];
        self.blocks.append(&mut blocks);
    }
}

} // verus!
