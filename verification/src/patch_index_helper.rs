//! The drift ledger: a position-indexed account of every insertion applied
//! so far, from which the live position of an original-source offset is
//! recomputed.
//!
//! The governing invariant: for a candidate original offset `x`, the correct
//! insertion point in the live buffer equals `x` plus the sizes of every
//! ledger entry whose position is at or before `x` — independent of the
//! order in which the entries were recorded.

use vstd::prelude::*;

verus! {

/// One applied insertion: its original-source position and its byte size.
#[derive(Debug, Clone, Copy, PartialEq, Eq, Structural)]
pub struct ModifiedIndex {
    pub pos: u32,
    pub size: u32,
}

/// The cumulative drift that the recorded insertions impose on an
/// original-source offset `x`: the sum of the sizes of every entry whose
/// position is at or before `x`.
pub open spec fn spec_drift(entries: Seq<ModifiedIndex>, x: int) -> int
    decreases entries.len(),
{
    if entries.len() == 0 {
        0
    } else {
        spec_drift(entries.drop_last(), x) + if entries.last().pos <= x {
            entries.last().size as int
        } else {
            0
        }
    }
}

/// The sum of the sizes of all recorded insertions.
pub open spec fn spec_total_size(entries: Seq<ModifiedIndex>) -> int
    decreases entries.len(),
{
    if entries.len() == 0 {
        0
    } else {
        spec_total_size(entries.drop_last()) + entries.last().size as int
    }
}

/// Drift never exceeds the total recorded size, and is never negative.
pub proof fn lemma_drift_bounds(entries: Seq<ModifiedIndex>, x: int)
    ensures
        0 <= spec_drift(entries, x) <= spec_total_size(entries),
    decreases entries.len(),
{
    if entries.len() > 0 {
        lemma_drift_bounds(entries.drop_last(), x);
    }
}

/// The accumulating ledger of applied insertions.
pub struct PatchIndexHelper {
    pub higher_index: u32,
    pub indexes_modified: Vec<ModifiedIndex>,
}

impl PatchIndexHelper {
    /// A fresh, empty ledger.
    pub fn new() -> (r: PatchIndexHelper)
        ensures
            r.indexes_modified@ =~= Seq::<ModifiedIndex>::empty(),
            r.higher_index == 0,
    {
        PatchIndexHelper { higher_index: 0, indexes_modified: Vec::new() }
    }

    /// Records one applied insertion: its original position and its size.
    pub fn register_patched_index(&mut self, index: u32, size: u32)
        ensures
            final(self).indexes_modified@ == old(self).indexes_modified@.push(
                ModifiedIndex { pos: index, size },
            ),
            final(self).higher_index == old(self).higher_index,
    {
        let modified_index = ModifiedIndex { pos: index, size };
        self.indexes_modified.push(modified_index);
    }

    /// The live position of `original_index` in the buffer as patched so
    /// far: the original position plus the drift of every entry recorded
    /// at or before it.
    pub fn get_drifted_index(&mut self, original_index: u32) -> (r: u32)
        requires
            original_index + spec_total_size(old(self).indexes_modified@) <= u32::MAX,
        ensures
            *final(self) == *old(self),
            r == original_index + spec_drift(old(self).indexes_modified@, original_index as int),
    {
        let ghost entries = self.indexes_modified@;
        let mut drifted_index = original_index;
        let n = self.indexes_modified.len();
        let mut i: usize = 0;
        while i < n
            invariant
                n == entries.len(),
                self.indexes_modified@ == entries,
                i <= n,
                original_index + spec_total_size(entries) <= u32::MAX,
                drifted_index == original_index + spec_drift(
                    entries.take(i as int),
                    original_index as int,
                ),
            decreases n - i,
        {
            proof {
                assert(entries.take(i + 1).drop_last() =~= entries.take(i as int));
                assert(entries.take(i + 1).last() == entries[i as int]);
                lemma_drift_take_bounded(entries, i + 1, original_index as int);
            }
            let index_modify = &self.indexes_modified[i];
            if original_index >= index_modify.pos {
                drifted_index = drifted_index + index_modify.size;
            }
            i = i + 1;
        }
        proof {
            assert(entries.take(n as int) =~= entries);
        }
        drifted_index
    }
}

/// The drift over a prefix of a ledger is bounded by the total size of the
/// whole ledger.
pub proof fn lemma_drift_take_bounded(entries: Seq<ModifiedIndex>, i: int, x: int)
    requires
        0 <= i <= entries.len(),
    ensures
        spec_drift(entries.take(i), x) <= spec_total_size(entries),
    decreases entries.len() - i,
{
    if i == entries.len() {
        assert(entries.take(i) =~= entries);
        lemma_drift_bounds(entries, x);
    } else {
        assert(entries.take(i + 1).drop_last() =~= entries.take(i));
        lemma_drift_take_bounded(entries, i + 1, x);
        lemma_drift_bounds(entries.take(i), x);
        assert(spec_drift(entries.take(i), x) <= spec_drift(entries.take(i + 1), x));
    }
}

} // verus!
