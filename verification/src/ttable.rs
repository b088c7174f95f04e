//! The transposition table: a fixed-capacity cache of previously computed
//! subtree results, reused within one search call.
//!
//! The table is a dense array of slots with a power-of-two capacity, indexed
//! by `hash & (capacity - 1)`; collisions are resolved by the depth-preferred
//! replacement policy in `store`, never by chaining. A cold slot carries the
//! `Unset` flag, so it can never satisfy a probe. A table of capacity zero is
//! a disabled table: every probe misses and every store is a no-op.

use vstd::prelude::*;
use crate::score::{MAX_DEPTH, SCORE_LIMIT};

verus! {

/// Classification of a stored score: the exact subtree value, a proven
/// lower bound (a beta cutoff occurred), or a proven upper bound (no move
/// raised alpha).
#[derive(Clone, Copy, PartialEq, Eq, Structural, Debug)]
pub enum TranspositionTableFlag {
    Unset,
    Exact,
    Lowerbound,
    Upperbound,
}

/// One slot of the transposition table.
#[derive(Clone, Copy, PartialEq, Eq, Structural, Debug)]
pub struct TranspositionTableData {
    pub hash: u64,
    pub score: i16,
    pub depth: u16,
    pub flag: TranspositionTableFlag,
}

impl TranspositionTableData {
    /// A cold slot, flagged `Unset` so that it never satisfies a probe.
    pub fn empty() -> (r: TranspositionTableData)
        ensures
            r == (TranspositionTableData {
                hash: 0,
                score: 0,
                depth: 0,
                flag: TranspositionTableFlag::Unset,
            }),
    {
        TranspositionTableData { hash: 0, score: 0, depth: 0, flag: TranspositionTableFlag::Unset }
    }
}

/// Whether `n` is a usable capacity: zero (a disabled table) or a power of
/// two (so that `hash & (n - 1)` indexes the array).
pub open spec fn capacity_ok(n: u64) -> bool {
    n & ((n - 1) as u64) == 0
}

/// A slot that may hold a result: its score is in the representable range
/// and its depth is positive (leaves and terminal nodes are never stored)
/// and bounded.
pub open spec fn entry_ok(e: TranspositionTableData) -> bool {
    e.flag != TranspositionTableFlag::Unset ==> {
        &&& -SCORE_LIMIT <= e.score <= SCORE_LIMIT
        &&& 1 <= e.depth <= MAX_DEPTH
    }
}

/// The transposition table, exclusively owned by one search invocation.
pub struct TranspositionTable {
    pub entries: Vec<TranspositionTableData>,
}

impl TranspositionTable {
    /// Well-formedness: a zero-or-power-of-two capacity and sane slots.
    pub open spec fn wf(self) -> bool {
        &&& capacity_ok(self.entries@.len() as u64)
        &&& forall|i: int|
            0 <= i < self.entries@.len() ==> entry_ok(#[trigger] self.entries@[i])
    }

    /// Whether this table is the disabled table.
    pub open spec fn disabled(self) -> bool {
        self.entries@.len() == 0
    }

    /// The slot index that `hash` maps to (meaningful when not disabled).
    pub open spec fn spec_index_of(self, hash: u64) -> int {
        (hash & ((self.entries@.len() as u64) - 1) as u64) as int
    }

    /// What a probe returns: the slot's contents when the slot is warm, the
    /// full hash matches and the stored depth is at least the requested one.
    pub open spec fn spec_probe(self, hash: u64, depth: u16) -> Option<TranspositionTableData> {
        if self.entries@.len() == 0 {
            None
        } else {
            let e = self.entries@[self.spec_index_of(hash)];
            if e.flag != TranspositionTableFlag::Unset && e.hash == hash && e.depth >= depth {
                Some(e)
            } else {
                None
            }
        }
    }

    /// What the slots look like after a store: unchanged when the table is
    /// disabled or the slot already holds a result from an at least as deep
    /// search (depth-preferred replacement), else the slot is overwritten.
    pub open spec fn spec_store(
        self,
        hash: u64,
        score: i16,
        depth: u16,
        flag: TranspositionTableFlag,
    ) -> Seq<TranspositionTableData> {
        if self.entries@.len() == 0 {
            self.entries@
        } else {
            let i = self.spec_index_of(hash);
            if self.entries@[i].depth < depth {
                self.entries@.update(i, TranspositionTableData { hash, score, depth, flag })
            } else {
                self.entries@
            }
        }
    }

    /// Allocates a table of `capacity` cold slots.
    pub fn new(capacity: usize) -> (t: TranspositionTable)
        requires
            capacity_ok(capacity as u64),
        ensures
            t.wf(),
            t.entries@.len() == capacity,
            forall|i: int|
                0 <= i < capacity ==> (#[trigger] t.entries@[i]).flag
                    == TranspositionTableFlag::Unset,
    {
        let mut entries: Vec<TranspositionTableData> = Vec::new();
        let mut n: usize = 0;
        while n < capacity
            invariant
                n <= capacity,
                entries@.len() == n,
                forall|i: int|
                    0 <= i < n ==> (#[trigger] entries@[i]).flag == TranspositionTableFlag::Unset,
            decreases capacity - n,
        {
            entries.push(TranspositionTableData::empty());
            n = n + 1;
        }
        TranspositionTable { entries }
    }

    /// Looks up `hash`: a hit only when the slot is warm, the full hash
    /// matches and the stored depth is at least `depth`.
    pub fn probe(&self, hash: u64, depth: u16) -> (r: Option<TranspositionTableData>)
        requires
            self.wf(),
        ensures
            r == self.spec_probe(hash, depth),
            r matches Some(e) ==> -SCORE_LIMIT <= e.score <= SCORE_LIMIT,
    {
        let n = self.entries.len();
        if n == 0 {
            return None;
        }
        proof {
            lemma_pow2_mask_bounds(hash, n as u64);
        }
        let idx = (hash & ((n as u64) - 1)) as usize;
        let e = self.entries[idx];
        if !matches!(e.flag, TranspositionTableFlag::Unset) && e.hash == hash && e.depth >= depth {
            Some(e)
        } else {
            None
        }
    }

    /// Records a result under the depth-preferred replacement policy: never
    /// overwrites a slot holding an at least as deep result.
    pub fn store(&mut self, hash: u64, score: i16, depth: u16, flag: TranspositionTableFlag)
        requires
            old(self).wf(),
            -SCORE_LIMIT <= score <= SCORE_LIMIT,
            1 <= depth <= MAX_DEPTH,
            flag != TranspositionTableFlag::Unset,
        ensures
            final(self).wf(),
            final(self).entries@ == old(self).spec_store(hash, score, depth, flag),
            final(self).entries@.len() == old(self).entries@.len(),
    {
        let n = self.entries.len();
        if n == 0 {
            return ;
        }
        proof {
            lemma_pow2_mask_bounds(hash, n as u64);
        }
        let idx = (hash & ((n as u64) - 1)) as usize;
        if self.entries[idx].depth < depth {
            self.entries.set(idx, TranspositionTableData { hash, score, depth, flag });
        }
    }
}

/// With a nonzero power-of-two `n`, masking by `n - 1` yields an index
/// below `n`.
proof fn lemma_pow2_mask_bounds(h: u64, n: u64)
    requires
        n != 0,
        n & ((n - 1) as u64) == 0,
    ensures
        h & ((n - 1) as u64) < n,
{
    assert(h & vstd::prelude::sub(n, 1) < n) by (bit_vector)
        requires
            n != 0,
            n & vstd::prelude::sub(n, 1) == 0,
    ;
}

/// A table whose every slot is cold never satisfies a probe, whatever the
/// hash and depth asked for: running the search over it degenerates to the
/// table-free search until the first store.
pub proof fn lemma_cold_table_never_hits(t: TranspositionTable, hash: u64, depth: u16)
    requires
        t.entries@.len() <= usize::MAX,
        forall|i: int|
            0 <= i < t.entries@.len() ==> (#[trigger] t.entries@[i]).flag
                == TranspositionTableFlag::Unset,
    ensures
        t.spec_probe(hash, depth) is None,
{
    if t.entries@.len() != 0 {
        assert(t.entries@.len() as u64 != 0);
        let i = t.spec_index_of(hash);
        assert((hash & ((t.entries@.len() as u64) - 1) as u64) < (t.entries@.len() as u64)) by {
            lemma_pow2_mask_bounds_weak(hash, t.entries@.len() as u64);
        };
    }
}

/// Mask bound again, without the power-of-two hypothesis: the masked value
/// never exceeds the mask.
proof fn lemma_pow2_mask_bounds_weak(h: u64, n: u64)
    requires
        n != 0,
    ensures
        h & ((n - 1) as u64) <= n - 1,
{
    assert(h & vstd::prelude::sub(n, 1) <= vstd::prelude::sub(n, 1)) by (bit_vector);
}

} // verus!
