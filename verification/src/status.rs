//! Change classification: from raw per-path status flags to a three-bucket
//! summary of modified / new / deleted paths.

use vstd::prelude::*;

verus! {

/// Flag bit set on a path newly added to the index.
pub const STATUS_INDEX_NEW: u32 = 0x0001;
/// Flag bit set on a path modified in the index.
pub const STATUS_INDEX_MODIFIED: u32 = 0x0002;
/// Flag bit set on a path deleted from the index.
pub const STATUS_INDEX_DELETED: u32 = 0x0004;
/// Flag bit set on a path renamed in the index.
pub const STATUS_INDEX_RENAMED: u32 = 0x0008;
/// Flag bit set on a path whose type changed in the index.
pub const STATUS_INDEX_TYPECHANGE: u32 = 0x0010;
/// Flag bit set on a path new in the working tree (untracked).
pub const STATUS_WT_NEW: u32 = 0x0080;
/// Flag bit set on a path modified in the working tree.
pub const STATUS_WT_MODIFIED: u32 = 0x0100;
/// Flag bit set on a path deleted in the working tree.
pub const STATUS_WT_DELETED: u32 = 0x0200;
/// Flag bit set on a path whose type changed in the working tree.
pub const STATUS_WT_TYPECHANGE: u32 = 0x0400;
/// Flag bit set on a path renamed in the working tree.
pub const STATUS_WT_RENAMED: u32 = 0x0800;

/// All bits that mean "new", staged or unstaged.
pub const MASK_NEW: u32 = 0x0081;
/// All bits that mean "modified, renamed or type-changed", staged or unstaged.
pub const MASK_MODIFIED: u32 = 0x0D1A;
/// All bits that mean "deleted", staged or unstaged.
pub const MASK_DELETED: u32 = 0x0204;

/// A path entry is changed at all: some status bit is set.
pub open spec fn changed(s: u32) -> bool {
    s != 0
}

/// The entry carries a new-file flag, staged or unstaged.
pub open spec fn has_new_flag(s: u32) -> bool {
    s & MASK_NEW != 0
}

/// The entry carries a modified, renamed or type-changed flag.
pub open spec fn has_modified_flag(s: u32) -> bool {
    s & MASK_MODIFIED != 0
}

/// The entry carries a deleted flag, staged or unstaged.
pub open spec fn has_deleted_flag(s: u32) -> bool {
    s & MASK_DELETED != 0
}

/// The entry falls into the "new" bucket: new-file flags take priority.
pub open spec fn counts_as_new(s: u32) -> bool {
    has_new_flag(s)
}

/// The entry falls into the "modified" bucket: no new-file flag, but a
/// modified flag.
pub open spec fn counts_as_modified(s: u32) -> bool {
    !has_new_flag(s) && has_modified_flag(s)
}

/// The entry falls into the "deleted" bucket: neither new nor modified
/// flags, but a deleted flag.
pub open spec fn counts_as_deleted(s: u32) -> bool {
    !has_new_flag(s) && !has_modified_flag(s) && has_deleted_flag(s)
}

/// The entry is classified into some bucket.
pub open spec fn classified(s: u32) -> bool {
    has_new_flag(s) || has_modified_flag(s) || has_deleted_flag(s)
}

/// How many entries of `s` fall into the "new" bucket.
pub open spec fn count_new(s: Seq<u32>) -> nat
    decreases s.len(),
{
    if s.len() == 0 {
        0
    } else {
        count_new(s.drop_last()) + (if counts_as_new(s.last()) {
            1nat
        } else {
            0nat
        })
    }
}

/// How many entries of `s` fall into the "modified" bucket.
pub open spec fn count_modified(s: Seq<u32>) -> nat
    decreases s.len(),
{
    if s.len() == 0 {
        0
    } else {
        count_modified(s.drop_last()) + (if counts_as_modified(s.last()) {
            1nat
        } else {
            0nat
        })
    }
}

/// How many entries of `s` fall into the "deleted" bucket.
pub open spec fn count_deleted(s: Seq<u32>) -> nat
    decreases s.len(),
{
    if s.len() == 0 {
        0
    } else {
        count_deleted(s.drop_last()) + (if counts_as_deleted(s.last()) {
            1nat
        } else {
            0nat
        })
    }
}

/// How many entries of `s` are classified into any bucket.
pub open spec fn count_classified(s: Seq<u32>) -> nat
    decreases s.len(),
{
    if s.len() == 0 {
        0
    } else {
        count_classified(s.drop_last()) + (if classified(s.last()) {
            1nat
        } else {
            0nat
        })
    }
}

/// How many entries of `s` are changed at all.
pub open spec fn count_changed(s: Seq<u32>) -> nat
    decreases s.len(),
{
    if s.len() == 0 {
        0
    } else {
        count_changed(s.drop_last()) + (if changed(s.last()) {
            1nat
        } else {
            0nat
        })
    }
}

/// Summary of the uncommitted changes of one repository: how many paths are
/// modified, new, and deleted. A single path contributes to exactly one
/// bucket.
#[derive(Debug, Clone)]
pub struct Changes {
    pub modified: usize,
    pub new: usize,
    pub deleted: usize,
}

impl Changes {
    /// The three counts as one mathematical sum.
    pub open spec fn spec_total(self) -> int {
        self.modified + self.new + self.deleted
    }

    /// No path changed in any bucket.
    #[verifier::inline]
    pub open spec fn spec_is_empty(self) -> bool {
        self.spec_total() == 0
    }

    /// True exactly when all three counts are zero.
    pub fn is_empty(&self) -> (r: bool)
        ensures
            r <==> self.spec_is_empty(),
    {
        self.modified == 0 && self.new == 0 && self.deleted == 0
    }

    /// The number of counted paths over all three buckets.
    pub fn total(&self) -> (t: usize)
        requires
            self.spec_total() <= usize::MAX,
        ensures
            t == self.spec_total(),
    {
        self.modified + self.new + self.deleted
    }
}

impl Default for Changes {
    /// The zero summary.
    fn default() -> (c: Changes)
        ensures
            c.modified == 0 && c.new == 0 && c.deleted == 0,
    {
        Changes { modified: 0, new: 0, deleted: 0 }
    }
}

/// Classifies a list of per-path status-flag sets into the three buckets.
/// Priority per path: new, then modified, then deleted; each path is counted
/// at most once.
pub fn classify(statuses: &Vec<u32>) -> (c: Changes)
    ensures
        c.new == count_new(statuses@),
        c.modified == count_modified(statuses@),
        c.deleted == count_deleted(statuses@),
{
    let mut n_new: usize = 0;
    let mut n_modified: usize = 0;
    let mut n_deleted: usize = 0;
    let mut i: usize = 0;
    while i < statuses.len()
        invariant
            0 <= i <= statuses@.len(),
            n_new == count_new(statuses@.take(i as int)),
            n_modified == count_modified(statuses@.take(i as int)),
            n_deleted == count_deleted(statuses@.take(i as int)),
            n_new + n_modified + n_deleted <= i,
        decreases statuses@.len() - i,
    {
        let s = statuses[i];
        proof {
            assert(statuses@.take(i + 1).drop_last() =~= statuses@.take(i as int));
            assert(statuses@.take(i + 1).last() == statuses@[i as int]);
        }
        if s & MASK_NEW != 0 {
            n_new = n_new + 1;
        } else if s & MASK_MODIFIED != 0 {
            n_modified = n_modified + 1;
        } else if s & MASK_DELETED != 0 {
            n_deleted = n_deleted + 1;
        }
        i = i + 1;
    }
    proof {
        assert(statuses@.take(statuses@.len() as int) =~= statuses@);
    }
    Changes { modified: n_modified, new: n_new, deleted: n_deleted }
}

/// The three buckets partition the classified entries: their counts sum to
/// the number of entries classified into any bucket, which never exceeds the
/// number of changed entries. No path is double-counted or dropped.
pub proof fn lemma_buckets_partition_classified(s: Seq<u32>)
    ensures
        count_new(s) + count_modified(s) + count_deleted(s) == count_classified(s),
        count_classified(s) <= count_changed(s),
        count_changed(s) <= s.len(),
    decreases s.len(),
{
    if s.len() > 0 {
        let x = s.last();
        assert((x & 0x0081u32 != 0 || x & 0x0D1Au32 != 0 || x & 0x0204u32 != 0) ==> x != 0)
            by (bit_vector);
        lemma_buckets_partition_classified(s.drop_last());
    }
}

/// On inputs where every changed entry carries at least one of the new,
/// modified or deleted flags, the bucket counts sum to exactly the number of
/// changed entries.
pub proof fn lemma_total_counts_changed_entries(s: Seq<u32>)
    requires
        forall|i: int| 0 <= i < s.len() && changed(s[i]) ==> classified(s[i]),
    ensures
        count_new(s) + count_modified(s) + count_deleted(s) == count_changed(s),
    decreases s.len(),
{
    lemma_buckets_partition_classified(s);
    if s.len() > 0 {
        assert(forall|i: int|
            0 <= i < s.drop_last().len() && changed(s.drop_last()[i]) ==> classified(
                s.drop_last()[i],
            ));
        lemma_total_counts_changed_entries(s.drop_last());
    }
}

} // verus!
