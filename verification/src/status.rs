//! File status classification.
//!
//! Every entry of the combined index/working-tree status carries a set of
//! flags; the prompt sorts each entry into up to four buckets: new, changed,
//! staged, conflicted. The buckets are independent — one entry may fall into
//! several — and no entry is counted twice within one bucket.

use vstd::prelude::*;

verus! {

/// The per-entry status flags the classification reads, one boolean per flag
/// of the backend's combined index/working-tree status.
#[derive(Clone, Copy, Debug, PartialEq, Eq, Structural)]
pub struct EntryStatus {
    pub wt_new: bool,
    pub wt_modified: bool,
    pub wt_deleted: bool,
    pub wt_typechange: bool,
    pub wt_renamed: bool,
    pub index_new: bool,
    pub index_modified: bool,
    pub index_deleted: bool,
    pub index_typechange: bool,
    pub index_renamed: bool,
    pub conflicted: bool,
}

/// Counts of status entries per bucket.
#[derive(Clone, Copy, Debug, PartialEq, Eq, Structural)]
pub struct FileStatusCounts {
    pub new: usize,
    pub changed: usize,
    pub staged: usize,
    pub conflicted: usize,
}

/// The backend's per-entry status flag bits, as libgit2 documents them: one
/// bit per flag in the combined index/working-tree status word.
pub const FLAG_INDEX_NEW: u32 = 0x0001;

pub const FLAG_INDEX_MODIFIED: u32 = 0x0002;

pub const FLAG_INDEX_DELETED: u32 = 0x0004;

pub const FLAG_INDEX_RENAMED: u32 = 0x0008;

pub const FLAG_INDEX_TYPECHANGE: u32 = 0x0010;

pub const FLAG_WT_NEW: u32 = 0x0080;

pub const FLAG_WT_MODIFIED: u32 = 0x0100;

pub const FLAG_WT_DELETED: u32 = 0x0200;

pub const FLAG_WT_TYPECHANGE: u32 = 0x0400;

pub const FLAG_WT_RENAMED: u32 = 0x0800;

pub const FLAG_CONFLICTED: u32 = 0x8000;

/// The flags read off one raw status word.
pub open spec fn spec_entry_status(bits: u32) -> EntryStatus {
    EntryStatus {
        wt_new: bits & FLAG_WT_NEW != 0,
        wt_modified: bits & FLAG_WT_MODIFIED != 0,
        wt_deleted: bits & FLAG_WT_DELETED != 0,
        wt_typechange: bits & FLAG_WT_TYPECHANGE != 0,
        wt_renamed: bits & FLAG_WT_RENAMED != 0,
        index_new: bits & FLAG_INDEX_NEW != 0,
        index_modified: bits & FLAG_INDEX_MODIFIED != 0,
        index_deleted: bits & FLAG_INDEX_DELETED != 0,
        index_typechange: bits & FLAG_INDEX_TYPECHANGE != 0,
        index_renamed: bits & FLAG_INDEX_RENAMED != 0,
        conflicted: bits & FLAG_CONFLICTED != 0,
    }
}

/// Decode one raw status word into the per-entry flags.
pub fn entry_status_of(bits: u32) -> (e: EntryStatus)
    ensures
        e == spec_entry_status(bits),
{
    EntryStatus {
        wt_new: bits & FLAG_WT_NEW != 0,
        wt_modified: bits & FLAG_WT_MODIFIED != 0,
        wt_deleted: bits & FLAG_WT_DELETED != 0,
        wt_typechange: bits & FLAG_WT_TYPECHANGE != 0,
        wt_renamed: bits & FLAG_WT_RENAMED != 0,
        index_new: bits & FLAG_INDEX_NEW != 0,
        index_modified: bits & FLAG_INDEX_MODIFIED != 0,
        index_deleted: bits & FLAG_INDEX_DELETED != 0,
        index_typechange: bits & FLAG_INDEX_TYPECHANGE != 0,
        index_renamed: bits & FLAG_INDEX_RENAMED != 0,
        conflicted: bits & FLAG_CONFLICTED != 0,
    }
}

/// An entry counts as changed when its working tree differs from the index:
/// modified, deleted, type-changed or renamed in the working tree.
pub open spec fn spec_is_changed(e: EntryStatus) -> bool {
    e.wt_modified || e.wt_deleted || e.wt_typechange || e.wt_renamed
}

/// An entry counts as new when it is untracked in the working tree.
pub open spec fn spec_is_new(e: EntryStatus) -> bool {
    e.wt_new
}

/// An entry counts as staged when its index differs from the last commit:
/// added, modified, deleted, type-changed or renamed in the index.
pub open spec fn spec_is_staged(e: EntryStatus) -> bool {
    e.index_new || e.index_modified || e.index_deleted || e.index_typechange || e.index_renamed
}

/// An entry counts as conflicted when the conflict flag is set.
pub open spec fn spec_is_conflicted(e: EntryStatus) -> bool {
    e.conflicted
}

/// How many entries of `s` satisfy `f`.
pub open spec fn spec_count_where(s: Seq<EntryStatus>, f: spec_fn(EntryStatus) -> bool) -> nat
    decreases s.len(),
{
    if s.len() == 0 {
        0
    } else {
        spec_count_where(s.drop_last(), f) + if f(s.last()) {
            1nat
        } else {
            0nat
        }
    }
}

/// The bucket counts the classification owes for a sequence of entries.
pub open spec fn spec_counts(s: Seq<EntryStatus>) -> FileStatusCounts {
    FileStatusCounts {
        new: spec_count_where(s, |e: EntryStatus| spec_is_new(e)) as usize,
        changed: spec_count_where(s, |e: EntryStatus| spec_is_changed(e)) as usize,
        staged: spec_count_where(s, |e: EntryStatus| spec_is_staged(e)) as usize,
        conflicted: spec_count_where(s, |e: EntryStatus| spec_is_conflicted(e)) as usize,
    }
}

/// The bucket counts owed for a sequence of raw status words: the counts of
/// their decoded flags.
pub open spec fn spec_counts_of_bits(bits: Seq<u32>) -> FileStatusCounts {
    spec_counts(bits.map_values(|b: u32| spec_entry_status(b)))
}

/// A count never exceeds the number of entries.
proof fn lemma_count_where_le_len(s: Seq<EntryStatus>, f: spec_fn(EntryStatus) -> bool)
    ensures
        spec_count_where(s, f) <= s.len(),
    decreases s.len(),
{
    if s.len() > 0 {
        lemma_count_where_le_len(s.drop_last(), f);
    }
}

/// Classify the status entries into the four buckets.
///
/// The four membership tests are independent: an entry whose flags satisfy
/// several bucket predicates increments each of those buckets, and each entry
/// increments a bucket at most once.
pub fn classify_entries(entries: &Vec<EntryStatus>) -> (c: FileStatusCounts)
    ensures
        c == spec_counts(entries@),
{
    let mut new_count: usize = 0;
    let mut changed_count: usize = 0;
    let mut staged_count: usize = 0;
    let mut conflicted_count: usize = 0;
    let n = entries.len();
    let mut i: usize = 0;
    while i < n
        invariant
            i <= n,
            n == entries@.len(),
            new_count == spec_count_where(
                entries@.take(i as int),
                |e: EntryStatus| spec_is_new(e),
            ),
            changed_count == spec_count_where(
                entries@.take(i as int),
                |e: EntryStatus| spec_is_changed(e),
            ),
            staged_count == spec_count_where(
                entries@.take(i as int),
                |e: EntryStatus| spec_is_staged(e),
            ),
            conflicted_count == spec_count_where(
                entries@.take(i as int),
                |e: EntryStatus| spec_is_conflicted(e),
            ),
        decreases n - i,
    {
        let e = entries[i];
        proof {
            assert(entries@.take(i + 1).drop_last() =~= entries@.take(i as int));
            assert(entries@.take(i + 1).last() == entries@[i as int]);
            lemma_count_where_le_len(entries@.take(i as int), |e: EntryStatus| spec_is_new(e));
            lemma_count_where_le_len(entries@.take(i as int), |e: EntryStatus| spec_is_changed(e));
            lemma_count_where_le_len(entries@.take(i as int), |e: EntryStatus| spec_is_staged(e));
            lemma_count_where_le_len(
                entries@.take(i as int),
                |e: EntryStatus| spec_is_conflicted(e),
            );
        }
        if e.wt_modified || e.wt_deleted || e.wt_typechange || e.wt_renamed {
            changed_count = changed_count + 1;
        }
        if e.wt_new {
            new_count = new_count + 1;
        }
        if e.index_new || e.index_modified || e.index_deleted || e.index_typechange
            || e.index_renamed {
            staged_count = staged_count + 1;
        }
        if e.conflicted {
            conflicted_count = conflicted_count + 1;
        }
        i = i + 1;
    }
    proof {
        assert(entries@.take(n as int) =~= entries@);
    }
    FileStatusCounts {
        new: new_count,
        changed: changed_count,
        staged: staged_count,
        conflicted: conflicted_count,
    }
}

/// An entry that is both staged and re-modified in the working tree counts in
/// both the staged and the changed bucket of the same classification.
pub proof fn lemma_staged_and_changed_overlap(s: Seq<EntryStatus>, i: int)
    requires
        0 <= i < s.len(),
        s.len() <= usize::MAX,
        spec_is_staged(s[i]),
        spec_is_changed(s[i]),
    ensures
        spec_counts(s).staged >= 1,
        spec_counts(s).changed >= 1,
{
    lemma_count_where_at_least_one(s, i, |e: EntryStatus| spec_is_staged(e));
    lemma_count_where_at_least_one(s, i, |e: EntryStatus| spec_is_changed(e));
    lemma_count_where_le_len(s, |e: EntryStatus| spec_is_staged(e));
    lemma_count_where_le_len(s, |e: EntryStatus| spec_is_changed(e));
}

/// A sequence holding an entry that satisfies `f` has a positive count for `f`.
proof fn lemma_count_where_at_least_one(
    s: Seq<EntryStatus>,
    i: int,
    f: spec_fn(EntryStatus) -> bool,
)
    requires
        0 <= i < s.len(),
        f(s[i]),
    ensures
        spec_count_where(s, f) >= 1,
    decreases s.len(),
{
    if i == s.len() - 1 {
    } else {
        lemma_count_where_at_least_one(s.drop_last(), i, f);
    }
}

} // verus!
