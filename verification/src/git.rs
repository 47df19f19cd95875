use git2::Status;
use vstd::prelude::*;

verus! {

/// Line, insertion and deletion totals of the uncommitted changes in a
/// working tree.
#[derive(Debug, Clone, Copy, PartialEq, Eq, Structural)]
pub struct GitStats {
    pub insertions: u32,
    pub deletions: u32,
    pub total_changes: u32,
}

/// The totals of a diff as the version control system counts them.
#[derive(Debug, Clone, Copy, PartialEq, Eq, Structural)]
pub struct DiffTotals {
    pub files_changed: usize,
    pub insertions: usize,
    pub deletions: usize,
}

/// The status flags of a file that count as a change: new, modified,
/// deleted, renamed or of another type, in the index (bits 0 to 4) or in the
/// working tree (bits 7 to 11).
pub const CHANGE_FLAGS: u32 = 0x0f9f;

/// Whether a file with the status flags `bits` counts as changed.
pub open spec fn is_change(bits: u32) -> bool {
    bits & CHANGE_FLAGS != 0
}

/// The number of files that count as changed among those with the given
/// status flags.
pub open spec fn changed_entries(statuses: Seq<u32>) -> nat {
    statuses.filter(|bits: u32| is_change(bits)).len()
}

/// A count that is kept in 32 bits: the sum of the two scopes' counts,
/// modulo 2^32.
pub open spec fn kept_total(staged: usize, unstaged: usize) -> u32 {
    ((staged + unstaged) % 0x1_0000_0000) as u32
}

/// The statistics of a working tree whose staged changes and whose changes
/// not yet staged come to the given totals: the sums over both, with the
/// number of changed files as the total of changes.
pub open spec fn stats_of(staged: DiffTotals, unstaged: DiffTotals) -> GitStats {
    GitStats {
        insertions: kept_total(staged.insertions, unstaged.insertions),
        deletions: kept_total(staged.deletions, unstaged.deletions),
        total_changes: kept_total(staged.files_changed, unstaged.files_changed),
    }
}

/// What a probe of the working tree comes to: nothing where no file counts
/// as changed or one of the two diffs could not be read, else the statistics
/// of the two diffs together.
pub open spec fn probe_result(
    statuses: Seq<u32>,
    staged: Option<DiffTotals>,
    unstaged: Option<DiffTotals>,
) -> Option<GitStats> {
    if changed_entries(statuses) > 0 && staged is Some && unstaged is Some {
        Some(stats_of(staged->0, unstaged->0))
    } else {
        None
    }
}

/// `git2::Status::is_index_new`, on the flags `bits`: whether `INDEX_NEW`,
/// bit 0, is among them.
#[verifier::external_body]
fn status_is_index_new(bits: u32) -> (set: bool)
    ensures
        set == (bits & 0x0001 != 0),
{
    Status::from_bits_retain(bits).is_index_new()
}

/// `git2::Status::is_index_modified`: whether `INDEX_MODIFIED`, bit 1, is
/// among the flags.
#[verifier::external_body]
fn status_is_index_modified(bits: u32) -> (set: bool)
    ensures
        set == (bits & 0x0002 != 0),
{
    Status::from_bits_retain(bits).is_index_modified()
}

/// `git2::Status::is_index_deleted`: whether `INDEX_DELETED`, bit 2, is
/// among the flags.
#[verifier::external_body]
fn status_is_index_deleted(bits: u32) -> (set: bool)
    ensures
        set == (bits & 0x0004 != 0),
{
    Status::from_bits_retain(bits).is_index_deleted()
}

/// `git2::Status::is_index_renamed`: whether `INDEX_RENAMED`, bit 3, is
/// among the flags.
#[verifier::external_body]
fn status_is_index_renamed(bits: u32) -> (set: bool)
    ensures
        set == (bits & 0x0008 != 0),
{
    Status::from_bits_retain(bits).is_index_renamed()
}

/// `git2::Status::is_index_typechange`: whether `INDEX_TYPECHANGE`, bit 4,
/// is among the flags.
#[verifier::external_body]
fn status_is_index_typechange(bits: u32) -> (set: bool)
    ensures
        set == (bits & 0x0010 != 0),
{
    Status::from_bits_retain(bits).is_index_typechange()
}

/// `git2::Status::is_wt_new`: whether `WT_NEW`, bit 7, is among the flags.
#[verifier::external_body]
fn status_is_wt_new(bits: u32) -> (set: bool)
    ensures
        set == (bits & 0x0080 != 0),
{
    Status::from_bits_retain(bits).is_wt_new()
}

/// `git2::Status::is_wt_modified`: whether `WT_MODIFIED`, bit 8, is among
/// the flags.
#[verifier::external_body]
fn status_is_wt_modified(bits: u32) -> (set: bool)
    ensures
        set == (bits & 0x0100 != 0),
{
    Status::from_bits_retain(bits).is_wt_modified()
}

/// `git2::Status::is_wt_deleted`: whether `WT_DELETED`, bit 9, is among the
/// flags.
#[verifier::external_body]
fn status_is_wt_deleted(bits: u32) -> (set: bool)
    ensures
        set == (bits & 0x0200 != 0),
{
    Status::from_bits_retain(bits).is_wt_deleted()
}

/// `git2::Status::is_wt_typechange`: whether `WT_TYPECHANGE`, bit 10, is
/// among the flags.
#[verifier::external_body]
fn status_is_wt_typechange(bits: u32) -> (set: bool)
    ensures
        set == (bits & 0x0400 != 0),
{
    Status::from_bits_retain(bits).is_wt_typechange()
}

/// `git2::Status::is_wt_renamed`: whether `WT_RENAMED`, bit 11, is among the
/// flags.
#[verifier::external_body]
fn status_is_wt_renamed(bits: u32) -> (set: bool)
    ensures
        set == (bits & 0x0800 != 0),
{
    Status::from_bits_retain(bits).is_wt_renamed()
}

/// Whether a file with the status flags `bits` counts as changed.
pub fn counts_as_change(bits: u32) -> (changed: bool)
    ensures
        changed == is_change(bits),
{
    let changed = status_is_wt_new(bits) || status_is_wt_modified(bits) || status_is_wt_deleted(
        bits,
    ) || status_is_wt_renamed(bits) || status_is_wt_typechange(bits) || status_is_index_new(bits)
        || status_is_index_modified(bits) || status_is_index_deleted(bits)
        || status_is_index_renamed(bits) || status_is_index_typechange(bits);
    assert((bits & 0x0f9f != 0) == (bits & 0x0080 != 0 || bits & 0x0100 != 0 || bits & 0x0200 != 0
        || bits & 0x0800 != 0 || bits & 0x0400 != 0 || bits & 0x0001 != 0 || bits & 0x0002 != 0
        || bits & 0x0004 != 0 || bits & 0x0008 != 0 || bits & 0x0010 != 0)) by (bit_vector);
    changed
}

/// The number of files that count as changed.
pub fn count_changes(statuses: &Vec<u32>) -> (count: usize)
    ensures
        count == changed_entries(statuses@),
{
    let ghost changed = |bits: u32| is_change(bits);
    let mut count: usize = 0;
    let mut at: usize = 0;
    proof {
        reveal(Seq::filter);
        assert(statuses@.subrange(0, 0).filter(changed).len() == 0);
    }
    while at < statuses.len()
        invariant
            at <= statuses.len(),
            changed == |bits: u32| is_change(bits),
            count == statuses@.subrange(0, at as int).filter(changed).len(),
            count <= at,
        decreases statuses.len() - at,
    {
        proof {
            reveal(Seq::filter);
            assert(statuses@.subrange(0, at + 1).drop_last() == statuses@.subrange(0, at as int));
        }
        if counts_as_change(statuses[at]) {
            count += 1;
        }
        at += 1;
    }
    assert(statuses@.subrange(0, at as int) == statuses@);
    count
}

/// Whether the diffs have to be read: they have where a file counts as
/// changed.
pub fn needs_diff(statuses: &Vec<u32>) -> (needed: bool)
    ensures
        needed == (changed_entries(statuses@) > 0),
{
    count_changes(statuses) > 0
}

fn sum_modulo_u32(staged: usize, unstaged: usize) -> (kept: u32)
    ensures
        kept == kept_total(staged, unstaged),
{
    let sum: u128 = staged as u128 + unstaged as u128;
    (sum % 0x1_0000_0000) as u32
}

/// The statistics of the working tree, from the status flags of its files
/// and the totals of its two diffs: that of the index against the last
/// commit, and that of the files against the index. A diff that was not
/// read, or could not be, is given as nothing.
pub fn get_git_diff_stats(
    statuses: &Vec<u32>,
    staged: Option<DiffTotals>,
    unstaged: Option<DiffTotals>,
) -> (stats: Option<GitStats>)
    ensures
        stats == probe_result(statuses@, staged, unstaged),
        changed_entries(statuses@) == 0 ==> stats is None,
{
    if count_changes(statuses) == 0 {
        return None;
    }
    match (staged, unstaged) {
        (Some(index), Some(files)) => Some(
            GitStats {
                insertions: sum_modulo_u32(index.insertions, files.insertions),
                deletions: sum_modulo_u32(index.deletions, files.deletions),
                total_changes: sum_modulo_u32(index.files_changed, files.files_changed),
            },
        ),
        _ => None,
    }
}

} // verus!
