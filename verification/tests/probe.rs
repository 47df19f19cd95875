use git2::Status;
use kwis::git::{
    count_changes, counts_as_change, get_git_diff_stats, needs_diff, DiffTotals, GitStats,
    CHANGE_FLAGS,
};

fn totals(files_changed: usize, insertions: usize, deletions: usize) -> DiffTotals {
    DiffTotals { files_changed, insertions, deletions }
}

#[test]
fn the_ten_kinds_of_change() {
    let kinds = [
        Status::WT_NEW,
        Status::WT_MODIFIED,
        Status::WT_DELETED,
        Status::WT_RENAMED,
        Status::WT_TYPECHANGE,
        Status::INDEX_NEW,
        Status::INDEX_MODIFIED,
        Status::INDEX_DELETED,
        Status::INDEX_RENAMED,
        Status::INDEX_TYPECHANGE,
    ];
    let mut all = 0u32;
    for kind in kinds {
        assert!(counts_as_change(kind.bits()));
        assert!(counts_as_change(kind.bits() | Status::IGNORED.bits()));
        all |= kind.bits();
    }
    assert_eq!(all, CHANGE_FLAGS);
    assert_eq!(CHANGE_FLAGS, 0b1111_1001_1111);
}

#[test]
fn other_flags_are_no_change() {
    assert!(!counts_as_change(Status::CURRENT.bits()));
    assert!(!counts_as_change(Status::IGNORED.bits()));
    assert!(!counts_as_change(Status::CONFLICTED.bits()));
    assert!(!counts_as_change((Status::IGNORED | Status::CONFLICTED).bits()));
    assert!(!counts_as_change(0));
    assert!(!counts_as_change(1 << 5));
    assert!(!counts_as_change(1 << 6));
    assert!(!counts_as_change(1 << 12));
    assert!(!counts_as_change(1 << 13));
    assert!(!counts_as_change(!CHANGE_FLAGS));
}

#[test]
fn every_combination_of_flags() {
    for bits in 0..=0xffffu32 {
        let status = Status::from_bits_retain(bits);
        let expected = status.is_wt_new()
            || status.is_wt_modified()
            || status.is_wt_deleted()
            || status.is_wt_renamed()
            || status.is_wt_typechange()
            || status.is_index_new()
            || status.is_index_modified()
            || status.is_index_deleted()
            || status.is_index_renamed()
            || status.is_index_typechange();
        assert_eq!(counts_as_change(bits), expected, "{:#x}", bits);
        assert_eq!(counts_as_change(bits), bits & 0x0f9f != 0, "{:#x}", bits);
        assert_eq!(counts_as_change(bits | 0xffff_0000), expected, "{:#x}", bits);
    }
}

#[test]
fn changed_files_are_counted() {
    assert_eq!(count_changes(&vec![]), 0);
    assert_eq!(count_changes(&vec![0, 1 << 14, 1 << 15]), 0);
    assert_eq!(count_changes(&vec![1, 0, 1 << 7, 1 << 14, 3, 1 << 11]), 4);
    assert_eq!(count_changes(&vec![1 << 8; 1000]), 1000);
    assert!(!needs_diff(&vec![]));
    assert!(!needs_diff(&vec![0, 1 << 14]));
    assert!(needs_diff(&vec![0, 1 << 14, 1 << 9]));
}

#[test]
fn a_clean_tree_has_no_statistics() {
    let none = totals(0, 0, 0);
    assert_eq!(get_git_diff_stats(&vec![], None, None), None);
    assert_eq!(get_git_diff_stats(&vec![], Some(totals(3, 2, 1)), Some(none)), None);
    assert_eq!(get_git_diff_stats(&vec![0, 1 << 14], Some(none), Some(totals(3, 2, 1))), None);
}

#[test]
fn a_diff_that_could_not_be_read_gives_no_statistics() {
    assert_eq!(get_git_diff_stats(&vec![1 << 8], None, None), None);
    assert_eq!(get_git_diff_stats(&vec![1 << 8], Some(totals(1, 1, 1)), None), None);
    assert_eq!(get_git_diff_stats(&vec![1 << 8], None, Some(totals(1, 1, 1))), None);
}

#[test]
fn the_statistics_add_up_both_diffs() {
    let stats =
        get_git_diff_stats(&vec![1 << 8, 1 << 7], Some(totals(0, 0, 0)), Some(totals(1, 25, 2)));
    assert_eq!(stats, Some(GitStats { insertions: 25, deletions: 2, total_changes: 1 }));
    let stats = get_git_diff_stats(&vec![1, 1 << 8], Some(totals(2, 10, 3)), Some(totals(1, 25, 2)));
    assert_eq!(stats, Some(GitStats { insertions: 35, deletions: 5, total_changes: 3 }));
    // an untracked file counts as a change though the diffs may be empty
    let stats = get_git_diff_stats(&vec![1 << 7], Some(totals(0, 0, 0)), Some(totals(0, 0, 0)));
    assert_eq!(stats, Some(GitStats { insertions: 0, deletions: 0, total_changes: 0 }));
}

#[test]
fn the_same_reading_gives_the_same_statistics() {
    let statuses = vec![1 << 8, 0, 1 << 2];
    let first = get_git_diff_stats(&statuses, Some(totals(1, 4, 0)), Some(totals(2, 40, 7)));
    let second = get_git_diff_stats(&statuses, Some(totals(1, 4, 0)), Some(totals(2, 40, 7)));
    assert_eq!(first, second);
    assert_eq!(first, Some(GitStats { insertions: 44, deletions: 7, total_changes: 3 }));
}

#[test]
fn large_totals_wrap_around() {
    let max = u32::MAX as u64;
    let Ok(exact) = usize::try_from(max) else { return };
    let Ok(wrapped) = usize::try_from(max + 1) else { return };
    let stats = get_git_diff_stats(&vec![1], Some(totals(6, 0, 0)), Some(totals(exact, exact, wrapped)));
    assert_eq!(stats, Some(GitStats { insertions: u32::MAX, deletions: 0, total_changes: 5 }));
    let stats = get_git_diff_stats(
        &vec![1],
        Some(totals(usize::MAX, usize::MAX, 0)),
        Some(totals(usize::MAX, 1, 0)),
    );
    let twice = ((usize::MAX as u128 * 2) % (1 << 32)) as u32;
    let once = ((usize::MAX as u128 + 1) % (1 << 32)) as u32;
    assert_eq!(stats, Some(GitStats { insertions: once, deletions: 0, total_changes: twice }));
}
