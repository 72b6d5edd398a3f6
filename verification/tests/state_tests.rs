use pretty_git_prompt::branch::BranchIdentity;
use pretty_git_prompt::operation::{map_operation, operation_label, BackendState, RepoOperation};
use pretty_git_prompt::snapshot::{remote_comparison, snapshot_from_parts, RemoteComparison};
use pretty_git_prompt::status::{classify_entries, entry_status_of, EntryStatus, FileStatusCounts};

fn clean_entry() -> EntryStatus {
    EntryStatus {
        wt_new: false,
        wt_modified: false,
        wt_deleted: false,
        wt_typechange: false,
        wt_renamed: false,
        index_new: false,
        index_modified: false,
        index_deleted: false,
        index_typechange: false,
        index_renamed: false,
        conflicted: false,
    }
}

#[test]
fn test_operation_mapping_merges() {
    assert_eq!(map_operation(BackendState::Clean), RepoOperation::Idle);
    assert_eq!(map_operation(BackendState::Merge), RepoOperation::Merge);
    assert_eq!(map_operation(BackendState::Revert), RepoOperation::Revert);
    assert_eq!(map_operation(BackendState::RevertSequence), RepoOperation::Revert);
    assert_eq!(map_operation(BackendState::CherryPick), RepoOperation::CherryPick);
    assert_eq!(map_operation(BackendState::CherryPickSequence), RepoOperation::CherryPick);
    assert_eq!(map_operation(BackendState::Bisect), RepoOperation::Bisect);
    assert_eq!(map_operation(BackendState::Rebase), RepoOperation::Rebase);
    assert_eq!(map_operation(BackendState::RebaseInteractive), RepoOperation::Rebase);
    assert_eq!(map_operation(BackendState::RebaseMerge), RepoOperation::Rebase);
    assert_eq!(map_operation(BackendState::ApplyMailbox), RepoOperation::ApplyMailbox);
    assert_eq!(map_operation(BackendState::ApplyMailboxOrRebase), RepoOperation::ApplyMailbox);
}

#[test]
fn test_operation_labels() {
    assert_eq!(operation_label(RepoOperation::Idle), "");
    assert_eq!(operation_label(RepoOperation::Merge), "merge");
    assert_eq!(operation_label(RepoOperation::Revert), "revert");
    assert_eq!(operation_label(RepoOperation::CherryPick), "cherry-pick");
    assert_eq!(operation_label(RepoOperation::Bisect), "bisect");
    assert_eq!(operation_label(RepoOperation::Rebase), "rebase");
    assert_eq!(operation_label(RepoOperation::ApplyMailbox), "apply");
}

#[test]
fn test_entry_status_decodes_flag_bits() {
    // Index-modified (bit 1) together with working-tree-modified (bit 8),
    // as libgit2 encodes a staged file that was re-modified afterwards.
    let e = entry_status_of(0x0002 | 0x0100);
    let mut expected = clean_entry();
    expected.index_modified = true;
    expected.wt_modified = true;
    assert_eq!(e, expected);
    assert_eq!(entry_status_of(0), clean_entry());
    let conflict = entry_status_of(0x8000);
    assert!(conflict.conflicted);
    assert!(!conflict.wt_new);
    let untracked = entry_status_of(0x0080);
    assert!(untracked.wt_new);
    assert!(!untracked.conflicted);
}

#[test]
fn test_staged_and_remodified_counts_twice() {
    let mut e = clean_entry();
    e.index_modified = true;
    e.wt_modified = true;
    let counts = classify_entries(&vec![e]);
    assert_eq!(
        counts,
        FileStatusCounts { new: 0, changed: 1, staged: 1, conflicted: 0 }
    );
}

#[test]
fn test_classification_buckets() {
    let mut untracked = clean_entry();
    untracked.wt_new = true;
    let mut deleted = clean_entry();
    deleted.wt_deleted = true;
    let mut staged_new = clean_entry();
    staged_new.index_new = true;
    let mut conflict = clean_entry();
    conflict.conflicted = true;
    let mut renamed = clean_entry();
    renamed.index_renamed = true;
    renamed.wt_typechange = true;
    let entries = vec![untracked, deleted, staged_new, conflict, renamed, clean_entry()];
    let counts = classify_entries(&entries);
    assert_eq!(
        counts,
        FileStatusCounts { new: 1, changed: 2, staged: 2, conflicted: 1 }
    );
}

#[test]
fn test_empty_status_is_all_zero() {
    let counts = classify_entries(&Vec::new());
    assert_eq!(
        counts,
        FileStatusCounts { new: 0, changed: 0, staged: 0, conflicted: 0 }
    );
}

#[test]
fn test_no_upstream_is_absent_not_zero() {
    assert_eq!(remote_comparison(false, true, None), None);
    assert_eq!(remote_comparison(false, true, Some((0, 0))), None);
    assert_eq!(remote_comparison(true, false, Some((3, 1))), None);
}

#[test]
fn test_even_with_upstream_is_present_zero() {
    assert_eq!(
        remote_comparison(true, true, Some((0, 0))),
        Some(RemoteComparison { ahead: 0, behind: 0 })
    );
    assert_eq!(
        remote_comparison(true, true, Some((2, 5))),
        Some(RemoteComparison { ahead: 2, behind: 5 })
    );
    assert_eq!(remote_comparison(true, true, None), None);
}

#[test]
fn test_named_comparison_independent_of_current() {
    let branch = BranchIdentity {
        display_name: String::from("master"),
        commit_id: Some(String::from("0123456789abcdef")),
        is_detached: false,
    };
    let current = Some(RemoteComparison { ahead: 1, behind: 2 });
    let with_named = snapshot_from_parts(
        branch.clone(),
        current,
        Some(RemoteComparison { ahead: 4, behind: 0 }),
        RepoOperation::Idle,
        None,
    );
    let without_named = snapshot_from_parts(branch, current, None, RepoOperation::Idle, None);
    assert_eq!(without_named.named_remote, None);
    assert_eq!(with_named.current_remote, without_named.current_remote);
}

#[test]
fn test_snapshot_assembly_deterministic() {
    let make = || {
        snapshot_from_parts(
            BranchIdentity {
                display_name: String::from("dev"),
                commit_id: None,
                is_detached: false,
            },
            None,
            None,
            RepoOperation::Rebase,
            Some(FileStatusCounts { new: 1, changed: 0, staged: 0, conflicted: 0 }),
        )
    };
    assert_eq!(make(), make());
}
