use pretty_git_prompt::backend::Backend;
use pretty_git_prompt::operation::RepoOperation;
use pretty_git_prompt::snapshot::RemoteComparison;

/// Open (creating on first use) a scratch repository with one commit.
fn scratch_repo(path: &str) -> git2::Repository {
    let repo = git2::Repository::init(path).unwrap();
    if repo.head().is_err() {
        let sig = git2::Signature::now("tester", "tester@example.com").unwrap();
        let tree_id = {
            let mut index = repo.index().unwrap();
            index.write_tree().unwrap()
        };
        let tree = repo.find_tree(tree_id).unwrap();
        repo.commit(Some("HEAD"), &sig, &sig, "initial", &tree, &[]).unwrap();
    }
    repo
}

#[test]
fn test_named_branch_on_real_repository() {
    let repo = scratch_repo("/tmp/state_resolver_scratch_named");
    let expected = repo.head().unwrap().shorthand().unwrap().to_string();
    let backend = Backend { repo };
    let id = backend.resolve_branch();
    assert!(!id.is_detached);
    assert_eq!(id.display_name, expected);
    assert!(id.commit_id.is_some());
    assert_eq!(backend.get_current_branch_name(), expected);
}

#[test]
fn test_detached_head_on_real_repository() {
    let repo = scratch_repo("/tmp/state_resolver_scratch_detached");
    let oid = repo.head().unwrap().target().unwrap();
    repo.set_head_detached(oid).unwrap();
    let backend = Backend { repo };
    let id = backend.resolve_branch();
    assert!(id.is_detached);
    assert_eq!(id.display_name, oid.to_string()[..7].to_string());
    assert_eq!(id.commit_id, Some(oid.to_string()));
}

#[test]
fn test_no_upstream_on_real_repository() {
    let repo = scratch_repo("/tmp/state_resolver_scratch_upstream");
    let backend = Backend { repo };
    assert_eq!(backend.get_current_branch_ahead_behind(), None);
}

#[test]
fn test_nonexistent_remote_pair_is_absent() {
    let repo = scratch_repo("/tmp/state_resolver_scratch_remote");
    let backend = Backend { repo };
    assert_eq!(backend.get_remote_branch_ahead_behind("upstream", "master"), None);
    assert_eq!(backend.get_remote_branch_ahead_behind("upstream", ""), None);
}

#[test]
fn test_clean_repository_state() {
    let repo = scratch_repo("/tmp/state_resolver_scratch_state");
    let backend = Backend { repo };
    assert_eq!(backend.get_repository_state(), "");
    assert_eq!(backend.get_repository_operation(), RepoOperation::Idle);
}

#[test]
fn test_file_status_on_real_repository() {
    let repo = scratch_repo("/tmp/state_resolver_scratch_status");
    let backend = Backend { repo };
    let counts = backend.get_file_status().unwrap();
    assert_eq!(counts.changed, 0);
    assert_eq!(counts.staged, 0);
    assert_eq!(counts.conflicted, 0);
}

#[test]
fn test_aggregate_snapshot() {
    let repo = scratch_repo("/tmp/state_resolver_scratch_aggregate");
    let backend = Backend { repo };
    let snapshot = backend.aggregate(None);
    assert!(!snapshot.branch.is_detached);
    assert_eq!(snapshot.current_remote, None);
    assert_eq!(snapshot.named_remote, None);
    assert_eq!(snapshot.operation, RepoOperation::Idle);
    assert!(snapshot.counts.is_some());
}

#[test]
fn test_even_remote_pair_on_real_repository() {
    let repo = scratch_repo("/tmp/state_resolver_scratch_even");
    let oid = repo.head().unwrap().target().unwrap();
    repo.reference("refs/remotes/upstream/master", oid, true, "track").unwrap();
    let backend = Backend { repo };
    assert_eq!(
        backend.get_remote_branch_ahead_behind("upstream", "master"),
        Some((0, 0))
    );
    let snapshot = backend.aggregate(Some(("upstream", "master")));
    assert_eq!(snapshot.named_remote, Some(RemoteComparison { ahead: 0, behind: 0 }));
    assert_eq!(snapshot.current_remote, None);
}

#[test]
fn test_even_upstream_on_real_repository() {
    let repo = scratch_repo("/tmp/state_resolver_scratch_even_upstream");
    let head = repo.head().unwrap();
    let oid = head.target().unwrap();
    let name = head.shorthand().unwrap().to_string();
    drop(head);
    if repo.find_remote("upstream").is_err() {
        repo.remote("upstream", "https://example.invalid/repo.git").unwrap();
    }
    repo.reference("refs/remotes/upstream/master", oid, true, "track").unwrap();
    {
        let mut local = repo.find_branch(&name, git2::BranchType::Local).unwrap();
        local.set_upstream(Some("upstream/master")).unwrap();
    }
    let backend = Backend { repo };
    assert_eq!(backend.get_current_branch_ahead_behind(), Some((0, 0)));
}

#[test]
fn test_aggregate_twice_is_identical() {
    let repo_a = scratch_repo("/tmp/state_resolver_scratch_idempotent");
    let repo_b = git2::Repository::open("/tmp/state_resolver_scratch_idempotent").unwrap();
    let backend_a = Backend { repo: repo_a };
    let backend_b = Backend { repo: repo_b };
    let explicit = Some(("upstream", "master"));
    assert_eq!(backend_a.aggregate(explicit), backend_b.aggregate(explicit));
    assert_eq!(backend_a.aggregate(None), backend_a.aggregate(None));
}
