use pretty_git_prompt::branch::{last_path_segment, resolve_branch, shorten_hash, str_eq,
    BranchIdentity, HeadSignals};

fn signals(
    shorthand: Option<&str>,
    symbolic_target: Option<&str>,
    target_hex: Option<&str>,
) -> HeadSignals {
    HeadSignals {
        shorthand: shorthand.map(String::from),
        symbolic_target: symbolic_target.map(String::from),
        target_hex: target_hex.map(String::from),
    }
}

#[test]
fn test_named_branch_uses_shorthand() {
    let id = resolve_branch(Some(signals(
        Some("master"),
        None,
        Some("0123456789abcdef0123456789abcdef01234567"),
    )));
    assert_eq!(id.display_name, "master");
    assert!(!id.is_detached);
    assert_eq!(
        id.commit_id,
        Some(String::from("0123456789abcdef0123456789abcdef01234567"))
    );
}

#[test]
fn test_detached_head_uses_symbolic_target_segment() {
    let id = resolve_branch(Some(signals(
        Some("HEAD"),
        Some("refs/heads/feature"),
        Some("0123456789abcdef0123456789abcdef01234567"),
    )));
    assert_eq!(id.display_name, "feature");
    assert!(id.is_detached);
}

#[test]
fn test_detached_head_falls_back_to_hash_prefix() {
    let id = resolve_branch(Some(signals(
        Some("HEAD"),
        None,
        Some("0123456789abcdef0123456789abcdef01234567"),
    )));
    assert_eq!(id.display_name, "0123456");
    assert!(id.is_detached);
}

#[test]
fn test_short_hash_kept_whole() {
    let id = resolve_branch(Some(signals(Some("HEAD"), None, Some("0123456"))));
    assert_eq!(id.display_name, "0123456");
    let id = resolve_branch(Some(signals(Some("HEAD"), None, Some("01234567"))));
    assert_eq!(id.display_name, "0123456");
}

#[test]
fn test_missing_shorthand_uses_symbolic_target() {
    let id = resolve_branch(Some(signals(None, Some("refs/heads/topic/x"), None)));
    assert_eq!(id.display_name, "x");
    assert!(id.is_detached);
    assert_eq!(id.commit_id, None);
}

#[test]
fn test_no_signals_yields_empty_identity() {
    let id = resolve_branch(None);
    assert_eq!(
        id,
        BranchIdentity {
            display_name: String::new(),
            commit_id: None,
            is_detached: false,
        }
    );
}

#[test]
fn test_unborn_branch_has_no_commit() {
    let id = resolve_branch(Some(signals(Some("master"), None, None)));
    assert_eq!(id.display_name, "master");
    assert_eq!(id.commit_id, None);
    assert!(!id.is_detached);
}

#[test]
fn test_last_path_segment() {
    assert_eq!(last_path_segment("refs/heads/master"), "master");
    assert_eq!(last_path_segment("master"), "master");
    assert_eq!(last_path_segment("a/"), "");
    assert_eq!(last_path_segment(""), "");
}

#[test]
fn test_shorten_hash_boundary() {
    assert_eq!(shorten_hash("abcdefgh"), "abcdefg");
    assert_eq!(shorten_hash("abcdefg"), "abcdefg");
    assert_eq!(shorten_hash(""), "");
    assert_eq!(shorten_hash("0123456789abcdef0123456789abcdef01234567"), "0123456");
}

#[test]
fn test_str_eq() {
    assert!(str_eq("HEAD", "HEAD"));
    assert!(!str_eq("HEAD", "head"));
    assert!(!str_eq("HEAD", "HEA"));
    assert!(str_eq("", ""));
}

#[test]
fn test_resolver_idempotent_on_equal_signals() {
    let a = resolve_branch(Some(signals(Some("dev"), None, Some("abcdef012345"))));
    let b = resolve_branch(Some(signals(Some("dev"), None, Some("abcdef012345"))));
    assert_eq!(a, b);
}
