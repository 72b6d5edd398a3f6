use pretty_git_prompt::conf::{configuration_from, default_conf, Conf, ConfDocument, ConfError};

const FULL_CONF: &str = "---
symbols:
    new: '+'
    changed: 'c'
    staged: 's'
    conflicts: 'x'
    difference_ahead: '>'
    difference_behind: '<'
monitor_remotes:
    a: b
    c: d
    e: f
colors:
    branch: 'blue'
    remote_difference: 'white'
    new: '014'
    changed: 'red'
    staged: 'green'
    conflicts: 'yellow'
";

const DEFAULT_CONF_TEXT: &str = "---
symbols:
    new: '✚'
    changed: 'Δ'
    staged: '▶'
    conflicts: '✖'
    difference_ahead: '↑'
    difference_behind: '↓'
monitor_remotes:
    upstream: master
colors:
    branch: 'blue'
    remote_difference: 'white'
    new: '014'
    changed: 'red'
    staged: 'green'
    conflicts: 'yellow'
";

#[test]
fn test_default_new_symbol() {
    let c = default_conf();
    assert_eq!(c.get_new_symbol(), "✚");
}

#[test]
fn test_default_changed_symbol() {
    let c = default_conf();
    assert_eq!(c.get_changed_symbol(), "Δ");
}

#[test]
fn test_default_staged_symbol() {
    let c = default_conf();
    assert_eq!(c.get_staged_symbol(), "▶");
}

#[test]
fn test_default_conflicts_symbol() {
    let c = default_conf();
    assert_eq!(c.get_conflicts_symbol(), "✖");
}

#[test]
fn test_difference_ahead_symbol() {
    let c = default_conf();
    assert_eq!(c.get_difference_ahead_symbol(), "↑");
}

#[test]
fn test_difference_behind_symbol() {
    let c = default_conf();
    assert_eq!(c.get_difference_behind_symbol(), "↓");
}

#[test]
fn test_default_monitored_remotes() {
    let c = default_conf();
    let remotes = c.get_remotes_monitoring();
    assert_eq!(
        remotes,
        vec![(String::from("upstream"), String::from("master"))]
    );
}

#[test]
fn test_monitored_remotes_ordering() {
    let c = Conf::new(FULL_CONF).unwrap();
    let remotes = c.get_remotes_monitoring();
    let mut iter = remotes.iter();
    assert_eq!(iter.next().unwrap(), &(String::from("a"), String::from("b")));
    assert_eq!(iter.next().unwrap(), &(String::from("c"), String::from("d")));
    assert_eq!(iter.next().unwrap(), &(String::from("e"), String::from("f")));
}

#[test]
fn test_default_branch_color() {
    let c = default_conf();
    assert_eq!(c.get_branch_color(), "blue");
}

#[test]
fn test_default_remote_difference_color() {
    let c = default_conf();
    assert_eq!(c.get_remote_difference_color(), "white");
}

#[test]
fn test_default_new_color() {
    let c = default_conf();
    assert_eq!(c.get_new_color(), "014");
}

#[test]
fn test_default_changed_color() {
    let c = default_conf();
    assert_eq!(c.get_changed_color(), "red");
}

#[test]
fn test_default_staged_color() {
    let c = default_conf();
    assert_eq!(c.get_staged_color(), "green");
}

#[test]
fn test_default_conflicts_color() {
    let c = default_conf();
    assert_eq!(c.get_conflicts_color(), "yellow");
}

#[test]
fn test_default_document_parses_to_default_conf() {
    let parsed = Conf::new(DEFAULT_CONF_TEXT).unwrap();
    assert_eq!(parsed, default_conf());
}

#[test]
fn test_full_document_symbols() {
    let c = Conf::new(FULL_CONF).unwrap();
    assert_eq!(c.get_new_symbol(), "+");
    assert_eq!(c.get_changed_symbol(), "c");
    assert_eq!(c.get_staged_symbol(), "s");
    assert_eq!(c.get_conflicts_symbol(), "x");
    assert_eq!(c.get_difference_ahead_symbol(), ">");
    assert_eq!(c.get_difference_behind_symbol(), "<");
}

#[test]
fn test_missing_entry_is_reported() {
    let partial = "---
symbols:
    new: '+'
";
    match Conf::new(partial) {
        Err(ConfError::MissingEntry(path)) => assert_eq!(path, "symbols.changed"),
        other => panic!("expected a missing-entry error, got {:?}", other),
    }
}

#[test]
fn test_missing_remotes_is_reported() {
    let partial = "---
symbols:
    new: '+'
    changed: 'c'
    staged: 's'
    conflicts: 'x'
    difference_ahead: '>'
    difference_behind: '<'
colors:
    branch: 'blue'
    remote_difference: 'white'
    new: '014'
    changed: 'red'
    staged: 'green'
    conflicts: 'yellow'
";
    match Conf::new(partial) {
        Err(ConfError::MissingEntry(path)) => assert_eq!(path, "monitor_remotes"),
        other => panic!("expected a missing-entry error, got {:?}", other),
    }
}

#[test]
fn test_empty_document_is_malformed() {
    assert_eq!(Conf::new(""), Err(ConfError::Malformed));
}

#[test]
fn test_unparsable_document_is_malformed() {
    assert_eq!(Conf::new("symbols: [unclosed"), Err(ConfError::Malformed));
}

#[test]
fn test_duplicate_remote_keys_keep_last_value() {
    let doc = "---
symbols:
    new: '+'
    changed: 'c'
    staged: 's'
    conflicts: 'x'
    difference_ahead: '>'
    difference_behind: '<'
monitor_remotes:
    b: first
    a: y
    b: second
colors:
    branch: 'blue'
    remote_difference: 'white'
    new: '014'
    changed: 'red'
    staged: 'green'
    conflicts: 'yellow'
";
    let c = Conf::new(doc).unwrap();
    let remotes = c.get_remotes_monitoring();
    assert_eq!(
        remotes,
        vec![
            (String::from("a"), String::from("y")),
            (String::from("b"), String::from("second")),
        ]
    );
}

#[test]
fn test_describe_missing_entry() {
    let e = ConfError::MissingEntry(String::from("colors.branch"));
    assert_eq!(e.describe(), "missing configuration entry: colors.branch");
    assert_eq!(ConfError::Malformed.describe(), "malformed configuration document");
    assert_eq!(ConfError::Unreadable.describe(), "unreadable configuration document");
}

#[test]
fn test_configuration_from_missing_uses_defaults() {
    assert_eq!(configuration_from(ConfDocument::Missing), Ok(default_conf()));
}

#[test]
fn test_configuration_from_unreadable_is_fatal_error() {
    assert_eq!(
        configuration_from(ConfDocument::Unreadable),
        Err(ConfError::Unreadable)
    );
}

#[test]
fn test_configuration_from_present_document() {
    let ok = configuration_from(ConfDocument::Present(String::from(FULL_CONF)));
    assert_eq!(ok, Conf::new(FULL_CONF));
    let bad = configuration_from(ConfDocument::Present(String::from("symbols: [unclosed")));
    assert_eq!(bad, Err(ConfError::Malformed));
}
