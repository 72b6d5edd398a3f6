//! The repository backend.
//!
//! `Backend` wraps an open repository handle and answers the queries the
//! prompt needs. Every call into the version-control library stands behind a
//! small trusted wrapper; the decisions — which signal wins, how failures
//! degrade, how flags are classified — are made in verified code over plain
//! values.

use vstd::prelude::*;
use vstd::string::StringExecFns;
use crate::branch::{resolve_branch, spec_display_name, BranchIdentity, HeadSignals};
use crate::operation::{map_operation, operation_label, spec_operation_label, spec_operation_of,
    BackendState, RepoOperation};
use crate::snapshot::{remote_comparison, snapshot_from_parts, RemoteComparison, StateSnapshot};
use crate::status::{classify_entries, entry_status_of, spec_counts_of_bits, spec_entry_status,
    EntryStatus, FileStatusCounts};

verus! {

#[verifier::external_type_specification]
#[verifier::external_body]
pub struct ExRepository(git2::Repository);

#[verifier::external_type_specification]
#[verifier::external_body]
pub struct ExReference<'a>(git2::Reference<'a>);

#[verifier::external_type_specification]
#[verifier::external_body]
pub struct ExOid(git2::Oid);

/// Relies on `git2::Repository::head`: the reference the repository's head
/// points at, absent when the lookup fails (for instance on an unborn branch).
#[verifier::external_body]
fn repo_head(repo: &git2::Repository) -> (r: Option<git2::Reference<'_>>)
{
    repo.head().ok()
}

/// Relies on `git2::Repository::find_reference`: a direct lookup of the
/// reference with the given name, absent when none resolves.
#[verifier::external_body]
fn find_reference<'a>(repo: &'a git2::Repository, name: &str) -> (r: Option<git2::Reference<'a>>)
{
    repo.find_reference(name).ok()
}

/// Relies on `git2::Reference::resolve`: the given reference followed through
/// symbolic indirection to a direct reference, absent when resolution fails.
#[verifier::external_body]
fn ref_resolve<'a>(r: &git2::Reference<'a>) -> (res: Option<git2::Reference<'a>>)
{
    r.resolve().ok()
}

/// Relies on `git2::Reference::shorthand`: the reference's short
/// human-readable name, absent when the name is not valid text.
#[verifier::external_body]
fn ref_shorthand(r: &git2::Reference<'_>) -> (res: Option<String>)
{
    match r.shorthand() {
        Ok(s) => Some(String::from(s)),
        Err(_) => None,
    }
}

/// Relies on `git2::Reference::symbolic_target`: the full name of the
/// reference this one points at, absent for direct references or names that
/// are not valid text.
#[verifier::external_body]
fn ref_symbolic_target(r: &git2::Reference<'_>) -> (res: Option<String>)
{
    match r.symbolic_target() {
        Ok(t) => match t {
            Some(s) => Some(String::from(s)),
            None => None,
        },
        Err(_) => None,
    }
}

/// Relies on `git2::Reference::target`: the object a direct reference points
/// at, absent for symbolic references.
#[verifier::external_body]
fn ref_target(r: &git2::Reference<'_>) -> (res: Option<git2::Oid>)
{
    r.target()
}

/// Relies on the hex `Display` of `git2::Oid`: the identifier rendered as a
/// hexadecimal string.
#[verifier::external_body]
fn oid_hex(o: &git2::Oid) -> (res: String)
{
    o.to_string()
}

/// Relies on `git2::Branch::upstream`: the tip of the remote-tracking branch
/// configured as upstream of the given local branch reference, absent when no
/// upstream is configured or it does not resolve to a commit.
#[verifier::external_body]
fn upstream_target(r: git2::Reference<'_>) -> (res: Option<git2::Oid>)
{
    let b = git2::Branch::wrap(r);
    match b.upstream() {
        Ok(u) => u.get().target(),
        Err(_) => None,
    }
}

/// Relies on `git2::Repository::find_branch` with the remote branch type: the
/// tip of the remote-tracking branch of the given full name, absent when the
/// lookup fails or the reference carries no target.
#[verifier::external_body]
fn remote_branch_target(repo: &git2::Repository, name: &str) -> (res: Option<git2::Oid>)
{
    match repo.find_branch(name, git2::BranchType::Remote) {
        Ok(b) => b.into_reference().target(),
        Err(_) => None,
    }
}

/// Relies on `git2::Repository::graph_ahead_behind`: how many commits are
/// reachable only from `local` and only from `upstream`, absent when the walk
/// fails (unrelated histories, a corrupt object).
#[verifier::external_body]
fn graph_ahead_behind(
    repo: &git2::Repository,
    local: git2::Oid,
    upstream: git2::Oid,
) -> (res: Option<(usize, usize)>)
{
    repo.graph_ahead_behind(local, upstream).ok()
}

/// Relies on `git2::Repository::statuses` over index and working tree with
/// untracked entries included, and on `git2::Status::bits`, the entry's raw
/// flag word: one word per entry, absent when enumeration fails.
#[verifier::external_body]
fn read_statuses(repo: &git2::Repository) -> (res: Option<Vec<u32>>)
{
    let mut so = git2::StatusOptions::new();
    so.show(git2::StatusShow::IndexAndWorkdir);
    so.include_untracked(true);
    match repo.statuses(Some(&mut so)) {
        Ok(ss) => Some(ss.iter().map(|e| e.status().bits()).collect()),
        Err(_) => None,
    }
}

/// Relies on `git2::Repository::state`: the on-disk operation marker, one
/// library variant per backend variant.
#[verifier::external_body]
fn read_state(repo: &git2::Repository) -> (res: BackendState)
{
    match repo.state() {
        git2::RepositoryState::Clean => BackendState::Clean,
        git2::RepositoryState::Merge => BackendState::Merge,
        git2::RepositoryState::Revert => BackendState::Revert,
        git2::RepositoryState::RevertSequence => BackendState::RevertSequence,
        git2::RepositoryState::CherryPick => BackendState::CherryPick,
        git2::RepositoryState::CherryPickSequence => BackendState::CherryPickSequence,
        git2::RepositoryState::Bisect => BackendState::Bisect,
        git2::RepositoryState::Rebase => BackendState::Rebase,
        git2::RepositoryState::RebaseInteractive => BackendState::RebaseInteractive,
        git2::RepositoryState::RebaseMerge => BackendState::RebaseMerge,
        git2::RepositoryState::ApplyMailbox => BackendState::ApplyMailbox,
        git2::RepositoryState::ApplyMailboxOrRebase => BackendState::ApplyMailboxOrRebase,
    }
}

/// An open repository.
pub struct Backend {
    pub repo: git2::Repository,
}

/// The remote-tracking reference name looked up for an explicit comparison:
/// `remote/branch`, with the current branch's name substituted when the
/// requested branch name is empty.
pub open spec fn spec_remote_ref_name(
    remote: Seq<char>,
    branch: Seq<char>,
    current: Seq<char>,
) -> Seq<char> {
    remote + "/"@ + if branch.len() == 0 {
        current
    } else {
        branch
    }
}

/// Build the remote-tracking reference name for an explicit comparison.
pub fn remote_ref_name(remote: &str, branch: &str, current: &str) -> (r: String)
    ensures
        r@ == spec_remote_ref_name(remote@, branch@, current@),
{
    let mut r = String::from_str(remote);
    r.append("/");
    if branch.is_empty() {
        r.append(current);
    } else {
        r.append(branch);
    }
    r
}

impl Backend {
    /// The repository's head reference: the canonical lookup, with a direct
    /// lookup of the literal `HEAD` reference as fallback. Absent when both
    /// fail.
    fn get_head(&self) -> Option<git2::Reference<'_>> {
        match repo_head(&self.repo) {
            Some(r) => Some(r),
            None => find_reference(&self.repo, "HEAD"),
        }
    }

    /// Extract the head signals: obtain the head reference, follow symbolic
    /// indirection where possible, and read the resolved reference's short
    /// name, symbolic target and target commit. Absent when both head
    /// lookups fail.
    fn head_signals(&self) -> Option<HeadSignals> {
        let r0 = match self.get_head() {
            Some(r) => r,
            None => {
                return None;
            },
        };
        let h = match ref_resolve(&r0) {
            Some(r) => r,
            None => r0,
        };
        let target_hex = match ref_target(&h) {
            Some(o) => Some(oid_hex(&o)),
            None => None,
        };
        Some(
            HeadSignals {
                shorthand: ref_shorthand(&h),
                symbolic_target: ref_symbolic_target(&h),
                target_hex,
            },
        )
    }

    /// The commit the head points at, absent on an unborn branch.
    fn current_branch_oid(&self) -> Option<git2::Oid> {
        match self.get_head() {
            Some(r) => ref_target(&r),
            None => None,
        }
    }

    /// The tip of the upstream configured for the current branch, absent when
    /// there is no head or no upstream.
    fn current_branch_remote_oid(&self) -> Option<git2::Oid> {
        match self.get_head() {
            Some(r) => upstream_target(r),
            None => None,
        }
    }

    /// Resolve the head into a branch identity. Never fails: every backend
    /// failure degrades to an emptier identity, and the result is the
    /// resolver's verdict on the signals that were read.
    pub fn resolve_branch(&self) -> (r: BranchIdentity)
        ensures
            exists|sig: Option<HeadSignals>|
                r.display_name@ == spec_display_name(sig) && r.is_detached
                    == crate::branch::spec_is_detached(sig),
    {
        let sig = self.head_signals();
        let ghost gsig = sig;
        let r = resolve_branch(sig);
        proof {
            assert(r.display_name@ == spec_display_name(gsig) && r.is_detached
                == crate::branch::spec_is_detached(gsig));
        }
        r
    }

    /// The current branch's display name: the resolved identity's name.
    pub fn get_current_branch_name(&self) -> (r: String)
        ensures
            exists|sig: Option<HeadSignals>| r@ == spec_display_name(sig),
    {
        let id = self.resolve_branch();
        id.display_name
    }

    /// The comparison against the configured upstream: the upstream tip, the
    /// local tip and the graph walk between them, fed through the verified
    /// decision core. Whatever the backend answered, the result is the
    /// decision core's verdict on those three signals.
    fn current_comparison(&self) -> (r: Option<RemoteComparison>)
        ensures
            exists|remote_known: bool, local_known: bool, graph: Option<(usize, usize)>|
                r == crate::snapshot::spec_remote_comparison(remote_known, local_known, graph),
    {
        let remote_tip = self.current_branch_remote_oid();
        let local_tip = self.current_branch_oid();
        let remote_known = remote_tip.is_some();
        let local_known = local_tip.is_some();
        let ghost grk = remote_known;
        let ghost glk = local_known;
        let graph = match (local_tip, remote_tip) {
            (Some(l), Some(r)) => graph_ahead_behind(&self.repo, l, r),
            _ => None,
        };
        let ghost gg = graph;
        let r = remote_comparison(remote_known, local_known, graph);
        proof {
            assert(r == crate::snapshot::spec_remote_comparison(grk, glk, gg));
        }
        r
    }

    /// The comparison against an explicitly named remote branch; an empty
    /// branch name stands for the current branch. Whatever the backend
    /// answered, the result is the decision core's verdict on the three
    /// signals read for the constructed reference name.
    fn named_comparison(&self, remote_name: &str, branch_name: &str) -> (r: Option<
        RemoteComparison,
    >)
        ensures
            exists|remote_known: bool, local_known: bool, graph: Option<(usize, usize)>|
                r == crate::snapshot::spec_remote_comparison(remote_known, local_known, graph),
    {
        let current = self.get_current_branch_name();
        let full = remote_ref_name(remote_name, branch_name, current.as_str());
        let remote_tip = remote_branch_target(&self.repo, full.as_str());
        let local_tip = self.current_branch_oid();
        let remote_known = remote_tip.is_some();
        let local_known = local_tip.is_some();
        let ghost grk = remote_known;
        let ghost glk = local_known;
        let graph = match (local_tip, remote_tip) {
            (Some(l), Some(r)) => graph_ahead_behind(&self.repo, l, r),
            _ => None,
        };
        let ghost gg = graph;
        let r = remote_comparison(remote_known, local_known, graph);
        proof {
            assert(r == crate::snapshot::spec_remote_comparison(grk, glk, gg));
        }
        r
    }

    /// Commits ahead of and behind the current branch's configured upstream.
    /// Absent — never a zero pair — when no upstream is configured, the local
    /// tip is unknown, or the graph walk fails: the result is the decision
    /// core's verdict on the signals read, as a plain pair.
    pub fn get_current_branch_ahead_behind(&self) -> (r: Option<(usize, usize)>)
        ensures
            exists|remote_known: bool, local_known: bool, graph: Option<(usize, usize)>|
                r == (match (#[trigger] crate::snapshot::spec_remote_comparison(
                    remote_known,
                    local_known,
                    graph,
                )) {
                    Some(c) => Some((c.ahead, c.behind)),
                    None => None,
                }),
    {
        let c = self.current_comparison();
        let ghost (grk, glk, gg): (bool, bool, Option<(usize, usize)>) = choose|
            rk: bool,
            lk: bool,
            g: Option<(usize, usize)>,
        | c == crate::snapshot::spec_remote_comparison(rk, lk, g);
        let r = match c {
            Some(x) => Some((x.ahead, x.behind)),
            None => None,
        };
        proof {
            assert(r == (match crate::snapshot::spec_remote_comparison(grk, glk, gg) {
                Some(cc) => Some((cc.ahead, cc.behind)),
                None => None,
            }));
        }
        r
    }

    /// Commits ahead of and behind an explicitly named remote branch. An empty
    /// branch name stands for the current branch. Absent when the pair does
    /// not resolve, the local tip is unknown, or the graph walk fails: the
    /// result is the decision core's verdict on the signals read, as a plain
    /// pair.
    pub fn get_remote_branch_ahead_behind(
        &self,
        remote_name: &str,
        branch_name: &str,
    ) -> (r: Option<(usize, usize)>)
        ensures
            exists|remote_known: bool, local_known: bool, graph: Option<(usize, usize)>|
                r == (match (#[trigger] crate::snapshot::spec_remote_comparison(
                    remote_known,
                    local_known,
                    graph,
                )) {
                    Some(c) => Some((c.ahead, c.behind)),
                    None => None,
                }),
    {
        let c = self.named_comparison(remote_name, branch_name);
        let ghost (grk, glk, gg): (bool, bool, Option<(usize, usize)>) = choose|
            rk: bool,
            lk: bool,
            g: Option<(usize, usize)>,
        | c == crate::snapshot::spec_remote_comparison(rk, lk, g);
        let r = match c {
            Some(x) => Some((x.ahead, x.behind)),
            None => None,
        };
        proof {
            assert(r == (match crate::snapshot::spec_remote_comparison(grk, glk, gg) {
                Some(cc) => Some((cc.ahead, cc.behind)),
                None => None,
            }));
        }
        r
    }

    /// The raw status flag words of all entries, index and working tree
    /// combined, untracked entries included; absent when enumeration fails.
    pub fn get_status(&self) -> Option<Vec<u32>> {
        read_statuses(&self.repo)
    }

    /// The label of the operation in progress: one of the seven presented
    /// operation labels, the empty string when the repository is clean.
    pub fn get_repository_state(&self) -> (r: String)
        ensures
            exists|s: BackendState| r@ == spec_operation_label(spec_operation_of(s)),
    {
        let s = read_state(&self.repo);
        let ghost gs = s;
        let r = operation_label(map_operation(s));
        proof {
            assert(r@ == spec_operation_label(spec_operation_of(gs)));
        }
        r
    }

    /// The operation in progress, mapped onto the presented enumeration.
    pub fn get_repository_operation(&self) -> (op: RepoOperation)
        ensures
            exists|s: BackendState| op == spec_operation_of(s),
    {
        let s = read_state(&self.repo);
        let ghost gs = s;
        let op = map_operation(s);
        proof {
            assert(op == spec_operation_of(gs));
        }
        op
    }

    /// Classified file status counts. All-or-nothing: absent when enumeration
    /// fails, otherwise the four bucket counts of the decoded flag words that
    /// were read.
    pub fn get_file_status(&self) -> (r: Option<FileStatusCounts>)
        ensures
            r matches Some(c) ==> exists|bits: Seq<u32>| c == spec_counts_of_bits(bits),
    {
        let flags = match self.get_status() {
            Some(f) => f,
            None => {
                return None;
            },
        };
        let mut entries: Vec<EntryStatus> = Vec::new();
        let n = flags.len();
        let mut i: usize = 0;
        while i < n
            invariant
                i <= n,
                n == flags@.len(),
                entries@ == flags@.take(i as int).map_values(|b: u32| spec_entry_status(b)),
            decreases n - i,
        {
            let e = entry_status_of(flags[i]);
            entries.push(e);
            proof {
                assert(entries@ =~= flags@.take(i + 1).map_values(
                    |b: u32| spec_entry_status(b),
                ));
            }
            i = i + 1;
        }
        let c = classify_entries(&entries);
        proof {
            assert(flags@.take(n as int) =~= flags@);
            assert(c == spec_counts_of_bits(flags@));
        }
        Some(c)
    }

    /// Aggregate one immutable snapshot: branch identity, divergence from the
    /// configured upstream, divergence from an explicitly requested
    /// remote/branch pair, the operation in progress, and file status counts.
    /// When no explicit pair is requested the named comparison is absent.
    pub fn aggregate(&self, explicit_remote: Option<(&str, &str)>) -> (s: StateSnapshot)
        ensures
            explicit_remote is None ==> s.named_remote is None,
            exists|sig: Option<HeadSignals>|
                s.branch.display_name@ == spec_display_name(sig) && s.branch.is_detached
                    == crate::branch::spec_is_detached(sig),
            exists|remote_known: bool, local_known: bool, graph: Option<(usize, usize)>|
                s.current_remote == crate::snapshot::spec_remote_comparison(
                    remote_known,
                    local_known,
                    graph,
                ),
            exists|remote_known: bool, local_known: bool, graph: Option<(usize, usize)>|
                s.named_remote == crate::snapshot::spec_remote_comparison(
                    remote_known,
                    local_known,
                    graph,
                ),
            exists|st: BackendState| s.operation == spec_operation_of(st),
            s.counts matches Some(c) ==> exists|bits: Seq<u32>| c == spec_counts_of_bits(bits),
    {
        let branch = self.resolve_branch();
        let current = self.current_comparison();
        let named = match explicit_remote {
            Some((remote_name, branch_name)) => self.named_comparison(remote_name, branch_name),
            None => None,
        };
        proof {
            if explicit_remote is None {
                assert(named == crate::snapshot::spec_remote_comparison(false, false, None));
            }
        }
        let operation = self.get_repository_operation();
        let counts = self.get_file_status();
        snapshot_from_parts(branch, current, named, operation, counts)
    }
}

} // verus!
