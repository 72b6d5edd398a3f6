//! State aggregation.
//!
//! The aggregator combines branch identity, remote-tracking comparison,
//! in-progress-operation detection and file-status counts into one immutable
//! snapshot. Divergence from a remote is an optional enrichment: it is absent
//! — not zero — whenever no tracking relationship exists, the local tip is
//! unknown, or the graph computation failed.

use vstd::prelude::*;
use crate::branch::BranchIdentity;
use crate::operation::RepoOperation;
use crate::status::FileStatusCounts;

verus! {

/// Commits ahead of and behind a tracked remote tip.
#[derive(Clone, Copy, Debug, PartialEq, Eq, Structural)]
pub struct RemoteComparison {
    pub ahead: usize,
    pub behind: usize,
}

/// The aggregate, immutable description of a repository's state.
#[derive(Clone, Debug, PartialEq, Eq)]
pub struct StateSnapshot {
    /// The resolved head identity.
    pub branch: BranchIdentity,
    /// Divergence from the branch's configured upstream, when one resolves.
    pub current_remote: Option<RemoteComparison>,
    /// Divergence from an explicitly requested remote/branch pair, when it
    /// resolves; independent of `current_remote`.
    pub named_remote: Option<RemoteComparison>,
    /// The operation in progress, if any.
    pub operation: RepoOperation,
    /// File status counts; absent when status enumeration failed.
    pub counts: Option<FileStatusCounts>,
}

/// The comparison owed for one remote tip: absent unless both the remote tip
/// and the local tip are known and the graph walk produced a count pair.
pub open spec fn spec_remote_comparison(
    remote_tip_known: bool,
    local_tip_known: bool,
    graph: Option<(usize, usize)>,
) -> Option<RemoteComparison> {
    if !remote_tip_known || !local_tip_known {
        None
    } else {
        match graph {
            Some(g) => Some(RemoteComparison { ahead: g.0, behind: g.1 }),
            None => None,
        }
    }
}

/// Build the comparison against one remote tip from the three signals that
/// decide it: whether the remote tip resolved, whether the local tip
/// resolved, and what the graph walk between them returned (absent when it
/// was not attempted or failed).
pub fn remote_comparison(
    remote_tip_known: bool,
    local_tip_known: bool,
    graph: Option<(usize, usize)>,
) -> (r: Option<RemoteComparison>)
    ensures
        r == spec_remote_comparison(remote_tip_known, local_tip_known, graph),
{
    if !remote_tip_known || !local_tip_known {
        None
    } else {
        match graph {
            Some(g) => Some(RemoteComparison { ahead: g.0, behind: g.1 }),
            None => None,
        }
    }
}

/// The snapshot assembled from its five parts.
pub open spec fn spec_snapshot(
    branch: BranchIdentity,
    current_remote: Option<RemoteComparison>,
    named_remote: Option<RemoteComparison>,
    operation: RepoOperation,
    counts: Option<FileStatusCounts>,
) -> StateSnapshot {
    StateSnapshot { branch, current_remote, named_remote, operation, counts }
}

/// Assemble a snapshot from its parts. The parts are kept as given: the
/// aggregator adds nothing and reorders nothing.
pub fn snapshot_from_parts(
    branch: BranchIdentity,
    current_remote: Option<RemoteComparison>,
    named_remote: Option<RemoteComparison>,
    operation: RepoOperation,
    counts: Option<FileStatusCounts>,
) -> (s: StateSnapshot)
    ensures
        s == spec_snapshot(branch, current_remote, named_remote, operation, counts),
{
    StateSnapshot { branch, current_remote, named_remote, operation, counts }
}

/// Without a resolvable tracking relationship the comparison is absent —
/// never a present zero/zero pair — whatever the local tip and the graph walk
/// would have said.
pub proof fn lemma_no_upstream_absent(local_tip_known: bool, graph: Option<(usize, usize)>)
    ensures
        spec_remote_comparison(false, local_tip_known, graph) is None,
{
}

/// A branch exactly even with its upstream — both tips known, a graph walk
/// that counted zero commits either way — yields a present zero/zero
/// comparison, distinguishable from the absent one.
pub proof fn lemma_even_with_upstream()
    ensures
        spec_remote_comparison(true, true, Some((0usize, 0usize))) == Some(
            RemoteComparison { ahead: 0usize, behind: 0usize },
        ),
{
}

/// The explicitly named comparison and the upstream comparison are
/// independent: a named pair that does not resolve yields an absent named
/// comparison, and exchanging the named result never changes the upstream
/// result in the assembled snapshot.
pub proof fn lemma_named_comparison_independent(
    branch: BranchIdentity,
    current_remote: Option<RemoteComparison>,
    named_a: Option<RemoteComparison>,
    named_b: Option<RemoteComparison>,
    operation: RepoOperation,
    counts: Option<FileStatusCounts>,
    local_tip_known: bool,
    graph: Option<(usize, usize)>,
)
    ensures
        spec_remote_comparison(false, local_tip_known, graph) is None,
        spec_snapshot(branch, current_remote, named_a, operation, counts).current_remote
            == spec_snapshot(branch, current_remote, named_b, operation, counts).current_remote,
{
}

/// Aggregation is deterministic: equal parts — as arise from two reads of an
/// unchanged repository — assemble into identical snapshots.
pub proof fn lemma_snapshot_deterministic(
    branch_a: BranchIdentity,
    current_a: Option<RemoteComparison>,
    named_a: Option<RemoteComparison>,
    operation_a: RepoOperation,
    counts_a: Option<FileStatusCounts>,
    branch_b: BranchIdentity,
    current_b: Option<RemoteComparison>,
    named_b: Option<RemoteComparison>,
    operation_b: RepoOperation,
    counts_b: Option<FileStatusCounts>,
)
    requires
        branch_a == branch_b,
        current_a == current_b,
        named_a == named_b,
        operation_a == operation_b,
        counts_a == counts_b,
    ensures
        spec_snapshot(branch_a, current_a, named_a, operation_a, counts_a) == spec_snapshot(
            branch_b,
            current_b,
            named_b,
            operation_b,
            counts_b,
        ),
{
}

} // verus!
