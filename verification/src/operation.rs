//! In-progress repository operation detection.
//!
//! The backend exposes a single operation-state indicator with twelve values;
//! the prompt presents seven. The mapping merges states that are shown
//! identically to the user, and is total and deterministic.

use vstd::prelude::*;
use vstd::string::StringExecFns;

verus! {

/// The operation-state indicator as the backend exposes it.
#[derive(Clone, Copy, Debug, PartialEq, Eq, Structural)]
pub enum BackendState {
    Clean,
    Merge,
    Revert,
    RevertSequence,
    CherryPick,
    CherryPickSequence,
    Bisect,
    Rebase,
    RebaseInteractive,
    RebaseMerge,
    ApplyMailbox,
    ApplyMailboxOrRebase,
}

/// The operation as the prompt presents it. `Idle` stands for a repository
/// with no operation in progress.
#[derive(Clone, Copy, Debug, PartialEq, Eq, Structural)]
pub enum RepoOperation {
    Idle,
    Merge,
    Revert,
    CherryPick,
    Bisect,
    Rebase,
    ApplyMailbox,
}

/// The presented operation for each backend state.
pub open spec fn spec_operation_of(s: BackendState) -> RepoOperation {
    match s {
        BackendState::Clean => RepoOperation::Idle,
        BackendState::Merge => RepoOperation::Merge,
        BackendState::Revert => RepoOperation::Revert,
        BackendState::RevertSequence => RepoOperation::Revert,
        BackendState::CherryPick => RepoOperation::CherryPick,
        BackendState::CherryPickSequence => RepoOperation::CherryPick,
        BackendState::Bisect => RepoOperation::Bisect,
        BackendState::Rebase => RepoOperation::Rebase,
        BackendState::RebaseInteractive => RepoOperation::Rebase,
        BackendState::RebaseMerge => RepoOperation::Rebase,
        BackendState::ApplyMailbox => RepoOperation::ApplyMailbox,
        BackendState::ApplyMailboxOrRebase => RepoOperation::ApplyMailbox,
    }
}

/// The label under which an operation is shown; the empty string for `Idle`.
pub open spec fn spec_operation_label(op: RepoOperation) -> Seq<char> {
    match op {
        RepoOperation::Idle => ""@,
        RepoOperation::Merge => "merge"@,
        RepoOperation::Revert => "revert"@,
        RepoOperation::CherryPick => "cherry-pick"@,
        RepoOperation::Bisect => "bisect"@,
        RepoOperation::Rebase => "rebase"@,
        RepoOperation::ApplyMailbox => "apply"@,
    }
}

/// Map a backend operation state onto the presented operation.
pub fn map_operation(s: BackendState) -> (op: RepoOperation)
    ensures
        op == spec_operation_of(s),
{
    match s {
        BackendState::Clean => RepoOperation::Idle,
        BackendState::Merge => RepoOperation::Merge,
        BackendState::Revert => RepoOperation::Revert,
        BackendState::RevertSequence => RepoOperation::Revert,
        BackendState::CherryPick => RepoOperation::CherryPick,
        BackendState::CherryPickSequence => RepoOperation::CherryPick,
        BackendState::Bisect => RepoOperation::Bisect,
        BackendState::Rebase => RepoOperation::Rebase,
        BackendState::RebaseInteractive => RepoOperation::Rebase,
        BackendState::RebaseMerge => RepoOperation::Rebase,
        BackendState::ApplyMailbox => RepoOperation::ApplyMailbox,
        BackendState::ApplyMailboxOrRebase => RepoOperation::ApplyMailbox,
    }
}

/// The label under which an operation is shown.
pub fn operation_label(op: RepoOperation) -> (r: String)
    ensures
        r@ == spec_operation_label(op),
{
    proof {
        reveal_strlit("");
        assert(""@ =~= Seq::<char>::empty());
    }
    match op {
        RepoOperation::Idle => String::new(),
        RepoOperation::Merge => String::from_str("merge"),
        RepoOperation::Revert => String::from_str("revert"),
        RepoOperation::CherryPick => String::from_str("cherry-pick"),
        RepoOperation::Bisect => String::from_str("bisect"),
        RepoOperation::Rebase => String::from_str("rebase"),
        RepoOperation::ApplyMailbox => String::from_str("apply"),
    }
}

/// The mapping from backend states to presented operations is total and
/// deterministic — equal states map to equal operations — and merges exactly
/// the documented pairs: both revert states to `Revert`, both cherry-pick
/// states to `CherryPick`, all three rebase states to `Rebase`, both mailbox
/// states to `ApplyMailbox`, and the clean state to `Idle`.
pub proof fn lemma_operation_mapping_total(s1: BackendState, s2: BackendState)
    ensures
        s1 == s2 ==> spec_operation_of(s1) == spec_operation_of(s2),
        spec_operation_of(BackendState::Clean) == RepoOperation::Idle,
        spec_operation_of(BackendState::Merge) == RepoOperation::Merge,
        spec_operation_of(BackendState::Revert) == RepoOperation::Revert,
        spec_operation_of(BackendState::RevertSequence) == RepoOperation::Revert,
        spec_operation_of(BackendState::CherryPick) == RepoOperation::CherryPick,
        spec_operation_of(BackendState::CherryPickSequence) == RepoOperation::CherryPick,
        spec_operation_of(BackendState::Bisect) == RepoOperation::Bisect,
        spec_operation_of(BackendState::Rebase) == RepoOperation::Rebase,
        spec_operation_of(BackendState::RebaseInteractive) == RepoOperation::Rebase,
        spec_operation_of(BackendState::RebaseMerge) == RepoOperation::Rebase,
        spec_operation_of(BackendState::ApplyMailbox) == RepoOperation::ApplyMailbox,
        spec_operation_of(BackendState::ApplyMailboxOrRebase) == RepoOperation::ApplyMailbox,
{
}

} // verus!
