//! Branch identity resolution.
//!
//! Given the raw signals read off a repository's head reference (its short
//! name, its symbolic target, the hex form of the commit it points to), derive
//! the branch's display name, its commit identifier and whether the head is
//! detached. The derivation is deterministic and total: every combination of
//! signals yields an identity.

use vstd::prelude::*;
use vstd::string::StrSliceExecFns;
use vstd::string::StringExecFns;

verus! {

/// Raw signals extracted from the (resolved) head reference of a repository.
/// `None` in a field means the backend could not produce that datum.
#[derive(Clone, Debug, PartialEq, Eq)]
pub struct HeadSignals {
    /// The reference's short human-readable name, if it has a valid one.
    pub shorthand: Option<String>,
    /// The full name of the reference this one points at symbolically, if any.
    pub symbolic_target: Option<String>,
    /// The commit the reference points at, rendered as a hex string.
    pub target_hex: Option<String>,
}

/// The resolved description of a repository's head.
#[derive(Clone, Debug, PartialEq, Eq)]
pub struct BranchIdentity {
    /// Branch name, or a short commit-hash fallback, or empty if unresolvable.
    pub display_name: String,
    /// Hex form of the commit the head points to; absent for an unborn branch.
    pub commit_id: Option<String>,
    /// True when the head does not rest on a named local branch.
    pub is_detached: bool,
}

/// The suffix of `s` after its last `/`, or all of `s` if it has none.
pub open spec fn spec_last_segment(s: Seq<char>) -> Seq<char>
    decreases s.len(),
{
    if s.len() == 0 {
        s
    } else if s.last() == '/' {
        Seq::empty()
    } else {
        spec_last_segment(s.drop_last()).push(s.last())
    }
}

/// The first seven characters of `h` when `h` has at least eight,
/// otherwise `h` unchanged.
pub open spec fn spec_short_hash(h: Seq<char>) -> Seq<char> {
    if h.len() >= 8 {
        h.subrange(0, 7)
    } else {
        h
    }
}

/// Whether the signals carry a usable branch name: a short name that is not
/// the literal `HEAD`.
pub open spec fn spec_has_branch_name(h: HeadSignals) -> bool {
    match h.shorthand {
        Some(s) => s@ != "HEAD"@,
        None => false,
    }
}

/// The display name the resolver derives from the head signals.
pub open spec fn spec_display_name(sig: Option<HeadSignals>) -> Seq<char> {
    match sig {
        None => Seq::empty(),
        Some(h) => if spec_has_branch_name(h) {
            h.shorthand->Some_0@
        } else {
            match h.symbolic_target {
                Some(t) => spec_last_segment(t@),
                None => match h.target_hex {
                    Some(x) => spec_short_hash(x@),
                    None => Seq::empty(),
                },
            }
        },
    }
}

/// The commit identifier the resolver reports: the target of the head
/// reference, absent when the reference has no target.
pub open spec fn spec_commit_id(sig: Option<HeadSignals>) -> Option<Seq<char>> {
    match sig {
        None => None,
        Some(h) => match h.target_hex {
            Some(x) => Some(x@),
            None => None,
        },
    }
}

/// Whether the resolver reports the head as detached: true exactly when head
/// signals exist but carry no usable branch name.
pub open spec fn spec_is_detached(sig: Option<HeadSignals>) -> bool {
    match sig {
        None => false,
        Some(h) => !spec_has_branch_name(h),
    }
}

/// If `s` holds a `/` at position `p` and none after it, the last segment of
/// `s` is everything after position `p`.
proof fn lemma_last_segment_after_slash(s: Seq<char>, p: int)
    requires
        0 <= p < s.len(),
        s[p] == '/',
        forall|j: int| p < j < s.len() ==> s[j] != '/',
    ensures
        spec_last_segment(s) == s.subrange(p + 1, s.len() as int),
    decreases s.len(),
{
    if p == s.len() - 1 {
        assert(s.last() == '/');
        assert(spec_last_segment(s) =~= s.subrange(p + 1, s.len() as int));
    } else {
        assert(s.last() != '/');
        lemma_last_segment_after_slash(s.drop_last(), p);
        assert(s.drop_last().subrange(p + 1, s.len() - 1) =~= s.subrange(p + 1, s.len() - 1));
        assert(spec_last_segment(s) =~= s.subrange(p + 1, s.len() as int));
    }
}

/// A string without `/` is its own last segment.
proof fn lemma_last_segment_no_slash(s: Seq<char>)
    requires
        forall|j: int| 0 <= j < s.len() ==> s[j] != '/',
    ensures
        spec_last_segment(s) == s,
    decreases s.len(),
{
    if s.len() > 0 {
        lemma_last_segment_no_slash(s.drop_last());
        assert(spec_last_segment(s) =~= s);
    } else {
        assert(spec_last_segment(s) =~= s);
    }
}

/// The part of `s` after its last `/`, or all of `s` when it has none.
pub fn last_path_segment(s: &str) -> (r: String)
    ensures
        r@ == spec_last_segment(s@),
{
    let n = s.unicode_len();
    let mut i = n;
    while i > 0
        invariant
            i <= n,
            n == s@.len(),
            forall|j: int| i <= j < n ==> s@[j] != '/',
        decreases i,
    {
        if s.get_char(i - 1) == '/' {
            proof {
                lemma_last_segment_after_slash(s@, i - 1);
            }
            return String::from_str(s.substring_char(i, n));
        }
        i = i - 1;
    }
    proof {
        lemma_last_segment_no_slash(s@);
    }
    String::from_str(s)
}

/// `h` truncated to its first seven characters when it has at least eight;
/// shorter values are returned unchanged.
pub fn shorten_hash(h: &str) -> (r: String)
    ensures
        r@ == spec_short_hash(h@),
{
    if h.unicode_len() >= 8 {
        String::from_str(h.substring_char(0, 7))
    } else {
        String::from_str(h)
    }
}

/// Resolve the head signals into a branch identity.
///
/// A short name other than the literal `HEAD` is used verbatim; otherwise a
/// symbolic target's final path segment; otherwise a shortened commit hash;
/// otherwise the empty-string sentinel. Absent signals yield the all-empty
/// identity. The function never fails.
pub fn resolve_branch(sig: Option<HeadSignals>) -> (r: BranchIdentity)
    ensures
        r.display_name@ == spec_display_name(sig),
        r.commit_id matches Some(c) ==> spec_commit_id(sig) matches Some(v) && c@ == v,
        r.commit_id is None <==> spec_commit_id(sig) is None,
        r.is_detached == spec_is_detached(sig),
{
    let h = match sig {
        Some(h) => h,
        None => {
            return BranchIdentity {
                display_name: String::new(),
                commit_id: None,
                is_detached: false,
            };
        },
    };
    let commit_id = match &h.target_hex {
        Some(x) => Some(x.clone()),
        None => None,
    };
    let named = match &h.shorthand {
        Some(s) => !str_eq(s.as_str(), "HEAD"),
        None => false,
    };
    if named {
        let display_name = match h.shorthand {
            Some(s) => s,
            None => String::new(),
        };
        return BranchIdentity { display_name, commit_id, is_detached: false };
    }
    let display_name = match &h.symbolic_target {
        Some(t) => last_path_segment(t.as_str()),
        None => match &h.target_hex {
            Some(x) => shorten_hash(x.as_str()),
            None => String::new(),
        },
    };
    BranchIdentity { display_name, commit_id, is_detached: true }
}

/// Character-wise equality of two string slices.
pub fn str_eq(a: &str, b: &str) -> (r: bool)
    ensures
        r == (a@ == b@),
{
    let na = a.unicode_len();
    let nb = b.unicode_len();
    if na != nb {
        return false;
    }
    let mut i: usize = 0;
    while i < na
        invariant
            i <= na,
            na == a@.len(),
            na == b@.len(),
            forall|j: int| 0 <= j < i ==> a@[j] == b@[j],
        decreases na - i,
    {
        if a.get_char(i) != b.get_char(i) {
            return false;
        }
        i = i + 1;
    }
    proof {
        assert(a@ =~= b@);
    }
    true
}

/// On a named local branch — head signals whose short name is present and is
/// not the literal `HEAD` — the resolver reports exactly that name and a
/// non-detached head.
pub proof fn lemma_named_branch_resolution(h: HeadSignals)
    requires
        h.shorthand matches Some(s) && s@ != "HEAD"@,
    ensures
        spec_display_name(Some(h)) == h.shorthand->Some_0@,
        !spec_is_detached(Some(h)),
{
}

/// In a detached head without a symbolic annotation, the display name is the
/// hash prefix of seven characters when the hash has at least eight, and the
/// whole hash when it is shorter.
pub proof fn lemma_detached_hash_fallback(h: HeadSignals)
    requires
        !spec_has_branch_name(h),
        h.symbolic_target is None,
        h.target_hex matches Some(x),
    ensures
        h.target_hex->Some_0@.len() >= 8 ==> spec_display_name(Some(h))
            == h.target_hex->Some_0@.subrange(0, 7),
        h.target_hex->Some_0@.len() < 8 ==> spec_display_name(Some(h))
            == h.target_hex->Some_0@,
        spec_is_detached(Some(h)),
{
}

} // verus!
