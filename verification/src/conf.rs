//! Configuration.
//!
//! The prompt's symbols, colors and monitored remotes come from a structured
//! textual document. Parsing is the document library's work and stands behind
//! trusted wrappers; validation — every required entry present and textual —
//! and the ordering of the monitored remotes are verified. A missing or
//! malformed document is reported as an error, never patched over.

use vstd::prelude::*;
use vstd::string::StrSliceExecFns;
use vstd::string::StringExecFns;
use crate::branch::str_eq;

verus! {

/// Whether the text parses as a document stream holding at least one
/// document. The parse is a function of the text alone.
pub uninterp spec fn spec_yaml_document(s: Seq<char>) -> bool;

/// The text stored under `outer.inner` in the first document of the stream,
/// absent when the stream does not parse, holds no document, or the entry is
/// missing or not textual. A function of the three texts alone.
pub uninterp spec fn spec_text_at(s: Seq<char>, outer: Seq<char>, inner: Seq<char>) -> Option<
    Seq<char>,
>;

/// The key/value string pairs of the `monitor_remotes` hash of the first
/// document, in document order; absent when the stream does not parse, holds
/// no document, the entry is missing or not a hash, or any key or value is
/// not textual. A function of the text alone.
pub uninterp spec fn spec_remote_pairs(s: Seq<char>) -> Option<Seq<(Seq<char>, Seq<char>)>>;

/// Relies on `yaml_rust::YamlLoader::load_from_str`: whether the text parses
/// into a stream with at least one document.
#[verifier::external_body]
fn has_yaml_document(s: &str) -> (r: bool)
    ensures
        r == spec_yaml_document(s@),
{
    match yaml_rust::YamlLoader::load_from_str(s) {
        Ok(docs) => !docs.is_empty(),
        Err(_) => false,
    }
}

/// Relies on `yaml_rust::YamlLoader::load_from_str`, the `Index<&str>` impl
/// of `yaml_rust::Yaml` (missing key or non-hash node gives the bad-value
/// marker) and `Yaml::as_str`: the text under `outer.inner` of the first
/// document.
#[verifier::external_body]
fn doc_text_at(s: &str, outer: &str, inner: &str) -> (r: Option<String>)
    ensures
        r matches Some(t) ==> spec_text_at(s@, outer@, inner@) matches Some(v) && t@ == v,
        r is None <==> spec_text_at(s@, outer@, inner@) is None,
{
    let docs = match yaml_rust::YamlLoader::load_from_str(s) {
        Ok(d) => d,
        Err(_) => return None,
    };
    match docs.first() {
        Some(doc) => doc[outer][inner].as_str().map(String::from),
        None => None,
    }
}

/// Relies on `yaml_rust::YamlLoader::load_from_str`, the `Index<&str>` impl
/// of `yaml_rust::Yaml`, `Yaml::as_hash` (iteration of the underlying linked
/// hash map is document order) and `Yaml::as_str`: the `monitor_remotes`
/// pairs of the first document.
#[verifier::external_body]
fn remote_pairs_of(s: &str) -> (r: Option<Vec<(String, String)>>)
    ensures
        r matches Some(v) ==> spec_remote_pairs(s@) matches Some(ps) && ps.len() == v@.len()
            && forall|i: int|
                0 <= i < v@.len() ==> ps[i].0 == v@[i].0@ && ps[i].1 == v@[i].1@,
        r is None <==> spec_remote_pairs(s@) is None,
{
    let docs = match yaml_rust::YamlLoader::load_from_str(s) {
        Ok(d) => d,
        Err(_) => return None,
    };
    let doc = docs.first()?;
    let hash = doc["monitor_remotes"].as_hash()?;
    hash.iter()
        .map(|(k, v)| match (k.as_str(), v.as_str()) {
            (Some(ks), Some(vs)) => Some((String::from(ks), String::from(vs))),
            _ => None,
        })
        .collect()
}

/// Strict lexicographic order on character sequences, by code point.
pub open spec fn seq_lt(a: Seq<char>, b: Seq<char>) -> bool
    decreases a.len(),
{
    if b.len() == 0 {
        false
    } else if a.len() == 0 {
        true
    } else if a[0] != b[0] {
        a[0] < b[0]
    } else {
        seq_lt(a.skip(1), b.skip(1))
    }
}

/// Two sequences are ordered one way or the other, or they are equal.
proof fn lemma_seq_lt_trichotomy(a: Seq<char>, b: Seq<char>)
    ensures
        seq_lt(a, b) || seq_lt(b, a) || a == b,
    decreases a.len(),
{
    if a.len() == 0 && b.len() == 0 {
        assert(a =~= b);
    } else if a.len() > 0 && b.len() > 0 {
        if a[0] == b[0] {
            lemma_seq_lt_trichotomy(a.skip(1), b.skip(1));
            if a.skip(1) == b.skip(1) {
                assert(a =~= b) by {
                    assert(a.skip(1).len() == b.skip(1).len());
                    assert forall|i: int| 0 <= i < a.len() implies a[i] == b[i] by {
                        if i > 0 {
                            assert(a[i] == a.skip(1)[i - 1]);
                            assert(b[i] == b.skip(1)[i - 1]);
                        }
                    }
                }
            }
        }
    }
}

/// Lexicographic order is transitive.
proof fn lemma_seq_lt_trans(a: Seq<char>, b: Seq<char>, c: Seq<char>)
    requires
        seq_lt(a, b),
        seq_lt(b, c),
    ensures
        seq_lt(a, c),
    decreases a.len() + b.len() + c.len(),
{
    if a.len() > 0 && b.len() > 0 && c.len() > 0 {
        if a[0] == b[0] && b[0] == c[0] {
            lemma_seq_lt_trans(a.skip(1), b.skip(1), c.skip(1));
        }
    }
}

/// Strict lexicographic comparison of two string slices, by code point.
pub fn str_lt(a: &str, b: &str) -> (r: bool)
    ensures
        r == seq_lt(a@, b@),
{
    let na = a.unicode_len();
    let nb = b.unicode_len();
    proof {
        assert(a@.skip(0) =~= a@);
        assert(b@.skip(0) =~= b@);
    }
    let mut i: usize = 0;
    loop
        invariant
            i <= na,
            i <= nb,
            na == a@.len(),
            nb == b@.len(),
            seq_lt(a@, b@) == seq_lt(a@.skip(i as int), b@.skip(i as int)),
        decreases na - i,
    {
        if i >= nb {
            return false;
        }
        if i >= na {
            return true;
        }
        let ca = a.get_char(i);
        let cb = b.get_char(i);
        proof {
            assert(a@.skip(i as int)[0] == a@[i as int]);
            assert(b@.skip(i as int)[0] == b@[i as int]);
        }
        if ca != cb {
            return ca < cb;
        }
        proof {
            assert(a@.skip(i as int).skip(1) =~= a@.skip(i + 1));
            assert(b@.skip(i as int).skip(1) =~= b@.skip(i + 1));
        }
        i = i + 1;
    }
}

/// The monitored remotes are strictly sorted by remote name: ordered and free
/// of duplicate keys.
pub open spec fn remotes_sorted(v: Seq<(String, String)>) -> bool {
    forall|i: int, j: int| 0 <= i < j < v.len() ==> seq_lt(v[i].0@, v[j].0@)
}

/// The remote pairs as plain character sequences.
pub open spec fn pairs_view(v: Seq<(String, String)>) -> Seq<(Seq<char>, Seq<char>)> {
    Seq::new(v.len(), |i: int| (v[i].0@, v[i].1@))
}

/// One pair inserted into a key-sorted table: before the first key not below
/// it, replacing that key's value when the keys are equal.
pub open spec fn spec_insert_pair(
    t: Seq<(Seq<char>, Seq<char>)>,
    k: Seq<char>,
    val: Seq<char>,
) -> Seq<(Seq<char>, Seq<char>)>
    decreases t.len(),
{
    if t.len() == 0 {
        seq![(k, val)]
    } else if seq_lt(t[0].0, k) {
        seq![t[0]] + spec_insert_pair(t.skip(1), k, val)
    } else if t[0].0 == k {
        seq![(k, val)] + t.skip(1)
    } else {
        seq![(k, val)] + t
    }
}

/// The table built by inserting the pairs one after the other, first to last.
pub open spec fn spec_remotes_table(ps: Seq<(Seq<char>, Seq<char>)>) -> Seq<
    (Seq<char>, Seq<char>),
>
    decreases ps.len(),
{
    if ps.len() == 0 {
        Seq::empty()
    } else {
        spec_insert_pair(spec_remotes_table(ps.drop_last()), ps.last().0, ps.last().1)
    }
}

/// Where the inserted pair lands: at the first position whose key is not
/// below `k`, replacing that position when its key equals `k`.
proof fn lemma_insert_pair_at(t: Seq<(Seq<char>, Seq<char>)>, k: Seq<char>, val: Seq<char>, idx: int)
    requires
        0 <= idx <= t.len(),
        forall|j: int| 0 <= j < idx ==> seq_lt(t[j].0, k),
        idx < t.len() ==> !seq_lt(t[idx].0, k),
    ensures
        idx < t.len() && t[idx].0 == k ==> spec_insert_pair(t, k, val) == t.take(idx) + seq![
            (k, val),
        ] + t.skip(idx + 1),
        !(idx < t.len() && t[idx].0 == k) ==> spec_insert_pair(t, k, val) == t.take(idx) + seq![
            (k, val),
        ] + t.skip(idx),
    decreases idx,
{
    if idx == 0 {
        if t.len() == 0 {
            assert(spec_insert_pair(t, k, val) =~= t.take(0) + seq![(k, val)] + t.skip(0));
        } else if t[0].0 == k {
            assert(spec_insert_pair(t, k, val) =~= t.take(0) + seq![(k, val)] + t.skip(1));
        } else {
            assert(spec_insert_pair(t, k, val) =~= t.take(0) + seq![(k, val)] + t.skip(0));
        }
    } else {
        assert(seq_lt(t[0].0, k));
        let rest = t.skip(1);
        assert forall|j: int| 0 <= j < idx - 1 implies seq_lt(rest[j].0, k) by {
            assert(rest[j] == t[j + 1]);
        }
        assert(idx - 1 < rest.len() ==> !seq_lt(rest[idx - 1].0, k)) by {
            if idx - 1 < rest.len() {
                assert(rest[idx - 1] == t[idx]);
            }
        }
        lemma_insert_pair_at(rest, k, val, idx - 1);
        if idx < t.len() && t[idx].0 == k {
            assert(rest[idx - 1].0 == k);
            assert(spec_insert_pair(t, k, val) == seq![t[0]] + (rest.take(idx - 1) + seq![
                (k, val),
            ] + rest.skip(idx)));
            assert(spec_insert_pair(t, k, val) =~= t.take(idx) + seq![(k, val)] + t.skip(idx + 1));
        } else {
            assert(spec_insert_pair(t, k, val) == seq![t[0]] + (rest.take(idx - 1) + seq![
                (k, val),
            ] + rest.skip(idx - 1)));
            assert(spec_insert_pair(t, k, val) =~= t.take(idx) + seq![(k, val)] + t.skip(idx));
        }
    }
}

/// Insert a remote-name/branch-name pair into a sorted mapping, keeping it
/// sorted; a pair whose key is already present replaces that key's value.
pub fn insert_remote(v: &mut Vec<(String, String)>, key: String, val: String)
    requires
        remotes_sorted(old(v)@),
    ensures
        remotes_sorted(final(v)@),
        pairs_view(final(v)@) == spec_insert_pair(pairs_view(old(v)@), key@, val@),
{
    let n = v.len();
    let mut idx: usize = 0;
    loop
        invariant
            idx <= n,
            n == v@.len(),
            remotes_sorted(v@),
            forall|j: int| 0 <= j < idx ==> seq_lt(v@[j].0@, key@),
        ensures
            idx <= n,
            n == v@.len(),
            forall|j: int| 0 <= j < idx ==> seq_lt(v@[j].0@, key@),
            idx < n ==> !seq_lt(v@[idx as int].0@, key@),
        decreases n - idx,
    {
        if idx >= n {
            break;
        }
        if !str_lt(v[idx].0.as_str(), key.as_str()) {
            break;
        }
        idx = idx + 1;
    }
    if idx < n && str_eq(v[idx].0.as_str(), key.as_str()) {
        let ghost oldv = v@;
        let _ = v.remove(idx);
        v.insert(idx, (key, val));
        proof {
            let newv = v@;
            assert(newv =~= oldv.update(idx as int, newv[idx as int]));
            assert(newv[idx as int].0@ == key@ && oldv[idx as int].0@ == key@);
            assert forall|i: int, j: int| 0 <= i < j < newv.len() implies seq_lt(
                newv[i].0@,
                newv[j].0@,
            ) by {
                assert(seq_lt(oldv[i].0@, oldv[j].0@));
            }
            let t = pairs_view(oldv);
            assert forall|j: int| 0 <= j < idx implies seq_lt(t[j].0, key@) by {
                assert(t[j].0 == oldv[j].0@);
            }
            assert(t[idx as int].0 == key@);
            assert(!seq_lt(t[idx as int].0, key@));
            lemma_insert_pair_at(t, key@, val@, idx as int);
            assert(pairs_view(newv) =~= t.take(idx as int) + seq![(key@, val@)] + t.skip(
                idx as int + 1,
            ));
        }
    } else {
        let ghost oldv = v@;
        proof {
            if idx < n {
                lemma_seq_lt_trichotomy(key@, oldv[idx as int].0@);
                assert(key@ != oldv[idx as int].0@);
                assert(seq_lt(key@, oldv[idx as int].0@));
            }
        }
        v.insert(idx, (key, val));
        proof {
            let newv = v@;
            assert(newv[idx as int].0@ == key@);
            assert forall|i: int, j: int| 0 <= i < j < newv.len() implies seq_lt(
                newv[i].0@,
                newv[j].0@,
            ) by {
                if j < idx {
                    assert(newv[i] == oldv[i]);
                    assert(newv[j] == oldv[j]);
                } else if i > idx {
                    assert(newv[i] == oldv[i - 1]);
                    assert(newv[j] == oldv[j - 1]);
                } else if j == idx {
                    assert(newv[i] == oldv[i]);
                    assert(seq_lt(oldv[i].0@, key@));
                } else if i == idx {
                    assert(newv[j] == oldv[j - 1]);
                    assert(seq_lt(key@, oldv[idx as int].0@));
                    if j - 1 > idx {
                        assert(seq_lt(oldv[idx as int].0@, oldv[j - 1].0@));
                        lemma_seq_lt_trans(key@, oldv[idx as int].0@, oldv[j - 1].0@);
                    }
                } else {
                    assert(i < idx && j > idx);
                    assert(newv[i] == oldv[i]);
                    assert(newv[j] == oldv[j - 1]);
                    assert(seq_lt(oldv[i].0@, key@));
                    assert(seq_lt(key@, oldv[idx as int].0@));
                    if j - 1 == idx {
                        lemma_seq_lt_trans(oldv[i].0@, key@, oldv[j - 1].0@);
                    } else {
                        lemma_seq_lt_trans(key@, oldv[idx as int].0@, oldv[j - 1].0@);
                        lemma_seq_lt_trans(oldv[i].0@, key@, oldv[j - 1].0@);
                    }
                }
            }
            let t = pairs_view(oldv);
            assert forall|j2: int| 0 <= j2 < idx implies seq_lt(t[j2].0, key@) by {
                assert(t[j2].0 == oldv[j2].0@);
            }
            if idx < n {
                assert(!seq_lt(t[idx as int].0, key@));
                assert(t[idx as int].0 != key@);
            }
            lemma_insert_pair_at(t, key@, val@, idx as int);
            assert(pairs_view(newv) =~= t.take(idx as int) + seq![(key@, val@)] + t.skip(
                idx as int,
            ));
        }
    }
}

/// Why a configuration could not be produced.
#[derive(Clone, Debug, PartialEq, Eq)]
pub enum ConfError {
    /// The text is not a well-formed document, or holds no document at all.
    Malformed,
    /// A required entry is missing or is not textual; the field names the
    /// entry's key path.
    MissingEntry(String),
    /// A document exists but could not be read.
    Unreadable,
}

impl ConfError {
    /// A short description of the rejection.
    pub fn describe(&self) -> (r: String)
        ensures
            self matches ConfError::Malformed ==> r@ == "malformed configuration document"@,
            self matches ConfError::MissingEntry(k) ==> r@ == "missing configuration entry: "@
                + k@,
            self matches ConfError::Unreadable ==> r@ == "unreadable configuration document"@,
    {
        match self {
            ConfError::Malformed => String::from_str("malformed configuration document"),
            ConfError::MissingEntry(k) => {
                let mut s = String::from_str("missing configuration entry: ");
                s.append(k.as_str());
                s
            },
            ConfError::Unreadable => String::from_str("unreadable configuration document"),
        }
    }
}

/// The validated configuration: every entry present and textual, the
/// monitored remotes strictly sorted by remote name.
#[derive(Clone, Debug, PartialEq, Eq)]
pub struct Conf {
    pub new_symbol: String,
    pub changed_symbol: String,
    pub staged_symbol: String,
    pub conflicts_symbol: String,
    pub difference_ahead_symbol: String,
    pub difference_behind_symbol: String,
    pub monitor_remotes: Vec<(String, String)>,
    pub branch_color: String,
    pub remote_difference_color: String,
    pub new_color: String,
    pub changed_color: String,
    pub staged_color: String,
    pub conflicts_color: String,
}

impl Conf {
    /// The configuration invariant: monitored remotes are strictly sorted.
    pub open spec fn wf(&self) -> bool {
        remotes_sorted(self.monitor_remotes@)
    }

    pub fn get_new_symbol(&self) -> (r: String)
        ensures
            r@ == self.new_symbol@,
    {
        self.new_symbol.clone()
    }

    pub fn get_changed_symbol(&self) -> (r: String)
        ensures
            r@ == self.changed_symbol@,
    {
        self.changed_symbol.clone()
    }

    pub fn get_staged_symbol(&self) -> (r: String)
        ensures
            r@ == self.staged_symbol@,
    {
        self.staged_symbol.clone()
    }

    pub fn get_conflicts_symbol(&self) -> (r: String)
        ensures
            r@ == self.conflicts_symbol@,
    {
        self.conflicts_symbol.clone()
    }

    pub fn get_difference_ahead_symbol(&self) -> (r: String)
        ensures
            r@ == self.difference_ahead_symbol@,
    {
        self.difference_ahead_symbol.clone()
    }

    pub fn get_difference_behind_symbol(&self) -> (r: String)
        ensures
            r@ == self.difference_behind_symbol@,
    {
        self.difference_behind_symbol.clone()
    }

    pub fn get_branch_color(&self) -> (r: String)
        ensures
            r@ == self.branch_color@,
    {
        self.branch_color.clone()
    }

    pub fn get_remote_difference_color(&self) -> (r: String)
        ensures
            r@ == self.remote_difference_color@,
    {
        self.remote_difference_color.clone()
    }

    pub fn get_new_color(&self) -> (r: String)
        ensures
            r@ == self.new_color@,
    {
        self.new_color.clone()
    }

    pub fn get_changed_color(&self) -> (r: String)
        ensures
            r@ == self.changed_color@,
    {
        self.changed_color.clone()
    }

    pub fn get_staged_color(&self) -> (r: String)
        ensures
            r@ == self.staged_color@,
    {
        self.staged_color.clone()
    }

    pub fn get_conflicts_color(&self) -> (r: String)
        ensures
            r@ == self.conflicts_color@,
    {
        self.conflicts_color.clone()
    }

    /// The monitored remotes, as remote-name/branch-name pairs in strictly
    /// ascending key order.
    pub fn get_remotes_monitoring(&self) -> (r: Vec<(String, String)>)
        requires
            self.wf(),
        ensures
            r@.len() == self.monitor_remotes@.len(),
            forall|i: int|
                0 <= i < r@.len() ==> r@[i].0@ == self.monitor_remotes@[i].0@ && r@[i].1@
                    == self.monitor_remotes@[i].1@,
            remotes_sorted(r@),
    {
        let mut out: Vec<(String, String)> = Vec::new();
        let n = self.monitor_remotes.len();
        let mut i: usize = 0;
        while i < n
            invariant
                i <= n,
                n == self.monitor_remotes@.len(),
                out@.len() == i,
                forall|j: int|
                    0 <= j < i ==> out@[j].0@ == self.monitor_remotes@[j].0@ && out@[j].1@
                        == self.monitor_remotes@[j].1@,
            decreases n - i,
        {
            let k = self.monitor_remotes[i].0.clone();
            let v = self.monitor_remotes[i].1.clone();
            out.push((k, v));
            i = i + 1;
        }
        proof {
            assert forall|i2: int, j2: int| 0 <= i2 < j2 < out@.len() implies seq_lt(
                out@[i2].0@,
                out@[j2].0@,
            ) by {
                assert(seq_lt(self.monitor_remotes@[i2].0@, self.monitor_remotes@[j2].0@));
            }
        }
        out
    }

    /// Parse and validate a configuration document. Every symbol and color
    /// entry must be present and textual, and the monitored remotes must form
    /// a hash of textual pairs; the first violation, in the fixed checking
    /// order, is the one reported.
    pub fn new(s: &str) -> (r: Result<Conf, ConfError>)
        ensures
            r is Ok <==> spec_conf_accepts(s@),
            r matches Ok(c) ==> spec_conf_matches(c, s@),
            r matches Err(e) ==> (match e {
                ConfError::Malformed => !spec_yaml_document(s@),
                ConfError::MissingEntry(p) => spec_yaml_document(s@) && p@ == spec_first_missing(
                    s@,
                ),
                ConfError::Unreadable => false,
            }),
    {
        if !has_yaml_document(s) {
            return Err(ConfError::Malformed);
        }
        let new_symbol = match doc_text_at(s, "symbols", "new") {
            Some(t) => t,
            None => {
                return Err(ConfError::MissingEntry(String::from_str("symbols.new")));
            },
        };
        let changed_symbol = match doc_text_at(s, "symbols", "changed") {
            Some(t) => t,
            None => {
                return Err(ConfError::MissingEntry(String::from_str("symbols.changed")));
            },
        };
        let staged_symbol = match doc_text_at(s, "symbols", "staged") {
            Some(t) => t,
            None => {
                return Err(ConfError::MissingEntry(String::from_str("symbols.staged")));
            },
        };
        let conflicts_symbol = match doc_text_at(s, "symbols", "conflicts") {
            Some(t) => t,
            None => {
                return Err(ConfError::MissingEntry(String::from_str("symbols.conflicts")));
            },
        };
        let difference_ahead_symbol = match doc_text_at(s, "symbols", "difference_ahead") {
            Some(t) => t,
            None => {
                return Err(
                    ConfError::MissingEntry(String::from_str("symbols.difference_ahead")),
                );
            },
        };
        let difference_behind_symbol = match doc_text_at(s, "symbols", "difference_behind") {
            Some(t) => t,
            None => {
                return Err(
                    ConfError::MissingEntry(String::from_str("symbols.difference_behind")),
                );
            },
        };
        let branch_color = match doc_text_at(s, "colors", "branch") {
            Some(t) => t,
            None => {
                return Err(ConfError::MissingEntry(String::from_str("colors.branch")));
            },
        };
        let remote_difference_color = match doc_text_at(s, "colors", "remote_difference") {
            Some(t) => t,
            None => {
                return Err(
                    ConfError::MissingEntry(String::from_str("colors.remote_difference")),
                );
            },
        };
        let new_color = match doc_text_at(s, "colors", "new") {
            Some(t) => t,
            None => {
                return Err(ConfError::MissingEntry(String::from_str("colors.new")));
            },
        };
        let changed_color = match doc_text_at(s, "colors", "changed") {
            Some(t) => t,
            None => {
                return Err(ConfError::MissingEntry(String::from_str("colors.changed")));
            },
        };
        let staged_color = match doc_text_at(s, "colors", "staged") {
            Some(t) => t,
            None => {
                return Err(ConfError::MissingEntry(String::from_str("colors.staged")));
            },
        };
        let conflicts_color = match doc_text_at(s, "colors", "conflicts") {
            Some(t) => t,
            None => {
                return Err(ConfError::MissingEntry(String::from_str("colors.conflicts")));
            },
        };
        let monitor_remotes = match monitored_remotes_of(s) {
            Ok(v) => v,
            Err(e) => {
                return Err(e);
            },
        };
        Ok(
            Conf {
                new_symbol,
                changed_symbol,
                staged_symbol,
                conflicts_symbol,
                difference_ahead_symbol,
                difference_behind_symbol,
                monitor_remotes,
                branch_color,
                remote_difference_color,
                new_color,
                changed_color,
                staged_color,
                conflicts_color,
            },
        )
    }
}

/// Whether the document text yields a configuration: it parses to at least
/// one document and every required entry is present and of the right shape.
pub open spec fn spec_conf_accepts(s: Seq<char>) -> bool {
    &&& spec_yaml_document(s)
    &&& spec_text_at(s, "symbols"@, "new"@) is Some
    &&& spec_text_at(s, "symbols"@, "changed"@) is Some
    &&& spec_text_at(s, "symbols"@, "staged"@) is Some
    &&& spec_text_at(s, "symbols"@, "conflicts"@) is Some
    &&& spec_text_at(s, "symbols"@, "difference_ahead"@) is Some
    &&& spec_text_at(s, "symbols"@, "difference_behind"@) is Some
    &&& spec_text_at(s, "colors"@, "branch"@) is Some
    &&& spec_text_at(s, "colors"@, "remote_difference"@) is Some
    &&& spec_text_at(s, "colors"@, "new"@) is Some
    &&& spec_text_at(s, "colors"@, "changed"@) is Some
    &&& spec_text_at(s, "colors"@, "staged"@) is Some
    &&& spec_text_at(s, "colors"@, "conflicts"@) is Some
    &&& spec_remote_pairs(s) is Some
}

/// The configuration owed for an accepted document: each entry verbatim, and
/// the monitored remotes equal to the key-sorted table of the document's
/// pairs, a later duplicate key replacing an earlier one.
pub open spec fn spec_conf_matches(c: Conf, s: Seq<char>) -> bool {
    &&& c.wf()
    &&& Some(c.new_symbol@) == spec_text_at(s, "symbols"@, "new"@)
    &&& Some(c.changed_symbol@) == spec_text_at(s, "symbols"@, "changed"@)
    &&& Some(c.staged_symbol@) == spec_text_at(s, "symbols"@, "staged"@)
    &&& Some(c.conflicts_symbol@) == spec_text_at(s, "symbols"@, "conflicts"@)
    &&& Some(c.difference_ahead_symbol@) == spec_text_at(s, "symbols"@, "difference_ahead"@)
    &&& Some(c.difference_behind_symbol@) == spec_text_at(s, "symbols"@, "difference_behind"@)
    &&& Some(c.branch_color@) == spec_text_at(s, "colors"@, "branch"@)
    &&& Some(c.remote_difference_color@) == spec_text_at(s, "colors"@, "remote_difference"@)
    &&& Some(c.new_color@) == spec_text_at(s, "colors"@, "new"@)
    &&& Some(c.changed_color@) == spec_text_at(s, "colors"@, "changed"@)
    &&& Some(c.staged_color@) == spec_text_at(s, "colors"@, "staged"@)
    &&& Some(c.conflicts_color@) == spec_text_at(s, "colors"@, "conflicts"@)
    &&& spec_remote_pairs(s) matches Some(ps) && pairs_view(c.monitor_remotes@)
        == spec_remotes_table(ps)
}

/// The key path named by the missing-entry error: the first entry, in the
/// fixed checking order, that is absent or of the wrong shape.
pub open spec fn spec_first_missing(s: Seq<char>) -> Seq<char> {
    if spec_text_at(s, "symbols"@, "new"@) is None {
        "symbols.new"@
    } else if spec_text_at(s, "symbols"@, "changed"@) is None {
        "symbols.changed"@
    } else if spec_text_at(s, "symbols"@, "staged"@) is None {
        "symbols.staged"@
    } else if spec_text_at(s, "symbols"@, "conflicts"@) is None {
        "symbols.conflicts"@
    } else if spec_text_at(s, "symbols"@, "difference_ahead"@) is None {
        "symbols.difference_ahead"@
    } else if spec_text_at(s, "symbols"@, "difference_behind"@) is None {
        "symbols.difference_behind"@
    } else if spec_text_at(s, "colors"@, "branch"@) is None {
        "colors.branch"@
    } else if spec_text_at(s, "colors"@, "remote_difference"@) is None {
        "colors.remote_difference"@
    } else if spec_text_at(s, "colors"@, "new"@) is None {
        "colors.new"@
    } else if spec_text_at(s, "colors"@, "changed"@) is None {
        "colors.changed"@
    } else if spec_text_at(s, "colors"@, "staged"@) is None {
        "colors.staged"@
    } else if spec_text_at(s, "colors"@, "conflicts"@) is None {
        "colors.conflicts"@
    } else {
        "monitor_remotes"@
    }
}

/// The monitored remotes read off the document's `monitor_remotes` hash:
/// exactly the document's pairs, sorted by remote name, a later duplicate key
/// replacing an earlier one.
fn monitored_remotes_of(s: &str) -> (r: Result<Vec<(String, String)>, ConfError>)
    ensures
        r is Ok <==> spec_remote_pairs(s@) is Some,
        r matches Err(e) ==> e matches ConfError::MissingEntry(p) && p@ == "monitor_remotes"@,
        r matches Ok(v) ==> remotes_sorted(v@) && pairs_view(v@) == spec_remotes_table(
            spec_remote_pairs(s@)->Some_0,
        ),
{
    let pairs = match remote_pairs_of(s) {
        Some(p) => p,
        None => {
            return Err(ConfError::MissingEntry(String::from_str("monitor_remotes")));
        },
    };
    let ghost ps = spec_remote_pairs(s@)->Some_0;
    let mut remotes: Vec<(String, String)> = Vec::new();
    let n = pairs.len();
    let mut i: usize = 0;
    proof {
        assert(ps.take(0) =~= Seq::<(Seq<char>, Seq<char>)>::empty());
        assert(pairs_view(remotes@) =~= Seq::<(Seq<char>, Seq<char>)>::empty());
    }
    while i < n
        invariant
            i <= n,
            n == pairs@.len(),
            ps.len() == n,
            forall|j: int| 0 <= j < n ==> ps[j].0 == pairs@[j].0@ && ps[j].1 == pairs@[j].1@,
            remotes_sorted(remotes@),
            pairs_view(remotes@) == spec_remotes_table(ps.take(i as int)),
        decreases n - i,
    {
        let k = pairs[i].0.clone();
        let v = pairs[i].1.clone();
        insert_remote(&mut remotes, k, v);
        proof {
            assert(ps.take(i + 1).drop_last() =~= ps.take(i as int));
            assert(ps.take(i + 1).last() == ps[i as int]);
        }
        i = i + 1;
    }
    proof {
        assert(ps.take(n as int) =~= ps);
    }
    Ok(remotes)
}

/// The built-in default configuration values.
pub open spec fn spec_is_default_conf(c: Conf) -> bool {
    &&& c.wf()
    &&& c.new_symbol@ == "✚"@
    &&& c.changed_symbol@ == "Δ"@
    &&& c.staged_symbol@ == "▶"@
    &&& c.conflicts_symbol@ == "✖"@
    &&& c.difference_ahead_symbol@ == "↑"@
    &&& c.difference_behind_symbol@ == "↓"@
    &&& c.monitor_remotes@.len() == 1
    &&& c.monitor_remotes@[0].0@ == "upstream"@
    &&& c.monitor_remotes@[0].1@ == "master"@
    &&& c.branch_color@ == "blue"@
    &&& c.remote_difference_color@ == "white"@
    &&& c.new_color@ == "014"@
    &&& c.changed_color@ == "red"@
    &&& c.staged_color@ == "green"@
    &&& c.conflicts_color@ == "yellow"@
}

/// The default configuration, used when no user document exists.
pub fn default_conf() -> (c: Conf)
    ensures
        spec_is_default_conf(c),
{
    let mut monitor_remotes: Vec<(String, String)> = Vec::new();
    monitor_remotes.push((String::from_str("upstream"), String::from_str("master")));
    Conf {
        new_symbol: String::from_str("✚"),
        changed_symbol: String::from_str("Δ"),
        staged_symbol: String::from_str("▶"),
        conflicts_symbol: String::from_str("✖"),
        difference_ahead_symbol: String::from_str("↑"),
        difference_behind_symbol: String::from_str("↓"),
        monitor_remotes,
        branch_color: String::from_str("blue"),
        remote_difference_color: String::from_str("white"),
        new_color: String::from_str("014"),
        changed_color: String::from_str("red"),
        staged_color: String::from_str("green"),
        conflicts_color: String::from_str("yellow"),
    }
}

/// How the startup code found the configuration document.
#[derive(Clone, Debug, PartialEq, Eq)]
pub enum ConfDocument {
    /// A document was read; its text.
    Present(String),
    /// No document exists at the configured place.
    Missing,
    /// A document exists but could not be read.
    Unreadable,
}

/// The configuration owed for each way the document load can end: a document
/// that was read is parsed and validated; a missing document falls back to
/// the built-in defaults; an unreadable-but-present document is an error,
/// which the caller treats as fatal.
pub fn configuration_from(doc: ConfDocument) -> (r: Result<Conf, ConfError>)
    ensures
        doc matches ConfDocument::Present(s) ==> (r is Ok <==> spec_conf_accepts(s@)),
        doc matches ConfDocument::Present(s) ==> (r matches Ok(c) ==> spec_conf_matches(c, s@)),
        doc matches ConfDocument::Present(s) ==> (r matches Err(e) ==> (match e {
            ConfError::Malformed => !spec_yaml_document(s@),
            ConfError::MissingEntry(p) => spec_yaml_document(s@) && p@ == spec_first_missing(s@),
            ConfError::Unreadable => false,
        })),
        doc matches ConfDocument::Missing ==> r matches Ok(c) && spec_is_default_conf(c),
        doc matches ConfDocument::Unreadable ==> r matches Err(e) && e matches
            ConfError::Unreadable,
{
    match doc {
        ConfDocument::Present(s) => Conf::new(s.as_str()),
        ConfDocument::Missing => Ok(default_conf()),
        ConfDocument::Unreadable => Err(ConfError::Unreadable),
    }
}

} // verus!
