//! How the facts read from one repository become its pending labels, and
//! which record, if any, the crawl reports for it.
use vstd::prelude::*;
use crate::facts::{DeltaKind, GitError, ObjectId, RemoteHead, RemoteListing, RemoteOutcome, RepoFacts, StatusEntry, TagRef};
use crate::label::PendingLabel;
use crate::pending::{PendingSet, with_label, lemma_with_label};
use crate::text::{has_prefix, has_suffix, starts_with, ends_with};

verus! {

/// The options of a crawl.
#[derive(Clone, Debug)]
pub struct CrawlConfig {
    /// Report only repositories with pending actions.
    pub only_pending: bool,
    /// Leave out the "untracked files" label.
    pub ignore_untracked: bool,
    /// Report nothing for repositories whose branch has no commit yet.
    pub ignore_uncommitted_repos: bool,
    /// Render paths in full rather than relative to the crawl's root.
    pub absolute_paths: bool,
    /// Check whether HEAD is tagged.
    pub untagged_heads: bool,
    /// How to authenticate with the remote; `None` leaves the remote alone.
    pub access_remote: Option<String>,
}

// ---------------------------------------------------------------------------
// Status entries

/// The label a change between the index and the working directory gives.
pub open spec fn workdir_label(ignore_untracked: bool, d: DeltaKind) -> Option<PendingLabel> {
    match d {
        DeltaKind::Untracked => if ignore_untracked { None } else { Some(PendingLabel::UntrackedFiles) },
        DeltaKind::Modified => Some(PendingLabel::UncommittedChanges),
        DeltaKind::Deleted => Some(PendingLabel::DeletedFiles),
        DeltaKind::Renamed => Some(PendingLabel::RenamedFiles),
        _ => None,
    }
}

/// The label a change between HEAD and the index gives.
pub open spec fn index_label(d: DeltaKind) -> Option<PendingLabel> {
    match d {
        DeltaKind::Added => Some(PendingLabel::AddedFiles),
        DeltaKind::Modified => Some(PendingLabel::UncommittedChanges),
        DeltaKind::Deleted => Some(PendingLabel::DeletedFiles),
        DeltaKind::Renamed => Some(PendingLabel::RenamedFiles),
        _ => None,
    }
}

/// Adds a label, if there is one.
pub open spec fn with_some(s: Seq<PendingLabel>, o: Option<PendingLabel>) -> Seq<PendingLabel> {
    match o {
        Some(l) => with_label(s, l),
        None => s,
    }
}

/// The labels after one status entry is looked at, working directory first.
pub open spec fn entry_labels(ignore_untracked: bool, s: Seq<PendingLabel>, e: StatusEntry) -> Seq<PendingLabel> {
    let s1 = match e.index_to_workdir {
        Some(d) => with_some(s, workdir_label(ignore_untracked, d)),
        None => s,
    };
    match e.head_to_index {
        Some(d) => with_some(s1, index_label(d)),
        None => s1,
    }
}

/// The labels after all status entries are looked at in order.
pub open spec fn status_labels(ignore_untracked: bool, s: Seq<PendingLabel>, es: Seq<StatusEntry>) -> Seq<PendingLabel>
    decreases es.len(),
{
    if es.len() == 0 {
        s
    } else {
        entry_labels(ignore_untracked, status_labels(ignore_untracked, s, es.drop_last()), es.last())
    }
}

fn add_some(pending: &mut PendingSet, o: Option<PendingLabel>)
    requires
        old(pending).wf(),
    ensures
        final(pending).wf(),
        final(pending)@ == with_some(old(pending)@, o),
{
    match o {
        Some(l) => pending.insert(l),
        None => {}
    }
}

fn workdir_label_of(ignore_untracked: bool, d: DeltaKind) -> (r: Option<PendingLabel>)
    ensures
        r == workdir_label(ignore_untracked, d),
{
    match d {
        DeltaKind::Untracked => if ignore_untracked { None } else { Some(PendingLabel::UntrackedFiles) },
        DeltaKind::Modified => Some(PendingLabel::UncommittedChanges),
        DeltaKind::Deleted => Some(PendingLabel::DeletedFiles),
        DeltaKind::Renamed => Some(PendingLabel::RenamedFiles),
        _ => None,
    }
}

fn index_label_of(d: DeltaKind) -> (r: Option<PendingLabel>)
    ensures
        r == index_label(d),
{
    match d {
        DeltaKind::Added => Some(PendingLabel::AddedFiles),
        DeltaKind::Modified => Some(PendingLabel::UncommittedChanges),
        DeltaKind::Deleted => Some(PendingLabel::DeletedFiles),
        DeltaKind::Renamed => Some(PendingLabel::RenamedFiles),
        _ => None,
    }
}

/// Adds the labels one status entry calls for.
pub fn diff_ops(ignore_untracked: bool, e: &StatusEntry, pending: &mut PendingSet)
    requires
        old(pending).wf(),
    ensures
        final(pending).wf(),
        final(pending)@ == entry_labels(ignore_untracked, old(pending)@, *e),
{
    match e.index_to_workdir {
        Some(d) => add_some(pending, workdir_label_of(ignore_untracked, d)),
        None => {}
    }
    match e.head_to_index {
        Some(d) => add_some(pending, index_label_of(d)),
        None => {}
    }
}

/// Adds the labels all status entries call for.
pub fn status_ops(ignore_untracked: bool, es: &Vec<StatusEntry>, pending: &mut PendingSet)
    requires
        old(pending).wf(),
    ensures
        final(pending).wf(),
        final(pending)@ == status_labels(ignore_untracked, old(pending)@, es@),
{
    let ghost start = pending@;
    let mut i: usize = 0;
    while i < es.len()
        invariant
            i <= es.len(),
            pending.wf(),
            pending@ == status_labels(ignore_untracked, start, es@.take(i as int)),
        decreases es.len() - i,
    {
        diff_ops(ignore_untracked, &es[i], pending);
        assert(es@.take(i + 1).drop_last() =~= es@.take(i as int));
        i = i + 1;
    }
    assert(es@.take(es.len() as int) =~= es@);
}

// ---------------------------------------------------------------------------
// HEAD's tag

/// A resolved target that is the object `oid`.
pub open spec fn points_at(o: Option<ObjectId>, oid: Seq<u8>) -> bool {
    match o {
        Some(t) => t@ == oid,
        None => false,
    }
}

/// Some of the targets is the object `oid`.
pub open spec fn any_points_at(targets: Seq<Option<ObjectId>>, oid: Seq<u8>) -> bool {
    exists|i: int| 0 <= i < targets.len() && points_at(#[trigger] targets[i], oid)
}

/// The labels after the check for a tag on HEAD, when that check is asked for.
/// Where tag names could not be listed the check adds nothing.
pub open spec fn tag_labels(
    untagged_heads: bool,
    s: Seq<PendingLabel>,
    head: Seq<u8>,
    targets: Option<Vec<Option<ObjectId>>>,
) -> Seq<PendingLabel> {
    match targets {
        Some(v) => if untagged_heads && !any_points_at(v@, head) {
            with_label(s, PendingLabel::UntaggedHead)
        } else {
            s
        },
        None => s,
    }
}

/// Whether some target is `head`; stops at the first match.
pub fn any_target_is(targets: &Vec<Option<ObjectId>>, head: &ObjectId) -> (r: bool)
    ensures
        r == any_points_at(targets@, head@),
{
    let mut i: usize = 0;
    while i < targets.len()
        invariant
            i <= targets.len(),
            forall|j: int| 0 <= j < i ==> !points_at(#[trigger] targets@[j], head@),
        decreases targets.len() - i,
    {
        match &targets[i] {
            Some(t) => {
                if t.same(head) {
                    return true;
                }
            }
            None => {}
        }
        i = i + 1;
    }
    false
}

// ---------------------------------------------------------------------------
// Upstream

/// The labels after HEAD is compared with its upstream. Nothing is added when
/// no upstream is configured, when both tips agree, or when the counts failed.
pub open spec fn upstream_labels(
    s: Seq<PendingLabel>,
    head: Seq<u8>,
    upstream: Option<Option<ObjectId>>,
    ahead_behind: Option<(usize, usize)>,
) -> Seq<PendingLabel> {
    match upstream {
        Some(Some(u)) => if u@ != head {
            match ahead_behind {
                Some((ahead, behind)) => {
                    let s1 = if ahead > 0 { with_label(s, PendingLabel::UnpushedCommits) } else { s };
                    if behind > 0 { with_label(s1, PendingLabel::OutdatedBranch) } else { s1 }
                },
                None => s,
            }
        } else {
            s
        },
        _ => s,
    }
}

/// Adds "unpushed commits" when ahead and "outdated branch" when behind.
pub fn ahead_behind_ops(ahead: usize, behind: usize, pending: &mut PendingSet)
    requires
        old(pending).wf(),
    ensures
        final(pending).wf(),
        final(pending)@ == ({
            let s1 = if ahead > 0 { with_label(old(pending)@, PendingLabel::UnpushedCommits) } else { old(pending)@ };
            if behind > 0 { with_label(s1, PendingLabel::OutdatedBranch) } else { s1 }
        }),
{
    if ahead > 0 {
        pending.insert(PendingLabel::UnpushedCommits);
    }
    if behind > 0 {
        pending.insert(PendingLabel::OutdatedBranch);
    }
}

// ---------------------------------------------------------------------------
// Remote

/// A tag reference as advertised, other than the peeled `^{}` duplicates.
pub open spec fn is_tag_ref(name: Seq<char>) -> bool {
    has_prefix(name, "refs/tags/"@) && !has_suffix(name, "^{}"@)
}

/// A branch-head reference as advertised.
pub open spec fn is_head_ref(name: Seq<char>) -> bool {
    has_prefix(name, "refs/heads/"@)
}

/// Some local branch points at `oid`.
pub open spec fn held_locally(oid: Seq<u8>, branches: Option<Vec<Option<ObjectId>>>) -> bool {
    match branches {
        Some(v) => any_points_at(v@, oid),
        None => false,
    }
}

/// The remote has a branch head that is neither HEAD's target nor held by any
/// local branch.
pub open spec fn has_unfetched(l: RemoteListing, head: Seq<u8>) -> bool {
    exists|i: int| 0 <= i < l.advertised@.len() && {
        let h = #[trigger] l.advertised@[i];
        is_head_ref(h.name@) && h.oid@ != head && !held_locally(h.oid@, l.branch_targets)
    }
}

/// The remote advertises the tag `name` at `oid`.
pub open spec fn remote_has_tag(adv: Seq<RemoteHead>, name: Seq<char>, oid: Seq<u8>) -> bool {
    exists|j: int| 0 <= j < adv.len() && is_tag_ref(#[trigger] adv[j].name@) && adv[j].name@ == name && adv[j].oid@ == oid
}

/// The repository has the tag `name` at `oid`.
pub open spec fn local_has_tag(tags: Seq<TagRef>, name: Seq<char>, oid: Seq<u8>) -> bool {
    exists|j: int| 0 <= j < tags.len() && #[trigger] tags[j].name@ == name && tags[j].oid@ == oid
}

/// Every local tag is advertised by the remote with the same target.
pub open spec fn local_tags_pushed(l: RemoteListing) -> bool {
    forall|i: int| 0 <= i < l.local_tags@.len() ==> remote_has_tag(l.advertised@, #[trigger] l.local_tags@[i].name@, l.local_tags@[i].oid@)
}

/// Every advertised tag is present locally with the same target.
pub open spec fn remote_tags_pulled(l: RemoteListing) -> bool {
    forall|j: int| 0 <= j < l.advertised@.len() && is_tag_ref(#[trigger] l.advertised@[j].name@) ==> local_has_tag(l.local_tags@, l.advertised@[j].name@, l.advertised@[j].oid@)
}

/// The labels after the comparison with the remote's listing.
pub open spec fn remote_labels(s: Seq<PendingLabel>, l: RemoteListing, head: Seq<u8>) -> Seq<PendingLabel> {
    let s1 = if has_unfetched(l, head) { with_label(s, PendingLabel::UnfetchedCommits) } else { s };
    let s2 = if !local_tags_pushed(l) { with_label(s1, PendingLabel::UnpushedTags) } else { s1 };
    if !remote_tags_pulled(l) { with_label(s2, PendingLabel::UnpulledTags) } else { s2 }
}

/// Whether some local branch points at `oid`.
fn is_held_locally(oid: &ObjectId, branches: &Option<Vec<Option<ObjectId>>>) -> (r: bool)
    ensures
        r == held_locally(oid@, *branches),
{
    match branches {
        Some(v) => any_target_is(v, oid),
        None => false,
    }
}

fn tag_ref_name(name: &str) -> (r: bool)
    ensures
        r == is_tag_ref(name@),
{
    starts_with(name, "refs/tags/") && !ends_with(name, "^{}")
}

/// Whether the remote has a branch head that the repository lacks.
pub fn unfetched_commits(l: &RemoteListing, head: &ObjectId) -> (r: bool)
    ensures
        r == has_unfetched(*l, head@),
{
    let mut i: usize = 0;
    while i < l.advertised.len()
        invariant
            i <= l.advertised.len(),
            forall|j: int| 0 <= j < i ==> {
                let h = #[trigger] l.advertised@[j];
                !(is_head_ref(h.name@) && h.oid@ != head@ && !held_locally(h.oid@, l.branch_targets))
            },
        decreases l.advertised.len() - i,
    {
        let h = &l.advertised[i];
        if starts_with(h.name.as_str(), "refs/heads/") && !h.oid.same(head) {
            if !is_held_locally(&h.oid, &l.branch_targets) {
                return true;
            }
        }
        i = i + 1;
    }
    false
}

fn advertises_tag(adv: &Vec<RemoteHead>, t: &TagRef) -> (r: bool)
    ensures
        r == remote_has_tag(adv@, t.name@, t.oid@),
{
    let mut j: usize = 0;
    while j < adv.len()
        invariant
            j <= adv.len(),
            forall|k: int| 0 <= k < j ==> !(is_tag_ref(#[trigger] adv@[k].name@) && adv@[k].name@ == t.name@ && adv@[k].oid@ == t.oid@),
        decreases adv.len() - j,
    {
        if tag_ref_name(adv[j].name.as_str()) && adv[j].name == t.name && adv[j].oid.same(&t.oid) {
            return true;
        }
        j = j + 1;
    }
    false
}

fn has_local_tag(tags: &Vec<TagRef>, h: &RemoteHead) -> (r: bool)
    ensures
        r == local_has_tag(tags@, h.name@, h.oid@),
{
    let mut j: usize = 0;
    while j < tags.len()
        invariant
            j <= tags.len(),
            forall|k: int| 0 <= k < j ==> !(#[trigger] tags@[k].name@ == h.name@ && tags@[k].oid@ == h.oid@),
        decreases tags.len() - j,
    {
        if tags[j].name == h.name && tags[j].oid.same(&h.oid) {
            return true;
        }
        j = j + 1;
    }
    false
}

/// Whether every local tag is on the remote with the same target.
pub fn tags_pushed(l: &RemoteListing) -> (r: bool)
    ensures
        r == local_tags_pushed(*l),
{
    let mut i: usize = 0;
    while i < l.local_tags.len()
        invariant
            i <= l.local_tags.len(),
            forall|k: int| 0 <= k < i ==> remote_has_tag(l.advertised@, #[trigger] l.local_tags@[k].name@, l.local_tags@[k].oid@),
        decreases l.local_tags.len() - i,
    {
        if !advertises_tag(&l.advertised, &l.local_tags[i]) {
            return false;
        }
        i = i + 1;
    }
    true
}

/// Whether every tag the remote advertises is present locally with the same target.
pub fn tags_pulled(l: &RemoteListing) -> (r: bool)
    ensures
        r == remote_tags_pulled(*l),
{
    let mut i: usize = 0;
    while i < l.advertised.len()
        invariant
            i <= l.advertised.len(),
            forall|k: int| 0 <= k < i && is_tag_ref(#[trigger] l.advertised@[k].name@) ==> local_has_tag(l.local_tags@, l.advertised@[k].name@, l.advertised@[k].oid@),
        decreases l.advertised.len() - i,
    {
        if tag_ref_name(l.advertised[i].name.as_str()) && !has_local_tag(&l.local_tags, &l.advertised[i]) {
            return false;
        }
        i = i + 1;
    }
    true
}

/// Adds the labels the comparison with the remote's listing calls for.
pub fn remote_ops(l: &RemoteListing, head: &ObjectId, pending: &mut PendingSet)
    requires
        old(pending).wf(),
    ensures
        final(pending).wf(),
        final(pending)@ == remote_labels(old(pending)@, *l, head@),
{
    if unfetched_commits(l, head) {
        pending.insert(PendingLabel::UnfetchedCommits);
    }
    if !tags_pushed(l) {
        pending.insert(PendingLabel::UnpushedTags);
    }
    if !tags_pulled(l) {
        pending.insert(PendingLabel::UnpulledTags);
    }
}

// ---------------------------------------------------------------------------
// Records

/// What the crawl reports for one repository.
///
/// At most one of `pending` and `error` is set: neither for a clean
/// repository, `pending` (never empty) when actions are pending, `error` when
/// the inspection failed.
#[derive(Debug)]
pub struct Output {
    /// Where the repository's working directory is.
    pub path: String,
    /// The pending actions, in the order they were found.
    pub pending: Option<PendingSet>,
    /// Why the repository could not be inspected.
    pub error: Option<GitError>,
}

/// The mathematical content of an [`Output`].
pub struct Record {
    pub path: Seq<char>,
    pub pending: Option<Seq<PendingLabel>>,
    pub error: Option<GitError>,
}

impl View for Output {
    type V = Record;

    open spec fn view(&self) -> Record {
        Record {
            path: self.path@,
            pending: match self.pending {
                Some(p) => Some(p@),
                None => None,
            },
            error: self.error,
        }
    }
}

impl Output {
    /// The label set, if any, is well formed.
    pub open spec fn wf(&self) -> bool {
        self.pending matches Some(p) ==> p.wf()
    }
}

/// The record of a repository that could not be inspected.
pub open spec fn error_record(path: Seq<char>, e: GitError) -> Record {
    Record { path, pending: None, error: Some(e) }
}

/// The record for a repository whose inspection found the labels `s`; a clean
/// repository is left out when only pending ones are wanted.
pub open spec fn finish(only_pending: bool, path: Seq<char>, s: Seq<PendingLabel>) -> Option<Record> {
    if s.len() > 0 {
        Some(Record { path, pending: Some(s), error: None })
    } else if !only_pending {
        Some(Record { path, pending: None, error: None })
    } else {
        None
    }
}

/// The labels from the status, HEAD's tag and the upstream, in that order.
pub open spec fn local_labels(cfg: CrawlConfig, head: Seq<u8>, es: Seq<StatusEntry>, f: RepoFacts) -> Seq<PendingLabel> {
    let s0 = status_labels(cfg.ignore_untracked, Seq::empty(), es);
    let s1 = tag_labels(cfg.untagged_heads, s0, head, f.tag_targets);
    upstream_labels(s1, head, f.upstream, f.ahead_behind)
}

/// What the crawl reports for a repository with working directory `path`
/// whose inspection read the facts `f`; `None` when it reports nothing.
pub open spec fn outcome(cfg: CrawlConfig, path: Seq<char>, f: RepoFacts) -> Option<Record> {
    match f.head {
        Err(e) => if cfg.ignore_uncommitted_repos && e.unborn_branch {
            None
        } else {
            Some(error_record(path, e))
        },
        Ok(None) => None,
        Ok(Some(h)) => match f.statuses {
            Err(e) => Some(error_record(path, e)),
            Ok(es) => if f.upstream matches Some(None) {
                None
            } else {
                let s = local_labels(cfg, h@, es@, f);
                if cfg.access_remote is Some {
                    match f.remote {
                        RemoteOutcome::Failed(e) => Some(error_record(path, e)),
                        RemoteOutcome::Listed(l) => finish(cfg.only_pending, path, remote_labels(s, l, h@)),
                        RemoteOutcome::Unavailable => finish(cfg.only_pending, path, s),
                    }
                } else {
                    finish(cfg.only_pending, path, s)
                }
            },
        },
    }
}

/// `r` is the executable form of the record `o`.
pub open spec fn reports(r: Option<Output>, o: Option<Record>) -> bool {
    match r {
        Some(out) => out.wf() && o == Some(out@),
        None => o is None,
    }
}

fn error_output(path: String, e: GitError) -> (r: Output)
    ensures
        r.wf(),
        r@ == error_record(path@, e),
{
    Output { path, pending: None, error: Some(e) }
}

/// The record for the labels found, following the only-pending policy.
pub fn finish_output(only_pending: bool, path: String, pending: PendingSet) -> (r: Option<Output>)
    requires
        pending.wf(),
    ensures
        reports(r, finish(only_pending, path@, pending@)),
{
    if !pending.is_empty() {
        Some(Output { path, pending: Some(pending), error: None })
    } else if !only_pending {
        Some(Output { path, pending: None, error: None })
    } else {
        None
    }
}

/// Classifies one repository from the facts its inspection read.
pub fn evaluate(cfg: &CrawlConfig, path: String, f: RepoFacts) -> (r: Option<Output>)
    ensures
        reports(r, outcome(*cfg, path@, f)),
{
    let ghost facts = f;
    let RepoFacts { head, statuses, tag_targets, upstream, ahead_behind, remote } = f;
    let h = match head {
        Err(e) => {
            if cfg.ignore_uncommitted_repos && e.unborn_branch {
                return None;
            }
            return Some(error_output(path, e));
        }
        Ok(None) => {
            return None;
        }
        Ok(Some(h)) => h,
    };
    let es = match statuses {
        Err(e) => {
            return Some(error_output(path, e));
        }
        Ok(es) => es,
    };
    let mut pending = PendingSet::new();
    status_ops(cfg.ignore_untracked, &es, &mut pending);
    if cfg.untagged_heads {
        match &tag_targets {
            Some(v) => {
                if !any_target_is(v, &h) {
                    pending.insert(PendingLabel::UntaggedHead);
                }
            }
            None => {}
        }
    }
    match &upstream {
        Some(Some(u)) => {
            if !u.same(&h) {
                match ahead_behind {
                    Some((ahead, behind)) => ahead_behind_ops(ahead, behind, &mut pending),
                    None => {}
                }
            }
        }
        Some(None) => {
            return None;
        }
        None => {}
    }
    assert(pending@ == local_labels(*cfg, h@, es@, facts));
    if cfg.access_remote.is_some() {
        match remote {
            RemoteOutcome::Failed(e) => {
                return Some(error_output(path, e));
            }
            RemoteOutcome::Listed(l) => {
                remote_ops(&l, &h, &mut pending);
            }
            RemoteOutcome::Unavailable => {}
        }
    }
    finish_output(cfg.only_pending, path, pending)
}

} // verus!
