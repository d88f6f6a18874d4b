//! Properties that hold of every repository the crawl classifies.
use vstd::prelude::*;
use crate::classify::{
    any_points_at, error_record, has_unfetched, index_label, local_labels, local_tags_pushed, outcome, remote_labels,
    remote_tags_pulled, status_labels, tag_labels, upstream_labels, with_some, workdir_label, CrawlConfig,
};
use crate::facts::{GitError, ObjectId, RemoteListing, RemoteOutcome, RepoFacts, StatusEntry};
use crate::label::PendingLabel;
use crate::pending::{with_label, lemma_with_label};

verus! {

/// The labels a working-tree status can give.
pub open spec fn is_status_label(m: PendingLabel) -> bool {
    m == PendingLabel::UntrackedFiles || m == PendingLabel::UncommittedChanges || m == PendingLabel::DeletedFiles
        || m == PendingLabel::RenamedFiles || m == PendingLabel::AddedFiles
}

/// The labels the comparison with the remote can give.
pub open spec fn is_remote_label(m: PendingLabel) -> bool {
    m == PendingLabel::UnfetchedCommits || m == PendingLabel::UnpushedTags || m == PendingLabel::UnpulledTags
}

/// `t` extends `s` with labels satisfying `allowed` only, and keeps it free of duplicates.
pub open spec fn grows_within(s: Seq<PendingLabel>, t: Seq<PendingLabel>, allowed: spec_fn(PendingLabel) -> bool) -> bool {
    &&& s.no_duplicates() ==> t.no_duplicates()
    &&& forall|m: PendingLabel| #[trigger] s.contains(m) ==> t.contains(m)
    &&& forall|m: PendingLabel| #[trigger] t.contains(m) ==> s.contains(m) || allowed(m)
}

proof fn lemma_with_some(s: Seq<PendingLabel>, o: Option<PendingLabel>, allowed: spec_fn(PendingLabel) -> bool)
    requires
        o matches Some(l) ==> allowed(l),
    ensures
        grows_within(s, with_some(s, o), allowed),
{
    if let Some(l) = o {
        lemma_with_label(s, l);
    }
}

proof fn lemma_grows_trans(
    a: Seq<PendingLabel>,
    b: Seq<PendingLabel>,
    c: Seq<PendingLabel>,
    allowed: spec_fn(PendingLabel) -> bool,
)
    requires
        grows_within(a, b, allowed),
        grows_within(b, c, allowed),
    ensures
        grows_within(a, c, allowed),
{
    assert forall|m: PendingLabel| #[trigger] c.contains(m) implies a.contains(m) || allowed(m) by {
        if !allowed(m) {
            assert(b.contains(m));
        }
    }
    assert forall|m: PendingLabel| #[trigger] a.contains(m) implies c.contains(m) by {
        assert(b.contains(m));
    }
}

proof fn lemma_status_labels(ignore_untracked: bool, s: Seq<PendingLabel>, es: Seq<StatusEntry>)
    ensures
        grows_within(s, status_labels(ignore_untracked, s, es), |m: PendingLabel| is_status_label(m)),
    decreases es.len(),
{
    let allowed = |m: PendingLabel| is_status_label(m);
    if es.len() == 0 {
    } else {
        let prev = status_labels(ignore_untracked, s, es.drop_last());
        lemma_status_labels(ignore_untracked, s, es.drop_last());
        let e = es.last();
        let s1 = match e.index_to_workdir {
            Some(d) => with_some(prev, workdir_label(ignore_untracked, d)),
            None => prev,
        };
        match e.index_to_workdir {
            Some(d) => lemma_with_some(prev, workdir_label(ignore_untracked, d), allowed),
            None => {}
        }
        match e.head_to_index {
            Some(d) => lemma_with_some(s1, index_label(d), allowed),
            None => {}
        }
        lemma_grows_trans(prev, s1, status_labels(ignore_untracked, s, es), allowed);
        lemma_grows_trans(s, prev, status_labels(ignore_untracked, s, es), allowed);
    }
}

proof fn lemma_upstream_labels(
    s: Seq<PendingLabel>,
    head: Seq<u8>,
    upstream: Option<Option<ObjectId>>,
    ahead_behind: Option<(usize, usize)>,
)
    ensures
        grows_within(
            s,
            upstream_labels(s, head, upstream, ahead_behind),
            |m: PendingLabel| m == PendingLabel::UnpushedCommits || m == PendingLabel::OutdatedBranch,
        ),
{
    let allowed = |m: PendingLabel| m == PendingLabel::UnpushedCommits || m == PendingLabel::OutdatedBranch;
    lemma_with_some(s, Some(PendingLabel::UnpushedCommits), allowed);
    let s1 = with_label(s, PendingLabel::UnpushedCommits);
    lemma_with_some(s1, Some(PendingLabel::OutdatedBranch), allowed);
    lemma_with_some(s, Some(PendingLabel::OutdatedBranch), allowed);
    lemma_grows_trans(s, s1, with_label(s1, PendingLabel::OutdatedBranch), allowed);
}

proof fn lemma_tag_labels(untagged_heads: bool, s: Seq<PendingLabel>, head: Seq<u8>, targets: Option<Vec<Option<ObjectId>>>)
    ensures
        grows_within(s, tag_labels(untagged_heads, s, head, targets), |m: PendingLabel| m == PendingLabel::UntaggedHead),
{
    lemma_with_some(s, Some(PendingLabel::UntaggedHead), |m: PendingLabel| m == PendingLabel::UntaggedHead);
}

proof fn lemma_remote_labels(s: Seq<PendingLabel>, l: RemoteListing, head: Seq<u8>)
    ensures
        grows_within(s, remote_labels(s, l, head), |m: PendingLabel| is_remote_label(m)),
{
    let allowed = |m: PendingLabel| is_remote_label(m);
    let s1 = if has_unfetched(l, head) { with_label(s, PendingLabel::UnfetchedCommits) } else { s };
    let s2 = if !local_tags_pushed(l) { with_label(s1, PendingLabel::UnpushedTags) } else { s1 };
    let s3 = remote_labels(s, l, head);
    lemma_with_some(s, if has_unfetched(l, head) { Some(PendingLabel::UnfetchedCommits) } else { None }, allowed);
    lemma_with_some(s1, if !local_tags_pushed(l) { Some(PendingLabel::UnpushedTags) } else { None }, allowed);
    lemma_with_some(s2, if !remote_tags_pulled(l) { Some(PendingLabel::UnpulledTags) } else { None }, allowed);
    lemma_grows_trans(s, s1, s2, allowed);
    lemma_grows_trans(s, s2, s3, allowed);
}

/// The labels found before the remote is asked: status labels first, then
/// HEAD's tag, then the upstream's; free of duplicates.
proof fn lemma_local_labels(cfg: CrawlConfig, head: Seq<u8>, es: Seq<StatusEntry>, f: RepoFacts)
    ensures
        local_labels(cfg, head, es, f).no_duplicates(),
        forall|m: PendingLabel| #[trigger] local_labels(cfg, head, es, f).contains(m) ==> is_status_label(m)
            || m == PendingLabel::UntaggedHead || m == PendingLabel::UnpushedCommits || m == PendingLabel::OutdatedBranch,
        f.upstream is None ==> !local_labels(cfg, head, es, f).contains(PendingLabel::UnpushedCommits)
            && !local_labels(cfg, head, es, f).contains(PendingLabel::OutdatedBranch),
        !local_labels(cfg, head, es, f).contains(PendingLabel::UntaggedHead) <==> !tag_labels(
            cfg.untagged_heads,
            status_labels(cfg.ignore_untracked, Seq::empty(), es),
            head,
            f.tag_targets,
        ).contains(PendingLabel::UntaggedHead),
{
    let s0 = status_labels(cfg.ignore_untracked, Seq::empty(), es);
    let s1 = tag_labels(cfg.untagged_heads, s0, head, f.tag_targets);
    let s2 = upstream_labels(s1, head, f.upstream, f.ahead_behind);
    assert(Seq::<PendingLabel>::empty().no_duplicates());
    lemma_status_labels(cfg.ignore_untracked, Seq::empty(), es);
    lemma_tag_labels(cfg.untagged_heads, s0, head, f.tag_targets);
    lemma_upstream_labels(s1, head, f.upstream, f.ahead_behind);
    assert forall|m: PendingLabel| #[trigger] s2.contains(m) implies is_status_label(m) || m == PendingLabel::UntaggedHead
        || m == PendingLabel::UnpushedCommits || m == PendingLabel::OutdatedBranch by {
        if s1.contains(m) {
            if s0.contains(m) {
                assert(!Seq::<PendingLabel>::empty().contains(m));
            }
        }
    }
    if f.upstream is None {
        assert(s2 == s1);
    }
}

/// Every record's label set is free of duplicates and, when present, not empty
/// and not accompanied by an error; a record with neither labels nor error
/// reports a clean repository.
pub proof fn lemma_pending_set_well_formed(cfg: CrawlConfig, path: Seq<char>, f: RepoFacts)
    ensures
        outcome(cfg, path, f) matches Some(r) ==> (r.pending matches Some(s) ==> s.len() > 0 && s.no_duplicates()
            && r.error is None),
{
    if let Ok(Some(h)) = f.head {
        if let Ok(es) = f.statuses {
            let s = local_labels(cfg, h@, es@, f);
            lemma_local_labels(cfg, h@, es@, f);
            if let RemoteOutcome::Listed(l) = f.remote {
                lemma_remote_labels(s, l, h@);
            }
        }
    }
}

proof fn lemma_status_labels_no_untracked(s: Seq<PendingLabel>, es: Seq<StatusEntry>)
    requires
        !s.contains(PendingLabel::UntrackedFiles),
    ensures
        !status_labels(true, s, es).contains(PendingLabel::UntrackedFiles),
    decreases es.len(),
{
    let allowed = |m: PendingLabel| m != PendingLabel::UntrackedFiles && is_status_label(m);
    if es.len() > 0 {
        let prev = status_labels(true, s, es.drop_last());
        lemma_status_labels_no_untracked(s, es.drop_last());
        let e = es.last();
        let s1 = match e.index_to_workdir {
            Some(d) => with_some(prev, workdir_label(true, d)),
            None => prev,
        };
        match e.index_to_workdir {
            Some(d) => lemma_with_some(prev, workdir_label(true, d), allowed),
            None => {}
        }
        match e.head_to_index {
            Some(d) => lemma_with_some(s1, index_label(d), allowed),
            None => {}
        }
    }
}

/// With untracked files ignored, no record carries "untracked files".
pub proof fn lemma_ignore_untracked(cfg: CrawlConfig, path: Seq<char>, f: RepoFacts)
    requires
        cfg.ignore_untracked,
    ensures
        outcome(cfg, path, f) matches Some(r) ==> (r.pending matches Some(s) ==> !s.contains(PendingLabel::UntrackedFiles)),
{
    if let Ok(Some(h)) = f.head {
        if let Ok(es) = f.statuses {
            let s0 = status_labels(cfg.ignore_untracked, Seq::empty(), es@);
            lemma_status_labels_no_untracked(Seq::empty(), es@);
            let s1 = tag_labels(cfg.untagged_heads, s0, h@, f.tag_targets);
            lemma_tag_labels(cfg.untagged_heads, s0, h@, f.tag_targets);
            let s = local_labels(cfg, h@, es@, f);
            lemma_upstream_labels(s1, h@, f.upstream, f.ahead_behind);
            if let RemoteOutcome::Listed(l) = f.remote {
                lemma_remote_labels(s, l, h@);
            }
        }
    }
}

/// A repository without a configured upstream never gets "unpushed commits"
/// or "outdated branch".
pub proof fn lemma_no_upstream_no_upstream_labels(cfg: CrawlConfig, path: Seq<char>, f: RepoFacts)
    requires
        f.upstream is None,
    ensures
        outcome(cfg, path, f) matches Some(r) ==> (r.pending matches Some(s) ==> !s.contains(PendingLabel::UnpushedCommits)
            && !s.contains(PendingLabel::OutdatedBranch)),
{
    if let Ok(Some(h)) = f.head {
        if let Ok(es) = f.statuses {
            let s = local_labels(cfg, h@, es@, f);
            lemma_local_labels(cfg, h@, es@, f);
            if let RemoteOutcome::Listed(l) = f.remote {
                lemma_remote_labels(s, l, h@);
            }
        }
    }
}

/// A repository whose branch has no commit yet is left out when
/// uncommitted repositories are ignored, and otherwise gives exactly one
/// record, with the error and no labels.
pub proof fn lemma_unborn_branch(cfg: CrawlConfig, path: Seq<char>, f: RepoFacts, e: GitError)
    requires
        f.head == Err::<Option<ObjectId>, GitError>(e),
        e.unborn_branch,
    ensures
        cfg.ignore_uncommitted_repos ==> outcome(cfg, path, f) is None,
        !cfg.ignore_uncommitted_repos ==> outcome(cfg, path, f) == Some(error_record(path, e)),
        !cfg.ignore_uncommitted_repos ==> outcome(cfg, path, f)->0.pending is None,
{
}

/// The same configuration with the only-pending filter set or not.
pub open spec fn with_only_pending(cfg: CrawlConfig, only_pending: bool) -> CrawlConfig {
    CrawlConfig { only_pending, ..cfg }
}

/// With the only-pending filter a clean repository gives no record, and
/// every other repository gives the record it gives without the filter.
pub proof fn lemma_only_pending(cfg: CrawlConfig, path: Seq<char>, f: RepoFacts)
    ensures
        ({
            let unfiltered = outcome(with_only_pending(cfg, false), path, f);
            let filtered = outcome(with_only_pending(cfg, true), path, f);
            match unfiltered {
                Some(r) => if r.pending is None && r.error is None {
                    filtered is None
                } else {
                    filtered == unfiltered
                },
                None => filtered is None,
            }
        }),
{
    lemma_pending_set_well_formed(with_only_pending(cfg, false), path, f);
}

/// With the tag check on, a HEAD that some tag points at never gets
/// "untagged HEAD", and one that no tag points at always does, unless the
/// repository is left out or gives an error.
pub proof fn lemma_untagged_head(cfg: CrawlConfig, path: Seq<char>, f: RepoFacts, head: ObjectId, targets: Vec<Option<ObjectId>>)
    requires
        cfg.untagged_heads,
        f.head == Ok::<Option<ObjectId>, GitError>(Some(head)),
        f.tag_targets == Some(targets),
    ensures
        any_points_at(targets@, head@) ==> (outcome(cfg, path, f) matches Some(r) ==> (r.pending matches Some(s)
            ==> !s.contains(PendingLabel::UntaggedHead))),
        !any_points_at(targets@, head@) ==> (outcome(cfg, path, f) matches Some(r) ==> (r.error is None
            ==> (r.pending matches Some(s) && s.contains(PendingLabel::UntaggedHead)))),
{
    if let Ok(es) = f.statuses {
        let s0 = status_labels(cfg.ignore_untracked, Seq::empty(), es@);
        lemma_status_labels(cfg.ignore_untracked, Seq::empty(), es@);
        assert(!s0.contains(PendingLabel::UntaggedHead)) by {
            if s0.contains(PendingLabel::UntaggedHead) {
                assert(!Seq::<PendingLabel>::empty().contains(PendingLabel::UntaggedHead));
            }
        }
        let s1 = tag_labels(cfg.untagged_heads, s0, head@, f.tag_targets);
        lemma_with_label(s0, PendingLabel::UntaggedHead);
        let s = local_labels(cfg, head@, es@, f);
        lemma_local_labels(cfg, head@, es@, f);
        lemma_upstream_labels(s1, head@, f.upstream, f.ahead_behind);
        if let RemoteOutcome::Listed(l) = f.remote {
            lemma_remote_labels(s, l, head@);
        }
    }
}

} // verus!
