use mrh::classify::{evaluate, CrawlConfig, Output};
use mrh::facts::{DeltaKind, GitError, ObjectId, RemoteHead, RemoteListing, RemoteOutcome, RepoFacts, StatusEntry, TagRef};
use mrh::label::PendingLabel;

fn oid(b: u8) -> ObjectId {
    ObjectId { bytes: vec![b; 20] }
}

fn config() -> CrawlConfig {
    CrawlConfig {
        only_pending: false,
        ignore_untracked: false,
        ignore_uncommitted_repos: false,
        absolute_paths: false,
        untagged_heads: false,
        access_remote: None,
    }
}

fn clean_facts() -> RepoFacts {
    RepoFacts {
        head: Ok(Some(oid(1))),
        statuses: Ok(Vec::new()),
        tag_targets: None,
        upstream: None,
        ahead_behind: None,
        remote: RemoteOutcome::Unavailable,
    }
}

fn entry(head_to_index: Option<DeltaKind>, index_to_workdir: Option<DeltaKind>) -> StatusEntry {
    StatusEntry { head_to_index, index_to_workdir }
}

fn labels(o: &Output) -> Vec<PendingLabel> {
    o.pending.as_ref().expect("labels expected").labels()
}

fn unborn() -> GitError {
    GitError { unborn_branch: true, message: "reference 'refs/heads/main' not found".to_string() }
}

#[test]
fn one_untracked_file_gives_untracked_label() {
    let mut f = clean_facts();
    f.statuses = Ok(vec![entry(None, Some(DeltaKind::Untracked))]);
    let o = evaluate(&config(), "repo".to_string(), f).expect("a record");
    assert_eq!(o.path, "repo");
    assert!(o.error.is_none());
    assert_eq!(labels(&o), vec![PendingLabel::UntrackedFiles]);
}

#[test]
fn ignored_untracked_file_gives_clean_record() {
    let mut cfg = config();
    cfg.ignore_untracked = true;
    let mut f = clean_facts();
    f.statuses = Ok(vec![entry(None, Some(DeltaKind::Untracked))]);
    let o = evaluate(&cfg, "repo".to_string(), f).expect("a record");
    assert!(o.pending.is_none());
    assert!(o.error.is_none());
}

#[test]
fn each_change_kind_gives_its_label() {
    let mut f = clean_facts();
    f.statuses = Ok(vec![
        entry(None, Some(DeltaKind::Modified)),
        entry(Some(DeltaKind::Added), None),
        entry(Some(DeltaKind::Deleted), None),
        entry(None, Some(DeltaKind::Renamed)),
        entry(Some(DeltaKind::Modified), Some(DeltaKind::Deleted)),
        entry(None, Some(DeltaKind::Untracked)),
    ]);
    let o = evaluate(&config(), "r".to_string(), f).expect("a record");
    assert_eq!(
        labels(&o),
        vec![
            PendingLabel::UncommittedChanges,
            PendingLabel::AddedFiles,
            PendingLabel::DeletedFiles,
            PendingLabel::RenamedFiles,
            PendingLabel::UntrackedFiles,
        ]
    );
}

#[test]
fn added_counts_only_from_head_to_index() {
    let mut f = clean_facts();
    f.statuses = Ok(vec![entry(None, Some(DeltaKind::Added)), entry(Some(DeltaKind::Untracked), None)]);
    let o = evaluate(&config(), "r".to_string(), f).expect("a record");
    assert!(o.pending.is_none());
}

#[test]
fn repeated_changes_give_one_label() {
    let mut f = clean_facts();
    f.statuses = Ok(vec![
        entry(None, Some(DeltaKind::Modified)),
        entry(Some(DeltaKind::Modified), Some(DeltaKind::Modified)),
        entry(None, Some(DeltaKind::Modified)),
    ]);
    let o = evaluate(&config(), "r".to_string(), f).expect("a record");
    assert_eq!(labels(&o), vec![PendingLabel::UncommittedChanges]);
    assert_eq!(o.pending.as_ref().unwrap().len(), 1);
}

#[test]
fn no_upstream_gives_no_upstream_labels() {
    let mut f = clean_facts();
    f.ahead_behind = Some((3, 4));
    let o = evaluate(&config(), "r".to_string(), f).expect("a record");
    assert!(o.pending.is_none());
    assert!(o.error.is_none());
}

#[test]
fn two_ahead_gives_unpushed_commits_only() {
    let mut f = clean_facts();
    f.upstream = Some(Some(oid(2)));
    f.ahead_behind = Some((2, 0));
    let o = evaluate(&config(), "r".to_string(), f).expect("a record");
    let l = labels(&o);
    assert!(l.contains(&PendingLabel::UnpushedCommits));
    assert!(!l.contains(&PendingLabel::OutdatedBranch));
}

#[test]
fn behind_gives_outdated_branch() {
    let mut f = clean_facts();
    f.upstream = Some(Some(oid(2)));
    f.ahead_behind = Some((1, 5));
    let o = evaluate(&config(), "r".to_string(), f).expect("a record");
    assert_eq!(labels(&o), vec![PendingLabel::UnpushedCommits, PendingLabel::OutdatedBranch]);
}

#[test]
fn same_tip_as_upstream_gives_nothing() {
    let mut f = clean_facts();
    f.upstream = Some(Some(oid(1)));
    f.ahead_behind = Some((2, 2));
    let o = evaluate(&config(), "r".to_string(), f).expect("a record");
    assert!(o.pending.is_none());
}

#[test]
fn upstream_without_target_is_dropped() {
    let mut f = clean_facts();
    f.upstream = Some(None);
    assert!(evaluate(&config(), "r".to_string(), f).is_none());
}

#[test]
fn unborn_branch_ignored_gives_no_record() {
    let mut cfg = config();
    cfg.ignore_uncommitted_repos = true;
    let mut f = clean_facts();
    f.head = Err(unborn());
    assert!(evaluate(&cfg, "r".to_string(), f).is_none());
}

#[test]
fn unborn_branch_reported_gives_error_record() {
    let mut f = clean_facts();
    f.head = Err(unborn());
    let o = evaluate(&config(), "r".to_string(), f).expect("a record");
    assert!(o.pending.is_none());
    assert!(o.error.as_ref().unwrap().unborn_branch);
}

#[test]
fn other_head_error_is_always_reported() {
    let mut cfg = config();
    cfg.ignore_uncommitted_repos = true;
    let mut f = clean_facts();
    f.head = Err(GitError { unborn_branch: false, message: "corrupt".to_string() });
    let o = evaluate(&cfg, "r".to_string(), f).expect("a record");
    assert_eq!(o.error.unwrap().message, "corrupt");
    assert!(o.pending.is_none());
}

#[test]
fn head_without_target_is_dropped() {
    let mut f = clean_facts();
    f.head = Ok(None);
    assert!(evaluate(&config(), "r".to_string(), f).is_none());
}

#[test]
fn status_error_discards_labels() {
    let mut f = clean_facts();
    f.statuses = Err(GitError { unborn_branch: false, message: "status failed".to_string() });
    f.upstream = Some(Some(oid(2)));
    f.ahead_behind = Some((1, 0));
    let o = evaluate(&config(), "r".to_string(), f).expect("a record");
    assert!(o.pending.is_none());
    assert_eq!(o.error.unwrap().message, "status failed");
}

#[test]
fn only_pending_drops_clean_repository() {
    let mut cfg = config();
    cfg.only_pending = true;
    assert!(evaluate(&cfg, "r".to_string(), clean_facts()).is_none());
}

#[test]
fn only_pending_keeps_repository_with_labels() {
    let mut cfg = config();
    cfg.only_pending = true;
    let mut f = clean_facts();
    f.statuses = Ok(vec![entry(None, Some(DeltaKind::Deleted))]);
    let o = evaluate(&cfg, "r".to_string(), f).expect("a record");
    assert_eq!(labels(&o), vec![PendingLabel::DeletedFiles]);
}

#[test]
fn only_pending_keeps_error_records() {
    let mut cfg = config();
    cfg.only_pending = true;
    let mut f = clean_facts();
    f.head = Err(unborn());
    assert!(evaluate(&cfg, "r".to_string(), f).unwrap().error.is_some());
}

#[test]
fn tagged_head_gives_no_untagged_label() {
    let mut cfg = config();
    cfg.untagged_heads = true;
    let mut f = clean_facts();
    f.tag_targets = Some(vec![Some(oid(7)), None, Some(oid(1))]);
    let o = evaluate(&cfg, "r".to_string(), f).expect("a record");
    assert!(o.pending.is_none());
}

#[test]
fn untagged_head_gives_untagged_label() {
    let mut cfg = config();
    cfg.untagged_heads = true;
    let mut f = clean_facts();
    f.head = Ok(Some(oid(9)));
    f.tag_targets = Some(vec![Some(oid(7)), None, Some(oid(1))]);
    let o = evaluate(&cfg, "r".to_string(), f).expect("a record");
    assert_eq!(labels(&o), vec![PendingLabel::UntaggedHead]);
}

#[test]
fn untagged_head_unchecked_when_off() {
    let mut f = clean_facts();
    f.tag_targets = Some(vec![]);
    let o = evaluate(&config(), "r".to_string(), f).expect("a record");
    assert!(o.pending.is_none());
}

fn remote_config() -> CrawlConfig {
    let mut cfg = config();
    cfg.access_remote = Some("ssh-key".to_string());
    cfg
}

fn head_ref(name: &str, b: u8) -> RemoteHead {
    RemoteHead { name: name.to_string(), oid: oid(b) }
}

fn tag(name: &str, b: u8) -> TagRef {
    TagRef { name: name.to_string(), oid: oid(b) }
}

#[test]
fn remote_failure_gives_error_record() {
    let mut f = clean_facts();
    f.statuses = Ok(vec![entry(None, Some(DeltaKind::Modified))]);
    f.remote = RemoteOutcome::Failed(GitError { unborn_branch: false, message: "auth".to_string() });
    let o = evaluate(&remote_config(), "r".to_string(), f).expect("a record");
    assert!(o.pending.is_none());
    assert_eq!(o.error.unwrap().message, "auth");
}

#[test]
fn remote_ignored_without_access() {
    let mut f = clean_facts();
    f.remote = RemoteOutcome::Failed(GitError { unborn_branch: false, message: "auth".to_string() });
    let o = evaluate(&config(), "r".to_string(), f).expect("a record");
    assert!(o.error.is_none());
}

#[test]
fn remote_in_sync_gives_nothing() {
    let mut f = clean_facts();
    f.remote = RemoteOutcome::Listed(RemoteListing {
        advertised: vec![head_ref("HEAD", 1), head_ref("refs/heads/main", 1), head_ref("refs/tags/v1", 3), head_ref("refs/tags/v1^{}", 1)],
        branch_targets: Some(vec![Some(oid(1))]),
        local_tags: vec![tag("refs/tags/v1", 3)],
    });
    let o = evaluate(&remote_config(), "r".to_string(), f).expect("a record");
    assert!(o.pending.is_none());
    assert!(o.error.is_none());
}

#[test]
fn remote_branch_unknown_locally_gives_unfetched() {
    let mut f = clean_facts();
    f.remote = RemoteOutcome::Listed(RemoteListing {
        advertised: vec![head_ref("refs/heads/main", 1), head_ref("refs/heads/topic", 4)],
        branch_targets: Some(vec![Some(oid(1)), None]),
        local_tags: vec![],
    });
    let o = evaluate(&remote_config(), "r".to_string(), f).expect("a record");
    assert_eq!(labels(&o), vec![PendingLabel::UnfetchedCommits]);
}

#[test]
fn remote_branch_held_by_local_branch_is_fetched() {
    let mut f = clean_facts();
    f.remote = RemoteOutcome::Listed(RemoteListing {
        advertised: vec![head_ref("refs/heads/topic", 4)],
        branch_targets: Some(vec![Some(oid(1)), Some(oid(4))]),
        local_tags: vec![],
    });
    let o = evaluate(&remote_config(), "r".to_string(), f).expect("a record");
    assert!(o.pending.is_none());
}

#[test]
fn unlisted_branches_count_as_unfetched() {
    let mut f = clean_facts();
    f.remote = RemoteOutcome::Listed(RemoteListing {
        advertised: vec![head_ref("refs/heads/topic", 4)],
        branch_targets: None,
        local_tags: vec![],
    });
    let o = evaluate(&remote_config(), "r".to_string(), f).expect("a record");
    assert_eq!(labels(&o), vec![PendingLabel::UnfetchedCommits]);
}

#[test]
fn tag_differences_give_tag_labels() {
    let mut f = clean_facts();
    f.remote = RemoteOutcome::Listed(RemoteListing {
        advertised: vec![head_ref("refs/tags/v1", 3), head_ref("refs/tags/v2", 5)],
        branch_targets: Some(vec![]),
        local_tags: vec![tag("refs/tags/v1", 3), tag("refs/tags/v3", 6)],
    });
    let o = evaluate(&remote_config(), "r".to_string(), f).expect("a record");
    assert_eq!(labels(&o), vec![PendingLabel::UnpushedTags, PendingLabel::UnpulledTags]);
}

#[test]
fn moved_tag_is_unpushed_and_unpulled() {
    let mut f = clean_facts();
    f.remote = RemoteOutcome::Listed(RemoteListing {
        advertised: vec![head_ref("refs/tags/v1", 3)],
        branch_targets: Some(vec![]),
        local_tags: vec![tag("refs/tags/v1", 4)],
    });
    let o = evaluate(&remote_config(), "r".to_string(), f).expect("a record");
    assert_eq!(labels(&o), vec![PendingLabel::UnpushedTags, PendingLabel::UnpulledTags]);
}

#[test]
fn peeled_tags_are_not_compared() {
    let mut f = clean_facts();
    f.remote = RemoteOutcome::Listed(RemoteListing {
        advertised: vec![head_ref("refs/tags/v1^{}", 3)],
        branch_targets: Some(vec![]),
        local_tags: vec![],
    });
    let o = evaluate(&remote_config(), "r".to_string(), f).expect("a record");
    assert!(o.pending.is_none());
}

#[test]
fn unavailable_remote_adds_nothing() {
    let mut f = clean_facts();
    f.statuses = Ok(vec![entry(Some(DeltaKind::Added), None)]);
    let o = evaluate(&remote_config(), "r".to_string(), f).expect("a record");
    assert_eq!(labels(&o), vec![PendingLabel::AddedFiles]);
}

#[test]
fn labels_keep_the_order_found() {
    let mut cfg = remote_config();
    cfg.untagged_heads = true;
    let mut f = clean_facts();
    f.statuses = Ok(vec![entry(None, Some(DeltaKind::Untracked)), entry(Some(DeltaKind::Added), None)]);
    f.tag_targets = Some(vec![]);
    f.upstream = Some(Some(oid(2)));
    f.ahead_behind = Some((0, 1));
    f.remote = RemoteOutcome::Listed(RemoteListing {
        advertised: vec![head_ref("refs/heads/x", 8)],
        branch_targets: Some(vec![]),
        local_tags: vec![tag("refs/tags/a", 1)],
    });
    let o = evaluate(&cfg, "r".to_string(), f).expect("a record");
    assert_eq!(
        labels(&o),
        vec![
            PendingLabel::UntrackedFiles,
            PendingLabel::AddedFiles,
            PendingLabel::UntaggedHead,
            PendingLabel::OutdatedBranch,
            PendingLabel::UnfetchedCommits,
            PendingLabel::UnpushedTags,
        ]
    );
    assert_eq!(
        o.pending.as_ref().unwrap().texts(),
        vec!["untracked files", "added files", "untagged HEAD", "outdated branch", "unfetched commits", "unpushed tags"]
    );
}
