use mrh::crawler::{credential_plan, render_relative, CredentialPlan, Crawler};
use mrh::label::PendingLabel;
use mrh::pending::PendingSet;

#[test]
fn root_itself_renders_as_dot() {
    let c = Crawler::new("/a/b");
    assert_eq!(c.make_relative("/a/b"), ".");
    assert_eq!(c.make_relative("/a/b/"), ".");
}

#[test]
fn paths_below_root_render_relative() {
    let c = Crawler::new("/a/b");
    assert_eq!(c.make_relative("/a/b/c/d"), "c/d");
    assert_eq!(c.make_relative("/x/y"), "/x/y");
}

#[test]
fn render_relative_cases() {
    assert_eq!(render_relative(Some(String::new()), "/a"), ".");
    assert_eq!(render_relative(Some("c".to_string()), "/a/c"), "c");
    assert_eq!(render_relative(None, "/q"), "/q");
}

#[test]
fn http_remotes_use_credential_helper() {
    assert_eq!(credential_plan("https://example.com/r.git", "ssh-key"), CredentialPlan::Helper);
    assert_eq!(credential_plan("http://example.com/r.git", ""), CredentialPlan::Helper);
}

#[test]
fn git_remotes_use_ssh_method() {
    assert_eq!(credential_plan("git@example.com:r.git", "ssh-key"), CredentialPlan::SshKey);
    assert_eq!(credential_plan("git@example.com:r.git", "ssh-agent"), CredentialPlan::SshAgent);
    assert_eq!(credential_plan("git@example.com:r.git", "ssh-keys"), CredentialPlan::Nothing);
    assert_eq!(credential_plan("ssh://example.com/r.git", "ssh-key"), CredentialPlan::SshKey);
    assert_eq!(credential_plan("ssh://example.com/r.git", "ssh-agent"), CredentialPlan::SshAgent);
    assert_eq!(credential_plan("file:///srv/r.git", "ssh-key"), CredentialPlan::Nothing);
}

#[test]
fn pending_set_keeps_first_insertion() {
    let mut s = PendingSet::new();
    assert!(s.is_empty());
    s.insert(PendingLabel::UnpulledTags);
    s.insert(PendingLabel::UncommittedChanges);
    s.insert(PendingLabel::UnpulledTags);
    assert_eq!(s.len(), 2);
    assert!(s.contains(PendingLabel::UncommittedChanges));
    assert!(!s.contains(PendingLabel::AddedFiles));
    assert_eq!(s.labels(), vec![PendingLabel::UnpulledTags, PendingLabel::UncommittedChanges]);
    assert_eq!(s.texts(), vec!["unpulled tags", "uncommitted changes"]);
}

#[test]
fn label_codes_round_trip() {
    let all = [
        PendingLabel::UncommittedChanges,
        PendingLabel::UnpushedCommits,
        PendingLabel::OutdatedBranch,
        PendingLabel::AddedFiles,
        PendingLabel::DeletedFiles,
        PendingLabel::RenamedFiles,
        PendingLabel::UntrackedFiles,
        PendingLabel::UntaggedHead,
        PendingLabel::UnpushedTags,
        PendingLabel::UnpulledTags,
        PendingLabel::UnfetchedCommits,
    ];
    for l in all {
        assert_eq!(PendingLabel::from_code(l.code()), l);
    }
}

use mrh::crawler::{
    accepts, entry_action, first_existing, key_candidates, remote_sync_outcome, status_request, step_for,
    tag_ref_name, EntryAction, Opened, Step,
};
use mrh::facts::{GitError, RemoteListing, RemoteOutcome, StatusRequest};

#[test]
fn key_files_are_looked_for_under_ssh_directory() {
    assert_eq!(
        key_candidates("/home/u"),
        vec!["/home/u/.ssh/id_rsa".to_string(), "/home/u/.ssh/id_dsa".to_string()]
    );
}

#[test]
fn first_existing_key_file_wins() {
    let c = vec!["a".to_string(), "b".to_string()];
    assert_eq!(first_existing(c.clone(), &vec![true, true]), Some("a".to_string()));
    assert_eq!(first_existing(c.clone(), &vec![false, true]), Some("b".to_string()));
    assert_eq!(first_existing(c.clone(), &vec![false, false]), None);
    assert_eq!(first_existing(c, &vec![false]), None);
}

#[test]
fn walk_entries_are_classified() {
    assert_eq!(entry_action(false, true, "x"), EntryAction::Skip);
    assert_eq!(entry_action(true, false, "x"), EntryAction::Skip);
    assert_eq!(entry_action(true, false, ".git"), EntryAction::Skip);
    assert_eq!(entry_action(true, true, ".git"), EntryAction::Prune);
    assert_eq!(entry_action(true, true, ".gitx"), EntryAction::Open);
    assert_eq!(entry_action(true, true, "src"), EntryAction::Open);
}

#[test]
fn locator_accepts_only_rediscovered_repositories() {
    let wd = Some("/r/".to_string());
    assert!(accepts(&wd, &Some("/r/.git/".to_string()), "/r/.git/"));
    assert!(!accepts(&wd, &Some("/q/.git/".to_string()), "/r/.git/"));
    assert!(!accepts(&wd, &None, "/r/.git/"));
    assert!(!accepts(&None, &Some("/r/.git/".to_string()), "/r/.git/"));
}

#[test]
fn status_options_are_fixed() {
    assert_eq!(
        status_request(),
        StatusRequest {
            include_ignored: false,
            include_untracked: true,
            renames_head_to_index: true,
            renames_index_to_workdir: true,
        }
    );
}

fn err(m: &str) -> GitError {
    GitError { unborn_branch: false, message: m.to_string() }
}

fn listing() -> RemoteListing {
    RemoteListing { advertised: vec![], branch_targets: None, local_tags: vec![] }
}

#[test]
fn remote_results_map_to_outcomes() {
    assert!(matches!(remote_sync_outcome(false, Some(err("c")), true, Err(err("x"))), RemoteOutcome::Unavailable));
    match remote_sync_outcome(true, Some(err("c")), true, Ok(Some(listing()))) {
        RemoteOutcome::Failed(e) => assert_eq!(e.message, "c"),
        _ => panic!("expected the configuration error"),
    }
    assert!(matches!(remote_sync_outcome(true, None, false, Err(err("x"))), RemoteOutcome::Unavailable));
    match remote_sync_outcome(true, None, true, Err(err("x"))) {
        RemoteOutcome::Failed(e) => assert_eq!(e.message, "x"),
        _ => panic!("expected the connection error"),
    }
    assert!(matches!(remote_sync_outcome(true, None, true, Ok(None)), RemoteOutcome::Unavailable));
    assert!(matches!(remote_sync_outcome(true, None, true, Ok(Some(listing()))), RemoteOutcome::Listed(_)));
}

#[test]
fn steps_follow_entry_actions() {
    assert!(matches!(step_for(None, None), Step::Finished));
    assert!(matches!(step_for(Some(EntryAction::Skip), None), Step::Skipped));
    assert!(matches!(step_for(Some(EntryAction::Prune), None), Step::Skipped));
    assert!(matches!(step_for(Some(EntryAction::Open), None), Step::Skipped));
    assert!(matches!(step_for(Some(EntryAction::Open), Some(Opened::Record(None))), Step::Skipped));
    let o = mrh::classify::Output { path: "r".to_string(), pending: None, error: None };
    match step_for(Some(EntryAction::Open), Some(Opened::Record(Some(o)))) {
        Step::Found(o) => assert_eq!(o.path, "r"),
        _ => panic!("expected a record"),
    }
}

#[test]
fn tag_reference_names_are_full() {
    assert_eq!(tag_ref_name("v1.0"), "refs/tags/v1.0");
}
