//! The crawl: walks a directory tree, opens each repository found, reads the
//! facts the classification needs and hands them to it.
use vstd::prelude::*;
use vstd::string::StrSliceExecFns;
use crate::classify::{evaluate, outcome, reports, CrawlConfig, Output};
use crate::facts::{GitError, ObjectId, RemoteHead, RemoteListing, RemoteOutcome, RepoFacts, StatusEntry, StatusRequest, TagRef};
use crate::git::{
    branch_targets, delta_kind, discover_git_dir, git_dir, entry_is_dir, entry_name, find_reference, find_remote,
    git_error, graph_ahead_behind, head, home_dir, join_path, next_entry, object_id, open_default_config,
    open_repository, path_exists, reference_target, remote_url, skip_current_dir, statuses, strip_root, tag_names,
    upstream, walk, workdir, joined, kind_of, stripped_of,
};
use crate::text::{concat, has_prefix, starts_with};

verus! {

/// The user name that common hosting services expect over SSH.
pub const SSH_USER: &'static str = "git";

/// How the remote is authenticated with.
#[derive(Clone, Copy, Debug, PartialEq, Eq, Structural)]
pub enum CredentialPlan {
    /// Ask the host's configured credential helper.
    Helper,
    /// Offer a private key file from the user's SSH directory.
    SshKey,
    /// Ask a running SSH agent.
    SshAgent,
    /// Install no credential callback.
    Nothing,
}

/// HTTP(S) remotes always use the credential helper; SSH-style remotes
/// ("git@host:...", "git://...", "ssh://...") use the configured SSH method;
/// anything else gets no credentials.
pub open spec fn plan_for(url: Seq<char>, method: Seq<char>) -> CredentialPlan {
    if has_prefix(url, "http"@) {
        CredentialPlan::Helper
    } else if has_prefix(url, "git"@) || has_prefix(url, "ssh://"@) {
        if method == "ssh-key"@ {
            CredentialPlan::SshKey
        } else if method == "ssh-agent"@ {
            CredentialPlan::SshAgent
        } else {
            CredentialPlan::Nothing
        }
    } else {
        CredentialPlan::Nothing
    }
}

fn same_text(a: &str, b: &str) -> (r: bool)
    ensures
        r == (a@ == b@),
{
    proof {
        assert(a@.subrange(0, a@.len() as int) =~= a@);
    }
    starts_with(a, b) && a.unicode_len() == b.unicode_len()
}

/// Chooses how to authenticate with the remote at `url`, given the
/// configured SSH method.
pub fn credential_plan(url: &str, method: &str) -> (r: CredentialPlan)
    ensures
        r == plan_for(url@, method@),
{
    if starts_with(url, "http") {
        CredentialPlan::Helper
    } else if starts_with(url, "git") || starts_with(url, "ssh://") {
        if same_text(method, "ssh-key") {
            CredentialPlan::SshKey
        } else if same_text(method, "ssh-agent") {
            CredentialPlan::SshAgent
        } else {
            CredentialPlan::Nothing
        }
    } else {
        CredentialPlan::Nothing
    }
}

/// How a path is shown relative to the crawl's root, given what remains of
/// it below the root (`None` when it is not below the root).
pub open spec fn relative_text(stripped: Option<Seq<char>>, target: Seq<char>) -> Seq<char> {
    match stripped {
        Some(s) => if s.len() == 0 { "."@ } else { s },
        None => target,
    }
}

/// Renders a path from what remains of it below the root: "." for nothing,
/// the path itself when it is not below the root.
pub fn render_relative(stripped: Option<String>, target: &str) -> (r: String)
    ensures
        r@ == relative_text(
            match stripped {
                Some(s) => Some(s@),
                None => None,
            },
            target@,
        ),
{
    match stripped {
        Some(s) => if s.unicode_len() == 0 {
            ".".to_owned()
        } else {
            s
        },
        None => target.to_owned(),
    }
}

/// A repository whose classification waits for the remote's reference
/// list: the caller connects to the remote named "origin" as the request
/// says, lists what it advertises, and hands the result to
/// [`Crawler::finish_remote`].
pub struct RemoteRequest {
    repo: git2::Repository,
    config: git2::Config,
    url: String,
    plan: CredentialPlan,
    key: Option<String>,
    path: String,
    facts: RepoFacts,
}

impl RemoteRequest {
    /// The record's path.
    pub closed spec fn path(&self) -> Seq<char> {
        self.path@
    }

    /// What was read from the repository before the remote step.
    pub closed spec fn facts(&self) -> RepoFacts {
        self.facts
    }

    /// How to authenticate.
    pub closed spec fn plan_view(&self) -> CredentialPlan {
        self.plan
    }

    /// The remote's URL.
    pub closed spec fn url_view(&self) -> Seq<char> {
        self.url@
    }

    /// The repository being classified.
    pub fn repository(&self) -> &git2::Repository {
        &self.repo
    }

    /// The user's configuration, for the credential helper.
    pub fn config(&self) -> &git2::Config {
        &self.config
    }

    /// The remote's URL.
    pub fn url(&self) -> (r: &str)
        ensures
            r@ == self.url_view(),
    {
        self.url.as_str()
    }

    /// How to authenticate with the remote.
    pub fn plan(&self) -> (r: CredentialPlan)
        ensures
            r == self.plan_view(),
    {
        self.plan
    }

    /// The private key file to offer.
    pub closed spec fn key_view(&self) -> Option<Seq<char>> {
        match self.key {
            Some(k) => Some(k@),
            None => None,
        }
    }

    /// The private key file to offer, when the plan is to use one and one exists.
    pub fn key(&self) -> (r: Option<&str>)
        ensures
            self.key_view() == (match r {
                Some(k) => Some(k@),
                None => None,
            }),
    {
        match &self.key {
            Some(k) => Some(k.as_str()),
            None => None,
        }
    }
}

/// What one step of the crawl found.
pub enum Step {
    /// The walk is over.
    Finished,
    /// The entry looked at gave no record.
    Skipped,
    /// The entry looked at is a repository, and this is its record.
    Found(Output),
    /// The entry looked at is a repository whose record needs the remote.
    NeedsRemote(RemoteRequest),
}

/// What opening a candidate directory gave.
pub enum Opened {
    /// A record, or none.
    Record(Option<Output>),
    /// A repository waiting for the remote.
    Remote(RemoteRequest),
}

/// The step the crawl takes for a walk entry: the end of the walk when there
/// is no entry, a skip for entries that are not opened, otherwise what
/// opening gave (a skip when it was not a repository or gave no record).
pub open spec fn step_spec(action: Option<EntryAction>, opened: Option<Opened>) -> Step {
    match action {
        None => Step::Finished,
        Some(EntryAction::Open) => match opened {
            None => Step::Skipped,
            Some(Opened::Record(None)) => Step::Skipped,
            Some(Opened::Record(Some(o))) => Step::Found(o),
            Some(Opened::Remote(q)) => Step::NeedsRemote(q),
        },
        Some(_) => Step::Skipped,
    }
}

/// The step for a walk entry's action and what opening it gave.
pub fn step_for(action: Option<EntryAction>, opened: Option<Opened>) -> (r: Step)
    ensures
        r == step_spec(action, opened),
        action is None <==> r is Finished,
        (action matches Some(a) && a != EntryAction::Open) ==> r is Skipped,
{
    match action {
        None => Step::Finished,
        Some(EntryAction::Open) => match opened {
            None => Step::Skipped,
            Some(Opened::Record(None)) => Step::Skipped,
            Some(Opened::Record(Some(o))) => Step::Found(o),
            Some(Opened::Remote(q)) => Step::NeedsRemote(q),
        },
        Some(_) => Step::Skipped,
    }
}

/// What the remote step still needs after the checks that need no network.
pub enum RemotePlan {
    /// The remote is not compared.
    Skip,
    /// The outcome is settled without connecting.
    Decided(RemoteOutcome),
    /// Connect with these credentials to the remote at this URL.
    Connect(git2::Config, String, CredentialPlan, Option<String>),
}

/// The remote step's outcome once the caller has connected: the
/// connection's error, no listing (`Ok(None)`), or the advertised references,
/// compared with the local branches and tags.
pub open spec fn connection_outcome(
    conn: Result<Option<Vec<RemoteHead>>, GitError>,
    branches: Option<Vec<Option<ObjectId>>>,
    tags: Vec<TagRef>,
) -> Result<Option<RemoteListing>, GitError> {
    match conn {
        Err(e) => Err(e),
        Ok(None) => Ok(None),
        Ok(Some(h)) => Ok(Some(RemoteListing { advertised: h, branch_targets: branches, local_tags: tags })),
    }
}

/// The facts `f` with the remote step's outcome `o`.
pub open spec fn with_remote(f: RepoFacts, o: RemoteOutcome) -> RepoFacts {
    RepoFacts { remote: o, ..f }
}

/// The name of the reference of tag `name`.
pub open spec fn tag_reference(name: Seq<char>) -> Seq<char> {
    "refs/tags/"@ + name
}

/// `s` names a tag's reference.
pub open spec fn is_tag_reference(s: Seq<char>) -> bool {
    exists|n: Seq<char>| #[trigger] tag_reference(n) == s
}

/// The full reference name of a tag.
pub fn tag_ref_name(name: &str) -> (r: String)
    ensures
        r@ == tag_reference(name@),
{
    concat("refs/tags/", name)
}

/// Crawls a directory tree for repositories and reports their pending actions.
pub struct Crawler {
    config: CrawlConfig,
    root_path: String,
    iter: walkdir::IntoIter,
}

/// The facts of a repository whose inspection stopped at HEAD.
fn head_only(head: Result<Option<ObjectId>, GitError>) -> (r: RepoFacts)
    ensures
        r.head == head,
{
    RepoFacts {
        head,
        statuses: Ok(Vec::new()),
        tag_targets: None,
        upstream: None,
        ahead_behind: None,
        remote: RemoteOutcome::Unavailable,
    }
}

/// The library's counterpart of one status entry's two change kinds.
pub open spec fn entry_of(raw: (Option<git2::Delta>, Option<git2::Delta>)) -> StatusEntry {
    StatusEntry {
        head_to_index: match raw.0 {
            Some(d) => Some(kind_of(d)),
            None => None,
        },
        index_to_workdir: match raw.1 {
            Some(d) => Some(kind_of(d)),
            None => None,
        },
    }
}

fn status_entries(raw: Vec<(Option<git2::Delta>, Option<git2::Delta>)>) -> (r: Vec<StatusEntry>)
    ensures
        r@.len() == raw@.len(),
        forall|i: int| 0 <= i < raw@.len() ==> #[trigger] r@[i] == entry_of(raw@[i]),
{
    let mut out: Vec<StatusEntry> = Vec::new();
    let mut i: usize = 0;
    while i < raw.len()
        invariant
            i <= raw.len(),
            out@.len() == i,
            forall|j: int| 0 <= j < i ==> #[trigger] out@[j] == entry_of(raw@[j]),
        decreases raw.len() - i,
    {
        let (hi, iw) = raw[i];
        let head_to_index = match hi {
            Some(d) => Some(delta_kind(d)),
            None => None,
        };
        let index_to_workdir = match iw {
            Some(d) => Some(delta_kind(d)),
            None => None,
        };
        out.push(StatusEntry { head_to_index, index_to_workdir });
        i = i + 1;
    }
    out
}

fn object_ids(raw: Vec<Option<git2::Oid>>) -> (r: Vec<Option<ObjectId>>)
    ensures
        r@.len() == raw@.len(),
        forall|i: int| 0 <= i < raw@.len() ==> (#[trigger] r@[i] is Some <==> raw@[i] is Some),
{
    let mut out: Vec<Option<ObjectId>> = Vec::new();
    let mut i: usize = 0;
    while i < raw.len()
        invariant
            i <= raw.len(),
            out@.len() == i,
            forall|j: int| 0 <= j < i ==> (#[trigger] out@[j] is Some <==> raw@[j] is Some),
        decreases raw.len() - i,
    {
        let o = match raw[i] {
            Some(o) => Some(object_id(o)),
            None => None,
        };
        out.push(o);
        i = i + 1;
    }
    out
}

/// The private key files looked for, in order, under `home`.
pub open spec fn key_paths(home: Seq<char>) -> Seq<Seq<char>> {
    seq![joined(joined(home, ".ssh"@), "id_rsa"@), joined(joined(home, ".ssh"@), "id_dsa"@)]
}

/// The conventional private key files under the SSH directory of `home`,
/// in the order they are tried.
pub fn key_candidates(home: &str) -> (r: Vec<String>)
    ensures
        r@.len() == 2,
        r@[0]@ == key_paths(home@)[0],
        r@[1]@ == key_paths(home@)[1],
{
    let dir = join_path(home, ".ssh");
    let mut out: Vec<String> = Vec::new();
    out.push(join_path(dir.as_str(), "id_rsa"));
    out.push(join_path(dir.as_str(), "id_dsa"));
    out
}

/// The first of `candidates` from position `i` on that `present` marks;
/// a position `present` does not reach counts as unmarked.
pub open spec fn first_from(candidates: Seq<Seq<char>>, present: Seq<bool>, i: int) -> Option<Seq<char>>
    decreases candidates.len() - i,
{
    if i < 0 || i >= candidates.len() {
        None
    } else if i < present.len() && present[i] {
        Some(candidates[i])
    } else {
        first_from(candidates, present, i + 1)
    }
}

/// The text views of a list of strings.
pub open spec fn texts_of(v: Seq<String>) -> Seq<Seq<char>> {
    v.map_values(|s: String| s@)
}

/// The first candidate that `present` marks, if any.
pub fn first_existing(candidates: Vec<String>, present: &Vec<bool>) -> (r: Option<String>)
    ensures
        (match r {
            Some(s) => Some(s@),
            None => None,
        }) == first_from(texts_of(candidates@), present@, 0),
{
    let ghost c = texts_of(candidates@);
    let mut i: usize = 0;
    while i < candidates.len()
        invariant
            i <= candidates.len(),
            c == texts_of(candidates@),
            first_from(c, present@, 0) == first_from(c, present@, i as int),
        decreases candidates.len() - i,
    {
        if i < present.len() && present[i] {
            return Some(candidates[i].clone());
        }
        i = i + 1;
    }
    None
}

/// The first conventional private key file that exists under the user's SSH
/// directory.
fn ssh_key_file() -> (r: Option<String>)
    ensures
        r matches Some(k) ==> exists|home: Seq<char>| #[trigger] key_paths(home).contains(k@),
{
    let home = match home_dir() {
        Some(h) => h,
        None => {
            return None;
        }
    };
    let candidates = key_candidates(home.as_str());
    let mut present: Vec<bool> = Vec::new();
    let mut i: usize = 0;
    while i < candidates.len()
        invariant
            i <= candidates.len(),
            present@.len() == i,
        decreases candidates.len() - i,
    {
        present.push(path_exists(candidates[i].as_str()));
        i = i + 1;
    }
    let ghost c = texts_of(candidates@);
    let ghost kp = key_paths(home@);
    assert(c =~= kp);
    let r = first_existing(candidates, &present);
    proof {
        let ghost q = first_from(c, present@, 0);
        reveal_with_fuel(first_from, 3);
        if q is Some {
            assert(q == Some(kp[0]) || q == Some(kp[1]));
            assert(kp.contains(q->0));
        }
    }
    r
}

/// What a walk entry calls for.
#[derive(Clone, Copy, Debug, PartialEq, Eq, Structural)]
pub enum EntryAction {
    /// Look at the next entry.
    Skip,
    /// Do not descend into it, and look at the next entry.
    Prune,
    /// Try to open it as a repository.
    Open,
}

/// Entries that cannot be read and files are skipped, metadata directories
/// are pruned, every other directory is a candidate.
pub open spec fn action_for(read: bool, is_dir: bool, name: Seq<char>) -> EntryAction {
    if !read || !is_dir {
        EntryAction::Skip
    } else if name == ".git"@ {
        EntryAction::Prune
    } else {
        EntryAction::Open
    }
}

/// Decides what to do with a walk entry from whether it could be read,
/// whether it is a directory and its name.
pub fn entry_action(read: bool, is_dir: bool, name: &str) -> (r: EntryAction)
    ensures
        r == action_for(read, is_dir, name@),
{
    if !read || !is_dir {
        EntryAction::Skip
    } else if same_text(name, ".git") {
        EntryAction::Prune
    } else {
        EntryAction::Open
    }
}

/// A repository is a candidate when it has a working directory and
/// discovery from there finds the repository's own metadata directory.
pub open spec fn accepted(workdir: Option<Seq<char>>, found: Option<Seq<char>>, git_dir: Seq<char>) -> bool {
    workdir is Some && found == Some(git_dir)
}

/// Whether an opened repository is a candidate, from its working directory,
/// the metadata directory discovery found from there, and its own.
pub fn accepts(workdir: &Option<String>, found: &Option<String>, git_dir: &str) -> (r: bool)
    ensures
        r == accepted(
            match workdir {
                Some(w) => Some(w@),
                None => None,
            },
            match found {
                Some(f) => Some(f@),
                None => None,
            },
            git_dir@,
        ),
{
    match (workdir, found) {
        (Some(_), Some(f)) => same_text(f.as_str(), git_dir),
        _ => false,
    }
}

/// The options the working-tree status is computed with: ignored files left
/// out, untracked ones in, renames detected both ways.
pub fn status_request() -> (r: StatusRequest)
    ensures
        r == (StatusRequest {
            include_ignored: false,
            include_untracked: true,
            renames_head_to_index: true,
            renames_index_to_workdir: true,
        }),
{
    StatusRequest { include_ignored: false, include_untracked: true, renames_head_to_index: true, renames_index_to_workdir: true }
}

/// What the remote comparison gives, from what was learnt in order: whether
/// "origin" exists, the error opening the configuration, whether the remote
/// has a URL, and the connection's outcome (`Ok(None)` when no listing came).
pub open spec fn sync_outcome(
    has_origin: bool,
    config_error: Option<GitError>,
    has_url: bool,
    connection: Result<Option<RemoteListing>, GitError>,
) -> RemoteOutcome {
    if !has_origin {
        RemoteOutcome::Unavailable
    } else {
        match config_error {
            Some(e) => RemoteOutcome::Failed(e),
            None => if !has_url {
                RemoteOutcome::Unavailable
            } else {
                match connection {
                    Err(e) => RemoteOutcome::Failed(e),
                    Ok(None) => RemoteOutcome::Unavailable,
                    Ok(Some(l)) => RemoteOutcome::Listed(l),
                }
            },
        }
    }
}

/// The remote comparison's outcome from what was learnt along the way.
pub fn remote_sync_outcome(
    has_origin: bool,
    config_error: Option<GitError>,
    has_url: bool,
    connection: Result<Option<RemoteListing>, GitError>,
) -> (r: RemoteOutcome)
    ensures
        r == sync_outcome(has_origin, config_error, has_url, connection),
{
    if !has_origin {
        return RemoteOutcome::Unavailable;
    }
    match config_error {
        Some(e) => RemoteOutcome::Failed(e),
        None => if !has_url {
            RemoteOutcome::Unavailable
        } else {
            match connection {
                Err(e) => RemoteOutcome::Failed(e),
                Ok(None) => RemoteOutcome::Unavailable,
                Ok(Some(l)) => RemoteOutcome::Listed(l),
            }
        },
    }
}

/// How a repository's working directory `wd` is shown.
pub open spec fn rendered(absolute_paths: bool, root: Seq<char>, wd: Seq<char>) -> Seq<char> {
    if absolute_paths {
        wd
    } else {
        relative_text(stripped_of(wd, root), wd)
    }
}

impl Crawler {
    /// The crawl's options.
    pub closed spec fn config(&self) -> CrawlConfig {
        self.config
    }

    /// Where the crawl starts.
    pub closed spec fn root(&self) -> Seq<char> {
        self.root_path@
    }

    /// The walk in progress.
    pub closed spec fn walk(&self) -> walkdir::IntoIter {
        self.iter
    }

    /// A crawl from `root`, with every option off.
    pub fn new(root: &str) -> (r: Crawler)
        ensures
            r.root() == root@,
            r.config() == (CrawlConfig {
                only_pending: false,
                ignore_untracked: false,
                ignore_uncommitted_repos: false,
                absolute_paths: false,
                untagged_heads: false,
                access_remote: None,
            }),
    {
        Crawler {
            config: CrawlConfig {
                only_pending: false,
                ignore_untracked: false,
                ignore_uncommitted_repos: false,
                absolute_paths: false,
                untagged_heads: false,
                access_remote: None,
            },
            root_path: root.to_owned(),
            iter: walk(root),
        }
    }

    /// Reports only repositories with pending actions, or not.
    pub fn pending(self, answer: bool) -> (r: Crawler)
        ensures
            r.root() == self.root(),
            r.walk() == self.walk(),
            r.config() == (CrawlConfig { only_pending: answer, ..self.config() }),
    {
        let mut c = self;
        c.config.only_pending = answer;
        c
    }

    /// Leaves out the "untracked files" label, or not.
    pub fn ignore_untracked(self, answer: bool) -> (r: Crawler)
        ensures
            r.root() == self.root(),
            r.walk() == self.walk(),
            r.config() == (CrawlConfig { ignore_untracked: answer, ..self.config() }),
    {
        let mut c = self;
        c.config.ignore_untracked = answer;
        c
    }

    /// Reports nothing for repositories without commits, or not.
    pub fn ignore_uncommitted_repos(self, answer: bool) -> (r: Crawler)
        ensures
            r.root() == self.root(),
            r.walk() == self.walk(),
            r.config() == (CrawlConfig { ignore_uncommitted_repos: answer, ..self.config() }),
    {
        let mut c = self;
        c.config.ignore_uncommitted_repos = answer;
        c
    }

    /// Shows full paths rather than paths relative to the root, or not.
    pub fn absolute_paths(self, answer: bool) -> (r: Crawler)
        ensures
            r.root() == self.root(),
            r.walk() == self.walk(),
            r.config() == (CrawlConfig { absolute_paths: answer, ..self.config() }),
    {
        let mut c = self;
        c.config.absolute_paths = answer;
        c
    }

    /// Checks whether HEAD is tagged, or not.
    pub fn untagged_heads(self, answer: bool) -> (r: Crawler)
        ensures
            r.root() == self.root(),
            r.walk() == self.walk(),
            r.config() == (CrawlConfig { untagged_heads: answer, ..self.config() }),
    {
        let mut c = self;
        c.config.untagged_heads = answer;
        c
    }

    /// Compares with the remote, authenticating SSH remotes with the given
    /// method ("ssh-key" or "ssh-agent"); `None` leaves the remote alone.
    pub fn access_remote(self, ssh_auth_method: Option<String>) -> (r: Crawler)
        ensures
            r.root() == self.root(),
            r.walk() == self.walk(),
            r.config() == (CrawlConfig { access_remote: ssh_auth_method, ..self.config() }),
    {
        let mut c = self;
        c.config.access_remote = ssh_auth_method;
        c
    }

    /// `target` relative to the crawl's root; "." for the root itself.
    pub fn make_relative(&self, target: &str) -> (r: String)
        ensures
            r@ == relative_text(stripped_of(target@, self.root()), target@),
            target@ == self.root() ==> r@ == "."@,
            self.root().len() > 0 && target@ == self.root().push('/') ==> r@ == "."@,
    {
        let stripped = strip_root(target, self.root_path.as_str());
        render_relative(stripped, target)
    }
}

impl Crawler {
    /// The targets of the tag references, read until one is HEAD's target;
    /// `None` when tag names cannot be listed.
    fn tag_targets(repo: &git2::Repository, h: &ObjectId) -> Option<Vec<Option<ObjectId>>> {
        let names = match tag_names(repo) {
            Ok(names) => names,
            Err(_) => {
                return None;
            }
        };
        let mut out: Vec<Option<ObjectId>> = Vec::new();
        let mut i: usize = 0;
        while i < names.len()
            invariant
                i <= names.len(),
            decreases names.len() - i,
        {
            match &names[i] {
                Some(name) => {
                    let full = tag_ref_name(name.as_str());
                    match find_reference(repo, full.as_str()) {
                        Ok(r) => {
                            let t = match reference_target(&r) {
                                Some(o) => Some(object_id(o)),
                                None => None,
                            };
                            let hit = match &t {
                                Some(t) => t.same(h),
                                None => false,
                            };
                            out.push(t);
                            if hit {
                                return Some(out);
                            }
                        }
                        Err(_) => {}
                    }
                }
                None => {}
            }
            i = i + 1;
        }
        Some(out)
    }

    /// The local tags that resolve to an object, by full reference name.
    fn local_tags(repo: &git2::Repository) -> (r: Vec<TagRef>)
        ensures
            forall|i: int| 0 <= i < r@.len() ==> is_tag_reference(#[trigger] r@[i].name@),
    {
        let mut out: Vec<TagRef> = Vec::new();
        let names = match tag_names(repo) {
            Ok(names) => names,
            Err(_) => {
                return out;
            }
        };
        let mut i: usize = 0;
        while i < names.len()
            invariant
                i <= names.len(),
                forall|j: int| 0 <= j < out@.len() ==> is_tag_reference(#[trigger] out@[j].name@),
            decreases names.len() - i,
        {
            match &names[i] {
                Some(name) => {
                    let full = tag_ref_name(name.as_str());
                    match find_reference(repo, full.as_str()) {
                        Ok(r) => match reference_target(&r) {
                            Some(o) => {
                                let ghost n = name@;
                                out.push(TagRef { name: full, oid: object_id(o) });
                                assert(tag_reference(n) == out@[out@.len() - 1].name@);
                            }
                            None => {}
                        },
                        Err(_) => {}
                    }
                }
                None => {}
            }
            i = i + 1;
        }
        out
    }

    /// Settles what needs no network: whether "origin" exists, whether the
    /// user's configuration opens, whether the remote has a URL; otherwise
    /// says how to connect.
    fn prepare_remote(repo: &git2::Repository, method: &str) -> (r: RemotePlan)
        ensures
            !(r is Skip),
            r matches RemotePlan::Decided(o) ==> exists|h: bool, c: Option<GitError>, u: bool|
                o == #[trigger] sync_outcome(h, c, u, Ok(None)) && !(h && c is None && u),
            r matches RemotePlan::Connect(_, url, plan, key) ==> plan == plan_for(url@, method@) && (key is Some
                ==> plan == CredentialPlan::SshKey),
    {
        let (has_origin, url) = match find_remote(repo, "origin") {
            Ok(remote) => (true, remote_url(&remote)),
            Err(_) => (false, None),
        };
        if !has_origin {
            let o = remote_sync_outcome(false, None, false, Ok(None));
            return RemotePlan::Decided(o);
        }
        let config = match open_default_config() {
            Ok(c) => c,
            Err(e) => {
                let o = remote_sync_outcome(true, Some(git_error(&e)), false, Ok(None));
                return RemotePlan::Decided(o);
            }
        };
        let url = match url {
            Some(u) => u,
            None => {
                let o = remote_sync_outcome(true, None, false, Ok(None));
                return RemotePlan::Decided(o);
            }
        };
        let plan = credential_plan(url.as_str(), method);
        let key = match plan {
            CredentialPlan::SshKey => ssh_key_file(),
            _ => None,
        };
        RemotePlan::Connect(config, url, plan, key)
    }

    /// Reads what the classification needs from a repository, stopping where
    /// the classification would; the remote step is only prepared.
    fn inspect(&self, repo: &git2::Repository) -> (r: (RepoFacts, RemotePlan))
        ensures
            self.config.access_remote is None ==> r.1 is Skip,
            r.1 matches RemotePlan::Connect(_, url, plan, _) ==> self.config.access_remote matches Some(m) && plan
                == plan_for(url@, m@),
    {
        let head_ref = match head(repo) {
            Ok(r) => r,
            Err(e) => {
                return (head_only(Err(git_error(&e))), RemotePlan::Skip);
            }
        };
        let h = match reference_target(&head_ref) {
            Some(o) => object_id(o),
            None => {
                return (head_only(Ok(None)), RemotePlan::Skip);
            }
        };
        let entries = match statuses(repo, &status_request()) {
            Ok(raw) => status_entries(raw),
            Err(e) => {
                let mut f = head_only(Ok(Some(h)));
                f.statuses = Err(git_error(&e));
                return (f, RemotePlan::Skip);
            }
        };
        let tag_targets = if self.config.untagged_heads {
            Self::tag_targets(repo, &h)
        } else {
            None
        };
        let (up, ahead_behind) = match upstream(head_ref) {
            Err(_) => (None, None),
            Ok(u) => match reference_target(&u) {
                None => (Some(None), None),
                Some(o) => {
                    let u = object_id(o);
                    let ab = if !u.same(&h) {
                        match graph_ahead_behind(repo, &h, &u) {
                            Ok(ab) => Some(ab),
                            Err(_) => None,
                        }
                    } else {
                        None
                    };
                    (Some(Some(u)), ab)
                }
            },
        };
        let stop = up matches Some(None);
        let plan = match &self.config.access_remote {
            Some(m) => if stop {
                RemotePlan::Skip
            } else {
                Self::prepare_remote(repo, m.as_str())
            },
            None => RemotePlan::Skip,
        };
        let facts = RepoFacts {
            head: Ok(Some(h)),
            statuses: Ok(entries),
            tag_targets,
            upstream: up,
            ahead_behind,
            remote: RemoteOutcome::Unavailable,
        };
        (facts, plan)
    }

    /// What an opened repository gives: its record, if the crawl reports one,
    /// or a request for the remote's listing. Bare repositories, and those
    /// that discovery from their working directory does not lead back to,
    /// give no record.
    fn repo_ops(&self, repo: git2::Repository) -> (r: Opened)
        ensures
            r matches Opened::Record(Some(o)) ==> o.wf() && exists|f: RepoFacts| outcome(self.config, o.path@, f) == Some(o@),
            r matches Opened::Record(Some(o)) ==> exists|wd: Seq<char>| o.path@ == #[trigger] rendered(self.config().absolute_paths, self.root(), wd),
            r matches Opened::Remote(q) ==> exists|wd: Seq<char>| q.path() == #[trigger] rendered(self.config().absolute_paths, self.root(), wd),
    {
        let wd = workdir(&repo);
        let found = match &wd {
            Some(p) => discover_git_dir(p.as_str()),
            None => None,
        };
        let own = git_dir(&repo);
        if !accepts(&wd, &found, own.as_str()) {
            return Opened::Record(None);
        }
        let wd = match wd {
            Some(p) => p,
            None => {
                return Opened::Record(None);
            }
        };
        let ghost w = wd@;
        let path = if self.config.absolute_paths {
            wd
        } else {
            self.make_relative(wd.as_str())
        };
        assert(path@ == rendered(self.config().absolute_paths, self.root(), w));
        let ghost p = path@;
        let (mut facts, plan) = self.inspect(&repo);
        match plan {
            RemotePlan::Connect(config, url, plan, key) => {
                let q = RemoteRequest { repo, config, url, plan, key, path, facts };
                assert(q.path() == rendered(self.config().absolute_paths, self.root(), w));
                Opened::Remote(q)
            }
            RemotePlan::Decided(o) => {
                facts.remote = o;
                let ghost f = facts;
                let r = evaluate(&self.config, path, facts);
                assert(reports(r, outcome(self.config, p, f)));
                Opened::Record(r)
            }
            RemotePlan::Skip => {
                let ghost f = facts;
                let r = evaluate(&self.config, path, facts);
                assert(reports(r, outcome(self.config, p, f)));
                Opened::Record(r)
            }
        }
    }

    /// Completes a repository that waited for the remote, given what the
    /// connection gave: its error, no listing (`Ok(None)`), or the advertised
    /// references. A connection error gives an error record.
    pub fn finish_remote(&self, req: RemoteRequest, conn: Result<Option<Vec<RemoteHead>>, GitError>) -> (r: Option<Output>)
        ensures
            r matches Some(o) ==> o.wf() && o.path@ == req.path(),
            exists|bt: Option<Vec<Option<ObjectId>>>, lt: Vec<TagRef>| #[trigger] reports(
                r,
                outcome(
                    self.config(),
                    req.path(),
                    with_remote(req.facts(), sync_outcome(true, None, true, connection_outcome(conn, bt, lt))),
                ),
            ),
    {
        let ghost c = conn;
        let ghost rp = req.path();
        let ghost rf = req.facts();
        let RemoteRequest { repo, config: _, url: _, plan: _, key: _, path, facts } = req;
        let mut facts = facts;
        let ghost mut bt: Option<Vec<Option<ObjectId>>> = None;
        let ghost mut lt: Vec<TagRef> = vstd::pervasive::arbitrary();
        let connection = match conn {
            Err(e) => Err(e),
            Ok(None) => Ok(None),
            Ok(Some(heads)) => {
                let branches = match branch_targets(&repo) {
                    Ok(v) => Some(object_ids(v)),
                    Err(_) => None,
                };
                let tags = Self::local_tags(&repo);
                proof {
                    bt = branches;
                    lt = tags;
                }
                Ok(Some(RemoteListing { advertised: heads, branch_targets: branches, local_tags: tags }))
            }
        };
        assert(connection == connection_outcome(c, bt, lt));
        facts.remote = remote_sync_outcome(true, None, true, connection);
        let ghost f = facts;
        assert(f == with_remote(rf, sync_outcome(true, None, true, connection_outcome(c, bt, lt))));
        let r = evaluate(&self.config, path, facts);
        assert(reports(r, outcome(self.config(), rp, f)));
        r
    }

    /// Looks at the next entry of the walk and takes the step [`step_for`]
    /// gives: the end of the walk only when there is no entry left; a skip,
    /// after which the walk goes on, for entries that cannot be read, files,
    /// metadata directories (which are not descended into) and directories
    /// that are not repositories or give no record.
    pub fn advance(&mut self) -> (r: Step)
        ensures
            final(self).config() == old(self).config(),
            final(self).root() == old(self).root(),
            r matches Step::Found(o) ==> o.wf() && exists|f: RepoFacts| outcome(final(self).config(), o.path@, f) == Some(o@),
            r matches Step::Found(o) ==> exists|wd: Seq<char>| o.path@ == #[trigger] rendered(
                final(self).config().absolute_paths,
                final(self).root(),
                wd,
            ),
            r matches Step::NeedsRemote(q) ==> exists|wd: Seq<char>| q.path() == #[trigger] rendered(
                final(self).config().absolute_paths,
                final(self).root(),
                wd,
            ),
    {
        let entry = next_entry(&mut self.iter);
        let action = match &entry {
            None => None,
            Some(None) => Some(entry_action(false, false, "")),
            Some(Some(e)) => {
                let name = entry_name(e);
                Some(entry_action(true, entry_is_dir(e), name.as_str()))
            }
        };
        let opened = match (&action, &entry) {
            (Some(EntryAction::Prune), _) => {
                skip_current_dir(&mut self.iter);
                None
            }
            (Some(EntryAction::Open), Some(Some(e))) => match open_repository(e) {
                Some(repo) => Some(self.repo_ops(repo)),
                None => None,
            },
            _ => None,
        };
        step_for(action, opened)
    }
}

} // verus!
