//! The repository library, the directory walker and the few host queries the
//! crawl makes. What these return depends on the disk, the network or the
//! host's configuration, so apart from plain conversions nothing is promised
//! of their results: the verified code is correct for every value they give.
use vstd::prelude::*;
use crate::facts::{DeltaKind, GitError, ObjectId, StatusRequest};

verus! {

#[verifier::external_type_specification]
#[verifier::external_body]
pub struct ExRepository(git2::Repository);

#[verifier::external_type_specification]
#[verifier::external_body]
pub struct ExGitError(git2::Error);

#[verifier::external_type_specification]
#[verifier::external_body]
pub struct ExReference<'r>(git2::Reference<'r>);

#[verifier::external_type_specification]
#[verifier::external_body]
pub struct ExRemote<'r>(git2::Remote<'r>);

#[verifier::external_type_specification]
#[verifier::external_body]
pub struct ExConfig(git2::Config);

#[verifier::external_type_specification]
#[verifier::external_body]
pub struct ExOid(git2::Oid);

#[verifier::external_type_specification]
pub struct ExDelta(git2::Delta);

#[verifier::external_type_specification]
pub struct ExErrorClass(git2::ErrorClass);

#[verifier::external_type_specification]
pub struct ExErrorCode(git2::ErrorCode);

#[verifier::external_type_specification]
#[verifier::external_body]
pub struct ExWalk(walkdir::IntoIter);

#[verifier::external_type_specification]
#[verifier::external_body]
pub struct ExDirEntry(walkdir::DirEntry);

#[verifier::external_type_specification]
#[verifier::external_body]
pub struct ExWalkError(walkdir::Error);

/// Relies on `Error::class`: the error's category, one of its variants.
pub assume_specification[ git2::Error::class ](e: &git2::Error) -> git2::ErrorClass;

/// Relies on `Error::code`: the error's code, one of its variants.
pub assume_specification[ git2::Error::code ](e: &git2::Error) -> git2::ErrorCode;

/// Relies on `git2::Error`'s `Display`: its text.
#[verifier::external_body]
fn error_text(e: &git2::Error) -> String {
    e.to_string()
}

/// Reduces an error of the repository library to what the crawl needs.
pub fn git_error(e: &git2::Error) -> (r: GitError) {
    let unborn_branch = matches!(e.class(), git2::ErrorClass::Reference) && matches!(e.code(), git2::ErrorCode::UnbornBranch);
    GitError { unborn_branch, message: error_text(e) }
}

/// The library's counterpart of a change kind.
pub open spec fn kind_of(d: git2::Delta) -> DeltaKind {
    match d {
        git2::Delta::Unmodified => DeltaKind::Unmodified,
        git2::Delta::Added => DeltaKind::Added,
        git2::Delta::Deleted => DeltaKind::Deleted,
        git2::Delta::Modified => DeltaKind::Modified,
        git2::Delta::Renamed => DeltaKind::Renamed,
        git2::Delta::Copied => DeltaKind::Copied,
        git2::Delta::Ignored => DeltaKind::Ignored,
        git2::Delta::Untracked => DeltaKind::Untracked,
        git2::Delta::Typechange => DeltaKind::Typechange,
        git2::Delta::Unreadable => DeltaKind::Unreadable,
        git2::Delta::Conflicted => DeltaKind::Conflicted,
    }
}

/// The library's counterpart of a change kind.
pub(crate) fn delta_kind(d: git2::Delta) -> (r: DeltaKind)
    ensures
        r == kind_of(d),
{
    match d {
        git2::Delta::Unmodified => DeltaKind::Unmodified,
        git2::Delta::Added => DeltaKind::Added,
        git2::Delta::Deleted => DeltaKind::Deleted,
        git2::Delta::Modified => DeltaKind::Modified,
        git2::Delta::Renamed => DeltaKind::Renamed,
        git2::Delta::Copied => DeltaKind::Copied,
        git2::Delta::Ignored => DeltaKind::Ignored,
        git2::Delta::Untracked => DeltaKind::Untracked,
        git2::Delta::Typechange => DeltaKind::Typechange,
        git2::Delta::Unreadable => DeltaKind::Unreadable,
        git2::Delta::Conflicted => DeltaKind::Conflicted,
    }
}

/// Relies on `Oid::as_bytes`: the identifier's raw bytes.
#[verifier::external_body]
pub(crate) fn object_id(o: git2::Oid) -> ObjectId {
    ObjectId { bytes: o.as_bytes().to_vec() }
}

/// Relies on `Repository::open`, on the entry's path.
#[verifier::external_body]
pub(crate) fn open_repository(e: &walkdir::DirEntry) -> Option<git2::Repository> {
    git2::Repository::open(e.path()).ok()
}

/// Relies on `Repository::workdir`: the working directory, if the repository
/// has one, as text.
#[verifier::external_body]
pub(crate) fn workdir(repo: &git2::Repository) -> Option<String> {
    repo.workdir().map(|p| p.to_string_lossy().into_owned())
}

/// Relies on `Repository::path`: where the repository's metadata lives, as text.
#[verifier::external_body]
pub(crate) fn git_dir(repo: &git2::Repository) -> String {
    repo.path().to_string_lossy().into_owned()
}

/// Relies on `Repository::discover` and `Repository::path`: where the
/// metadata of the repository found from `path` lives, if one is found.
#[verifier::external_body]
pub(crate) fn discover_git_dir(path: &str) -> Option<String> {
    git2::Repository::discover(path).ok().map(|r| r.path().to_string_lossy().into_owned())
}

/// Relies on `Repository::head`.
#[verifier::external_body]
pub(crate) fn head(repo: &git2::Repository) -> Result<git2::Reference<'_>, git2::Error> {
    repo.head()
}

/// Relies on `Reference::target`: the object a direct reference points at.
#[verifier::external_body]
pub(crate) fn reference_target(r: &git2::Reference) -> Option<git2::Oid> {
    r.target()
}

/// Relies on `Branch::upstream`, on the branch the reference names.
#[verifier::external_body]
pub(crate) fn upstream<'r>(r: git2::Reference<'r>) -> Result<git2::Reference<'r>, git2::Error> {
    git2::Branch::wrap(r).upstream().map(|b| b.into_reference())
}

/// Relies on `Repository::statuses`, with `StatusOptions` set from `req`:
/// for each entry, its change kinds from HEAD to the index and from the
/// index to the working directory.
#[verifier::external_body]
pub(crate) fn statuses(repo: &git2::Repository, req: &StatusRequest) -> Result<Vec<(Option<git2::Delta>, Option<git2::Delta>)>, git2::Error> {
    let mut opts = git2::StatusOptions::new();
    opts.include_ignored(req.include_ignored)
        .include_untracked(req.include_untracked)
        .renames_head_to_index(req.renames_head_to_index)
        .renames_index_to_workdir(req.renames_index_to_workdir);
    repo.statuses(Some(&mut opts)).map(|st| {
        st.iter().map(|e| (e.head_to_index().map(|d| d.status()), e.index_to_workdir().map(|d| d.status()))).collect()
    })
}

/// Relies on `Repository::tag_names`: each tag's name, `None` where it is not UTF-8.
#[verifier::external_body]
pub(crate) fn tag_names(repo: &git2::Repository) -> Result<Vec<Option<String>>, git2::Error> {
    repo.tag_names(None).map(|a| a.iter().map(|t| t.ok().flatten().map(|s| s.to_string())).collect())
}

/// Relies on `Repository::find_reference`.
#[verifier::external_body]
pub(crate) fn find_reference<'r>(repo: &'r git2::Repository, name: &str) -> Result<git2::Reference<'r>, git2::Error> {
    repo.find_reference(name)
}

/// Relies on `Repository::graph_ahead_behind`, after `Oid::from_bytes` on
/// both identifiers: the commits unique to each tip.
#[verifier::external_body]
pub(crate) fn graph_ahead_behind(repo: &git2::Repository, local: &ObjectId, upstream: &ObjectId) -> Result<(usize, usize), git2::Error> {
    let local = git2::Oid::from_bytes(&local.bytes)?;
    let upstream = git2::Oid::from_bytes(&upstream.bytes)?;
    repo.graph_ahead_behind(local, upstream)
}

/// Relies on `Repository::branches`: each local or remote-tracking branch's
/// target, `None` where the branch could not be read or names no object.
#[verifier::external_body]
pub(crate) fn branch_targets(repo: &git2::Repository) -> Result<Vec<Option<git2::Oid>>, git2::Error> {
    repo.branches(None).map(|bs| bs.map(|b| b.ok().and_then(|(b, _)| b.get().target())).collect())
}

/// Relies on `Repository::find_remote`.
#[verifier::external_body]
pub(crate) fn find_remote<'r>(repo: &'r git2::Repository, name: &str) -> Result<git2::Remote<'r>, git2::Error> {
    repo.find_remote(name)
}

/// Relies on `Remote::url`: the remote's URL, `None` where it is not UTF-8.
#[verifier::external_body]
pub(crate) fn remote_url(r: &git2::Remote) -> Option<String> {
    r.url().ok().map(|u| u.to_string())
}

/// Relies on `Config::open_default`: the user's global configuration.
#[verifier::external_body]
pub(crate) fn open_default_config() -> Result<git2::Config, git2::Error> {
    git2::Config::open_default()
}

/// Relies on `dirs::home_dir`: the user's home directory, as text.
#[verifier::external_body]
pub(crate) fn home_dir() -> Option<String> {
    dirs::home_dir().map(|p| p.to_string_lossy().into_owned())
}

/// What `Path::join` gives for `name` under `base`, as text.
pub uninterp spec fn joined(base: Seq<char>, name: Seq<char>) -> Seq<char>;

/// Relies on `Path::join`: `name` under the directory `base`, as text; the
/// result depends on the two texts alone.
#[verifier::external_body]
pub(crate) fn join_path(base: &str, name: &str) -> (r: String)
    ensures
        r@ == joined(base@, name@),
{
    std::path::Path::new(base).join(name).to_string_lossy().into_owned()
}

/// Relies on `Path::exists`: whether something is at `path`.
#[verifier::external_body]
pub(crate) fn path_exists(path: &str) -> bool {
    std::path::Path::new(path).exists()
}

/// What `Path::strip_prefix` leaves of `target` below `root`, as text;
/// `None` when `root` is not a prefix of it.
pub uninterp spec fn stripped_of(target: Seq<char>, root: Seq<char>) -> Option<Seq<char>>;

/// Relies on `Path::strip_prefix`: what remains of `target` below `root`,
/// `None` when `root` is not a prefix of it; the result depends on the two
/// texts alone. A path stripped of itself, or of itself followed by a
/// separator, leaves nothing.
#[verifier::external_body]
pub(crate) fn strip_root(target: &str, root: &str) -> (r: Option<String>)
    ensures
        stripped_of(target@, root@) == (match r {
            Some(s) => Some(s@),
            None => None,
        }),
        target@ == root@ ==> r is Some && r->0@.len() == 0,
        root@.len() > 0 && target@ == root@.push('/') ==> r is Some && r->0@.len() == 0,
{
    std::path::Path::new(target).strip_prefix(root).ok().map(|p| p.to_string_lossy().into_owned())
}

/// Relies on `WalkDir::new` and `into_iter`: a depth-first walk from `root`.
#[verifier::external_body]
pub(crate) fn walk(root: &str) -> walkdir::IntoIter {
    walkdir::WalkDir::new(root).into_iter()
}

/// Relies on `IntoIter::next`: `None` at the end of the walk, `Some(None)`
/// for an entry that could not be read.
#[verifier::external_body]
pub(crate) fn next_entry(w: &mut walkdir::IntoIter) -> Option<Option<walkdir::DirEntry>> {
    w.next().map(|e| e.ok())
}

/// Relies on `IntoIter::skip_current_dir`: the directory last yielded is not
/// descended into.
#[verifier::external_body]
pub(crate) fn skip_current_dir(w: &mut walkdir::IntoIter) {
    w.skip_current_dir()
}

/// Relies on `DirEntry::file_type`: whether the entry is a directory.
#[verifier::external_body]
pub(crate) fn entry_is_dir(e: &walkdir::DirEntry) -> bool {
    e.file_type().is_dir()
}

/// Relies on `DirEntry::file_name`: the entry's last path component, as text.
#[verifier::external_body]
pub(crate) fn entry_name(e: &walkdir::DirEntry) -> String {
    e.file_name().to_string_lossy().into_owned()
}

} // verus!
