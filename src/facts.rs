//! Plain values read from a repository, on which the classification works.
use vstd::prelude::*;

verus! {

/// The identifier of an object in a repository's object store.
#[derive(Clone, Debug)]
pub struct ObjectId {
    pub bytes: Vec<u8>,
}

impl View for ObjectId {
    type V = Seq<u8>;

    open spec fn view(&self) -> Seq<u8> {
        self.bytes@
    }
}

impl ObjectId {
    /// Whether two identifiers name the same object.
    pub fn same(&self, other: &ObjectId) -> (r: bool)
        ensures
            r == (self@ == other@),
    {
        if self.bytes.len() != other.bytes.len() {
            return false;
        }
        let mut i: usize = 0;
        while i < self.bytes.len()
            invariant
                self.bytes.len() == other.bytes.len(),
                i <= self.bytes.len(),
                forall|j: int| 0 <= j < i ==> self.bytes@[j] == other.bytes@[j],
            decreases self.bytes.len() - i,
        {
            if self.bytes[i] != other.bytes[i] {
                return false;
            }
            i = i + 1;
        }
        assert(self@ =~= other@);
        true
    }
}

/// An error reported by the repository library, reduced to what the crawl needs.
#[derive(Clone, Debug)]
pub struct GitError {
    /// The checked-out branch has never received a commit.
    pub unborn_branch: bool,
    /// The library's own description of the error.
    pub message: String,
}

/// The kind of change one status entry records in one direction.
#[derive(Clone, Copy, Debug, PartialEq, Eq, Structural)]
pub enum DeltaKind {
    Unmodified,
    Added,
    Deleted,
    Modified,
    Renamed,
    Copied,
    Ignored,
    Untracked,
    Typechange,
    Unreadable,
    Conflicted,
}

/// One entry of a working-tree status: its change from HEAD to the index and
/// from the index to the working directory, where there is one.
#[derive(Clone, Copy, Debug, PartialEq, Eq, Structural)]
pub struct StatusEntry {
    pub head_to_index: Option<DeltaKind>,
    pub index_to_workdir: Option<DeltaKind>,
}

/// A reference as the remote advertises it: its full name and target.
#[derive(Clone, Debug)]
pub struct RemoteHead {
    pub name: String,
    pub oid: ObjectId,
}

/// A local tag: its full reference name and the object it points at.
#[derive(Clone, Debug)]
pub struct TagRef {
    pub name: String,
    pub oid: ObjectId,
}

/// What was learnt from the remote named "origin".
#[derive(Clone, Debug)]
pub enum RemoteOutcome {
    /// There is no such remote, it has no readable URL, or it advertised no
    /// reference list: nothing to compare.
    Unavailable,
    /// Connecting or authenticating failed.
    Failed(GitError),
    /// The remote's references and the local state they are compared with.
    Listed(RemoteListing),
}

/// The remote's advertised references together with the local branches and
/// tags they are compared with.
#[derive(Clone, Debug)]
pub struct RemoteListing {
    pub advertised: Vec<RemoteHead>,
    /// Targets of the local branches; `None` where a branch could not be read
    /// or points at nothing. `None` as a whole where branches could not be listed.
    pub branch_targets: Option<Vec<Option<ObjectId>>>,
    /// The local tags that resolve to an object.
    pub local_tags: Vec<TagRef>,
}

/// Everything the classification of one repository reads.
///
/// Later fields are only read where the earlier ones let the inspection go on;
/// the crawl leaves them at neutral values otherwise.
#[derive(Debug)]
pub struct RepoFacts {
    /// HEAD's target, `None` when HEAD names no object, or the error that
    /// resolving HEAD gave.
    pub head: Result<Option<ObjectId>, GitError>,
    /// The working-tree status, or the error computing it gave.
    pub statuses: Result<Vec<StatusEntry>, GitError>,
    /// For each tag name, the target of its reference (`None` where it did not
    /// resolve); `None` as a whole where tag names could not be listed.
    pub tag_targets: Option<Vec<Option<ObjectId>>>,
    /// The upstream branch's target (`None` inside when it names no object);
    /// `None` as a whole when no upstream is configured.
    pub upstream: Option<Option<ObjectId>>,
    /// Commits ahead of and behind the upstream, when they could be counted.
    pub ahead_behind: Option<(usize, usize)>,
    /// The outcome of the remote comparison, when it was made.
    pub remote: RemoteOutcome,
}

/// The options of a working-tree status computation.
#[derive(Clone, Copy, Debug, PartialEq, Eq, Structural)]
pub struct StatusRequest {
    pub include_ignored: bool,
    pub include_untracked: bool,
    pub renames_head_to_index: bool,
    pub renames_index_to_workdir: bool,
}

} // verus!
