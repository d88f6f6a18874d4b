//! The closed vocabulary of pending actions a repository can be in.
use vstd::prelude::*;

verus! {

/// One category of outstanding work in a repository.
#[derive(Clone, Copy, Debug, PartialEq, Eq, Structural, Hash)]
pub enum PendingLabel {
    UncommittedChanges,
    UnpushedCommits,
    OutdatedBranch,
    AddedFiles,
    DeletedFiles,
    RenamedFiles,
    UntrackedFiles,
    UntaggedHead,
    UnpushedTags,
    UnpulledTags,
    UnfetchedCommits,
}

/// Number of labels in the vocabulary.
pub const LABEL_COUNT: u8 = 11;

/// The small integer that stands for a label inside a label set.
pub open spec fn code_of(l: PendingLabel) -> u8 {
    match l {
        PendingLabel::UncommittedChanges => 0,
        PendingLabel::UnpushedCommits => 1,
        PendingLabel::OutdatedBranch => 2,
        PendingLabel::AddedFiles => 3,
        PendingLabel::DeletedFiles => 4,
        PendingLabel::RenamedFiles => 5,
        PendingLabel::UntrackedFiles => 6,
        PendingLabel::UntaggedHead => 7,
        PendingLabel::UnpushedTags => 8,
        PendingLabel::UnpulledTags => 9,
        PendingLabel::UnfetchedCommits => 10,
    }
}

/// The label a code stands for; codes out of range map to the first label.
pub open spec fn label_of(c: u8) -> PendingLabel {
    if c == 1 {
        PendingLabel::UnpushedCommits
    } else if c == 2 {
        PendingLabel::OutdatedBranch
    } else if c == 3 {
        PendingLabel::AddedFiles
    } else if c == 4 {
        PendingLabel::DeletedFiles
    } else if c == 5 {
        PendingLabel::RenamedFiles
    } else if c == 6 {
        PendingLabel::UntrackedFiles
    } else if c == 7 {
        PendingLabel::UntaggedHead
    } else if c == 8 {
        PendingLabel::UnpushedTags
    } else if c == 9 {
        PendingLabel::UnpulledTags
    } else if c == 10 {
        PendingLabel::UnfetchedCommits
    } else {
        PendingLabel::UncommittedChanges
    }
}

/// The text under which a label is shown to users.
pub open spec fn label_text(l: PendingLabel) -> Seq<char> {
    match l {
        PendingLabel::UncommittedChanges => "uncommitted changes"@,
        PendingLabel::UnpushedCommits => "unpushed commits"@,
        PendingLabel::OutdatedBranch => "outdated branch"@,
        PendingLabel::AddedFiles => "added files"@,
        PendingLabel::DeletedFiles => "deleted files"@,
        PendingLabel::RenamedFiles => "renamed files"@,
        PendingLabel::UntrackedFiles => "untracked files"@,
        PendingLabel::UntaggedHead => "untagged HEAD"@,
        PendingLabel::UnpushedTags => "unpushed tags"@,
        PendingLabel::UnpulledTags => "unpulled tags"@,
        PendingLabel::UnfetchedCommits => "unfetched commits"@,
    }
}

/// Codes and labels are in one-to-one correspondence.
pub proof fn lemma_code_round_trip(l: PendingLabel)
    ensures
        code_of(l) < LABEL_COUNT,
        label_of(code_of(l)) == l,
{
}

/// Distinct labels have distinct codes.
pub proof fn lemma_code_injective(a: PendingLabel, b: PendingLabel)
    ensures
        (code_of(a) == code_of(b)) == (a == b),
{
    lemma_code_round_trip(a);
    lemma_code_round_trip(b);
}

impl PendingLabel {
    /// The code of this label.
    pub fn code(&self) -> (r: u8)
        ensures
            r == code_of(*self),
            r < LABEL_COUNT,
    {
        match self {
            PendingLabel::UncommittedChanges => 0,
            PendingLabel::UnpushedCommits => 1,
            PendingLabel::OutdatedBranch => 2,
            PendingLabel::AddedFiles => 3,
            PendingLabel::DeletedFiles => 4,
            PendingLabel::RenamedFiles => 5,
            PendingLabel::UntrackedFiles => 6,
            PendingLabel::UntaggedHead => 7,
            PendingLabel::UnpushedTags => 8,
            PendingLabel::UnpulledTags => 9,
            PendingLabel::UnfetchedCommits => 10,
        }
    }

    /// The label a code stands for.
    pub fn from_code(c: u8) -> (r: PendingLabel)
        ensures
            r == label_of(c),
    {
        if c == 1 {
            PendingLabel::UnpushedCommits
        } else if c == 2 {
            PendingLabel::OutdatedBranch
        } else if c == 3 {
            PendingLabel::AddedFiles
        } else if c == 4 {
            PendingLabel::DeletedFiles
        } else if c == 5 {
            PendingLabel::RenamedFiles
        } else if c == 6 {
            PendingLabel::UntrackedFiles
        } else if c == 7 {
            PendingLabel::UntaggedHead
        } else if c == 8 {
            PendingLabel::UnpushedTags
        } else if c == 9 {
            PendingLabel::UnpulledTags
        } else if c == 10 {
            PendingLabel::UnfetchedCommits
        } else {
            PendingLabel::UncommittedChanges
        }
    }

    /// The text under which this label is shown.
    pub fn as_str(&self) -> (r: &'static str)
        ensures
            r@ == label_text(*self),
    {
        match self {
            PendingLabel::UncommittedChanges => "uncommitted changes",
            PendingLabel::UnpushedCommits => "unpushed commits",
            PendingLabel::OutdatedBranch => "outdated branch",
            PendingLabel::AddedFiles => "added files",
            PendingLabel::DeletedFiles => "deleted files",
            PendingLabel::RenamedFiles => "renamed files",
            PendingLabel::UntrackedFiles => "untracked files",
            PendingLabel::UntaggedHead => "untagged HEAD",
            PendingLabel::UnpushedTags => "unpushed tags",
            PendingLabel::UnpulledTags => "unpulled tags",
            PendingLabel::UnfetchedCommits => "unfetched commits",
        }
    }
}

} // verus!
