//! What is asked of the version-control backend, as values: this library
//! decides which operations a release takes and with which names; carrying
//! them out on a repository is the caller's part.

pub mod branch;
pub mod commit;
pub mod options;
pub mod path;
pub mod reference;
pub mod remote;
pub mod ssh;
pub mod tag;

use vstd::prelude::*;

verus! {

/// One operation on a repository, as views.
pub enum RepoActionView {
    CreateBranch { name: Seq<char> },
    Checkout { reference: Seq<char> },
    Commit { message: Seq<char>, default_branch: Seq<char> },
    CreateLightweightTag { name: Seq<char> },
    CreateAnnotatedTag { name: Seq<char>, annotation: Seq<char> },
    Push { remote: Seq<char>, refspec: Seq<char> },
}

/// One operation on a repository.
#[derive(Debug, PartialEq)]
pub enum RepoAction {
    /// Create the branch `name` at the head commit, without replacing an existing one.
    CreateBranch { name: String },
    /// Make `reference` the head and check it out.
    Checkout { reference: String },
    /// Stage every change of the working tree and commit it with `message`,
    /// then set the active branch, or `default_branch` where the head names
    /// none, to the new commit.
    Commit { message: String, default_branch: String },
    /// Tag the head commit as `name`, without replacing an existing tag.
    CreateLightweightTag { name: String },
    /// Tag the head commit as `name` with the message `annotation`, signed
    /// as the repository's user, without replacing an existing tag.
    CreateAnnotatedTag { name: String, annotation: String },
    /// Push `refspec` to `remote`.
    Push { remote: String, refspec: String },
}

impl View for RepoAction {
    type V = RepoActionView;

    open spec fn view(&self) -> RepoActionView {
        match self {
            RepoAction::CreateBranch { name } => RepoActionView::CreateBranch { name: name@ },
            RepoAction::Checkout { reference } => RepoActionView::Checkout {
                reference: reference@,
            },
            RepoAction::Commit { message, default_branch } => RepoActionView::Commit {
                message: message@,
                default_branch: default_branch@,
            },
            RepoAction::CreateLightweightTag { name } => RepoActionView::CreateLightweightTag {
                name: name@,
            },
            RepoAction::CreateAnnotatedTag {
                name,
                annotation,
            } => RepoActionView::CreateAnnotatedTag { name: name@, annotation: annotation@ },
            RepoAction::Push { remote, refspec } => RepoActionView::Push {
                remote: remote@,
                refspec: refspec@,
            },
        }
    }
}

} // verus!
