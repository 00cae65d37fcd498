//! Commits.

use crate::repo::reference::{branch_ref_name, branch_reference};
use crate::repo::{RepoAction, RepoActionView};
use vstd::prelude::*;
use vstd::string::*;

verus! {

/// The commit operations of the backend, for a repository whose default branch is known.
pub struct GitCommits {
    pub default_branch: String,
}

/// The branch that a commit moves: the one that the head names, or the
/// default branch where the head names none.
pub open spec fn active_branch(shorthand: Option<Seq<char>>, default_branch: Seq<char>) -> Seq<
    char,
> {
    match shorthand {
        Some(name) => name,
        None => default_branch,
    }
}

impl GitCommits {
    pub fn with_default_branch(default_branch: &str) -> (r: GitCommits)
        ensures
            r.default_branch@ == default_branch@,
    {
        GitCommits { default_branch: String::from_str(default_branch) }
    }

    /// Asks for a commit of every change in the working tree, with `message`.
    pub fn commit(&self, message: &str) -> (r: RepoAction)
        ensures
            r@ == (RepoActionView::Commit {
                message: message@,
                default_branch: self.default_branch@,
            }),
    {
        RepoAction::Commit {
            message: String::from_str(message),
            default_branch: self.default_branch.clone(),
        }
    }

    /// The reference that is set to a new commit, where the head's short name is `shorthand`.
    pub fn head_reference(&self, shorthand: Option<&str>) -> (r: String)
        ensures
            r@ == branch_reference(
                active_branch(
                    match shorthand {
                        Some(name) => Some(name@),
                        None => None,
                    },
                    self.default_branch@,
                ),
            ),
    {
        let branch = match shorthand {
            Some(name) => name,
            None => self.default_branch.as_str(),
        };
        branch_ref_name(branch)
    }
}

} // verus!
