//! Branches.

use crate::repo::reference::{branch_ref_name, branch_reference};
use crate::repo::{RepoAction, RepoActionView};
use vstd::prelude::*;
use vstd::string::*;

verus! {

/// The branch operations of the backend.
pub struct GitBranches;

impl GitBranches {
    pub fn new() -> Self {
        GitBranches {  }
    }

    /// Asks for the branch `branch_name`, made from the head commit.
    pub fn create_branch(&self, branch_name: &str) -> (r: RepoAction)
        ensures
            r@ == (RepoActionView::CreateBranch { name: branch_name@ }),
    {
        RepoAction::CreateBranch { name: String::from_str(branch_name) }
    }

    /// Asks for the branch `branch_name` to become the head and be checked out.
    pub fn checkout_branch(&self, branch_name: &str) -> (r: RepoAction)
        ensures
            r@ == (RepoActionView::Checkout { reference: branch_reference(branch_name@) }),
    {
        RepoAction::Checkout { reference: branch_ref_name(branch_name) }
    }
}

} // verus!
