//! Pushing to a remote.

use crate::repo::reference::{branch_ref_name, branch_reference, tag_ref_name, tag_reference};
use crate::repo::{RepoAction, RepoActionView};
use crate::text::appended;
use vstd::prelude::*;
use vstd::string::*;

verus! {

/// The remote operations of the backend.
pub struct GitRemotes;

/// The refspec that pushes `reference` to the reference of the same name.
pub open spec fn refspec(reference: Seq<char>) -> Seq<char> {
    reference + ":"@ + reference
}

impl GitRemotes {
    pub fn new() -> Self {
        GitRemotes {  }
    }

    /// Asks for the branch `branch_name` to be pushed to `remote_name`.
    pub fn push_branch(&self, branch_name: &str, remote_name: &str) -> (r: RepoAction)
        ensures
            r@ == (RepoActionView::Push {
                remote: remote_name@,
                refspec: refspec(branch_reference(branch_name@)),
            }),
    {
        let ref_name = branch_ref_name(branch_name);
        self.push_ref(ref_name.as_str(), remote_name)
    }

    /// Asks for the tag `tag_name` to be pushed to `remote_name`.
    pub fn push_tag(&self, tag_name: &str, remote_name: &str) -> (r: RepoAction)
        ensures
            r@ == (RepoActionView::Push {
                remote: remote_name@,
                refspec: refspec(tag_reference(tag_name@)),
            }),
    {
        let ref_name = tag_ref_name(tag_name);
        self.push_ref(ref_name.as_str(), remote_name)
    }

    fn push_ref(&self, ref_name: &str, remote_name: &str) -> (r: RepoAction)
        ensures
            r@ == (RepoActionView::Push { remote: remote_name@, refspec: refspec(ref_name@) }),
    {
        let mut ref_spec = appended(ref_name, ":");
        ref_spec.append(ref_name);
        RepoAction::Push { remote: String::from_str(remote_name), refspec: ref_spec }
    }
}

} // verus!
