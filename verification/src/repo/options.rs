//! What a clone needs to know.

use crate::text::has_suffix;
use vstd::prelude::*;
use vstd::string::*;

verus! {

/// The address of a repository and the directory that its clone goes to.
#[derive(Debug, PartialEq)]
pub struct CloneOptions {
    pub repo_url: String,
    pub path: String,
}

/// `path` begins with a tilde that stands alone or before a separator.
pub open spec fn tilde_leads(path: Seq<char>) -> bool {
    &&& path.len() > 0
    &&& path[0] == '~'
    &&& (path.len() == 1 || path[1] == '/' || path[1] == '\\')
}

/// `expanded` may be what tilde expansion makes of `path`: `path` itself,
/// or, where a tilde leads `path`, some home directory and then the rest of
/// `path`.
pub open spec fn may_expand_to(path: Seq<char>, expanded: Seq<char>) -> bool {
    ||| expanded == path
    ||| tilde_leads(path) && has_suffix(expanded, path.skip(1))
}

/// Expands a leading tilde with `shellexpand::tilde`, which asks the system
/// for the user's home directory. A path without a leading tilde, a tilde
/// that is followed by anything but a separator, and any path where no home
/// directory is known come back unchanged; else the home directory takes the
/// tilde's place. Which directory that is depends on the machine and the
/// user, so the contract claims only what holds of every one.
#[verifier::external_body]
fn tilde(path: &str) -> (r: String)
    ensures
        may_expand_to(path@, r@),
{
    shellexpand::tilde(path).to_string()
}

/// `path` with the user's home directory in the place of a leading tilde.
pub fn expand_path(path: &str) -> (r: String)
    ensures
        may_expand_to(path@, r@),
{
    tilde(path)
}

impl CloneOptions {
    pub fn new(repo_url: &str, path: &str) -> (r: CloneOptions)
        ensures
            r.repo_url@ == repo_url@,
            may_expand_to(path@, r.path@),
    {
        CloneOptions { repo_url: String::from_str(repo_url), path: tilde(path) }
    }
}

} // verus!
