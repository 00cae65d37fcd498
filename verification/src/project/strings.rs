//! The names that a release gives to its branch, its commit and its tag.

use crate::config::{Config, RepoConfig};
use crate::text::{first_occurrence, lemma_first_occurrence_exists, occurs};
use crate::token::VERSION;
use crate::version::update::VersionUpdate;
use crate::version::{render, rendered, version_text, VersionView};
use vstd::prelude::*;
use vstd::string::*;

verus! {

/// The names of one release.
#[derive(Debug, PartialEq)]
pub struct ProjectStrings {
    pub branch_name: String,
    pub commit_message: String,
    pub remote_name: String,
    pub tag_name: String,
}

impl ProjectStrings {
    /// These are the names that `repository` gives to the release of `next`:
    /// each pattern with the version in the place of its leftmost marker,
    /// and `origin` for the remote.
    pub open spec fn renders(&self, repository: RepoConfig, next: VersionView) -> bool {
        &&& self.branch_name@ == rendered(repository.branch_pattern@, next)
        &&& self.commit_message@ == rendered(repository.commit_message@, next)
        &&& self.remote_name@ == "origin"@
        &&& self.tag_name@ == rendered(repository.tag_pattern@, next)
    }

    pub fn new(config: &Config, version_update: &VersionUpdate) -> (r: ProjectStrings)
        ensures
            r.renders(config.repository, version_update@.next),
    {
        let repo_config = &config.repository;
        let next_version = &version_update.next_version;
        ProjectStrings {
            branch_name: render(repo_config.branch_pattern.as_str(), next_version),
            commit_message: render(repo_config.commit_message.as_str(), next_version),
            remote_name: String::from_str("origin"),
            tag_name: render(repo_config.tag_pattern.as_str(), next_version),
        }
    }
}

/// The version is written once: what stands before the leftmost marker and
/// what stands behind it, further markers among it, is in the rendered text
/// as it was in the pattern.
pub proof fn lemma_rendered_once(pattern: Seq<char>, version: VersionView)
    requires
        occurs(pattern, VERSION@),
    ensures
        ({
            let at = first_occurrence(pattern, VERSION@);
            &&& 0 <= at <= pattern.len() - VERSION@.len()
            &&& rendered(pattern, version) == pattern.take(at) + version_text(version)
                + pattern.skip(at + VERSION@.len())
        }),
{
    lemma_first_occurrence_exists(pattern, VERSION@);
}

} // verus!
