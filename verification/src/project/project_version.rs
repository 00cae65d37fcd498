//! The version that a project has now.

use crate::config::Config;
use crate::project::Project;
use crate::token::{trimmer_for, TokenTrimmer, VERSION};
use crate::version::list::{
    latest, parsed_versions, sorted_versions, texts, trimmer_view, VersionList,
};
use crate::version::{precedes, release, Version, VersionView};
use vstd::prelude::*;

verus! {

/// Something that knows the current version of a project.
pub trait CurrentVersion {
    /// The current version.
    spec fn current(&self) -> VersionView;

    fn current_version(&self) -> (v: Version)
        ensures
            v@ == self.current(),
    ;
}

/// The versions that `tags` name, read by `tag_pattern`: what stands around
/// the marker in the pattern is cut off each tag before it is read.
pub open spec fn named_versions(tags: Seq<Seq<char>>, tag_pattern: Seq<char>) -> Seq<VersionView> {
    parsed_versions(tags, trimmer_for(tag_pattern, VERSION@))
}

/// The version of a project whose tags are `tags` and whose tags are named
/// after `tag_pattern`: the latest that the tags name, or `0.0.1` where they
/// name none.
pub open spec fn resolved_version(tags: Seq<Seq<char>>, tag_pattern: Seq<char>) -> VersionView {
    match latest(sorted_versions(named_versions(tags, tag_pattern))) {
        Some(v) => v,
        None => release(0, 0, 1),
    }
}

/// The version of a project, read off the tags of its repository.
pub struct ProjectVersion<'a> {
    project: &'a Project,
    tags: Vec<String>,
}

impl<'a> ProjectVersion<'a> {
    pub closed spec fn project(&self) -> Project {
        *self.project
    }

    pub closed spec fn tags(&self) -> Seq<Seq<char>> {
        texts(self.tags@)
    }

    /// The version of `project`, whose repository has the tags `tags`.
    pub fn new(project: &'a Project, tags: Vec<String>) -> (r: Self)
        ensures
            r.project() == *project,
            r.tags() == texts(tags@),
    {
        Self { project, tags }
    }

    /// The latest version that the tags name, or `0.0.1` where they name
    /// none. Every version that the tags name is the latest itself or does
    /// not come after it.
    pub fn current_version(&self) -> (v: Version)
        ensures
            v@ == resolved_version(self.tags(), self.project().config().repository.tag_pattern@),
            forall|x: VersionView| #[trigger]
                named_versions(
                    self.tags(),
                    self.project().config().repository.tag_pattern@,
                ).contains(x) ==> x == v@ || precedes(x, v@),
    {
        let tag_token_trimmer = Self::tag_token_trimmer(self.project.configuration());
        let version_list = VersionList::from_tag_list(&self.tags, tag_token_trimmer);
        proof {
            let named = named_versions(
                self.tags(),
                self.project().config().repository.tag_pattern@,
            );
            let sorted = version_list@;
            named.to_multiset_ensures();
            sorted.to_multiset_ensures();
            assert forall|x: VersionView| #[trigger] named.contains(x) implies x == sorted.last()
                || precedes(x, sorted.last()) by {
                assert(named.contains(x) <==> named.to_multiset().count(x) > 0);
            }
        }
        match version_list.latest_version() {
            Some(version) => version,
            None => Self::default_version(),
        }
    }

    fn tag_token_trimmer(config: &Config) -> (r: Option<TokenTrimmer>)
        ensures
            match r {
                Some(t) => trimmer_for(config.repository.tag_pattern@, VERSION@) == Some(t@),
                None => trimmer_for(config.repository.tag_pattern@, VERSION@) is None,
            },
    {
        let tag_pattern = &config.repository.tag_pattern;
        TokenTrimmer::new(tag_pattern.as_str(), VERSION)
    }

    fn default_version() -> (r: Version)
        ensures
            r@ == release(0, 0, 1),
    {
        Version::new(0, 0, 1)
    }
}

impl<'a> CurrentVersion for ProjectVersion<'a> {
    open spec fn current(&self) -> VersionView {
        resolved_version(self.tags(), self.project().config().repository.tag_pattern@)
    }

    fn current_version(&self) -> (v: Version) {
        ProjectVersion::current_version(self)
    }
}

/// A stand-in that takes every project to be at `1.0.0`.
pub struct MockProjectVersion;

impl MockProjectVersion {
    pub fn mock() -> Self {
        Self {  }
    }

    pub fn new(_project: &Project) -> Self {
        Self {  }
    }

    pub fn current_version(&self) -> (v: Version)
        ensures
            v@ == release(1, 0, 0),
    {
        Version::new(1, 0, 0)
    }
}

impl CurrentVersion for MockProjectVersion {
    open spec fn current(&self) -> VersionView {
        release(1, 0, 0)
    }

    fn current_version(&self) -> (v: Version) {
        MockProjectVersion::current_version(self)
    }
}

} // verus!
