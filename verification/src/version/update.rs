//! The step from one version to the next.

use crate::version::{strict_version, Version, VersionView};
use vstd::prelude::*;

verus! {

/// A version update as views.
pub struct VersionUpdateView {
    pub current: VersionView,
    pub next: VersionView,
}

/// The version that a project has, and the one that it is given.
#[derive(Debug, PartialEq)]
pub struct VersionUpdate {
    pub current_version: Version,
    pub next_version: Version,
}

impl View for VersionUpdate {
    type V = VersionUpdateView;

    open spec fn view(&self) -> VersionUpdateView {
        VersionUpdateView { current: self.current_version@, next: self.next_version@ }
    }
}

impl Clone for VersionUpdate {
    fn clone(&self) -> (r: Self)
        ensures
            r == *self,
    {
        VersionUpdate {
            current_version: self.current_version.clone(),
            next_version: self.next_version.clone(),
        }
    }
}

impl VersionUpdate {
    /// The update from the version that `current_version` names to the one
    /// that `next_version` names, both in strict semver.
    pub fn new(current_version: &str, next_version: &str) -> (r: Self)
        requires
            strict_version(current_version@) is Some,
            strict_version(next_version@) is Some,
        ensures
            Some(r@.current) == strict_version(current_version@),
            Some(r@.next) == strict_version(next_version@),
    {
        Self {
            current_version: Version::parse(current_version).unwrap(),
            next_version: Version::parse(next_version).unwrap(),
        }
    }

    /// The update from the version that `current_version` names to the one
    /// that `next_version` names; none where either is no version in strict
    /// semver.
    pub fn parse(current_version: &str, next_version: &str) -> (r: Option<Self>)
        ensures
            r is Some <==> strict_version(current_version@) is Some && strict_version(
                next_version@,
            ) is Some,
            r is Some ==> Some(r->0@.current) == strict_version(current_version@) && Some(
                r->0@.next,
            ) == strict_version(next_version@),
    {
        if Version::parse(current_version).is_some() && Version::parse(next_version).is_some() {
            Some(Self::new(current_version, next_version))
        } else {
            None
        }
    }
}

} // verus!
