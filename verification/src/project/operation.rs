//! What is asked for: the next version of a kind, or a version by name.

use crate::project::project_version::CurrentVersion;
use crate::version::bump;
use crate::version::update::{VersionUpdate, VersionUpdateView};
use crate::version::{bumped_major, bumped_minor, bumped_patch, Version, VersionView};
use vstd::prelude::*;

verus! {

/// The number of a version that a bump raises.
#[derive(Clone, Copy, Debug, PartialEq, Eq)]
pub enum BumpMode {
    Major,
    Minor,
    Patch,
}

/// What a release is asked to do with the version.
#[derive(Debug, PartialEq)]
pub enum Operation {
    /// Raise one number of the current version.
    BumpVersion(BumpMode),
    /// Go to `next_version`; from `current_version` where it is given, else
    /// from the version that the project has.
    SetVersion { current_version: Option<Version>, next_version: Version },
}

impl Clone for Operation {
    fn clone(&self) -> (r: Self)
        ensures
            r == *self,
    {
        match self {
            Operation::BumpVersion(mode) => Operation::BumpVersion(*mode),
            Operation::SetVersion { current_version, next_version } => Operation::SetVersion {
                current_version: match current_version {
                    Some(version) => Some(version.clone()),
                    None => None,
                },
                next_version: next_version.clone(),
            },
        }
    }
}

/// The version that follows `v` in the way of `mode`.
pub open spec fn bumped(mode: BumpMode, v: VersionView) -> VersionView {
    match mode {
        BumpMode::Major => bumped_major(v),
        BumpMode::Minor => bumped_minor(v),
        BumpMode::Patch => bumped_patch(v),
    }
}

/// The number that `mode` raises is below the largest that a version can hold.
pub open spec fn can_bump(mode: BumpMode, v: VersionView) -> bool {
    match mode {
        BumpMode::Major => v.major < u64::MAX,
        BumpMode::Minor => v.minor < u64::MAX,
        BumpMode::Patch => v.patch < u64::MAX,
    }
}

impl Operation {
    /// The update that this operation makes of a project whose version is `resolved`.
    pub open spec fn update_of(&self, resolved: VersionView) -> VersionUpdateView {
        match self {
            Operation::BumpVersion(mode) => VersionUpdateView {
                current: resolved,
                next: bumped(*mode, resolved),
            },
            Operation::SetVersion { current_version, next_version } => VersionUpdateView {
                current: match current_version {
                    Some(current) => current@,
                    None => resolved,
                },
                next: next_version@,
            },
        }
    }

    /// The operation can be carried out on a project whose version is
    /// `resolved`: a bump needs room above the number that it raises.
    pub open spec fn can_update(&self, resolved: VersionView) -> bool {
        match self {
            Operation::BumpVersion(mode) => can_bump(*mode, resolved),
            Operation::SetVersion { .. } => true,
        }
    }

    /// Whether the operation can be carried out on a project whose version is `current`.
    pub fn can_update_from(&self, current: &Version) -> (r: bool)
        ensures
            r == self.can_update(current@),
    {
        match self {
            Operation::BumpVersion(BumpMode::Major) => current.major < u64::MAX,
            Operation::BumpVersion(BumpMode::Minor) => current.minor < u64::MAX,
            Operation::BumpVersion(BumpMode::Patch) => current.patch < u64::MAX,
            Operation::SetVersion { .. } => true,
        }
    }

    /// The current and the next version of a project under this operation.
    pub fn version_update<V: CurrentVersion>(&self, project_version: &V) -> (r: VersionUpdate)
        requires
            self.can_update(project_version.current()),
        ensures
            r@ == self.update_of(project_version.current()),
    {
        match self {
            Operation::BumpVersion(bump_mode) => Self::bump_version(project_version, bump_mode),
            Operation::SetVersion { current_version, next_version } => Self::set_version(
                project_version,
                current_version,
                next_version,
            ),
        }
    }

    fn bump_version<V: CurrentVersion>(project_version: &V, bump_mode: &BumpMode) -> (r:
        VersionUpdate)
        requires
            can_bump(*bump_mode, project_version.current()),
        ensures
            r@.current == project_version.current(),
            r@.next == bumped(*bump_mode, project_version.current()),
    {
        let current_version = project_version.current_version();
        let next_version = match bump_mode {
            BumpMode::Major => bump::major_version(current_version.clone()),
            BumpMode::Minor => bump::minor_version(current_version.clone()),
            BumpMode::Patch => bump::patch_version(current_version.clone()),
        };
        VersionUpdate { current_version, next_version }
    }

    fn set_version<V: CurrentVersion>(
        project_version: &V,
        current_version: &Option<Version>,
        next_version: &Version,
    ) -> (r: VersionUpdate)
        ensures
            r@.current == match current_version {
                Some(current) => current@,
                None => project_version.current(),
            },
            r@.next == next_version@,
    {
        let project_current_version = match current_version {
            Some(version) => version.clone(),
            None => project_version.current_version(),
        };
        VersionUpdate {
            current_version: project_current_version,
            next_version: next_version.clone(),
        }
    }
}

/// Setting a version from a given current version takes nothing from the
/// project: whatever version the project has, the update is from the given
/// version to the one asked for.
pub proof fn lemma_set_version_keeps_override(
    current: Version,
    next: Version,
    resolved: VersionView,
)
    ensures
        (Operation::SetVersion { current_version: Some(current), next_version: next }).update_of(
            resolved,
        ) == (VersionUpdateView { current: current@, next: next@ }),
{
}

} // verus!
