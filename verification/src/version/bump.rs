//! Raising one number of a version.

use crate::version::{bumped_major, bumped_minor, bumped_patch, Version};
use vstd::prelude::*;

verus! {

/// `(major + 1, 0, 0)`, pre-release and build text cleared.
pub fn major_version(version: Version) -> (r: Version)
    requires
        version.major < u64::MAX,
    ensures
        r@ == bumped_major(version@),
{
    Version::new(version.major + 1, 0, 0)
}

/// `(major, minor + 1, 0)`, pre-release and build text cleared.
pub fn minor_version(version: Version) -> (r: Version)
    requires
        version.minor < u64::MAX,
    ensures
        r@ == bumped_minor(version@),
{
    Version::new(version.major, version.minor + 1, 0)
}

/// `(major, minor, patch + 1)`, pre-release and build text cleared.
pub fn patch_version(version: Version) -> (r: Version)
    requires
        version.patch < u64::MAX,
    ensures
        r@ == bumped_patch(version@),
{
    Version::new(version.major, version.minor, version.patch + 1)
}

} // verus!
