//! The full names of references.

use crate::text::appended;
use vstd::prelude::*;

verus! {

/// The full name of the branch `branch_name`.
pub open spec fn branch_reference(branch_name: Seq<char>) -> Seq<char> {
    "refs/heads/"@ + branch_name
}

/// The full name of the tag `tag`.
pub open spec fn tag_reference(tag: Seq<char>) -> Seq<char> {
    "refs/tags/"@ + tag
}

pub fn branch_ref_name(branch_name: &str) -> (r: String)
    ensures
        r@ == branch_reference(branch_name@),
{
    appended("refs/heads/", branch_name)
}

pub fn tag_ref_name(tag: &str) -> (r: String)
    ensures
        r@ == tag_reference(tag@),
{
    appended("refs/tags/", tag)
}

} // verus!
