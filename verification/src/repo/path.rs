//! Where the clone of a repository goes.

use crate::error::{alarm, SheepError};
use crate::file::{join_path, joined_path};
use vstd::prelude::*;

verus! {

/// The name of a repository, from what reading its address gave: the name
/// that was read, or the reason why none was.
pub fn repo_name(parsed: Result<String, String>) -> (r: Result<String, SheepError>)
    ensures
        match parsed {
            Ok(name) => if name@.len() == 0 {
                r is Err && r->Err_0@ == alarm() + "no repo name found in git url"@
            } else {
                r is Ok && r->Ok_0@ == name@
            },
            Err(reason) => r is Err && r->Err_0@ == alarm() + "git url parse error: "@ + reason@,
        },
{
    match parsed {
        Ok(name) => {
            if name.as_str().is_empty() {
                Err(SheepError::new("no repo name found in git url"))
            } else {
                Ok(name)
            }
        },
        Err(reason) => Err(SheepError::git_url(reason.as_str())),
    }
}

/// The directory of a repository's clone: the one named after the
/// repository, in `directory`.
pub fn repo_path(parsed: Result<String, String>, directory: &str) -> (r: Result<
    String,
    SheepError,
>)
    ensures
        match parsed {
            Ok(name) => if name@.len() == 0 {
                r is Err && r->Err_0@ == alarm() + "no repo name found in git url"@
            } else {
                r is Ok && r->Ok_0@ == joined_path(directory@, name@)
            },
            Err(reason) => r is Err && r->Err_0@ == alarm() + "git url parse error: "@ + reason@,
        },
{
    match repo_name(parsed) {
        Ok(name) => Ok(join_path(directory, name.as_str())),
        Err(e) => Err(e),
    }
}

} // verus!
