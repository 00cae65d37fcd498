//! Which of the files in a user's ssh directory is the private key.

use crate::error::{alarm, SheepError};
use crate::file::{join_path, joined_path};
use crate::text::{ends_with, has_prefix, has_suffix, starts_with};
use vstd::prelude::*;

verus! {

/// `name` is that of a private key: it begins with `id_` and does not end in `.pub`.
pub open spec fn is_key_name(name: Seq<char>) -> bool {
    has_prefix(name, "id_"@) && !has_suffix(name, ".pub"@)
}

/// `i` is the place of the first key name among `names`.
pub open spec fn is_first_key(names: Seq<String>, i: int) -> bool {
    &&& 0 <= i < names.len()
    &&& is_key_name(names[i]@)
    &&& forall|j: int| 0 <= j < i ==> !is_key_name(#[trigger] names[j]@)
}

/// The first of `file_names` that is the name of a private key.
pub fn find_best_key_name(file_names: Vec<String>) -> (r: Result<String, SheepError>)
    ensures
        match r {
            Ok(name) => exists|i: int|
                is_first_key(file_names@, i) && name@ == (#[trigger] file_names@[i])@,
            Err(e) => {
                &&& forall|j: int|
                    0 <= j < file_names.len() ==> !is_key_name(#[trigger] file_names@[j]@)
                &&& e@ == alarm() + "failed to find ssh key"@
            },
        },
{
    let mut i: usize = 0;
    while i < file_names.len()
        invariant
            i <= file_names.len(),
            forall|j: int| 0 <= j < i ==> !is_key_name(#[trigger] file_names@[j]@),
        decreases file_names.len() - i,
    {
        let name = file_names[i].as_str();
        if !ends_with(name, ".pub") && starts_with(name, "id_") {
            return Ok(file_names[i].clone());
        }
        i += 1;
    }
    Err(SheepError::new("failed to find ssh key"))
}

/// The path of the private key in `ssh_dir`, which holds the files `file_names`.
pub fn find_best_ssh_key(ssh_dir: &str, file_names: Vec<String>) -> (r: Result<String, SheepError>)
    ensures
        match r {
            Ok(path) => exists|i: int|
                is_first_key(file_names@, i) && path@ == joined_path(
                    ssh_dir@,
                    (#[trigger] file_names@[i])@,
                ),
            Err(e) => {
                &&& forall|j: int|
                    0 <= j < file_names.len() ==> !is_key_name(#[trigger] file_names@[j]@)
                &&& e@ == alarm() + "failed to find ssh key"@
            },
        },
{
    match find_best_key_name(file_names) {
        Ok(name) => Ok(join_path(ssh_dir, name.as_str())),
        Err(e) => Err(e),
    }
}

} // verus!
