//! Where a project's configuration file may stand, and which of the places is taken.

use crate::file::{join_path, joined_path, FileChecker};
use vstd::prelude::*;
use vstd::string::*;

verus! {

/// The names under which a configuration file is looked for, in order of preference.
pub open spec fn config_name(i: int) -> Seq<char> {
    if i == 0 {
        "sheepit.toml"@
    } else {
        ".sheepit.toml"@
    }
}

/// The places in `repo_path` at which a configuration file is looked for.
pub open spec fn candidates(repo_path: Seq<char>) -> Seq<Seq<char>> {
    seq![joined_path(repo_path, config_name(0)), joined_path(repo_path, config_name(1))]
}

/// The first of `paths` that `found` marks, if it marks one.
pub open spec fn first_marked(paths: Seq<Seq<char>>, found: Seq<bool>) -> Option<Seq<char>>
    decreases paths.len(),
{
    if paths.len() == 0 || found.len() == 0 {
        None
    } else if found[0] {
        Some(paths[0])
    } else {
        first_marked(paths.drop_first(), found.drop_first())
    }
}

/// The characters of a path, where there is one.
pub open spec fn path_text(path: Option<String>) -> Option<Seq<char>> {
    match path {
        Some(p) => Some(p@),
        None => None,
    }
}

/// The characters of each of `paths`.
pub open spec fn path_texts(paths: Seq<String>) -> Seq<Seq<char>> {
    paths.map_values(|p: String| p@)
}

fn config_names() -> (r: Vec<String>)
    ensures
        r@.len() == 2,
        r@[0]@ == config_name(0),
        r@[1]@ == config_name(1),
{
    let mut names: Vec<String> = Vec::new();
    names.push(String::from_str("sheepit.toml"));
    names.push(String::from_str(".sheepit.toml"));
    names
}

/// The places in `repo_path` at which a configuration file is looked for, the preferred one first.
pub fn config_paths(repo_path: &str) -> (r: Vec<String>)
    ensures
        path_texts(r@) == candidates(repo_path@),
{
    let names = config_names();
    let mut paths: Vec<String> = Vec::new();
    let mut i: usize = 0;
    while i < names.len()
        invariant
            i <= names.len(),
            names@.len() == 2,
            names@[0]@ == config_name(0),
            names@[1]@ == config_name(1),
            paths@.len() == i,
            forall|k: int|
                0 <= k < i ==> (#[trigger] paths@[k])@ == joined_path(repo_path@, config_name(k)),
        decreases names.len() - i,
    {
        paths.push(join_path(repo_path, names[i].as_str()));
        i += 1;
    }
    paths
}

/// The first of `paths` whose place in `found` holds `true`; none where no
/// place does. Places beyond the shorter of the two are not looked at.
pub fn first_found(paths: &Vec<String>, found: &Vec<bool>) -> (r: Option<String>)
    ensures
        path_text(r) == first_marked(path_texts(paths@), found@),
{
    let mut i: usize = 0;
    proof {
        assert(path_texts(paths@).skip(0) =~= path_texts(paths@));
        assert(found@.skip(0) =~= found@);
    }
    while i < paths.len() && i < found.len()
        invariant
            i <= paths.len(),
            i <= found.len(),
            first_marked(path_texts(paths@), found@) == first_marked(
                path_texts(paths@).skip(i as int),
                found@.skip(i as int),
            ),
        decreases paths.len() - i,
    {
        let ghost p = path_texts(paths@).skip(i as int);
        let ghost f = found@.skip(i as int);
        if found[i] {
            return Some(paths[i].clone());
        }
        proof {
            assert(p.drop_first() =~= path_texts(paths@).skip(i + 1));
            assert(f.drop_first() =~= found@.skip(i + 1));
        }
        i += 1;
    }
    None
}

/// The configuration file of the project at `repo_path`: the first of the
/// places looked at that `file_checker` finds taken. Which places it finds
/// taken is for the file system to say, so the contract speaks of every answer.
pub fn find_config(file_checker: &FileChecker, repo_path: &str) -> (r: Option<String>)
    ensures
        exists|found: Seq<bool>|
            found.len() == 2 && path_text(r) == #[trigger] first_marked(
                candidates(repo_path@),
                found,
            ),
{
    let paths = config_paths(repo_path);
    let mut found: Vec<bool> = Vec::new();
    let mut i: usize = 0;
    while i < paths.len()
        invariant
            i <= paths.len(),
            found@.len() == i,
        decreases paths.len() - i,
    {
        found.push(file_checker.file_exists(paths[i].as_str()));
        i += 1;
    }
    first_found(&paths, &found)
}

} // verus!
