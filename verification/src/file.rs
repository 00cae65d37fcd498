//! Paths as text, and the one question that is asked of the file system.

use crate::text::{chars_of, appended, has_prefix, has_suffix};
use vstd::prelude::*;
use vstd::string::*;

verus! {

/// The character that parts the components of a path.
pub open spec fn separator() -> Seq<char> {
    seq!['/']
}

/// `relative` under the directory `base`. A `relative` that begins at the
/// root stands for itself; else it follows `base`, a separator between the
/// two where `base` is not empty and does not end in one.
pub open spec fn joined_path(base: Seq<char>, relative: Seq<char>) -> Seq<char> {
    if has_prefix(relative, separator()) || base.len() == 0 {
        relative
    } else if has_suffix(base, separator()) {
        base + relative
    } else {
        base + separator() + relative
    }
}

/// The path of `relative` under the directory `base`.
pub fn join_path(base: &str, relative: &str) -> (r: String)
    ensures
        r@ == joined_path(base@, relative@),
{
    proof {
        reveal_strlit("/");
        assert("/"@ =~= separator());
    }
    let b = chars_of(base);
    let r = chars_of(relative);
    if (r.len() > 0 && r[0] == '/') || b.len() == 0 {
        proof {
            if r.len() > 0 && r[0] == '/' {
                assert(relative@.subrange(0, 1) =~= separator());
            } else if r.len() > 0 {
                assert(relative@.subrange(0, 1)[0] == relative@[0]);
            }
        }
        String::from_str(relative)
    } else if b[b.len() - 1] == '/' {
        proof {
            if r.len() > 0 {
                assert(relative@.subrange(0, 1)[0] == relative@[0]);
            }
            assert(base@.subrange(base@.len() - 1, base@.len() as int) =~= separator());
        }
        appended(base, relative)
    } else {
        proof {
            assert(base@.subrange(base@.len() - 1, base@.len() as int)[0] == base@[base@.len()
                - 1]);
        }
        let mut out = appended(base, "/");
        out.append(relative);
        out
    }
}

/// Asks the file system whether paths exist.
pub struct FileChecker;

impl FileChecker {
    pub fn new() -> Self {
        FileChecker {  }
    }

    /// Whether `path` names something that exists now, by
    /// `std::path::Path::exists`. The answer depends on the disk at the moment
    /// of the call, so nothing is claimed of it.
    #[verifier::external_body]
    pub fn file_exists(&self, path: &str) -> bool {
        std::path::Path::new(path).exists()
    }
}

} // verus!
