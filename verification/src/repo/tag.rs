//! Tags.

use crate::repo::{RepoAction, RepoActionView};
use vstd::prelude::*;
use vstd::string::*;

verus! {

/// The tag operations of the backend.
pub struct GitTags;

/// The names among `names` that are there, in order.
pub open spec fn present_names(names: Seq<Option<String>>) -> Seq<Seq<char>>
    decreases names.len(),
{
    if names.len() == 0 {
        Seq::empty()
    } else {
        let before = present_names(names.drop_last());
        match names.last() {
            Some(name) => before.push(name@),
            None => before,
        }
    }
}

impl GitTags {
    pub fn new() -> Self {
        GitTags {  }
    }

    /// Asks for the tag `tag_name` at the head commit: an annotated one
    /// where there is a message, a lightweight one where there is none.
    pub fn create_tag(&self, tag_name: &str, message: Option<&str>) -> (r: RepoAction)
        ensures
            r@ == match message {
                Some(m) => RepoActionView::CreateAnnotatedTag { name: tag_name@, annotation: m@ },
                None => RepoActionView::CreateLightweightTag { name: tag_name@ },
            },
    {
        match message {
            None => RepoAction::CreateLightweightTag { name: String::from_str(tag_name) },
            Some(msg) => RepoAction::CreateAnnotatedTag {
                name: String::from_str(tag_name),
                annotation: String::from_str(msg),
            },
        }
    }

    /// The tag names of a repository, from what listing them gave: the names
    /// that came as text, or none at all where the tags could not be listed.
    pub fn get_tags(&self, listed: Option<Vec<Option<String>>>) -> (r: Vec<String>)
        ensures
            r@.map_values(|t: String| t@) == match listed {
                Some(names) => present_names(names@),
                None => Seq::empty(),
            },
    {
        match listed {
            Some(names) => self.map_tag_names_to_vec(&names),
            None => {
                let none: Vec<String> = Vec::new();
                none
            },
        }
    }

    /// The tag names of a repository as the backend lists them, without
    /// those that it could not give as text.
    pub fn map_tag_names_to_vec(&self, tag_names: &Vec<Option<String>>) -> (r: Vec<String>)
        ensures
            r@.map_values(|t: String| t@) == present_names(tag_names@),
    {
        let mut out: Vec<String> = Vec::new();
        let mut i: usize = 0;
        while i < tag_names.len()
            invariant
                i <= tag_names.len(),
                out@.map_values(|t: String| t@) == present_names(tag_names@.take(i as int)),
            decreases tag_names.len() - i,
        {
            proof {
                assert(tag_names@.take(i + 1).drop_last() =~= tag_names@.take(i as int));
            }
            match &tag_names[i] {
                Some(name) => {
                    out.push(name.clone());
                },
                None => {},
            }
            i += 1;
        }
        assert(tag_names@.take(i as int) =~= tag_names@);
        out
    }
}

} // verus!
