//! One substitution in one file.

use crate::config::TransformConfig;
use crate::file::{join_path, joined_path};
use crate::text::{replace_first, replaced_first};
use crate::version::update::{VersionUpdate, VersionUpdateView};
use crate::version::{render, rendered};
use vstd::prelude::*;

verus! {

/// The pattern that `config` looks for: `find`, or `replace` where `find` is absent.
pub open spec fn find_pattern(config: TransformConfig) -> Seq<char> {
    match config.find {
        Some(find) => find@,
        None => config.replace@,
    }
}

/// The text that is looked for in the file: the find pattern with the current version in it.
pub open spec fn find_text(config: TransformConfig, update: VersionUpdateView) -> Seq<char> {
    rendered(find_pattern(config), update.current)
}

/// The text that is written in its place: the replace pattern with the next version in it.
pub open spec fn replace_text(config: TransformConfig, update: VersionUpdateView) -> Seq<char> {
    rendered(config.replace@, update.next)
}

/// What a file that holds `text` holds after the substitution: the leftmost
/// occurrence of the find text has given way to the replace text; a file
/// without the find text is as it was.
pub open spec fn transformed(config: TransformConfig, update: VersionUpdateView, text: Seq<char>)
    -> Seq<char> {
    replaced_first(text, find_text(config, update), replace_text(config, update))
}

/// A substitution that is ready to be made, as views.
pub struct FileEditView {
    pub path: Seq<char>,
    pub find: Seq<char>,
    pub replace: Seq<char>,
}

/// A substitution that is ready to be made: the file, the text to look for, the text to write.
#[derive(Debug, PartialEq)]
pub struct FileEdit {
    pub path: String,
    pub find: String,
    pub replace: String,
}

impl View for FileEdit {
    type V = FileEditView;

    open spec fn view(&self) -> FileEditView {
        FileEditView { path: self.path@, find: self.find@, replace: self.replace@ }
    }
}

/// The edit that `config` asks for in the project at `project_path`: on the
/// file of the configured path under the project's, the find text gives way
/// to the replace text.
pub open spec fn edit_of(config: TransformConfig, project_path: Seq<char>, update: VersionUpdateView)
    -> FileEditView {
    FileEditView {
        path: joined_path(project_path, config.path@),
        find: find_text(config, update),
        replace: replace_text(config, update),
    }
}

impl Clone for FileEdit {
    fn clone(&self) -> (r: Self)
        ensures
            r == *self,
    {
        FileEdit {
            path: self.path.clone(),
            find: self.find.clone(),
            replace: self.replace.clone(),
        }
    }
}

impl FileEdit {
    /// What the file holds after the edit, where it held `text` before.
    pub fn apply(&self, text: &str) -> (r: String)
        ensures
            r@ == replaced_first(text@, self@.find, self@.replace),
    {
        replace_first(text, self.find.as_str(), self.replace.as_str())
    }
}

/// One configured substitution, bound to the project whose file it changes.
pub struct FileTransformer<'a> {
    config: &'a TransformConfig,
    project_path: &'a str,
}

impl<'a> FileTransformer<'a> {
    pub closed spec fn config(&self) -> TransformConfig {
        *self.config
    }

    pub closed spec fn project_path(&self) -> Seq<char> {
        self.project_path@
    }

    pub fn new(config: &'a TransformConfig, project_path: &'a str) -> (r: Self)
        ensures
            r.config() == *config,
            r.project_path() == project_path@,
    {
        Self { config, project_path }
    }

    /// What the file holds after the substitution, where it held `file_text` before.
    pub fn transform(&self, version_update: &VersionUpdate, file_text: &str) -> (r: String)
        ensures
            r@ == transformed(self.config(), version_update@, file_text@),
    {
        let find = self.find_string(version_update);
        let replace = self.replace_string(version_update);
        replace_first(file_text, find.as_str(), replace.as_str())
    }

    /// The substitution, ready to be made on the file's text.
    pub fn edit(&self, version_update: &VersionUpdate) -> (r: FileEdit)
        ensures
            r@ == edit_of(self.config(), self.project_path(), version_update@),
    {
        FileEdit {
            path: self.full_path(),
            find: self.find_string(version_update),
            replace: self.replace_string(version_update),
        }
    }

    /// The file's path: the configured one, under the project's.
    pub fn full_path(&self) -> (r: String)
        ensures
            r@ == joined_path(self.project_path(), self.config().path@),
    {
        join_path(self.project_path, self.config.path.as_str())
    }

    fn find_string(&self, version_update: &VersionUpdate) -> (r: String)
        ensures
            r@ == find_text(self.config(), version_update@),
    {
        let find = match &self.config.find {
            Some(find) => find.as_str(),
            None => self.config.replace.as_str(),
        };
        render(find, &version_update.current_version)
    }

    fn replace_string(&self, version_update: &VersionUpdate) -> (r: String)
        ensures
            r@ == replace_text(self.config(), version_update@),
    {
        render(self.config.replace.as_str(), &version_update.next_version)
    }
}

} // verus!
