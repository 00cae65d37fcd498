//! All the substitutions of a project, in the order in which they were configured.

use crate::config::TransformConfig;
use crate::transform::file_transform::{edit_of, FileEdit, FileEditView, FileTransformer};
use crate::version::update::{VersionUpdate, VersionUpdateView};
use vstd::prelude::*;
use vstd::string::*;

verus! {

/// The substitutions of the project at one path.
#[derive(Debug, PartialEq)]
pub struct ProjectTransformer {
    project_path: String,
}

/// The edits that `configs` ask for in the project at `project_path`, one
/// for one and in their order.
pub open spec fn edits_of(
    configs: Seq<TransformConfig>,
    project_path: Seq<char>,
    update: VersionUpdateView,
) -> Seq<FileEditView> {
    Seq::new(configs.len(), |i: int| edit_of(configs[i], project_path, update))
}

/// The views of `edits`, in order.
pub open spec fn edit_views(edits: Seq<FileEdit>) -> Seq<FileEditView> {
    edits.map_values(|e: FileEdit| e@)
}

impl ProjectTransformer {
    pub closed spec fn project_path(&self) -> Seq<char> {
        self.project_path@
    }

    pub fn new(project_path: &str) -> (r: Self)
        ensures
            r.project_path() == project_path@,
    {
        ProjectTransformer { project_path: String::from_str(project_path) }
    }

    /// The path of the project.
    pub fn path(&self) -> (r: &str)
        ensures
            r@ == self.project_path(),
    {
        self.project_path.as_str()
    }

    /// The substitutions that `configs` ask for, ready to be made, in the order of `configs`.
    pub fn transform(&self, configs: &Vec<TransformConfig>, version_update: &VersionUpdate) -> (r:
        Vec<FileEdit>)
        ensures
            edit_views(r@) == edits_of(configs@, self.project_path(), version_update@),
    {
        let mut edits: Vec<FileEdit> = Vec::new();
        let mut i: usize = 0;
        while i < configs.len()
            invariant
                i <= configs.len(),
                edits@.len() == i,
                forall|k: int|
                    0 <= k < i ==> (#[trigger] edits@[k])@ == edit_of(
                        configs@[k],
                        self.project_path(),
                        version_update@,
                    ),
            decreases configs.len() - i,
        {
            let transformer = FileTransformer::new(&configs[i], self.project_path.as_str());
            edits.push(transformer.edit(version_update));
            i += 1;
        }
        edits
    }
}

} // verus!
