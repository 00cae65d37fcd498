//! Writing the next version into a project's files.

pub mod file_transform;
pub mod project_transform;
