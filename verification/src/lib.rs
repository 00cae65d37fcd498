//! Planning the release of a repository.
//!
//! From the tags of a repository and the operation asked for, this library
//! works out the next version, the names of the branch, the commit and the
//! tag, the edits to the project's files, and the order of the steps that
//! make the release. It touches no repository itself: it hands out a plan,
//! and says after each step that was carried out what comes next.

pub mod config;
pub mod error;
pub mod file;
pub mod project;
pub mod repo;
pub mod script;
pub mod text;
pub mod token;
pub mod transform;
pub mod version;

pub use crate::error::SheepError;
pub use crate::project::operation::{BumpMode, Operation};
