//! What a project's configuration holds, and what it holds where nothing was configured.

pub mod finder;

use crate::error::{alarm, SheepError};
use vstd::prelude::*;
use vstd::string::*;

verus! {

/// The configuration of one project.
#[derive(Debug, PartialEq)]
pub struct Config {
    pub repository: RepoConfig,
    pub scripts: ScriptConfig,
    pub subprojects: Vec<SubprojectConfig>,
    pub transforms: Vec<TransformConfig>,
}

/// Which steps a release takes in the repository, and under which names.
#[derive(Debug, PartialEq)]
pub struct RepoConfig {
    pub branch_pattern: String,
    pub commit_message: String,
    pub default_branch: String,
    pub enable_branch: bool,
    pub enable_commit: bool,
    pub enable_push: bool,
    pub enable_tag: bool,
    pub tag_pattern: String,
}

/// One substitution in one file: `find` is looked for with the current
/// version in the marker's place, `replace` is written with the next one.
/// Where `find` is absent, `replace` stands for it.
#[derive(Debug, PartialEq)]
pub struct TransformConfig {
    pub path: String,
    pub find: Option<String>,
    pub replace: String,
}

/// A repository that receives the same version update.
#[derive(Debug, PartialEq)]
pub struct SubprojectConfig {
    pub repo_url: String,
}

/// The shell commands that run in the course of a release.
#[derive(Debug, PartialEq)]
pub struct ScriptConfig {
    pub before_commit: Option<String>,
}

pub fn default_branch_pattern() -> (r: String)
    ensures
        r@ == "release/{version}"@,
{
    String::from_str("release/{version}")
}

pub fn default_commit_message() -> (r: String)
    ensures
        r@ == "preparing release {version}"@,
{
    String::from_str("preparing release {version}")
}

pub fn default_default_branch() -> (r: String)
    ensures
        r@ == "main"@,
{
    String::from_str("main")
}

pub fn default_tag_pattern() -> (r: String)
    ensures
        r@ == "{version}"@,
{
    String::from_str("{version}")
}

pub fn yes() -> (r: bool)
    ensures
        r,
{
    true
}

impl RepoConfig {
    /// This configuration is the one that stands where nothing was configured.
    pub open spec fn is_default(&self) -> bool {
        &&& self.branch_pattern@ == "release/{version}"@
        &&& self.commit_message@ == "preparing release {version}"@
        &&& self.default_branch@ == "main"@
        &&& !self.enable_branch
        &&& !self.enable_commit
        &&& self.enable_push
        &&& self.enable_tag
        &&& self.tag_pattern@ == "{version}"@
    }
}

impl Default for RepoConfig {
    fn default() -> (r: Self)
        ensures
            r.is_default(),
    {
        RepoConfig {
            branch_pattern: default_branch_pattern(),
            commit_message: default_commit_message(),
            default_branch: default_default_branch(),
            enable_branch: false,
            enable_commit: false,
            enable_tag: yes(),
            enable_push: yes(),
            tag_pattern: default_tag_pattern(),
        }
    }
}

impl Default for TransformConfig {
    fn default() -> (r: Self)
        ensures
            r.path@.len() == 0,
            r.find is None,
            r.replace@.len() == 0,
    {
        TransformConfig { path: String::new(), find: None, replace: String::new() }
    }
}

impl Default for SubprojectConfig {
    fn default() -> (r: Self)
        ensures
            r.repo_url@.len() == 0,
    {
        SubprojectConfig { repo_url: String::new() }
    }
}

impl Default for ScriptConfig {
    fn default() -> (r: Self)
        ensures
            r.before_commit is None,
    {
        ScriptConfig { before_commit: None }
    }
}

impl Config {
    /// The configuration of a project, from what its configuration file
    /// gave: the default where the project has no file or the file could
    /// not be read, else what the file holds, or the reason why it holds no
    /// configuration.
    pub fn open(read: Option<Result<Config, String>>) -> (r: Result<Config, SheepError>)
        ensures
            match read {
                None => r is Ok && r->Ok_0.repository.is_default()
                    && r->Ok_0.scripts.before_commit is None && r->Ok_0.subprojects@.len() == 0
                    && r->Ok_0.transforms@.len() == 0,
                Some(Ok(config)) => r == Ok::<Config, SheepError>(config),
                Some(Err(reason)) => r is Err && r->Err_0@ == alarm() + "config parse error: "@
                    + reason@,
            },
    {
        match read {
            None => Ok(Config::default()),
            Some(Ok(config)) => Ok(config),
            Some(Err(reason)) => Err(SheepError::config(reason.as_str())),
        }
    }
}

impl Default for Config {
    fn default() -> (r: Self)
        ensures
            r.repository.is_default(),
            r.scripts.before_commit is None,
            r.subprojects@.len() == 0,
            r.transforms@.len() == 0,
    {
        Config {
            repository: RepoConfig::default(),
            scripts: ScriptConfig::default(),
            subprojects: Vec::new(),
            transforms: Vec::new(),
        }
    }
}

} // verus!
