//! A project under release: which steps its update takes, and in which order.
//!
//! The update is laid out here as a plan. Whoever holds the repository
//! carries the plan out step by step and stops at the first step that fails;
//! nothing that was done is undone.

pub mod operation;
pub mod project_version;
pub mod strings;

use crate::config::{Config, RepoConfig, ScriptConfig, SubprojectConfig, TransformConfig};
use crate::error::{alarm, SheepError};
use crate::project::operation::Operation;
use crate::project::project_version::{resolved_version, CurrentVersion, ProjectVersion};
use crate::project::strings::ProjectStrings;
use crate::repo::branch::GitBranches;
use crate::repo::commit::GitCommits;
use crate::repo::reference::{branch_reference, tag_reference};
use crate::repo::remote::{refspec, GitRemotes};
use crate::repo::tag::GitTags;
use crate::repo::{RepoAction, RepoActionView};
use crate::script::{script_command, ScriptCommand, ScriptCommandView, ScriptRunner};
use crate::transform::file_transform::{FileEdit, FileEditView};
use crate::transform::project_transform::{edit_views, edits_of, ProjectTransformer};
use crate::version::list::texts;
use crate::version::update::{VersionUpdate, VersionUpdateView};
use crate::version::release;
use vstd::prelude::*;
use vstd::string::*;

verus! {

/// How a project came to be.
#[derive(Clone, Copy, Debug, PartialEq, Eq)]
pub enum ProjectKind {
    /// Opened where it stands.
    Local,
    /// Cloned from an address.
    Remote,
    /// A throwaway clone of a local project's origin.
    DryRun,
}

/// One step of an update, as views.
pub enum StepView {
    Repo(RepoActionView),
    Transform(FileEditView),
    Script { command: ScriptCommandView, name: Seq<char> },
}

/// One step of an update.
#[derive(Debug, PartialEq)]
pub enum Step {
    /// An operation on the repository.
    Repo(RepoAction),
    /// Read the file, make the edit on its text, write all of the text back.
    Transform(FileEdit),
    /// Run the command and wait for it; the script `name` has failed where
    /// the command does not end in success.
    Script { command: ScriptCommand, name: String },
}

impl View for Step {
    type V = StepView;

    open spec fn view(&self) -> StepView {
        match self {
            Step::Repo(action) => StepView::Repo(action@),
            Step::Transform(edit) => StepView::Transform(edit@),
            Step::Script { command, name } => StepView::Script { command: command@, name: name@ },
        }
    }
}

/// The views of `steps`, in order.
pub open spec fn step_views(steps: Seq<Step>) -> Seq<StepView> {
    steps.map_values(|s: Step| s@)
}

/// The same version update, to be made of one subproject.
#[derive(Debug, PartialEq)]
pub struct SubprojectUpdate {
    /// The address from which the subproject is cloned.
    pub repo_url: String,
    /// Whether the subproject is updated as a rehearsal.
    pub is_dry_run_project: bool,
    /// Sets the subproject to the versions of its parent's update.
    pub operation: Operation,
}

impl SubprojectUpdate {
    /// This is the update of the subproject `config` that follows from
    /// `update` in a parent that is, or is not, a rehearsal.
    pub open spec fn cascades(
        &self,
        config: SubprojectConfig,
        is_dry_run: bool,
        update: VersionUpdateView,
    ) -> bool {
        &&& self.repo_url@ == config.repo_url@
        &&& self.is_dry_run_project == is_dry_run
        &&& self.operation matches Operation::SetVersion { current_version, next_version }
        &&& current_version matches Some(current)
        &&& current@ == update.current
        &&& next_version@ == update.next
    }
}

/// What an update does, from first to last.
#[derive(Debug, PartialEq)]
pub struct UpdatePlan {
    /// The versions between which the update moves.
    pub version_update: VersionUpdate,
    /// The names that the update uses.
    pub strings: ProjectStrings,
    /// What is done to the project itself, in order.
    pub steps: Vec<Step>,
    /// What is then done to its subprojects, in order.
    pub subprojects: Vec<SubprojectUpdate>,
}

/// What is to be done next in the course of an update.
#[derive(Debug, PartialEq)]
pub enum Next<'a> {
    /// Carry out this step on the project.
    Step(&'a Step),
    /// Clone this subproject and update it.
    Subproject(&'a SubprojectUpdate),
    /// Nothing is left to do.
    Done,
}

impl UpdatePlan {
    /// What follows once `done` actions of the plan are done: the steps come
    /// first, in order, then the subprojects, in order.
    pub open spec fn following(&self, done: int) -> Next {
        if done < self.steps@.len() {
            Next::Step(&self.steps@[done])
        } else if done < self.steps@.len() + self.subprojects@.len() {
            Next::Subproject(&self.subprojects@[done - self.steps@.len()])
        } else {
            Next::Done
        }
    }

    /// What is to be done after `done` actions of the plan, the last of
    /// which ended as `last` says. A failure ends the update with its error:
    /// nothing follows it, and nothing that was done is undone.
    pub fn resume(&self, done: usize, last: Result<(), SheepError>) -> (r: Result<
        Next,
        SheepError,
    >)
        ensures
            match last {
                Ok(_) => r == Ok::<Next, SheepError>(self.following(done as int)),
                Err(e) => r == Err::<Next, SheepError>(e),
            },
    {
        match last {
            Err(e) => Err(e),
            Ok(_) => {
                if done < self.steps.len() {
                    Ok(Next::Step(&self.steps[done]))
                } else if done - self.steps.len() < self.subprojects.len() {
                    Ok(Next::Subproject(&self.subprojects[done - self.steps.len()]))
                } else {
                    Ok(Next::Done)
                }
            },
        }
    }
}

/// The name under which the script that runs before a commit is reported.
pub open spec fn before_commit() -> Seq<char> {
    "before_commit"@
}

/// The update makes a commit: commits are enabled, and there is something
/// that may change the working tree, a transform or a script.
pub open spec fn commit_occurs(repo: RepoConfig, config: Config) -> bool {
    repo.enable_commit && (config.transforms@.len() > 0 || config.scripts.before_commit is Some)
}

/// A new branch, checked out: where branches are enabled.
pub open spec fn branch_steps(repo: RepoConfig, branch_name: Seq<char>) -> Seq<StepView> {
    if repo.enable_branch {
        seq![
            StepView::Repo(RepoActionView::CreateBranch { name: branch_name }),
            StepView::Repo(RepoActionView::Checkout { reference: branch_reference(branch_name) }),
        ]
    } else {
        Seq::empty()
    }
}

/// Every configured transform, in the order of the configuration.
pub open spec fn transform_steps(
    transforms: Seq<TransformConfig>,
    path: Seq<char>,
    update: VersionUpdateView,
) -> Seq<StepView> {
    edits_of(transforms, path, update).map_values(|e: FileEditView| StepView::Transform(e))
}

/// The script that runs before the commit, where one is configured.
pub open spec fn script_steps(scripts: ScriptConfig, path: Seq<char>, update: VersionUpdateView)
    -> Seq<StepView> {
    match scripts.before_commit {
        Some(script) => seq![
            StepView::Script {
                command: script_command(script@, path, update),
                name: before_commit(),
            },
        ],
        None => Seq::empty(),
    }
}

/// The transforms, the script, then the commit: where a commit occurs.
pub open spec fn commit_steps(
    repo: RepoConfig,
    config: Config,
    path: Seq<char>,
    update: VersionUpdateView,
    commit_message: Seq<char>,
) -> Seq<StepView> {
    if commit_occurs(repo, config) {
        transform_steps(config.transforms@, path, update) + script_steps(
            config.scripts,
            path,
            update,
        ) + seq![
            StepView::Repo(
                RepoActionView::Commit {
                    message: commit_message,
                    default_branch: repo.default_branch@,
                },
            ),
        ]
    } else {
        Seq::empty()
    }
}

/// A lightweight tag at the head: where tags are enabled.
pub open spec fn tag_steps(repo: RepoConfig, tag_name: Seq<char>) -> Seq<StepView> {
    if repo.enable_tag {
        seq![StepView::Repo(RepoActionView::CreateLightweightTag { name: tag_name })]
    } else {
        Seq::empty()
    }
}

/// The push of one branch: the new branch where one was made, else the
/// default branch where a commit occurred, else none.
pub open spec fn branch_push_steps(
    repo: RepoConfig,
    config: Config,
    branch_name: Seq<char>,
    remote_name: Seq<char>,
) -> Seq<StepView> {
    if repo.enable_branch {
        seq![
            StepView::Repo(
                RepoActionView::Push {
                    remote: remote_name,
                    refspec: refspec(branch_reference(branch_name)),
                },
            ),
        ]
    } else if commit_occurs(repo, config) {
        seq![
            StepView::Repo(
                RepoActionView::Push {
                    remote: remote_name,
                    refspec: refspec(branch_reference(repo.default_branch@)),
                },
            ),
        ]
    } else {
        Seq::empty()
    }
}

/// The push of the tag, where one was made.
pub open spec fn tag_push_steps(repo: RepoConfig, tag_name: Seq<char>, remote_name: Seq<char>)
    -> Seq<StepView> {
    if repo.enable_tag {
        seq![
            StepView::Repo(
                RepoActionView::Push {
                    remote: remote_name,
                    refspec: refspec(tag_reference(tag_name)),
                },
            ),
        ]
    } else {
        Seq::empty()
    }
}

/// The pushes, branch before tag: where pushing is enabled and the project is no rehearsal.
pub open spec fn push_steps(
    repo: RepoConfig,
    config: Config,
    is_dry_run: bool,
    strings: ProjectStrings,
) -> Seq<StepView> {
    if repo.enable_push && !is_dry_run {
        branch_push_steps(repo, config, strings.branch_name@, strings.remote_name@)
            + tag_push_steps(repo, strings.tag_name@, strings.remote_name@)
    } else {
        Seq::empty()
    }
}

/// What an update does to the project itself: branch, commit, tag, push, in
/// this order, each where the configuration asks for it.
pub open spec fn repo_steps(
    repo: RepoConfig,
    config: Config,
    path: Seq<char>,
    is_dry_run: bool,
    strings: ProjectStrings,
    update: VersionUpdateView,
) -> Seq<StepView> {
    branch_steps(repo, strings.branch_name@) + commit_steps(
        repo,
        config,
        path,
        update,
        strings.commit_message@,
    ) + tag_steps(repo, strings.tag_name@) + push_steps(repo, config, is_dry_run, strings)
}

/// `updates` are those of the subprojects `configs`, one for one and in their order.
pub open spec fn cascade_of(
    updates: Seq<SubprojectUpdate>,
    configs: Seq<SubprojectConfig>,
    is_dry_run: bool,
    update: VersionUpdateView,
) -> bool {
    &&& updates.len() == configs.len()
    &&& forall|i: int|
        0 <= i < configs.len() ==> (#[trigger] updates[i]).cascades(configs[i], is_dry_run, update)
}

/// With branches, tags and pushes enabled and commits disabled, a project
/// that is no rehearsal takes five steps: it makes the branch and checks it
/// out, makes the tag, and pushes first the branch, then the tag. It makes
/// no commit.
pub proof fn lemma_branch_tag_push(
    repo: RepoConfig,
    config: Config,
    path: Seq<char>,
    strings: ProjectStrings,
    update: VersionUpdateView,
)
    requires
        repo.enable_branch,
        repo.enable_tag,
        repo.enable_push,
        !repo.enable_commit,
    ensures
        repo_steps(repo, config, path, false, strings, update) == seq![
            StepView::Repo(RepoActionView::CreateBranch { name: strings.branch_name@ }),
            StepView::Repo(
                RepoActionView::Checkout { reference: branch_reference(strings.branch_name@) },
            ),
            StepView::Repo(RepoActionView::CreateLightweightTag { name: strings.tag_name@ }),
            StepView::Repo(
                RepoActionView::Push {
                    remote: strings.remote_name@,
                    refspec: refspec(branch_reference(strings.branch_name@)),
                },
            ),
            StepView::Repo(
                RepoActionView::Push {
                    remote: strings.remote_name@,
                    refspec: refspec(tag_reference(strings.tag_name@)),
                },
            ),
        ],
{
    let steps = repo_steps(repo, config, path, false, strings, update);
    let expected = seq![
        StepView::Repo(RepoActionView::CreateBranch { name: strings.branch_name@ }),
        StepView::Repo(
            RepoActionView::Checkout { reference: branch_reference(strings.branch_name@) },
        ),
        StepView::Repo(RepoActionView::CreateLightweightTag { name: strings.tag_name@ }),
        StepView::Repo(
            RepoActionView::Push {
                remote: strings.remote_name@,
                refspec: refspec(branch_reference(strings.branch_name@)),
            },
        ),
        StepView::Repo(
            RepoActionView::Push {
                remote: strings.remote_name@,
                refspec: refspec(tag_reference(strings.tag_name@)),
            },
        ),
    ];
}

/// A repository without tags is at version `0.0.1`, whatever its tag pattern.
pub proof fn lemma_no_tags_resolve_to_default(tag_pattern: Seq<char>)
    ensures
        resolved_version(Seq::empty(), tag_pattern) == release(0, 0, 1),
{
}

/// Nothing is left out because it was done before. The steps follow from
/// the configuration and the names alone, not from what the repository
/// holds: where branches are enabled the first step makes the branch, and
/// where tags are enabled one step makes the tag, also in a repository that
/// has a branch or a tag of that name. An update that is run again asks for
/// both again.
pub proof fn lemma_existing_names_are_asked_for_again(
    repo: RepoConfig,
    config: Config,
    path: Seq<char>,
    is_dry_run: bool,
    strings: ProjectStrings,
    update: VersionUpdateView,
)
    ensures
        repo.enable_branch ==> repo_steps(repo, config, path, is_dry_run, strings, update).len()
            > 0 && repo_steps(repo, config, path, is_dry_run, strings, update)[0]
            == StepView::Repo(RepoActionView::CreateBranch { name: strings.branch_name@ }),
        repo.enable_tag ==> repo_steps(repo, config, path, is_dry_run, strings, update).contains(
            StepView::Repo(RepoActionView::CreateLightweightTag { name: strings.tag_name@ }),
        ),
{
    let steps = repo_steps(repo, config, path, is_dry_run, strings, update);
    if repo.enable_tag {
        let at = branch_steps(repo, strings.branch_name@).len() + commit_steps(
            repo,
            config,
            path,
            update,
            strings.commit_message@,
        ).len();
        assert(steps[at as int] == StepView::Repo(
            RepoActionView::CreateLightweightTag { name: strings.tag_name@ },
        ));
    }
}

/// A project: its configuration, the place of its working tree, and whether
/// what is done to it is a rehearsal.
pub struct Project {
    config: Config,
    transformer: ProjectTransformer,
    is_dry_run_project: bool,
    kind: ProjectKind,
}

fn push_step(steps: &mut Vec<Step>, step: Step)
    ensures
        step_views(final(steps)@) == step_views(old(steps)@).push(step@),
{
    steps.push(step);
    assert(step_views(steps@) =~= step_views(old(steps)@).push(step@));
}

impl Project {
    pub closed spec fn config(&self) -> Config {
        self.config
    }

    pub closed spec fn path(&self) -> Seq<char> {
        self.transformer.project_path()
    }

    pub closed spec fn is_dry_run(&self) -> bool {
        self.is_dry_run_project
    }

    pub closed spec fn kind(&self) -> ProjectKind {
        self.kind
    }

    /// A local project is no rehearsal, and a dry run is one.
    pub open spec fn well_formed(&self) -> bool {
        &&& self.kind() == ProjectKind::Local ==> !self.is_dry_run()
        &&& self.kind() == ProjectKind::DryRun ==> self.is_dry_run()
    }

    /// The project that stands at `path`, with the configuration found there.
    pub fn new_local_project(path: &str, config: Config) -> (r: Project)
        ensures
            r.well_formed(),
            r.config() == config,
            r.path() == path@,
            !r.is_dry_run(),
            r.kind() == ProjectKind::Local,
    {
        Project {
            config,
            transformer: ProjectTransformer::new(path),
            is_dry_run_project: false,
            kind: ProjectKind::Local,
        }
    }

    /// The project that was cloned to `repo_path`, with the configuration found there.
    pub fn new_remote_project(repo_path: &str, config: Config, is_dry_run_project: bool) -> (r:
        Project)
        ensures
            r.well_formed(),
            r.config() == config,
            r.path() == repo_path@,
            r.is_dry_run() == is_dry_run_project,
            r.kind() == ProjectKind::Remote,
    {
        Project {
            config,
            transformer: ProjectTransformer::new(repo_path),
            is_dry_run_project,
            kind: ProjectKind::Remote,
        }
    }

    /// The rehearsal of `local_project` on `remote_project`, a clone of its
    /// origin: it has the configuration of the first and the working tree of
    /// the second.
    pub fn new_dry_run_project(local_project: Project, remote_project: Project) -> (r: Project)
        ensures
            r.well_formed(),
            r.config() == local_project.config(),
            r.path() == remote_project.path(),
            r.is_dry_run(),
            r.kind() == ProjectKind::DryRun,
    {
        Project {
            config: local_project.config,
            transformer: remote_project.transformer,
            is_dry_run_project: true,
            kind: ProjectKind::DryRun,
        }
    }

    /// The project's configuration.
    pub fn configuration(&self) -> (r: &Config)
        ensures
            *r == self.config(),
    {
        &self.config
    }

    /// The place of the project's working tree.
    pub fn root(&self) -> (r: &str)
        ensures
            r@ == self.path(),
    {
        self.transformer.path()
    }

    /// Whether what is done to the project is a rehearsal.
    pub fn is_dry_run_project(&self) -> (r: bool)
        ensures
            r == self.is_dry_run(),
    {
        self.is_dry_run_project
    }

    /// How the project came to be.
    pub fn project_kind(&self) -> (r: ProjectKind)
        ensures
            r == self.kind(),
    {
        self.kind
    }

    /// The plan of the update that `operation` asks for, in a repository
    /// whose tags are `tags`. There is none where the operation raises a
    /// number that is already the largest a version can hold.
    pub fn update(&self, operation: Operation, tags: Vec<String>) -> (r: Result<
        UpdatePlan,
        SheepError,
    >)
        ensures
            r is Ok <==> operation.can_update(
                resolved_version(texts(tags@), self.config().repository.tag_pattern@),
            ),
            match r {
                Ok(plan) => {
                    let update = operation.update_of(
                        resolved_version(texts(tags@), self.config().repository.tag_pattern@),
                    );
                    &&& plan.version_update@ == update
                    &&& plan.strings.renders(self.config().repository, update.next)
                    &&& step_views(plan.steps@) == repo_steps(
                        self.config().repository,
                        self.config(),
                        self.path(),
                        self.is_dry_run(),
                        plan.strings,
                        update,
                    )
                    &&& cascade_of(
                        plan.subprojects@,
                        self.config().subprojects@,
                        self.is_dry_run(),
                        update,
                    )
                },
                Err(e) => e@ == alarm() + "version number is too large to bump"@,
            },
    {
        let repo_config = &self.config.repository;
        let project_version = ProjectVersion::new(self, tags);
        let current_version = project_version.current_version();
        if !operation.can_update_from(&current_version) {
            return Err(SheepError::new("version number is too large to bump"));
        }
        let version_update = operation.version_update(&project_version);
        let strings = ProjectStrings::new(&self.config, &version_update);
        let steps = self.update_repo(repo_config, &strings, &version_update);
        let subprojects = self.update_subprojects(&version_update);
        Ok(UpdatePlan { version_update, strings, steps, subprojects })
    }

    /// What the update does to the project itself.
    fn update_repo(
        &self,
        repo_config: &RepoConfig,
        project_strings: &ProjectStrings,
        version_update: &VersionUpdate,
    ) -> (r: Vec<Step>)
        ensures
            step_views(r@) == repo_steps(
                *repo_config,
                self.config(),
                self.path(),
                self.is_dry_run(),
                *project_strings,
                version_update@,
            ),
    {
        let mut steps: Vec<Step> = Vec::new();
        assert(step_views(steps@) =~= Seq::empty());
        // Create branch if enabled in configuration
        Self::add_branch_steps(&mut steps, repo_config, project_strings);
        // Create commit if enabled in configuration and there is something to commit
        self.add_commit_steps(&mut steps, repo_config, project_strings, version_update);
        // Create tag if enabled in configuration
        Self::add_tag_steps(&mut steps, repo_config, project_strings);
        // Push if enabled in configuration
        self.add_push_steps(&mut steps, repo_config, project_strings);
        steps
    }

    fn add_branch_steps(
        steps: &mut Vec<Step>,
        repo_config: &RepoConfig,
        project_strings: &ProjectStrings,
    )
        ensures
            step_views(final(steps)@) == step_views(old(steps)@) + branch_steps(
                *repo_config,
                project_strings.branch_name@,
            ),
    {
        if repo_config.enable_branch {
            let branches = GitBranches::new();
            push_step(steps, Step::Repo(branches.create_branch(project_strings.branch_name.as_str())));
            push_step(
                steps,
                Step::Repo(branches.checkout_branch(project_strings.branch_name.as_str())),
            );
        }
        assert(step_views(steps@) =~= step_views(old(steps)@) + branch_steps(
            *repo_config,
            project_strings.branch_name@,
        ));
    }

    fn add_transform_steps(&self, steps: &mut Vec<Step>, version_update: &VersionUpdate)
        ensures
            step_views(final(steps)@) == step_views(old(steps)@) + transform_steps(
                self.config().transforms@,
                self.path(),
                version_update@,
            ),
    {
        let transforms = &self.config.transforms;
        let edits = self.transformer.transform(transforms, version_update);
        let ghost planned = transform_steps(transforms@, self.path(), version_update@);
        let mut i: usize = 0;
        assert(step_views(steps@) =~= step_views(old(steps)@) + planned.take(0));
        while i < edits.len()
            invariant
                i <= edits.len(),
                edit_views(edits@) == edits_of(transforms@, self.path(), version_update@),
                planned == transform_steps(transforms@, self.path(), version_update@),
                step_views(steps@) == step_views(old(steps)@) + planned.take(i as int),
            decreases edits.len() - i,
        {
            proof {
                assert(edit_views(edits@)[i as int] == edits@[i as int]@);
                assert(planned.take(i + 1) =~= planned.take(i as int).push(
                    StepView::Transform(edits@[i as int]@),
                ));
            }
            push_step(steps, Step::Transform(edits[i].clone()));
            assert(step_views(steps@) =~= step_views(old(steps)@) + planned.take(i + 1));
            i += 1;
        }
        assert(planned.take(i as int) =~= planned);
    }

    fn add_script_steps(&self, steps: &mut Vec<Step>, version_update: &VersionUpdate)
        ensures
            step_views(final(steps)@) == step_views(old(steps)@) + script_steps(
                self.config().scripts,
                self.path(),
                version_update@,
            ),
    {
        let script_runner = ScriptRunner::new(
            String::from_str(self.transformer.path()),
            version_update.clone(),
        );
        match script_runner.command(self.config.scripts.before_commit.clone()) {
            Some(command) => {
                push_step(steps, Step::Script { command, name: String::from_str("before_commit") });
            },
            None => {},
        }
        assert(step_views(steps@) =~= step_views(old(steps)@) + script_steps(
            self.config().scripts,
            self.path(),
            version_update@,
        ));
    }

    /// Whether the update makes a commit.
    fn makes_commit(&self, repo_config: &RepoConfig) -> (r: bool)
        ensures
            r == commit_occurs(*repo_config, self.config()),
    {
        repo_config.enable_commit && (self.config.transforms.len() > 0
            || self.config.scripts.before_commit.is_some())
    }

    fn add_commit_steps(
        &self,
        steps: &mut Vec<Step>,
        repo_config: &RepoConfig,
        project_strings: &ProjectStrings,
        version_update: &VersionUpdate,
    )
        ensures
            step_views(final(steps)@) == step_views(old(steps)@) + commit_steps(
                *repo_config,
                self.config(),
                self.path(),
                version_update@,
                project_strings.commit_message@,
            ),
    {
        if self.makes_commit(repo_config) {
            self.add_transform_steps(steps, version_update);
            self.add_script_steps(steps, version_update);
            let commits = GitCommits::with_default_branch(repo_config.default_branch.as_str());
            push_step(steps, Step::Repo(commits.commit(project_strings.commit_message.as_str())));
        }
        assert(step_views(steps@) =~= step_views(old(steps)@) + commit_steps(
            *repo_config,
            self.config(),
            self.path(),
            version_update@,
            project_strings.commit_message@,
        ));
    }

    fn add_tag_steps(
        steps: &mut Vec<Step>,
        repo_config: &RepoConfig,
        project_strings: &ProjectStrings,
    )
        ensures
            step_views(final(steps)@) == step_views(old(steps)@) + tag_steps(
                *repo_config,
                project_strings.tag_name@,
            ),
    {
        if repo_config.enable_tag {
            let tags = GitTags::new();
            push_step(steps, Step::Repo(tags.create_tag(project_strings.tag_name.as_str(), None)));
        }
        assert(step_views(steps@) =~= step_views(old(steps)@) + tag_steps(
            *repo_config,
            project_strings.tag_name@,
        ));
    }

    fn add_push_steps(
        &self,
        steps: &mut Vec<Step>,
        repo_config: &RepoConfig,
        project_strings: &ProjectStrings,
    )
        ensures
            step_views(final(steps)@) == step_views(old(steps)@) + push_steps(
                *repo_config,
                self.config(),
                self.is_dry_run(),
                *project_strings,
            ),
    {
        if repo_config.enable_push && !self.is_dry_run_project {
            let remotes = GitRemotes::new();
            if repo_config.enable_branch {
                push_step(
                    steps,
                    Step::Repo(
                        remotes.push_branch(
                            project_strings.branch_name.as_str(),
                            project_strings.remote_name.as_str(),
                        ),
                    ),
                );
            } else if self.makes_commit(repo_config) {
                push_step(
                    steps,
                    Step::Repo(
                        remotes.push_branch(
                            repo_config.default_branch.as_str(),
                            project_strings.remote_name.as_str(),
                        ),
                    ),
                );
            }
            assert(step_views(steps@) =~= step_views(old(steps)@) + branch_push_steps(
                *repo_config,
                self.config(),
                project_strings.branch_name@,
                project_strings.remote_name@,
            ));
            if repo_config.enable_tag {
                push_step(
                    steps,
                    Step::Repo(
                        remotes.push_tag(
                            project_strings.tag_name.as_str(),
                            project_strings.remote_name.as_str(),
                        ),
                    ),
                );
            }
        }
        assert(step_views(steps@) =~= step_views(old(steps)@) + push_steps(
            *repo_config,
            self.config(),
            self.is_dry_run(),
            *project_strings,
        ));
    }

    /// The update of each subproject: to the same versions, from the same
    /// current version, as a rehearsal where this project is one.
    fn update_subprojects(&self, version_update: &VersionUpdate) -> (r: Vec<SubprojectUpdate>)
        ensures
            cascade_of(r@, self.config().subprojects@, self.is_dry_run(), version_update@),
    {
        let configs = &self.config.subprojects;
        let is_dry_run = self.is_dry_run_project;
        let mut updates: Vec<SubprojectUpdate> = Vec::new();
        let mut i: usize = 0;
        while i < configs.len()
            invariant
                i <= configs.len(),
                updates@.len() == i,
                configs == &self.config.subprojects,
                forall|k: int|
                    0 <= k < i ==> (#[trigger] updates@[k]).cascades(
                        configs@[k],
                        is_dry_run,
                        version_update@,
                    ),
            decreases configs.len() - i,
        {
            let operation = Operation::SetVersion {
                current_version: Some(version_update.current_version.clone()),
                next_version: version_update.next_version.clone(),
            };
            updates.push(
                SubprojectUpdate {
                    repo_url: configs[i].repo_url.clone(),
                    is_dry_run_project: is_dry_run,
                    operation,
                },
            );
            i += 1;
        }
        updates
    }
}

} // verus!
